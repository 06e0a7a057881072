use ncm_api::error::NcmError;
use ncm_api::playlist::{
    album_sublist_call, liked_song_ids_call, next_page_offset, playlist_detail_call,
    playlist_page_ids, playlist_songs_ids, liked_songs_ids, recommend_resource_call, recommend_songs_call, reversed_ids,
    song_list_like_call, songlist_detail_dynamic_call, top_song_list_call,
    top_song_list_highquality_call, user_collected_playlist_call, user_created_playlist_call,
    user_song_id_list_call, user_song_list_call, PlaylistPager,
};

fn pairs(v: &[(&str, &str)]) -> Vec<(String, String)> {
    v.iter().map(|(a, b)| (a.to_string(), b.to_string())).collect()
}

#[test]
fn detail_call_first_and_later_pages() {
    let c = playlist_detail_call(123, 0);
    assert_eq!(c.path, "/weapi/v6/playlist/detail");
    assert_eq!(
        c.params,
        pairs(&[("id", "123"), ("offset", "0"), ("total", "true"), ("limit", "1000"), ("n", "1000")])
    );
    let d = playlist_detail_call(123, 2000);
    assert_eq!(
        d.params,
        pairs(&[("id", "123"), ("offset", "2000"), ("total", "false"), ("limit", "1000"), ("n", "1000")])
    );
}

#[test]
fn next_offsets() {
    assert_eq!(next_page_offset(0, 1000), Some(1000));
    assert_eq!(next_page_offset(0, 999), None);
    assert_eq!(next_page_offset(199_000, 1000), Some(200_000));
    assert_eq!(next_page_offset(200_000, 1000), None);
    assert_eq!(next_page_offset(u32::MAX, 1000), None);
}

#[test]
fn pager_collects_pages() {
    let mut p: PlaylistPager<&str, u32> = PlaylistPager::new();
    let mut offsets = Vec::new();
    let sizes = [1000usize, 1000, 5];
    let mut k = 0;
    while let Some(call) = p.next_call(9) {
        offsets.push(call.params[1].1.clone());
        let songs: Vec<u32> = (0..sizes[k] as u32).collect();
        p.add_page(if k == 0 { "first" } else { "later" }, songs);
        k += 1;
    }
    assert_eq!(offsets, vec!["0", "1000", "2000"]);
    let (meta, songs) = p.finish().unwrap();
    assert_eq!(meta, "first");
    assert_eq!(songs.len(), 2005);
}

#[test]
fn pager_stops_at_max_offset() {
    let mut p: PlaylistPager<u8, u8> = PlaylistPager::new();
    let mut n = 0;
    while p.next_call(1).is_some() {
        p.add_page(0, vec![0u8; 1000]);
        n += 1;
    }
    assert_eq!(n, 201);
}

#[test]
fn pager_without_pages_fails() {
    let p: PlaylistPager<u8, u8> = PlaylistPager::new();
    match p.finish() {
        Err(NcmError::Session(m)) => assert_eq!(m, "歌单详情为空"),
        other => panic!("unexpected {:?}", other),
    }
}

#[test]
fn page_ids_are_clamped() {
    let ids = vec![1u64, 2, 3, 4, 5];
    assert_eq!(playlist_page_ids(&ids, 1, 2), vec![2, 3]);
    assert_eq!(playlist_page_ids(&ids, 4, 10), vec![5]);
    assert_eq!(playlist_page_ids(&ids, 9, 10), Vec::<u64>::new());
    assert_eq!(playlist_page_ids(&ids, 0, 0), Vec::<u64>::new());
    assert_eq!(playlist_page_ids(&ids, 0, u32::MAX), ids);
}

#[test]
fn liked_ids_reversed() {
    assert_eq!(reversed_ids(&vec![1, 2, 3]), vec![3, 2, 1]);
    assert_eq!(reversed_ids(&vec![]), Vec::<u64>::new());
}

#[test]
fn endpoint_calls() {
    let c = liked_song_ids_call(7);
    assert_eq!((c.path.as_str(), c.params), ("/api/song/like/get", pairs(&[("uid", "7")])));
    let c = user_song_list_call(7, 0, 30);
    assert_eq!(c.path, "/weapi/user/playlist");
    assert_eq!(c.params, pairs(&[("uid", "7"), ("offset", "0"), ("limit", "30")]));
    let c = user_created_playlist_call(7, 5, 30);
    assert_eq!(c.path, "/api/user/playlist/create");
    assert_eq!(
        c.params,
        pairs(&[
            ("userId", "7"),
            ("offset", "5"),
            ("limit", "30"),
            ("isWebview", "true"),
            ("includeRedHeart", "true"),
            ("includeTop", "true"),
        ])
    );
    assert_eq!(user_collected_playlist_call(7, 5, 30).path, "/api/user/playlist/collect");
    assert_eq!(user_song_id_list_call(7).path, "/weapi/song/like/get");
    let c = album_sublist_call(0, 25);
    assert_eq!(c.path, "/weapi/album/sublist");
    assert_eq!(c.params, pairs(&[("total", "true"), ("offset", "0"), ("limit", "25")]));
    assert_eq!(song_list_like_call(3, true).path, "/weapi/playlist/subscribe");
    assert_eq!(song_list_like_call(3, false).path, "/weapi/playlist/unsubscribe");
    assert_eq!(song_list_like_call(3, false).params, pairs(&[("id", "3")]));
    assert_eq!(songlist_detail_dynamic_call(3).path, "/weapi/playlist/detail/dynamic");
    let c = recommend_resource_call();
    assert_eq!(c.path, "/weapi/v1/discovery/recommend/resource");
    assert!(c.params.is_empty());
    assert_eq!(recommend_songs_call().params, pairs(&[("afresh", "false")]));
    let c = top_song_list_call("全部", "hot", 0, 50);
    assert_eq!(c.path, "/weapi/playlist/list");
    assert_eq!(
        c.params,
        pairs(&[("cat", "全部"), ("order", "hot"), ("total", "true"), ("offset", "0"), ("limit", "50")])
    );
    let c = top_song_list_highquality_call("华语", 1700000000000, 20);
    assert_eq!(c.path, "/api/playlist/highquality/list");
    assert_eq!(
        c.params,
        pairs(&[("cat", "华语"), ("total", "true"), ("lasttime", "1700000000000"), ("limit", "20")])
    );
}

#[test]
fn songs_page_none_when_empty() {
    let ids = vec![1u64, 2, 3];
    assert_eq!(playlist_songs_ids(&ids, 3, 5), None);
    assert_eq!(playlist_songs_ids(&ids, 0, 0), None);
    assert_eq!(playlist_songs_ids(&ids, 1, 5), Some(vec![2, 3]));
}

#[test]
fn liked_songs_ids_plan() {
    assert_eq!(liked_songs_ids(&vec![]), None);
    assert_eq!(liked_songs_ids(&vec![1, 2]), Some(vec![2, 1]));
}
