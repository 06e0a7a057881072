//! Playlist endpoints: the weapi calls they make, paging through large
//! playlists, and slicing track-id lists.

use vstd::prelude::*;
use vstd::string::*;
use crate::error::NcmError;
use crate::request::{pairs_view, push_pair};
use crate::text::{decimal, decimal_string};

verus! {

/// A weapi call: the API path and its parameters, in order.
pub struct WeapiCall {
    pub path: String,
    pub params: Vec<(String, String)>,
}

/// Songs fetched per playlist-detail request.
pub const PAGE_SIZE: u32 = 1000;

/// The largest offset a playlist-detail request is made with.
pub const MAX_OFFSET: u32 = 200_000;

/// The path of playlist-detail requests.
pub open spec fn playlist_detail_path() -> Seq<char> {
    "/weapi/v6/playlist/detail"@
}

/// Parameters of the playlist-detail request for playlist `id` at `offset`:
/// the total is asked for on the first page only.
pub open spec fn playlist_detail_params(id: nat, offset: nat) -> Seq<(Seq<char>, Seq<char>)> {
    seq![
        ("id"@, decimal(id)),
        ("offset"@, decimal(offset)),
        ("total"@, if offset == 0 { "true"@ } else { "false"@ }),
        ("limit"@, "1000"@),
        ("n"@, "1000"@),
    ]
}

/// The playlist-detail request for playlist `id` at `offset`.
pub fn playlist_detail_call(id: u64, offset: u32) -> (c: WeapiCall)
    ensures
        c.path@ == playlist_detail_path(),
        pairs_view(c.params@) == playlist_detail_params(id as nat, offset as nat),
{
    let id_str = decimal_string(id as u128);
    let offset_str = decimal_string(offset as u128);
    let mut params: Vec<(String, String)> = Vec::new();
    push_pair(&mut params, "id", id_str.as_str());
    push_pair(&mut params, "offset", offset_str.as_str());
    push_pair(&mut params, "total", if offset == 0 { "true" } else { "false" });
    push_pair(&mut params, "limit", "1000");
    push_pair(&mut params, "n", "1000");
    assert(pairs_view(params@) =~= playlist_detail_params(id as nat, offset as nat));
    WeapiCall { path: "/weapi/v6/playlist/detail".to_owned(), params }
}

/// The offset of the next playlist-detail request after a page of `count`
/// songs at `offset`: none once a page comes back short or the next offset
/// would pass the largest one.
pub open spec fn next_offset(offset: nat, count: nat) -> Option<nat> {
    if count < PAGE_SIZE {
        None
    } else if offset + PAGE_SIZE > MAX_OFFSET {
        None
    } else {
        Some((offset + PAGE_SIZE) as nat)
    }
}

/// The offset of the next playlist-detail request, if one is due.
pub fn next_page_offset(offset: u32, count: usize) -> (r: Option<u32>)
    ensures
        r matches Some(n) ==> next_offset(offset as nat, count as nat) == Some(n as nat),
        r is None ==> next_offset(offset as nat, count as nat) is None,
{
    if count < PAGE_SIZE as usize {
        None
    } else if offset > MAX_OFFSET - PAGE_SIZE {
        None
    } else {
        Some(offset + PAGE_SIZE)
    }
}

/// Collects a playlist page by page: the metadata of the first page and the
/// songs of all pages, in order.
pub struct PlaylistPager<M, S> {
    offset: u32,
    done: bool,
    pages: Ghost<nat>,
    meta: Option<M>,
    songs: Vec<S>,
}

/// What a pager holds.
pub struct PagerState<M, S> {
    pub offset: nat,
    pub done: bool,
    pub pages: nat,
    pub meta: Option<M>,
    pub songs: Seq<S>,
}

impl<M, S> View for PlaylistPager<M, S> {
    type V = PagerState<M, S>;

    closed spec fn view(&self) -> PagerState<M, S> {
        PagerState {
            offset: self.offset as nat,
            done: self.done,
            pages: self.pages@,
            meta: self.meta,
            songs: self.songs@,
        }
    }
}

impl<M, S> PlaylistPager<M, S> {
    /// Offsets are multiples of the page size up to the largest offset, and
    /// the page count matches the offset reached.
    pub closed spec fn wf(self) -> bool {
        &&& self.offset % PAGE_SIZE == 0
        &&& self.offset <= MAX_OFFSET
        &&& if self.done {
            self.pages@ * PAGE_SIZE == self.offset + PAGE_SIZE
        } else {
            self.pages@ * PAGE_SIZE == self.offset
        }
    }

    /// The pages and offsets a pager can be in: offsets are multiples of the
    /// page size up to the largest offset, and at most 201 pages are fetched.
    pub proof fn lemma_bounds(&self)
        requires
            self.wf(),
        ensures
            self@.offset % (PAGE_SIZE as nat) == 0,
            self@.offset <= MAX_OFFSET,
            self@.pages <= (MAX_OFFSET / PAGE_SIZE + 1) as nat,
            self@.done ==> self@.pages * PAGE_SIZE == self@.offset + PAGE_SIZE,
            !self@.done ==> self@.pages * PAGE_SIZE == self@.offset,
    {
    }

    /// A pager that has fetched nothing yet.
    pub fn new() -> (p: Self)
        ensures
            p.wf(),
            p@.offset == 0,
            !p@.done,
            p@.pages == 0,
            p@.meta is None,
            p@.songs == Seq::<S>::empty(),
    {
        PlaylistPager { offset: 0, done: false, pages: Ghost(0), meta: None, songs: Vec::new() }
    }

    /// The next request to make for playlist `id`, or none when all pages are in.
    pub fn next_call(&self, id: u64) -> (c: Option<WeapiCall>)
        requires
            self.wf(),
        ensures
            self@.done <==> c is None,
            c matches Some(call) ==> {
                &&& call.path@ == playlist_detail_path()
                &&& pairs_view(call.params@) == playlist_detail_params(id as nat, self@.offset)
            },
    {
        if self.done {
            None
        } else {
            Some(playlist_detail_call(id, self.offset))
        }
    }

    /// Takes in the page fetched by the last call: the first page's metadata
    /// is kept, its songs are appended, and the next offset is decided.
    pub fn add_page(&mut self, meta: M, songs: Vec<S>)
        requires
            old(self).wf(),
            !old(self)@.done,
        ensures
            final(self).wf(),
            final(self)@.meta == (match old(self)@.meta {
                Some(m) => Some(m),
                None => Some(meta),
            }),
            final(self)@.songs == old(self)@.songs + songs@,
            final(self)@.pages == old(self)@.pages + 1,
            match next_offset(old(self)@.offset, songs@.len()) {
                Some(n) => final(self)@.offset == n && !final(self)@.done,
                None => final(self)@.offset == old(self)@.offset && final(self)@.done,
            },
    {
        let count = songs.len();
        let mut songs = songs;
        if self.meta.is_none() {
            self.meta = Some(meta);
        }
        self.songs.append(&mut songs);
        let next = next_page_offset(self.offset, count);
        let ghost pages = self.pages@ + 1;
        match next {
            Some(n) => {
                proof {
                    assert(pages * PAGE_SIZE == n) by (nonlinear_arith)
                        requires
                            pages == self.pages@ + 1,
                            self.pages@ * PAGE_SIZE == self.offset,
                            n == self.offset + PAGE_SIZE,
                    ;
                }
                self.offset = n;
                self.pages = Ghost(pages);
            },
            None => {
                proof {
                    assert(pages * PAGE_SIZE == self.offset + PAGE_SIZE) by (nonlinear_arith)
                        requires
                            pages == self.pages@ + 1,
                            self.pages@ * PAGE_SIZE == self.offset,
                    ;
                }
                self.done = true;
                self.pages = Ghost(pages);
            },
        }
    }

    /// The playlist: the first page's metadata with the songs of all pages.
    /// Fails when no page came in.
    pub fn finish(self) -> (r: Result<(M, Vec<S>), NcmError>)
        ensures
            self@.meta is None <==> r is Err,
            r matches Ok((m, s)) ==> Some(m) == self@.meta && s@ == self@.songs,
            r matches Err(e) ==> e is Session,
    {
        match self.meta {
            Some(m) => Ok((m, self.songs)),
            None => Err(NcmError::Session("歌单详情为空".to_owned())),
        }
    }
}

/// The first index of a page of `limit` ids starting at `offset` in a list of `len` ids.
pub open spec fn page_start(len: nat, offset: nat) -> nat {
    if offset < len { offset } else { len }
}

/// One past the last index of that page.
pub open spec fn page_end(len: nat, offset: nat, limit: nat) -> nat {
    if page_start(len, offset) + limit < len { page_start(len, offset) + limit } else { len }
}

/// The ids of one page of a track list, clamped to the list.
pub fn playlist_page_ids(track_ids: &[u64], offset: u32, limit: u32) -> (r: Vec<u64>)
    ensures
        r@ == track_ids@.subrange(
            page_start(track_ids@.len(), offset as nat) as int,
            page_end(track_ids@.len(), offset as nat, limit as nat) as int,
        ),
        ({
            let len = track_ids@.len() as int;
            let lo = if (offset as int) < len { offset as int } else { len };
            let hi = if lo + limit < len { lo + limit } else { len };
            &&& r@ == track_ids@.subrange(lo, hi)
            &&& r@.len() == hi - lo
            &&& ((offset as int) < len && limit > 0 ==> r@[0] == track_ids@[offset as int])
        }),
{
    let len = track_ids.len();
    let start: usize = if (offset as usize) < len { offset as usize } else { len };
    let end: usize = if (limit as usize) < len - start { start + limit as usize } else { len };
    let mut r: Vec<u64> = Vec::new();
    let mut i = start;
    while i < end
        invariant
            start <= i <= end,
            end <= len,
            len == track_ids@.len(),
            r@ == track_ids@.subrange(start as int, i as int),
        decreases end - i,
    {
        r.push(track_ids[i]);
        i = i + 1;
        assert(r@ =~= track_ids@.subrange(start as int, i as int));
    }
    r
}

/// The ids of one page of a track list, or none when the page is empty (no
/// songs need fetching then).
pub fn playlist_songs_ids(track_ids: &[u64], offset: u32, limit: u32) -> (r: Option<Vec<u64>>)
    ensures
        r is None <==> page_start(track_ids@.len(), offset as nat) >= page_end(
            track_ids@.len(),
            offset as nat,
            limit as nat,
        ),
        r matches Some(ids) ==> ids@ == track_ids@.subrange(
            page_start(track_ids@.len(), offset as nat) as int,
            page_end(track_ids@.len(), offset as nat, limit as nat) as int,
        ),
        ({
            let len = track_ids@.len() as int;
            let lo = if (offset as int) < len { offset as int } else { len };
            let hi = if lo + limit < len { lo + limit } else { len };
            &&& (r is None <==> hi <= lo)
            &&& (r matches Some(ids) ==> ids@ == track_ids@.subrange(lo, hi) && ids@[0]
                == track_ids@[offset as int])
        }),
{
    let ids = playlist_page_ids(track_ids, offset, limit);
    if ids.len() == 0 {
        None
    } else {
        Some(ids)
    }
}

/// The ids whose songs the liked-songs listing fetches: newest first, or
/// none when there are no liked songs (no request is made then).
pub fn liked_songs_ids(ids: &Vec<u64>) -> (r: Option<Vec<u64>>)
    ensures
        r is None <==> ids@.len() == 0,
        r matches Some(v) ==> v@ == ids@.reverse(),
{
    if ids.len() == 0 {
        None
    } else {
        Some(reversed_ids(ids))
    }
}

/// The ids in reverse order (liked songs are listed newest first).
pub fn reversed_ids(ids: &Vec<u64>) -> (r: Vec<u64>)
    ensures
        r@ == ids@.reverse(),
{
    let mut r: Vec<u64> = Vec::new();
    let mut i = ids.len();
    while i > 0
        invariant
            i <= ids@.len(),
            r@ == ids@.subrange(i as int, ids@.len() as int).reverse(),
        decreases i,
    {
        i = i - 1;
        r.push(ids[i]);
        assert(r@ =~= ids@.subrange(i as int, ids@.len() as int).reverse());
    }
    assert(ids@.subrange(0, ids@.len() as int) =~= ids@);
    r
}


/// The call for a user's liked song ids.
pub fn liked_song_ids_call(uid: u64) -> (c: WeapiCall)
    ensures
        c.path@ == "/api/song/like/get"@,
        pairs_view(c.params@) == seq![("uid"@, decimal(uid as nat))],
{
    let uid_str = decimal_string(uid as u128);
    let mut params: Vec<(String, String)> = Vec::new();
    push_pair(&mut params, "uid", uid_str.as_str());
    WeapiCall { path: "/api/song/like/get".to_owned(), params }
}

/// The call for a user's playlists.
pub fn user_song_list_call(uid: u64, offset: u16, limit: u16) -> (c: WeapiCall)
    ensures
        c.path@ == "/weapi/user/playlist"@,
        pairs_view(c.params@) == seq![
            ("uid"@, decimal(uid as nat)),
            ("offset"@, decimal(offset as nat)),
            ("limit"@, decimal(limit as nat)),
        ],
{
    let uid_str = decimal_string(uid as u128);
    let offset_str = decimal_string(offset as u128);
    let limit_str = decimal_string(limit as u128);
    let mut params: Vec<(String, String)> = Vec::new();
    push_pair(&mut params, "uid", uid_str.as_str());
    push_pair(&mut params, "offset", offset_str.as_str());
    push_pair(&mut params, "limit", limit_str.as_str());
    assert(pairs_view(params@) =~= seq![
        ("uid"@, decimal(uid as nat)),
        ("offset"@, decimal(offset as nat)),
        ("limit"@, decimal(limit as nat)),
    ]);
    WeapiCall { path: "/weapi/user/playlist".to_owned(), params }
}

/// Parameters shared by the created- and collected-playlist calls.
pub open spec fn user_playlist_params(uid: nat, offset: nat, limit: nat) -> Seq<
    (Seq<char>, Seq<char>),
> {
    seq![
        ("userId"@, decimal(uid)),
        ("offset"@, decimal(offset)),
        ("limit"@, decimal(limit)),
        ("isWebview"@, "true"@),
        ("includeRedHeart"@, "true"@),
        ("includeTop"@, "true"@),
    ]
}

fn user_playlist_call(path: &str, uid: u64, offset: u16, limit: u16) -> (c: WeapiCall)
    ensures
        c.path@ == path@,
        pairs_view(c.params@) == user_playlist_params(uid as nat, offset as nat, limit as nat),
{
    let uid_str = decimal_string(uid as u128);
    let offset_str = decimal_string(offset as u128);
    let limit_str = decimal_string(limit as u128);
    let mut params: Vec<(String, String)> = Vec::new();
    push_pair(&mut params, "userId", uid_str.as_str());
    push_pair(&mut params, "offset", offset_str.as_str());
    push_pair(&mut params, "limit", limit_str.as_str());
    push_pair(&mut params, "isWebview", "true");
    push_pair(&mut params, "includeRedHeart", "true");
    push_pair(&mut params, "includeTop", "true");
    assert(pairs_view(params@) =~= user_playlist_params(uid as nat, offset as nat, limit as nat));
    WeapiCall { path: path.to_owned(), params }
}

/// The call for the playlists a user created.
pub fn user_created_playlist_call(uid: u64, offset: u16, limit: u16) -> (c: WeapiCall)
    ensures
        c.path@ == "/api/user/playlist/create"@,
        pairs_view(c.params@) == user_playlist_params(uid as nat, offset as nat, limit as nat),
{
    user_playlist_call("/api/user/playlist/create", uid, offset, limit)
}

/// The call for the playlists a user collected.
pub fn user_collected_playlist_call(uid: u64, offset: u16, limit: u16) -> (c: WeapiCall)
    ensures
        c.path@ == "/api/user/playlist/collect"@,
        pairs_view(c.params@) == user_playlist_params(uid as nat, offset as nat, limit as nat),
{
    user_playlist_call("/api/user/playlist/collect", uid, offset, limit)
}

/// The call for the ids of the songs a user liked.
pub fn user_song_id_list_call(uid: u64) -> (c: WeapiCall)
    ensures
        c.path@ == "/weapi/song/like/get"@,
        pairs_view(c.params@) == seq![("uid"@, decimal(uid as nat))],
{
    let uid_str = decimal_string(uid as u128);
    let mut params: Vec<(String, String)> = Vec::new();
    push_pair(&mut params, "uid", uid_str.as_str());
    WeapiCall { path: "/weapi/song/like/get".to_owned(), params }
}

/// The call for the albums the user collected.
pub fn album_sublist_call(offset: u16, limit: u16) -> (c: WeapiCall)
    ensures
        c.path@ == "/weapi/album/sublist"@,
        pairs_view(c.params@) == seq![
            ("total"@, "true"@),
            ("offset"@, decimal(offset as nat)),
            ("limit"@, decimal(limit as nat)),
        ],
{
    let offset_str = decimal_string(offset as u128);
    let limit_str = decimal_string(limit as u128);
    let mut params: Vec<(String, String)> = Vec::new();
    push_pair(&mut params, "total", "true");
    push_pair(&mut params, "offset", offset_str.as_str());
    push_pair(&mut params, "limit", limit_str.as_str());
    assert(pairs_view(params@) =~= seq![
        ("total"@, "true"@),
        ("offset"@, decimal(offset as nat)),
        ("limit"@, decimal(limit as nat)),
    ]);
    WeapiCall { path: "/weapi/album/sublist".to_owned(), params }
}

/// The call that likes (subscribes to) or unlikes a playlist.
pub fn song_list_like_call(id: u64, like: bool) -> (c: WeapiCall)
    ensures
        c.path@ == (if like {
            "/weapi/playlist/subscribe"@
        } else {
            "/weapi/playlist/unsubscribe"@
        }),
        pairs_view(c.params@) == seq![("id"@, decimal(id as nat))],
{
    let path = if like {
        "/weapi/playlist/subscribe"
    } else {
        "/weapi/playlist/unsubscribe"
    };
    let id_str = decimal_string(id as u128);
    let mut params: Vec<(String, String)> = Vec::new();
    push_pair(&mut params, "id", id_str.as_str());
    WeapiCall { path: path.to_owned(), params }
}

/// The call for a playlist's play, like and comment counts.
pub fn songlist_detail_dynamic_call(id: u64) -> (c: WeapiCall)
    ensures
        c.path@ == "/weapi/playlist/detail/dynamic"@,
        pairs_view(c.params@) == seq![("id"@, decimal(id as nat))],
{
    let id_str = decimal_string(id as u128);
    let mut params: Vec<(String, String)> = Vec::new();
    push_pair(&mut params, "id", id_str.as_str());
    WeapiCall { path: "/weapi/playlist/detail/dynamic".to_owned(), params }
}

/// The call for the daily recommended playlists.
pub fn recommend_resource_call() -> (c: WeapiCall)
    ensures
        c.path@ == "/weapi/v1/discovery/recommend/resource"@,
        c.params@.len() == 0,
{
    WeapiCall { path: "/weapi/v1/discovery/recommend/resource".to_owned(), params: Vec::new() }
}

/// The call for the daily recommended songs.
pub fn recommend_songs_call() -> (c: WeapiCall)
    ensures
        c.path@ == "/api/v3/discovery/recommend/songs"@,
        pairs_view(c.params@) == seq![("afresh"@, "false"@)],
{
    let mut params: Vec<(String, String)> = Vec::new();
    push_pair(&mut params, "afresh", "false");
    WeapiCall { path: "/api/v3/discovery/recommend/songs".to_owned(), params }
}

/// The call for popular playlists of a category, in `order` (`hot` or `new`).
pub fn top_song_list_call(cat: &str, order: &str, offset: u16, limit: u16) -> (c: WeapiCall)
    ensures
        c.path@ == "/weapi/playlist/list"@,
        pairs_view(c.params@) == seq![
            ("cat"@, cat@),
            ("order"@, order@),
            ("total"@, "true"@),
            ("offset"@, decimal(offset as nat)),
            ("limit"@, decimal(limit as nat)),
        ],
{
    let offset_str = decimal_string(offset as u128);
    let limit_str = decimal_string(limit as u128);
    let mut params: Vec<(String, String)> = Vec::new();
    push_pair(&mut params, "cat", cat);
    push_pair(&mut params, "order", order);
    push_pair(&mut params, "total", "true");
    push_pair(&mut params, "offset", offset_str.as_str());
    push_pair(&mut params, "limit", limit_str.as_str());
    assert(pairs_view(params@) =~= seq![
        ("cat"@, cat@),
        ("order"@, order@),
        ("total"@, "true"@),
        ("offset"@, decimal(offset as nat)),
        ("limit"@, decimal(limit as nat)),
    ]);
    WeapiCall { path: "/weapi/playlist/list".to_owned(), params }
}

/// The call for high-quality playlists of a category, after the playlist
/// whose update time is `lasttime`.
pub fn top_song_list_highquality_call(cat: &str, lasttime: u64, limit: u16) -> (c: WeapiCall)
    ensures
        c.path@ == "/api/playlist/highquality/list"@,
        pairs_view(c.params@) == seq![
            ("cat"@, cat@),
            ("total"@, "true"@),
            ("lasttime"@, decimal(lasttime as nat)),
            ("limit"@, decimal(limit as nat)),
        ],
{
    let lasttime_str = decimal_string(lasttime as u128);
    let limit_str = decimal_string(limit as u128);
    let mut params: Vec<(String, String)> = Vec::new();
    push_pair(&mut params, "cat", cat);
    push_pair(&mut params, "total", "true");
    push_pair(&mut params, "lasttime", lasttime_str.as_str());
    push_pair(&mut params, "limit", limit_str.as_str());
    assert(pairs_view(params@) =~= seq![
        ("cat"@, cat@),
        ("total"@, "true"@),
        ("lasttime"@, decimal(lasttime as nat)),
        ("limit"@, decimal(limit as nat)),
    ]);
    WeapiCall { path: "/api/playlist/highquality/list".to_owned(), params }
}


/// Consecutive pages tile the track list: the page of `a` ids at `offset`
/// ends where the page at `offset + a` starts, and together with the page of
/// `b` ids there it covers exactly the page of `a + b` ids at `offset`.
pub proof fn law_pages_tile(len: nat, offset: nat, a: nat, b: nat)
    ensures
        page_end(len, offset, a) == page_start(len, offset + a),
        page_end(len, offset + a, b) == page_end(len, offset, a + b),
        page_start(len, offset) <= page_end(len, offset, a) <= len,
{
}

/// A pager only ever asks for offsets that are multiples of the page size
/// up to the largest offset, so it makes at most 201 requests.
pub proof fn law_pager_offsets_bounded(offset: nat, count: nat)
    requires
        offset % (PAGE_SIZE as nat) == 0,
        offset <= MAX_OFFSET,
    ensures
        next_offset(offset, count) matches Some(n) ==> n == offset + PAGE_SIZE && n % (
        PAGE_SIZE as nat) == 0 && n <= MAX_OFFSET,
        count < PAGE_SIZE ==> next_offset(offset, count) is None,
{
}


/// A page starts at the requested offset clamped to the list, and holds
/// `limit` ids or as many as remain: it begins with the id at `offset` when
/// that is in the list and `limit` is positive.
pub proof fn law_page_bounds(len: nat, offset: nat, limit: nat)
    ensures
        page_start(len, offset) == if offset < len { offset } else { len },
        page_end(len, offset, limit) == if (if offset < len { offset } else { len }) + limit < len {
            (if offset < len { offset } else { len }) + limit
        } else {
            len
        },
        offset < len && limit > 0 ==> page_start(len, offset) == offset && page_end(len, offset, limit)
            > offset,
        page_end(len, offset, limit) - page_start(len, offset) == if offset >= len {
            0
        } else if offset + limit <= len {
            limit as int
        } else {
            len - offset
        },
{
}

} // verus!
