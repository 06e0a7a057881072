use ncm_api::error::NcmError;
use ncm_api::request::{
    build_version_of, eapi_header_fields_of, eapi_params_json, eapi_path_of, eapi_request,
    eapi_string_params_json, new_request_id, request_id_of, weapi_form_fields, weapi_params_json,
    weapi_path_of, weapi_request,
};

fn pairs(v: &[(&str, &str)]) -> Vec<(String, String)> {
    v.iter().map(|(a, b)| (a.to_string(), b.to_string())).collect()
}

#[test]
fn weapi_paths() {
    assert_eq!(weapi_path_of("/api/song/like/get"), "/weapi/song/like/get");
    assert_eq!(weapi_path_of("/weapi/v6/playlist/detail"), "/weapi/v6/playlist/detail");
    assert_eq!(weapi_path_of("/api"), "/api");
}

#[test]
fn weapi_urls_and_headers() {
    let r = weapi_request("/api/song/like/get", "tok", "UA", "a=b");
    assert_eq!(r.url, "https://music.163.com/weapi/song/like/get?csrf_token=tok");
    let r2 = weapi_request("/weapi/x?y=1", "tok", "UA", "a=b");
    assert_eq!(r2.url, "https://music.163.com/weapi/x?y=1&csrf_token=tok");
    assert_eq!(
        r.headers,
        pairs(&[
            ("User-Agent", "UA"),
            ("Accept", "*/*"),
            ("Accept-Language", "en-US,en;q=0.5"),
            ("Connection", "keep-alive"),
            ("Content-Type", "application/x-www-form-urlencoded"),
            ("Host", "music.163.com"),
            ("Referer", "https://music.163.com"),
            ("Cookie", "a=b"),
        ])
    );
}

#[test]
fn eapi_paths_replace_first_api_only() {
    assert_eq!(eapi_path_of("/api/song/enhance/player/url"), "/eapi/song/enhance/player/url");
    assert_eq!(eapi_path_of("/api/x/api/y"), "/eapi/x/api/y");
    assert_eq!(eapi_path_of("/x/api/y"), "/x/eapi/y");
    assert_eq!(eapi_path_of("/nothing"), "/nothing");
}

#[test]
fn eapi_requests() {
    let m = eapi_request("/api/cloud/upload", true, "UA", "c=d");
    assert_eq!(m.url, "https://music.163.com/eapi/cloud/upload");
    assert_eq!(
        m.headers,
        pairs(&[
            ("Content-Type", "application/x-www-form-urlencoded"),
            ("Cookie", "c=d"),
            ("User-Agent", "NeteaseMusic 9.0.90/5038 (iPhone; iOS 16.2; zh_CN)"),
        ])
    );
    let d = eapi_request("/api/song/url", false, "UA", "c=d");
    assert_eq!(
        d.headers,
        pairs(&[
            ("Content-Type", "application/x-www-form-urlencoded"),
            ("Cookie", "c=d"),
            ("User-Agent", "UA"),
            ("Accept", "*/*"),
            ("Accept-Language", "en-US,en;q=0.5"),
            ("Host", "interface.music.163.com"),
            ("Referer", "https://music.163.com"),
        ])
    );
}

#[test]
fn build_version_and_request_id() {
    assert_eq!(build_version_of(1700000000123), "1700000000");
    assert_eq!(build_version_of(42), "42");
    assert_eq!(request_id_of(1700000000123, 7), "1700000000123_0007");
    assert_eq!(request_id_of(5, 1999), "5_0999");
    assert_eq!(request_id_of(5, 65535), "5_0535");
    let id = new_request_id(1700000000123);
    assert!(id.starts_with("1700000000123_"));
    assert_eq!(id.len(), "1700000000123_".len() + 4);
}

#[test]
fn eapi_header_object_fields() {
    let f = eapi_header_fields_of("dev", "1700000000", "tok", "1_0001");
    assert_eq!(
        f,
        pairs(&[
            ("osver", "16.2"),
            ("deviceId", "dev"),
            ("os", "iPhone OS"),
            ("appver", "9.0.90"),
            ("versioncode", "140"),
            ("mobilename", ""),
            ("buildver", "1700000000"),
            ("resolution", "1920x1080"),
            ("__csrf", "tok"),
            ("channel", ""),
            ("requestId", "1_0001"),
        ])
    );
}

#[test]
fn weapi_form_sets_csrf_and_dedups() {
    let f = weapi_form_fields(&pairs(&[("a", "1"), ("csrf_token", "old"), ("a", "2")]), "new");
    assert_eq!(f, pairs(&[("a", "2"), ("csrf_token", "new")]));
    let g = weapi_form_fields(&Vec::new(), "t");
    assert_eq!(g, pairs(&[("csrf_token", "t")]));
}

#[test]
fn weapi_params_json_text() {
    let text = weapi_params_json(&pairs(&[("uid", "42"), ("a", "x")]), "tok").unwrap();
    let v: serde_json::Value = serde_json::from_str(&text).unwrap();
    assert_eq!(v.get("uid").and_then(|x| x.as_str()), Some("42"));
    assert_eq!(v.get("csrf_token").and_then(|x| x.as_str()), Some("tok"));
    assert_eq!(v.as_object().map(|m| m.len()), Some(3));
}

#[test]
fn eapi_body_requires_object() {
    let header = pairs(&[("os", "iPhone OS")]);
    let not_obj: serde_json::Value = serde_json::from_str("[1,2]").unwrap();
    match eapi_params_json(not_obj, "tok", &header) {
        Err(NcmError::Session(m)) => assert_eq!(m, "eapi request expects an object body"),
        other => panic!("unexpected {:?}", other),
    }
    let obj: serde_json::Value = serde_json::from_str("{\"ids\":[1,2],\"br\":999000}").unwrap();
    let text = eapi_params_json(obj, "tok", &header).unwrap();
    let v: serde_json::Value = serde_json::from_str(&text).unwrap();
    assert_eq!(v["br"].as_i64(), Some(999000));
    assert_eq!(v["csrf_token"].as_str(), Some("tok"));
    assert_eq!(v["header"]["os"].as_str(), Some("iPhone OS"));
    let s = eapi_string_params_json(&pairs(&[("id", "1")]), "tok", &header);
    let w: serde_json::Value = serde_json::from_str(&s).unwrap();
    assert_eq!(w["id"].as_str(), Some("1"));
    assert_eq!(w["header"]["os"].as_str(), Some("iPhone OS"));
}

#[test]
fn string_eapi_body_matches_object_body() {
    let header = pairs(&[("os", "iPhone OS"), ("__csrf", "tok")]);
    let params = pairs(&[("id", "1"), ("br", "999000"), ("id", "2")]);
    let s = eapi_string_params_json(&params, "tok", &header);
    let obj: serde_json::Value = serde_json::from_str("{\"id\":\"2\",\"br\":\"999000\"}").unwrap();
    let t = eapi_params_json(obj, "tok", &header).unwrap();
    assert_eq!(s, t);
}

#[test]
fn weapi_params_json_exact_text() {
    let text = weapi_params_json(&pairs(&[("uid", "42"), ("csrf_token", "x")]), "tok").unwrap();
    assert_eq!(text, "{\"csrf_token\":\"tok\",\"uid\":\"42\"}");
}
