//! Planning of the HTTP requests the client sends: URLs, headers, form fields
//! and the identifiers carried in eapi request headers.

use vstd::prelude::*;
use vstd::string::*;
use crate::error::NcmError;
use crate::text::{
    contains_char, decimal, decimal_string, find, first_chars, first_chars_of,
    first_occurrence, occurs_at, starts_with, zero_padded, zero_padded_decimal,
};

verus! {

/// A list of name/value pairs as plain character sequences.
pub open spec fn pairs_view(v: Seq<(String, String)>) -> Seq<(Seq<char>, Seq<char>)> {
    v.map_values(|p: (String, String)| (p.0@, p.1@))
}

/// Appends the pair `(name, value)`.
pub fn push_pair(v: &mut Vec<(String, String)>, name: &str, value: &str)
    ensures
        pairs_view(final(v)@) == pairs_view(old(v)@).push((name@, value@)),
{
    v.push((name.to_owned(), value.to_owned()));
    assert(pairs_view(v@) =~= pairs_view(old(v)@).push((name@, value@)));
}

/// Host of both the weapi and the eapi endpoints.
pub open spec fn base_url() -> Seq<char> {
    "https://music.163.com"@
}

/// The weapi form of an API path: `/api/x` becomes `/weapi/x`; other paths stay.
pub open spec fn weapi_path(path: Seq<char>) -> Seq<char> {
    if "/api/"@.is_prefix_of(path) {
        "/weapi/"@ + path.skip("/api/"@.len() as int)
    } else {
        path
    }
}

/// The URL of a weapi request: the csrf token is appended as a query parameter.
pub open spec fn weapi_url(path: Seq<char>, csrf: Seq<char>) -> Seq<char> {
    let p = weapi_path(path);
    base_url() + p + (if p.contains('?') {
        "&csrf_token="@
    } else {
        "?csrf_token="@
    }) + csrf
}

/// The eapi form of an API path: the first `/api` becomes `/eapi`.
pub open spec fn eapi_path(path: Seq<char>) -> Seq<char> {
    if exists|i: int| occurs_at(path, "/api"@, i) {
        let i = choose|i: int| first_occurrence(path, "/api"@, i);
        path.take(i) + "/eapi"@ + path.skip(i + "/api"@.len())
    } else {
        path
    }
}

/// The URL of an eapi request.
pub open spec fn eapi_url(path: Seq<char>) -> Seq<char> {
    base_url() + eapi_path(path)
}

/// The headers of a weapi request.
pub open spec fn weapi_headers(ua: Seq<char>, cookie_header: Seq<char>) -> Seq<(Seq<char>, Seq<char>)> {
    seq![
        ("User-Agent"@, ua),
        ("Accept"@, "*/*"@),
        ("Accept-Language"@, "en-US,en;q=0.5"@),
        ("Connection"@, "keep-alive"@),
        ("Content-Type"@, "application/x-www-form-urlencoded"@),
        ("Host"@, "music.163.com"@),
        ("Referer"@, "https://music.163.com"@),
        ("Cookie"@, cookie_header),
    ]
}

/// The user agent of the iOS client identity used by some eapi requests.
pub open spec fn ios_user_agent() -> Seq<char> {
    "NeteaseMusic 9.0.90/5038 (iPhone; iOS 16.2; zh_CN)"@
}

/// The headers of an eapi request: with the iOS identity, or with the
/// configured user agent and `interface.music.163.com` as host.
pub open spec fn eapi_headers(mobile_ua: bool, ua: Seq<char>, cookie_header: Seq<char>) -> Seq<
    (Seq<char>, Seq<char>),
> {
    let common = seq![
        ("Content-Type"@, "application/x-www-form-urlencoded"@),
        ("Cookie"@, cookie_header),
    ];
    if mobile_ua {
        common.push(("User-Agent"@, ios_user_agent()))
    } else {
        common + seq![
            ("User-Agent"@, ua),
            ("Accept"@, "*/*"@),
            ("Accept-Language"@, "en-US,en;q=0.5"@),
            ("Host"@, "interface.music.163.com"@),
            ("Referer"@, "https://music.163.com"@),
        ]
    }
}

/// An HTTP POST to send: where, and with which headers.
pub struct HttpRequest {
    pub url: String,
    pub headers: Vec<(String, String)>,
}

/// The weapi form of `path`.
pub fn weapi_path_of(path: &str) -> (r: String)
    ensures
        r@ == weapi_path(path@),
{
    proof {
        reveal_strlit("/api/");
    }
    if starts_with(path, "/api/") {
        let len = path.unicode_len();
        let rest = path.substring_char(5, len);
        assert(rest@ =~= path@.skip(5));
        "/weapi/".to_owned().concat(rest)
    } else {
        path.to_owned()
    }
}

/// The eapi form of `path`.
pub fn eapi_path_of(path: &str) -> (r: String)
    ensures
        r@ == eapi_path(path@),
{
    proof {
        reveal_strlit("/api");
    }
    match find(path, "/api") {
        Some(i) => {
            let len = path.unicode_len();
            let head = path.substring_char(0, i);
            let tail = path.substring_char(i + 4, len);
            proof {
                let j = choose|j: int| first_occurrence(path@, "/api"@, j);
                assert(first_occurrence(path@, "/api"@, j));
                if j < i {
                    assert(!occurs_at(path@, "/api"@, j));
                } else if i < j {
                    assert(!occurs_at(path@, "/api"@, i as int));
                }
                assert(head@ =~= path@.take(i as int));
                assert(tail@ =~= path@.skip(i + 4));
            }
            head.to_owned().concat("/eapi").concat(tail)
        },
        None => path.to_owned(),
    }
}

/// Plans a weapi request to `path` for a session with token `csrf`.
pub fn weapi_request(path: &str, csrf: &str, ua: &str, cookie_header: &str) -> (r: HttpRequest)
    ensures
        r.url@ == weapi_url(path@, csrf@),
        pairs_view(r.headers@) == weapi_headers(ua@, cookie_header@),
{
    let p = weapi_path_of(path);
    let sep = if contains_char(p.as_str(), '?') {
        "&csrf_token="
    } else {
        "?csrf_token="
    };
    let url = "https://music.163.com".to_owned().concat(p.as_str()).concat(sep).concat(csrf);
    let mut headers: Vec<(String, String)> = Vec::new();
    push_pair(&mut headers, "User-Agent", ua);
    push_pair(&mut headers, "Accept", "*/*");
    push_pair(&mut headers, "Accept-Language", "en-US,en;q=0.5");
    push_pair(&mut headers, "Connection", "keep-alive");
    push_pair(&mut headers, "Content-Type", "application/x-www-form-urlencoded");
    push_pair(&mut headers, "Host", "music.163.com");
    push_pair(&mut headers, "Referer", "https://music.163.com");
    push_pair(&mut headers, "Cookie", cookie_header);
    assert(pairs_view(headers@) =~= weapi_headers(ua@, cookie_header@));
    HttpRequest { url, headers }
}

/// Plans an eapi request to `path`.
pub fn eapi_request(path: &str, mobile_ua: bool, ua: &str, cookie_header: &str) -> (r: HttpRequest)
    ensures
        r.url@ == eapi_url(path@),
        pairs_view(r.headers@) == eapi_headers(mobile_ua, ua@, cookie_header@),
{
    let p = eapi_path_of(path);
    let url = "https://music.163.com".to_owned().concat(p.as_str());
    let mut headers: Vec<(String, String)> = Vec::new();
    push_pair(&mut headers, "Content-Type", "application/x-www-form-urlencoded");
    push_pair(&mut headers, "Cookie", cookie_header);
    if mobile_ua {
        push_pair(&mut headers, "User-Agent", "NeteaseMusic 9.0.90/5038 (iPhone; iOS 16.2; zh_CN)");
    } else {
        push_pair(&mut headers, "User-Agent", ua);
        push_pair(&mut headers, "Accept", "*/*");
        push_pair(&mut headers, "Accept-Language", "en-US,en;q=0.5");
        push_pair(&mut headers, "Host", "interface.music.163.com");
        push_pair(&mut headers, "Referer", "https://music.163.com");
    }
    assert(pairs_view(headers@) =~= eapi_headers(mobile_ua, ua@, cookie_header@));
    HttpRequest { url, headers }
}

/// The build version sent in eapi headers: the first 10 digits of the time in milliseconds.
pub open spec fn build_version(now_ms: nat) -> Seq<char> {
    first_chars(decimal(now_ms), 10)
}

/// The request id sent in eapi headers: the time in milliseconds, `_`, and
/// the random draw modulo 1000 written with 4 digits.
pub open spec fn request_id(now_ms: nat, draw: nat) -> Seq<char> {
    decimal(now_ms) + "_"@ + zero_padded(decimal(draw % 1000), 4)
}

/// The build version for the time `now_ms`.
pub fn build_version_of(now_ms: u128) -> (r: String)
    ensures
        r@ == build_version(now_ms as nat),
{
    let digits = decimal_string(now_ms);
    first_chars_of(digits.as_str(), 10)
}

/// The request id for the time `now_ms` and the random draw `draw`.
pub fn request_id_of(now_ms: u128, draw: u16) -> (r: String)
    ensures
        r@ == request_id(now_ms as nat, draw as nat),
{
    let digits = decimal_string(now_ms);
    let pad = zero_padded_decimal((draw % 1000) as u128, 4);
    digits.concat("_").concat(pad.as_str())
}

/// A fresh request id for the time `now_ms`, with a random draw.
pub fn new_request_id(now_ms: u128) -> (r: String)
    ensures
        exists|draw: u16| r@ == request_id(now_ms as nat, draw as nat),
{
    let draw = crate::outside::random_u16();
    request_id_of(now_ms, draw)
}

/// The fields of the `header` object of an eapi request body.
pub open spec fn eapi_header_fields(
    device_id: Seq<char>,
    buildver: Seq<char>,
    csrf: Seq<char>,
    request_id: Seq<char>,
) -> Seq<(Seq<char>, Seq<char>)> {
    seq![
        ("osver"@, "16.2"@),
        ("deviceId"@, device_id),
        ("os"@, "iPhone OS"@),
        ("appver"@, "9.0.90"@),
        ("versioncode"@, "140"@),
        ("mobilename"@, ""@),
        ("buildver"@, buildver),
        ("resolution"@, "1920x1080"@),
        ("__csrf"@, csrf),
        ("channel"@, ""@),
        ("requestId"@, request_id),
    ]
}

/// The `header` object fields of an eapi request body.
pub fn eapi_header_fields_of(device_id: &str, buildver: &str, csrf: &str, request_id: &str) -> (r:
    Vec<(String, String)>)
    ensures
        pairs_view(r@) == eapi_header_fields(device_id@, buildver@, csrf@, request_id@),
        pairs_view(r@) == seq![
            ("osver"@, "16.2"@),
            ("deviceId"@, device_id@),
            ("os"@, "iPhone OS"@),
            ("appver"@, "9.0.90"@),
            ("versioncode"@, "140"@),
            ("mobilename"@, ""@),
            ("buildver"@, buildver@),
            ("resolution"@, "1920x1080"@),
            ("__csrf"@, csrf@),
            ("channel"@, ""@),
            ("requestId"@, request_id@),
        ],
        pairs_view(r@)[10] == ("requestId"@, request_id@),
{
    let mut v: Vec<(String, String)> = Vec::new();
    push_pair(&mut v, "osver", "16.2");
    push_pair(&mut v, "deviceId", device_id);
    push_pair(&mut v, "os", "iPhone OS");
    push_pair(&mut v, "appver", "9.0.90");
    push_pair(&mut v, "versioncode", "140");
    push_pair(&mut v, "mobilename", "");
    push_pair(&mut v, "buildver", buildver);
    push_pair(&mut v, "resolution", "1920x1080");
    push_pair(&mut v, "__csrf", csrf);
    push_pair(&mut v, "channel", "");
    push_pair(&mut v, "requestId", request_id);
    assert(pairs_view(v@) =~= eapi_header_fields(device_id@, buildver@, csrf@, request_id@));
    v
}


/// The map a list of fields describes: a later field with the same name
/// replaces an earlier one.
pub open spec fn fields_map(s: Seq<(Seq<char>, Seq<char>)>) -> Map<Seq<char>, Seq<char>>
    decreases s.len(),
{
    if s.len() == 0 {
        Map::empty()
    } else {
        fields_map(s.drop_last()).insert(s.last().0, s.last().1)
    }
}

/// `i` is the last position of a field named `k` in `s`.
pub open spec fn last_named(s: Seq<(Seq<char>, Seq<char>)>, i: int, k: Seq<char>) -> bool {
    0 <= i < s.len() && s[i].0 == k && forall|j: int| i < j < s.len() ==> s[j].0 != k
}

/// A field list maps each name to the value of its last field of that name,
/// and to nothing else.
pub proof fn law_fields_map_last_wins(s: Seq<(Seq<char>, Seq<char>)>, k: Seq<char>)
    ensures
        forall|i: int| #[trigger] last_named(s, i, k) ==> fields_map(s).contains_key(k) && fields_map(s)[k] == s[i].1,
        fields_map(s).contains_key(k) ==> exists|i: int| #[trigger] last_named(s, i, k) && fields_map(s)[k] == s[i].1,
    decreases s.len(),
{
    if s.len() > 0 {
        let t = s.drop_last();
        law_fields_map_last_wins(t, k);
        let n = s.len() - 1;
        assert forall|i: int| #[trigger] last_named(s, i, k) implies fields_map(s).contains_key(k)
            && fields_map(s)[k] == s[i].1 by {
            if i < n {
                assert(s[n].0 != k);
                assert(t[i] == s[i]);
                assert(last_named(t, i, k));
            }
        }
        if fields_map(s).contains_key(k) {
            if s[n].0 == k {
                assert(last_named(s, n, k));
            } else {
                assert(fields_map(t).contains_key(k));
                let i = choose|i: int| #[trigger] last_named(t, i, k) && fields_map(t)[k] == t[i].1;
                assert(t[i] == s[i]);
                assert forall|j: int| i < j < s.len() implies s[j].0 != k by {
                    if j < n {
                        assert(t[j] == s[j]);
                    }
                }
                assert(last_named(s, i, k));
            }
        }
    }
}

/// No two fields share a name.
pub open spec fn distinct_names(s: Seq<(Seq<char>, Seq<char>)>) -> bool {
    forall|i: int, j: int| 0 <= i < j < s.len() ==> s[i].0 != s[j].0
}

/// The form fields of a weapi request: the given parameters, later ones
/// replacing earlier ones with the same name, and `csrf_token` set to the
/// session's token whatever the parameters held.
pub open spec fn weapi_form(params: Seq<(Seq<char>, Seq<char>)>, csrf: Seq<char>) -> Map<
    Seq<char>,
    Seq<char>,
> {
    fields_map(params).insert("csrf_token"@, csrf)
}

proof fn lemma_fields_map_distinct(s: Seq<(Seq<char>, Seq<char>)>)
    requires
        distinct_names(s),
    ensures
        forall|i: int|
            0 <= i < s.len() ==> #[trigger] fields_map(s).contains_key(s[i].0) && fields_map(s)[s[i].0]
                == s[i].1,
        forall|k: Seq<char>|
            fields_map(s).contains_key(k) ==> exists|i: int| 0 <= i < s.len() && #[trigger] s[i].0 == k,
    decreases s.len(),
{
    if s.len() > 0 {
        let t = s.drop_last();
        lemma_fields_map_distinct(t);
        assert forall|k: Seq<char>| fields_map(s).contains_key(k) implies exists|i: int|
            0 <= i < s.len() && #[trigger] s[i].0 == k by {
            if k != s.last().0 {
                assert(fields_map(t).contains_key(k));
                let i = choose|i: int| 0 <= i < t.len() && #[trigger] t[i].0 == k;
                assert(t[i] == s[i]);
                assert(s[i].0 == k);
            } else {
                assert(s[s.len() - 1].0 == k);
            }
        }
        assert forall|i: int| 0 <= i < s.len() implies #[trigger] fields_map(s).contains_key(s[i].0)
            && fields_map(s)[s[i].0] == s[i].1 by {
            if i < s.len() - 1 {
                assert(t[i] == s[i]);
                assert(fields_map(t).contains_key(t[i].0));
                assert(s[i].0 != s[s.len() - 1].0);
            }
        }
    }
}

/// Sets field `name` to `value`: replaces the field of that name, or appends one.
fn set_field(v: &mut Vec<(String, String)>, name: &String, value: &String)
    requires
        distinct_names(pairs_view(old(v)@)),
    ensures
        distinct_names(pairs_view(final(v)@)),
        fields_map(pairs_view(final(v)@)) == fields_map(pairs_view(old(v)@)).insert(name@, value@),
{
    let ghost old_view = pairs_view(v@);
    proof {
        lemma_fields_map_distinct(old_view);
    }
    let mut j: usize = 0;
    while j < v.len()
        invariant
            j <= v@.len(),
            v@ == old(v)@,
            old_view == pairs_view(v@),
            distinct_names(old_view),
            forall|k: int| 0 <= k < j ==> old_view[k].0 != name@,
        decreases v@.len() - j,
    {
        if v[j].0 == *name {
            v.set(j, (name.clone(), value.clone()));
            proof {
                lemma_fields_map_distinct(old_view);
                let nv = pairs_view(v@);
                assert(nv =~= old_view.update(j as int, (name@, value@)));
                assert(distinct_names(nv)) by {
                    assert forall|a: int, b: int| 0 <= a < b < nv.len() implies nv[a].0 != nv[b].0 by {
                        assert(old_view[a].0 != old_view[b].0);
                    }
                }
                lemma_fields_map_distinct(nv);
                let m1 = fields_map(nv);
                let m2 = fields_map(old_view).insert(name@, value@);
                assert forall|k: Seq<char>| m1.contains_key(k) <==> m2.contains_key(k) by {
                    if m1.contains_key(k) {
                        let i = choose|i: int| 0 <= i < nv.len() && #[trigger] nv[i].0 == k;
                        if i != j {
                            assert(old_view[i].0 == k);
                        }
                    }
                    if m2.contains_key(k) && k != name@ {
                        let i = choose|i: int| 0 <= i < old_view.len() && #[trigger] old_view[i].0 == k;
                        assert(nv[i].0 == k);
                    }
                    if k == name@ {
                        assert(nv[j as int].0 == k);
                    }
                }
                assert forall|k: Seq<char>| m1.contains_key(k) implies m1[k] == m2[k] by {
                    let i = choose|i: int| 0 <= i < nv.len() && #[trigger] nv[i].0 == k;
                    assert(fields_map(nv).contains_key(nv[i].0));
                    if i != j {
                        assert(old_view[i] == nv[i]);
                        assert(nv[i].0 != nv[j as int].0);
                        assert(fields_map(old_view).contains_key(old_view[i].0));
                    }
                }
                assert(m1 =~= m2);
            }
            return;
        }
        j = j + 1;
    }
    v.push((name.clone(), value.clone()));
    proof {
        let nv = pairs_view(v@);
        assert(nv =~= old_view.push((name@, value@)));
        assert(nv.drop_last() =~= old_view);
        assert(distinct_names(nv)) by {
            assert forall|a: int, b: int| 0 <= a < b < nv.len() implies nv[a].0 != nv[b].0 by {
                if b < old_view.len() {
                    assert(old_view[a].0 != old_view[b].0);
                }
            }
        }
    }
}

/// The form fields of a weapi request, each name once.
pub fn weapi_form_fields(params: &Vec<(String, String)>, csrf: &str) -> (r: Vec<(String, String)>)
    ensures
        distinct_names(pairs_view(r@)),
        fields_map(pairs_view(r@)) == weapi_form(pairs_view(params@), csrf@),
        pairs_view(r@).contains(("csrf_token"@, csrf@)),
        forall|i: int|
            last_named(pairs_view(params@), i, #[trigger] pairs_view(params@)[i].0)
                && pairs_view(params@)[i].0 != "csrf_token"@ ==> pairs_view(r@).contains(
                pairs_view(params@)[i],
            ),
        forall|o: int|
            0 <= o < r@.len() ==> #[trigger] pairs_view(r@)[o] == ("csrf_token"@, csrf@) || exists|i: int|
                last_named(pairs_view(params@), i, pairs_view(r@)[o].0) && pairs_view(params@)[i]
                    == pairs_view(r@)[o],
{
    let mut out: Vec<(String, String)> = Vec::new();
    let mut i: usize = 0;
    assert(pairs_view(params@).take(0) =~= Seq::<(Seq<char>, Seq<char>)>::empty());
    assert(pairs_view(out@) =~= Seq::<(Seq<char>, Seq<char>)>::empty());
    while i < params.len()
        invariant
            i <= params@.len(),
            distinct_names(pairs_view(out@)),
            fields_map(pairs_view(out@)) == fields_map(pairs_view(params@).take(i as int)),
        decreases params@.len() - i,
    {
        set_field(&mut out, &params[i].0, &params[i].1);
        proof {
            let pv = pairs_view(params@);
            assert(pv.take(i + 1).drop_last() =~= pv.take(i as int));
            assert(pv.take(i + 1).last() == pv[i as int]);
        }
        i = i + 1;
    }
    proof {
        assert(pairs_view(params@).take(params@.len() as int) =~= pairs_view(params@));
    }
    let token_name = "csrf_token".to_owned();
    let token = csrf.to_owned();
    set_field(&mut out, &token_name, &token);
    proof {
        lemma_form_fields_direct(pairs_view(params@), csrf@, pairs_view(out@));
    }
    out
}

proof fn lemma_form_fields_direct(
    pv: Seq<(Seq<char>, Seq<char>)>,
    csrf: Seq<char>,
    ov: Seq<(Seq<char>, Seq<char>)>,
)
    requires
        distinct_names(ov),
        fields_map(ov) == weapi_form(pv, csrf),
    ensures
        ov.contains(("csrf_token"@, csrf)),
        forall|i: int|
            last_named(pv, i, #[trigger] pv[i].0) && pv[i].0 != "csrf_token"@ ==> ov.contains(pv[i]),
        forall|o: int|
            0 <= o < ov.len() ==> #[trigger] ov[o] == ("csrf_token"@, csrf) || exists|i: int|
                last_named(pv, i, ov[o].0) && pv[i] == ov[o],
{
    lemma_fields_map_distinct(ov);
    let tok = "csrf_token"@;
    assert(fields_map(ov).contains_key(tok));
    let o0 = choose|o: int| 0 <= o < ov.len() && #[trigger] ov[o].0 == tok;
    assert(fields_map(ov).contains_key(ov[o0].0));
    assert(ov[o0] == (tok, csrf));
    assert(ov.contains((tok, csrf)));
    assert forall|i: int|
        last_named(pv, i, #[trigger] pv[i].0) && pv[i].0 != tok implies ov.contains(pv[i]) by {
        let k = pv[i].0;
        law_fields_map_last_wins(pv, k);
        assert(fields_map(ov).contains_key(k));
        let o = choose|o: int| 0 <= o < ov.len() && #[trigger] ov[o].0 == k;
        assert(fields_map(ov).contains_key(ov[o].0));
        assert(ov[o] == pv[i]);
    }
    assert forall|o: int| 0 <= o < ov.len() implies #[trigger] ov[o] == (tok, csrf) || exists|i: int|
        last_named(pv, i, ov[o].0) && pv[i] == ov[o] by {
        let k = ov[o].0;
        assert(fields_map(ov).contains_key(ov[o].0));
        if k != tok {
            law_fields_map_last_wins(pv, k);
            assert(fields_map(pv).contains_key(k));
            let i = choose|i: int| #[trigger] last_named(pv, i, k) && fields_map(pv)[k] == pv[i].1;
            assert(pv[i] == ov[o]);
        }
    }
}

/// The JSON text of the weapi form: an object of string values, one per field.
pub fn weapi_params_json(params: &Vec<(String, String)>, csrf: &str) -> (r: Result<String, NcmError>)
    ensures
        r matches Ok(text) ==> text@ == crate::outside::json_entries_text(
            weapi_form(pairs_view(params@), csrf@).map_values(|v: Seq<char>| crate::outside::json_string(v)),
        ),
        r is Ok,
{
    let fields = weapi_form_fields(params, csrf);
    let m = json_map_of_strings(&fields);
    match crate::outside::json_map_to_string(&m) {
        Ok(text) => Ok(text),
        Err(e) => Err(NcmError::Crypto(crate::outside::json_error_text(&e))),
    }
}

/// The entries of a map of the given string fields: a later field replaces an
/// earlier one of the same name.
pub open spec fn string_entries(fields: Seq<(Seq<char>, Seq<char>)>) -> Map<
    Seq<char>,
    serde_json::Value,
> {
    fields_map(fields).map_values(|v: Seq<char>| crate::outside::json_string(v))
}

/// A `serde_json::Map` holding each field as a string value, inserted in
/// order, so a later field replaces an earlier one of the same name.
pub fn json_map_of_strings(fields: &Vec<(String, String)>) -> (r: serde_json::Map<
    String,
    serde_json::Value,
>)
    ensures
        crate::outside::json_map_entries(r) == string_entries(pairs_view(fields@)),
{
    let mut m = crate::outside::json_map_new();
    let mut i: usize = 0;
    proof {
        assert(crate::outside::json_map_entries(m) =~= Map::empty());
        assert(pairs_view(fields@).take(0) =~= Seq::<(Seq<char>, Seq<char>)>::empty());
        assert(string_entries(pairs_view(fields@).take(0)) =~= Map::empty());
    }
    while i < fields.len()
        invariant
            i <= fields@.len(),
            crate::outside::json_map_entries(m) == string_entries(pairs_view(fields@).take(i as int)),
        decreases fields@.len() - i,
    {
        crate::outside::json_map_insert_string(&mut m, fields[i].0.as_str(), fields[i].1.as_str());
        proof {
            let pv = pairs_view(fields@);
            let t = pv.take(i + 1);
            assert(t.drop_last() =~= pv.take(i as int));
            assert(t.last() == pv[i as int]);
            assert(string_entries(t) =~= string_entries(pv.take(i as int)).insert(
                pv[i as int].0,
                crate::outside::json_string(pv[i as int].1),
            ));
        }
        i = i + 1;
    }
    proof {
        assert(pairs_view(fields@).take(fields@.len() as int) =~= pairs_view(fields@));
    }
    m
}

/// The message of the error reported for an eapi body that is not a JSON object.
pub open spec fn non_object_body_message() -> Seq<char> {
    "eapi request expects an object body"@
}

/// The fields of an eapi request body: the object's own fields, `csrf_token`
/// set to the session's token, and `header` set to the object of header fields.
pub open spec fn eapi_body_entries(
    object: Map<Seq<char>, serde_json::Value>,
    csrf: Seq<char>,
    header: Seq<(Seq<char>, Seq<char>)>,
) -> Map<Seq<char>, serde_json::Value> {
    object.insert("csrf_token"@, crate::outside::json_string(csrf)).insert("header"@, crate::outside::json_object(string_entries(header)))
}

fn finish_eapi_object(
    m: serde_json::Map<String, serde_json::Value>,
    csrf: &str,
    header: &Vec<(String, String)>,
) -> (t: String)
    ensures
        t@ == crate::outside::json_entries_text(eapi_body_entries(crate::outside::json_map_entries(m), csrf@, pairs_view(header@))),
{
    let mut m = m;
    crate::outside::json_map_insert_string(&mut m, "csrf_token", csrf);
    let header_map = json_map_of_strings(header);
    crate::outside::json_map_insert_object(&mut m, "header", header_map);
    match crate::outside::json_map_to_string(&m) {
        Ok(t) => t,
        Err(_) => String::new(),
    }
}

/// The JSON text of an eapi request body: the object `data` with `csrf_token`
/// and the `header` object added. A `data` that is not an object is refused.
pub fn eapi_params_json(data: serde_json::Value, csrf: &str, header: &Vec<(String, String)>) -> (r:
    Result<String, NcmError>)
    ensures
        r is Ok <==> crate::outside::json_is_object(data),
        r matches Ok(t) ==> t@ == crate::outside::json_entries_text(
            eapi_body_entries(crate::outside::json_object_entries(data), csrf@, pairs_view(header@)),
        ),
        r matches Err(e) ==> e is Session && e.message() == non_object_body_message(),
{
    match crate::outside::json_into_object(data) {
        Some(m) => Ok(finish_eapi_object(m, csrf, header)),
        None => Err(NcmError::Session("eapi request expects an object body".to_owned())),
    }
}

/// The JSON text of an eapi request body whose parameters are strings: the
/// body `eapi_params_json` writes for the object of those strings (a later
/// parameter replacing an earlier one of the same name), so it never fails.
pub fn eapi_string_params_json(
    params: &Vec<(String, String)>,
    csrf: &str,
    header: &Vec<(String, String)>,
) -> (r: String)
    ensures
        r@ == crate::outside::json_entries_text(
            eapi_body_entries(string_entries(pairs_view(params@)), csrf@, pairs_view(header@)),
        ),
        exists|data: serde_json::Value|
            {
                &&& crate::outside::json_is_object(data)
                &&& crate::outside::json_object_entries(data) == string_entries(pairs_view(params@))
                &&& r@ == crate::outside::json_entries_text(
                    eapi_body_entries(crate::outside::json_object_entries(data), csrf@, pairs_view(header@)),
                )
            },
{
    let m = json_map_of_strings(params);
    let data = crate::outside::json_value_of_map(m);
    match eapi_params_json(data, csrf, header) {
        Ok(t) => t,
        Err(_) => String::new(),
    }
}

/// A weapi form always carries the session's csrf token under `csrf_token`,
/// whatever the parameters held, and keeps every other parameter (the last
/// one given for a name).
pub proof fn law_weapi_form_csrf(params: Seq<(Seq<char>, Seq<char>)>, csrf: Seq<char>)
    ensures
        weapi_form(params, csrf).contains_key("csrf_token"@),
        weapi_form(params, csrf)["csrf_token"@] == csrf,
        forall|k: Seq<char>|
            k != "csrf_token"@ ==> (#[trigger] weapi_form(params, csrf).contains_key(k)
                <==> fields_map(params).contains_key(k)),
{
}

/// Rewriting a path to its weapi form twice changes nothing more: a
/// `/weapi/` path does not start with `/api/`.
pub proof fn law_weapi_path_idempotent(path: Seq<char>)
    ensures
        weapi_path(weapi_path(path)) == weapi_path(path),
{
    reveal_strlit("/api/");
    reveal_strlit("/weapi/");
    if "/api/"@.is_prefix_of(path) {
        let p = weapi_path(path);
        assert(p[1] == 'w');
        assert("/api/"@[1] == 'a');
        assert(!"/api/"@.is_prefix_of(p));
    }
}

/// The weapi URL carries the session's csrf token at its very end, after
/// `csrf_token=`.
pub proof fn law_weapi_url_ends_with_token(path: Seq<char>, csrf: Seq<char>)
    ensures
        ("csrf_token="@ + csrf).is_suffix_of(weapi_url(path, csrf)),
{
    reveal_strlit("&csrf_token=");
    reveal_strlit("?csrf_token=");
    reveal_strlit("csrf_token=");
    let u = weapi_url(path, csrf);
    let t = "csrf_token="@ + csrf;
    let p = weapi_path(path);
    let sep = if p.contains('?') { "&csrf_token="@ } else { "?csrf_token="@ };
    assert(u == base_url() + p + sep + csrf);
    assert(sep == seq![sep[0]] + "csrf_token="@);
    assert(u =~= (base_url() + p + seq![sep[0]]) + t);
    assert(u.subrange(u.len() - t.len(), u.len() as int) =~= t);
}


/// The liked-song-id call under its API path and the one under its weapi path
/// reach the same URL.
pub proof fn law_liked_song_id_paths_agree(csrf: Seq<char>)
    ensures
        weapi_url("/api/song/like/get"@, csrf) == weapi_url("/weapi/song/like/get"@, csrf),
{
    reveal_strlit("/api/song/like/get");
    reveal_strlit("/weapi/song/like/get");
    reveal_strlit("/api/");
    reveal_strlit("/weapi/");
    let a = "/api/song/like/get"@;
    let w = "/weapi/song/like/get"@;
    assert("/api/"@ =~= a.take(5));
    assert("/api/"@.is_prefix_of(a));
    assert(w[1] != "/api/"@[1]);
    assert(!"/api/"@.is_prefix_of(w));
    assert(weapi_path(a) =~= w);
}


/// The eapi header object carries its arguments verbatim: the device id, the
/// build version, the csrf token and the request id, each under its own name.
pub proof fn law_eapi_header_carries_arguments(
    device_id: Seq<char>,
    buildver: Seq<char>,
    csrf: Seq<char>,
    request_id: Seq<char>,
)
    ensures
        eapi_header_fields(device_id, buildver, csrf, request_id).len() == 11,
        eapi_header_fields(device_id, buildver, csrf, request_id)[1] == ("deviceId"@, device_id),
        eapi_header_fields(device_id, buildver, csrf, request_id)[6] == ("buildver"@, buildver),
        eapi_header_fields(device_id, buildver, csrf, request_id)[8] == ("__csrf"@, csrf),
        eapi_header_fields(device_id, buildver, csrf, request_id)[10] == ("requestId"@, request_id),
{
}


/// Every parameter other than `csrf_token` reaches the weapi form unchanged:
/// its value there is the value of the last parameter of that name.
pub proof fn law_weapi_form_keeps_values(params: Seq<(Seq<char>, Seq<char>)>, csrf: Seq<char>, i: int)
    requires
        last_named(params, i, params[i].0),
        params[i].0 != "csrf_token"@,
    ensures
        weapi_form(params, csrf).contains_key(params[i].0),
        weapi_form(params, csrf)[params[i].0] == params[i].1,
{
    law_fields_map_last_wins(params, params[i].0);
}

} // verus!
