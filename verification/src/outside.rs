//! Declarations of the outside types the library carries, and the trusted
//! wrappers through which it calls `reqwest`, `rand`, `serde_json` and std.

use vstd::prelude::*;
use std::path::PathBuf;
use std::time::Duration;

verus! {

/// `std::path::PathBuf`, carried opaquely (a cookie-file location).
#[verifier::external_type_specification]
#[verifier::external_body]
pub struct ExPathBuf(PathBuf);

/// `serde_json::Value`, carried opaquely.
#[verifier::external_type_specification]
#[verifier::external_body]
pub struct ExJsonValue(serde_json::Value);

/// `reqwest::Client`, carried opaquely.
#[verifier::external_type_specification]
#[verifier::external_body]
pub struct ExHttpClient(reqwest::Client);

/// `reqwest::ClientBuilder`, carried opaquely.
#[verifier::external_type_specification]
#[verifier::external_body]
pub struct ExHttpClientBuilder(reqwest::ClientBuilder);

/// `reqwest::Proxy`, carried opaquely.
#[verifier::external_type_specification]
#[verifier::external_body]
pub struct ExHttpProxy(reqwest::Proxy);

/// `reqwest::Error`, carried opaquely.
#[verifier::external_type_specification]
#[verifier::external_body]
pub struct ExHttpError(reqwest::Error);

/// The duration that `Duration::from_secs` builds from a number of seconds.
pub uninterp spec fn seconds_duration(secs: u64) -> Duration;

/// Calls `std::time::Duration::from_secs`; the result is the duration named by
/// `seconds_duration` for the same number of seconds.
#[verifier::external_body]
pub(crate) fn duration_from_secs(secs: u64) -> (d: Duration)
    ensures
        d == seconds_duration(secs),
{
    Duration::from_secs(secs)
}

/// Calls `rand::random_range(0..n)`: a value drawn from `0..n`, so below `n`.
/// `rand` panics on an empty range, hence `n > 0`.
#[verifier::external_body]
pub(crate) fn random_below(n: usize) -> (i: usize)
    requires
        n > 0,
    ensures
        i < n,
{
    rand::random_range(0..n)
}

/// Calls `rand::random::<u16>()`; any `u16` may come back.
#[verifier::external_body]
pub(crate) fn random_u16() -> (r: u16) {
    rand::random::<u16>()
}

/// `b` is a builder as `reqwest::Client::builder()` makes it: default settings,
/// no proxy configured and no timeout (`ClientBuilder::new` reads no environment).
pub uninterp spec fn fresh_http_builder(b: reqwest::ClientBuilder) -> bool;

/// Calls `reqwest::Client::builder()`; the builder is a fresh one.
#[verifier::external_body]
pub(crate) fn new_http_builder() -> (b: reqwest::ClientBuilder)
    ensures
        fresh_http_builder(b),
{
    reqwest::Client::builder()
}

/// The builder `reqwest::ClientBuilder::timeout` makes of a builder and a timeout.
pub uninterp spec fn builder_with_timeout(b: reqwest::ClientBuilder, timeout: Duration) -> reqwest::ClientBuilder;

/// The builder `reqwest::ClientBuilder::proxy` makes of a builder and a proxy.
pub uninterp spec fn builder_with_proxy(b: reqwest::ClientBuilder, proxy: reqwest::Proxy) -> reqwest::ClientBuilder;

/// Whether `reqwest::Proxy::all` accepts a proxy URL.
pub uninterp spec fn proxy_accepts(url: Seq<char>) -> bool;

/// The proxy `reqwest::Proxy::all` makes of a proxy URL it accepts.
pub uninterp spec fn proxy_for(url: Seq<char>) -> reqwest::Proxy;

/// Calls `reqwest::ClientBuilder::timeout`; the builder is named by
/// `builder_with_timeout`.
#[verifier::external_body]
pub(crate) fn http_builder_timeout(b: reqwest::ClientBuilder, timeout: Duration) -> (r:
    reqwest::ClientBuilder)
    ensures
        r == builder_with_timeout(b, timeout),
{
    b.timeout(timeout)
}

/// Calls `reqwest::ClientBuilder::proxy`; the builder is named by
/// `builder_with_proxy`.
#[verifier::external_body]
pub(crate) fn http_builder_proxy(b: reqwest::ClientBuilder, proxy: reqwest::Proxy) -> (r:
    reqwest::ClientBuilder)
    ensures
        r == builder_with_proxy(b, proxy),
{
    b.proxy(proxy)
}

/// `c` is the client that `reqwest::ClientBuilder::build` made from builder `b`.
pub uninterp spec fn client_built_from(c: reqwest::Client, b: reqwest::ClientBuilder) -> bool;

/// Calls `reqwest::ClientBuilder::build`. Whether it succeeds depends on the
/// TLS backend and the system, so that is not stated; a client it returns is
/// one built from the builder handed to it.
#[verifier::external_body]
pub(crate) fn http_builder_build(b: reqwest::ClientBuilder) -> (r: Result<
    reqwest::Client,
    reqwest::Error,
>)
    ensures
        r matches Ok(c) ==> client_built_from(c, b),
{
    b.build()
}

/// Calls `reqwest::Proxy::all` on a proxy URL, which depends on the URL alone:
/// it succeeds exactly when `proxy_accepts` holds, with the proxy `proxy_for`.
#[verifier::external_body]
pub(crate) fn http_proxy_all(url: &str) -> (r: Result<reqwest::Proxy, reqwest::Error>)
    ensures
        r is Ok <==> proxy_accepts(url@),
        r matches Ok(p) ==> p == proxy_for(url@),
{
    reqwest::Proxy::all(url)
}

/// Formats a `reqwest::Error` with its `Display` impl. The text is not stated.
#[verifier::external_body]
pub(crate) fn http_error_text(e: &reqwest::Error) -> (s: String) {
    format!("{e}")
}


/// `serde_json::Error`, carried opaquely.
#[verifier::external_type_specification]
#[verifier::external_body]
pub struct ExJsonError(serde_json::Error);

/// Formats a `serde_json::Error` with its `Display` impl. The text is not stated.
#[verifier::external_body]
pub(crate) fn json_error_text(e: &serde_json::Error) -> (s: String) {
    format!("{e}")
}


/// The value `serde_json::Value::get` finds under a string key: the field of
/// that name when the value is an object holding it, `None` otherwise.
pub uninterp spec fn json_get(value: serde_json::Value, key: Seq<char>) -> Option<serde_json::Value>;

/// The integer `serde_json::Value::as_i64` reads from a value, if any.
pub uninterp spec fn json_i64(value: serde_json::Value) -> Option<i64>;

/// Calls `serde_json::Value::get` with a string key; what is found is named by
/// `json_get` for the same value and key.
#[verifier::external_body]
pub(crate) fn json_field<'a>(value: &'a serde_json::Value, key: &str) -> (r: Option<
    &'a serde_json::Value,
>)
    ensures
        match r {
            Some(x) => json_get(*value, key@) == Some(*x),
            None => json_get(*value, key@) is None,
        },
{
    value.get(key)
}

/// Calls `serde_json::Value::as_i64`; the number read is named by `json_i64`.
#[verifier::external_body]
pub(crate) fn json_as_i64(value: &serde_json::Value) -> (r: Option<i64>)
    ensures
        r == json_i64(*value),
{
    value.as_i64()
}

/// Calls `Clone::clone` on a `serde_json::Value` (a derived, structural clone),
/// so the copy equals the original.
#[verifier::external_body]
pub(crate) fn json_clone(value: &serde_json::Value) -> (r: serde_json::Value)
    ensures
        r == *value,
{
    value.clone()
}


/// `serde_json::Map`, carried opaquely.
#[verifier::external_type_specification]
#[verifier::external_body]
#[verifier::reject_recursive_types(K)]
#[verifier::reject_recursive_types(V)]
pub struct ExJsonMap<K, V>(serde_json::Map<K, V>);

/// Whether a `serde_json::Value` is the `Object` variant.
pub uninterp spec fn json_is_object(value: serde_json::Value) -> bool;

/// The fields of an object `serde_json::Value`, by name.
pub uninterp spec fn json_object_entries(value: serde_json::Value) -> Map<Seq<char>, serde_json::Value>;

/// What a `serde_json::Map` holds, by name.
pub uninterp spec fn json_map_entries(m: serde_json::Map<String, serde_json::Value>) -> Map<
    Seq<char>,
    serde_json::Value,
>;

/// The value `serde_json::Value::String` makes of a string.
pub uninterp spec fn json_string(s: Seq<char>) -> serde_json::Value;

/// The value `serde_json::Value::Object` makes of a map with these entries.
pub uninterp spec fn json_object(entries: Map<Seq<char>, serde_json::Value>) -> serde_json::Value;

/// The JSON text `serde_json::to_string` writes for a map with these entries
/// (the map is ordered by key, so the text depends on the entries alone).
pub uninterp spec fn json_entries_text(entries: Map<Seq<char>, serde_json::Value>) -> Seq<char>;

/// Takes the map out of a `serde_json::Value::Object`; any other variant gives
/// `None`. The map holds the object's fields.
#[verifier::external_body]
pub(crate) fn json_into_object(value: serde_json::Value) -> (r: Option<
    serde_json::Map<String, serde_json::Value>,
>)
    ensures
        r is Some <==> json_is_object(value),
        r matches Some(m) ==> json_map_entries(m) == json_object_entries(value),
{
    match value {
        serde_json::Value::Object(m) => Some(m),
        _ => None,
    }
}

/// Calls `serde_json::Map::new`: an empty map.
#[verifier::external_body]
pub(crate) fn json_map_new() -> (r: serde_json::Map<
    String,
    serde_json::Value,
>)
    ensures
        json_map_entries(r).dom() == Set::<Seq<char>>::empty(),
{
    serde_json::Map::new()
}

/// Calls `serde_json::Map::insert` with a string value: the entry of that
/// name is set to the string.
#[verifier::external_body]
pub(crate) fn json_map_insert_string(
    m: &mut serde_json::Map<String, serde_json::Value>,
    key: &str,
    value: &str,
)
    ensures
        json_map_entries(*final(m)) == json_map_entries(*old(m)).insert(key@, json_string(value@)),
{
    m.insert(key.to_owned(), serde_json::Value::String(value.to_owned()));
}

/// Calls `serde_json::Map::insert` with an object value: the entry of that
/// name is set to the object made of `value`.
#[verifier::external_body]
pub(crate) fn json_map_insert_object(
    m: &mut serde_json::Map<String, serde_json::Value>,
    key: &str,
    value: serde_json::Map<String, serde_json::Value>,
)
    ensures
        json_map_entries(*final(m)) == json_map_entries(*old(m)).insert(
            key@,
            json_object(json_map_entries(value)),
        ),
{
    m.insert(key.to_owned(), serde_json::Value::Object(value));
}

/// Wraps a map as `serde_json::Value::Object`: an object whose fields are the
/// map's entries.
#[verifier::external_body]
pub(crate) fn json_value_of_map(m: serde_json::Map<String, serde_json::Value>) -> (r:
    serde_json::Value)
    ensures
        r == json_object(json_map_entries(m)),
        json_is_object(r),
        json_object_entries(r) == json_map_entries(m),
{
    serde_json::Value::Object(m)
}

/// Calls `serde_json::to_string` on a map. The text is named by
/// `json_entries_text` for the map's entries; serialising a string-keyed map
/// of JSON values does not fail (serde_json documents failure only for
/// failing `Serialize` impls and non-string keys).
#[verifier::external_body]
pub(crate) fn json_map_to_string(m: &serde_json::Map<String, serde_json::Value>) -> (r: Result<
    String,
    serde_json::Error,
>)
    ensures
        r is Ok,
        r matches Ok(s) ==> s@ == json_entries_text(json_map_entries(*m)),
{
    serde_json::to_string(m)
}


/// The value `serde_json::from_str` parses from a text, or `None` when it
/// refuses the text.
pub uninterp spec fn json_parsed(text: Seq<char>) -> Option<serde_json::Value>;

/// Calls `serde_json::from_str` into a `serde_json::Value`; the outcome is
/// named by `json_parsed` for the same text.
#[verifier::external_body]
pub(crate) fn json_from_str(text: &str) -> (r: Result<serde_json::Value, serde_json::Error>)
    ensures
        r is Ok <==> json_parsed(text@) is Some,
        r matches Ok(v) ==> json_parsed(text@) == Some(v),
{
    serde_json::from_str(text)
}

} // verus!
