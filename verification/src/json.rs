//! Values read out of JSON text: the runner's websocket notifications and
//! the meta data of its buffers. The parsing is `serde_json`'s; each reading
//! is named here as a function of the text and the keys.
use vstd::prelude::*;

verus! {

/// The string at `key` of the object that `text` holds, as `serde_json`
/// reads it; `None` when `text` is not JSON, holds no object with `key`, or
/// the value there is not a string.
pub uninterp spec fn json_str_at(text: Seq<char>, key: Seq<char>) -> Option<Seq<char>>;

/// The string at `inner` of the object at `key` of the object that `text`
/// holds, as `serde_json` reads it; `None` when any step is missing or the
/// value is not a string.
pub uninterp spec fn json_str_in(text: Seq<char>, key: Seq<char>, inner: Seq<char>) -> Option<Seq<char>>;

/// The boolean at `key` of the object that `text` holds, as `serde_json`
/// reads it; `None` when there is none.
pub uninterp spec fn json_bool_at(text: Seq<char>, key: Seq<char>) -> Option<bool>;

/// The non-negative integer at `key` of the object that `text` holds, as
/// `serde_json` reads it (`as_u64`); `None` when there is none.
pub uninterp spec fn json_u64_at(text: Seq<char>, key: Seq<char>) -> Option<u64>;

/// The integer at `key` of the object that `text` holds, as `serde_json`
/// reads it (`as_i64`); `None` when there is none.
pub uninterp spec fn json_i64_at(text: Seq<char>, key: Seq<char>) -> Option<i64>;

/// `serde_json::from_str` of `text` as a `Value`, then `get(key)` and
/// `as_str`. Its contract names the result as a function of the arguments.
#[verifier::external_body]
pub(crate) fn json_string(text: &str, key: &str) -> (r: Option<String>)
    ensures
        match r {
            Some(s) => json_str_at(text@, key@) == Some(s@),
            None => json_str_at(text@, key@) is None,
        },
{
    serde_json::from_str::<serde_json::Value>(text).ok()?.get(key)?.as_str().map(|s| s.to_string())
}

/// `serde_json::from_str` of `text` as a `Value`, then `get(key)`,
/// `get(inner)` and `as_str`. Its contract names the result as a function of
/// the arguments.
#[verifier::external_body]
pub(crate) fn json_string_in(text: &str, key: &str, inner: &str) -> (r: Option<String>)
    ensures
        match r {
            Some(s) => json_str_in(text@, key@, inner@) == Some(s@),
            None => json_str_in(text@, key@, inner@) is None,
        },
{
    serde_json::from_str::<serde_json::Value>(text).ok()?.get(key)?.get(inner)?.as_str().map(|s| s.to_string())
}

/// `serde_json::from_str` of `text` as a `Value`, then `get(key)` and
/// `as_bool`. Its contract names the result as a function of the arguments.
#[verifier::external_body]
pub(crate) fn json_bool(text: &str, key: &str) -> (r: Option<bool>)
    ensures
        r == json_bool_at(text@, key@),
{
    serde_json::from_str::<serde_json::Value>(text).ok()?.get(key)?.as_bool()
}

/// `serde_json::from_str` of `text` as a `Value`, then `get(key)` and
/// `as_u64`. Its contract names the result as a function of the arguments.
#[verifier::external_body]
pub(crate) fn json_u64(text: &str, key: &str) -> (r: Option<u64>)
    ensures
        r == json_u64_at(text@, key@),
{
    serde_json::from_str::<serde_json::Value>(text).ok()?.get(key)?.as_u64()
}

/// `serde_json::from_str` of `text` as a `Value`, then `get(key)` and
/// `as_i64`. Its contract names the result as a function of the arguments.
#[verifier::external_body]
pub(crate) fn json_i64(text: &str, key: &str) -> (r: Option<i64>)
    ensures
        r == json_i64_at(text@, key@),
{
    serde_json::from_str::<serde_json::Value>(text).ok()?.get(key)?.as_i64()
}

} // verus!
