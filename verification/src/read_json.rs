//! Trusted reads into a JSON value tree.
//!
//! A `Manifest` may wrap an already-parsed `serde_json::Value`; field reads
//! are performed lazily against that tree. The tree is opaque to the
//! verifier, so what a lookup yields is given a name: an uninterpreted
//! function of the value and the key alone. Every lookup fails soft — a
//! missing key, a non-object tree or a value of the wrong shape yields
//! absence (`None`, or the empty sequence), never an error.

use vstd::prelude::*;

verus! {

#[verifier::external_type_specification]
#[verifier::external_body]
pub struct ExJsonValue(serde_json::Value);

/// The string at `key` in the top-level object of `v`, if the tree is an
/// object, the key is present and its value is a string.
pub uninterp spec fn json_string_at(v: serde_json::Value, key: Seq<char>) -> Option<Seq<char>>;

/// The unsigned integer at `key`, if that value is a number representable as
/// `u64`.
pub uninterp spec fn json_uint_at(v: serde_json::Value, key: Seq<char>) -> Option<u64>;

/// The signed integer at `key`, if that value is a number representable as
/// `i64`.
pub uninterp spec fn json_int_at(v: serde_json::Value, key: Seq<char>) -> Option<i64>;

/// The strings of the array at `key`; the empty sequence when the key is
/// absent or the value is anything but an array of strings.
pub uninterp spec fn json_string_seq_at(v: serde_json::Value, key: Seq<char>) -> Seq<Seq<char>>;

/// The string pair of the two-element array at `key`; `None` for any other
/// arity or element type — never a partial pair.
pub uninterp spec fn json_pair_at(v: serde_json::Value, key: Seq<char>) -> Option<(Seq<char>, Seq<char>)>;

/// Relies on `serde_json::Value::get` (`None` on a non-object tree or an
/// absent key) and `Value::as_str` (`Some` exactly on a JSON string).
#[verifier::external_body]
pub(crate) fn json_get_string(v: &serde_json::Value, key: &str) -> (r: Option<String>)
    ensures
        r.deep_view() == json_string_at(*v, key@),
{
    v.get(key).and_then(|x| x.as_str()).map(|s| s.to_owned())
}

/// Relies on `serde_json::Value::get` and `Value::as_u64` (`Some` exactly on
/// a number that is an integer in `u64` range).
#[verifier::external_body]
pub(crate) fn json_get_uint(v: &serde_json::Value, key: &str) -> (r: Option<u64>)
    ensures
        r == json_uint_at(*v, key@),
{
    v.get(key).and_then(|x| x.as_u64())
}

/// Relies on `serde_json::Value::get` and `Value::as_i64` (`Some` exactly on
/// a number that is an integer in `i64` range).
#[verifier::external_body]
pub(crate) fn json_get_int(v: &serde_json::Value, key: &str) -> (r: Option<i64>)
    ensures
        r == json_int_at(*v, key@),
{
    v.get(key).and_then(|x| x.as_i64())
}

/// Relies on `serde_json::Value::get` and `serde_json::from_value` for
/// `Vec<String>`, which succeeds exactly on an array whose elements are all
/// strings; any failure is absorbed into the empty vector.
#[verifier::external_body]
pub(crate) fn json_get_string_seq(v: &serde_json::Value, key: &str) -> (r: Vec<String>)
    ensures
        r.deep_view() == json_string_seq_at(*v, key@),
{
    match v.get(key) {
        Some(x) => serde_json::from_value::<Vec<String>>(x.clone()).unwrap_or_default(),
        None => Vec::new(),
    }
}

/// Relies on `serde_json::Value::get` and `serde_json::from_value` for
/// `(String, String)`, which succeeds exactly on a two-element array of
/// strings and rejects any other arity.
#[verifier::external_body]
pub(crate) fn json_get_pair(v: &serde_json::Value, key: &str) -> (r: Option<(String, String)>)
    ensures
        r.deep_view() == json_pair_at(*v, key@),
{
    v.get(key).and_then(|x| serde_json::from_value::<(String, String)>(x.clone()).ok())
}

} // verus!
