//! Trusted reads into a TOML value tree.
//!
//! The TOML twin of the JSON read layer: a `Manifest` may wrap an
//! already-parsed `toml::Value`, the tree is opaque to the verifier, and each
//! lookup's yield is named as an uninterpreted function of the value and the
//! key. The policy is the same fail-soft one as for JSON — absence or a shape
//! mismatch yields absence, never an error; in particular a sequence field
//! defaults to the empty sequence on any non-array value.

use vstd::prelude::*;

verus! {

#[verifier::external_type_specification]
#[verifier::external_body]
pub struct ExTomlValue(toml::Value);

/// The string at `key` in the top-level table of `v`, if the tree is a
/// table, the key is present and its value is a string.
pub uninterp spec fn toml_string_at(v: toml::Value, key: Seq<char>) -> Option<Seq<char>>;

/// The unsigned integer at `key`, if that value is a TOML integer in `u64`
/// range.
pub uninterp spec fn toml_uint_at(v: toml::Value, key: Seq<char>) -> Option<u64>;

/// The signed integer at `key`, if that value is a TOML integer.
pub uninterp spec fn toml_int_at(v: toml::Value, key: Seq<char>) -> Option<i64>;

/// The strings of the array at `key`; the empty sequence when the key is
/// absent or the value is anything but an array of strings.
pub uninterp spec fn toml_string_seq_at(v: toml::Value, key: Seq<char>) -> Seq<Seq<char>>;

/// The string pair of the two-element array at `key`; `None` for any other
/// arity or element type — never a partial pair.
pub uninterp spec fn toml_pair_at(v: toml::Value, key: Seq<char>) -> Option<(Seq<char>, Seq<char>)>;

/// Relies on `toml::Value::get` (`None` on a non-table tree or an absent
/// key) and `Value::as_str` (`Some` exactly on a TOML string).
#[verifier::external_body]
pub(crate) fn toml_get_string(v: &toml::Value, key: &str) -> (r: Option<String>)
    ensures
        r.deep_view() == toml_string_at(*v, key@),
{
    v.get(key).and_then(|x| x.as_str()).map(|s| s.to_owned())
}

/// Relies on `toml::Value::get` and `Value::as_integer` (`Some` exactly on a
/// TOML integer), narrowed to `u64` by `u64::try_from`.
#[verifier::external_body]
pub(crate) fn toml_get_uint(v: &toml::Value, key: &str) -> (r: Option<u64>)
    ensures
        r == toml_uint_at(*v, key@),
{
    v.get(key).and_then(|x| x.as_integer()).and_then(|i| u64::try_from(i).ok())
}

/// Relies on `toml::Value::get` and `Value::as_integer`.
#[verifier::external_body]
pub(crate) fn toml_get_int(v: &toml::Value, key: &str) -> (r: Option<i64>)
    ensures
        r == toml_int_at(*v, key@),
{
    v.get(key).and_then(|x| x.as_integer())
}

/// Relies on `toml::Value::get` and `toml::Value::try_into` for
/// `Vec<String>`, which succeeds exactly on an array whose elements are all
/// strings; any failure is absorbed into the empty vector.
#[verifier::external_body]
pub(crate) fn toml_get_string_seq(v: &toml::Value, key: &str) -> (r: Vec<String>)
    ensures
        r.deep_view() == toml_string_seq_at(*v, key@),
{
    match v.get(key) {
        Some(x) => x.clone().try_into::<Vec<String>>().unwrap_or_default(),
        None => Vec::new(),
    }
}

/// Relies on `toml::Value::get` and `toml::Value::try_into` for
/// `(String, String)`, which succeeds exactly on a two-element array of
/// strings and rejects any other arity.
#[verifier::external_body]
pub(crate) fn toml_get_pair(v: &toml::Value, key: &str) -> (r: Option<(String, String)>)
    ensures
        r.deep_view() == toml_pair_at(*v, key@),
{
    v.get(key).and_then(|x| x.clone().try_into::<(String, String)>().ok())
}

} // verus!
