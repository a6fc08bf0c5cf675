//! Element state is a JSON value of serde_json, carried through the library
//! as an opaque value; the few facts the logic reads of it come from the
//! trusted items below.

use vstd::prelude::*;

verus! {

#[verifier::external_type_specification]
#[verifier::external_body]
pub struct ExJsonValue(serde_json::Value);

/// Whether `v[key]` of serde_json is `Null`: true when `v` is not an object,
/// when it has no member `key`, or when that member is `null`.
pub uninterp spec fn spec_json_field_is_null(v: serde_json::Value, key: Seq<char>) -> bool;

/// Calls `Value::index(&str)` and `Value::is_null`. The contract claims only
/// that the answer is a function of the value and the key.
#[verifier::external_body]
pub(crate) fn json_field_is_null(v: &serde_json::Value, key: &str) -> (r: bool)
    ensures
        r == spec_json_field_is_null(*v, key@),
{
    v[key].is_null()
}

/// Calls the derived `Clone` of `serde_json::Value`; the contract claims that
/// the copy is the same value.
#[verifier::external_body]
pub(crate) fn json_clone(v: &serde_json::Value) -> (r: serde_json::Value)
    ensures
        r == *v,
{
    v.clone()
}

/// Whether a JSON value is an object.
pub uninterp spec fn spec_json_is_object(v: serde_json::Value) -> bool;

/// Whether a JSON value is `null`, as `Value::is_null` tells.
pub uninterp spec fn spec_json_is_null(v: serde_json::Value) -> bool;

/// Calls `Value::is_object`. The contract claims that the answer is whether
/// the value is an object, and that an object is not `null`.
#[verifier::external_body]
pub(crate) fn json_is_object(v: &serde_json::Value) -> (r: bool)
    ensures
        r == spec_json_is_object(*v),
        r ==> !spec_json_is_null(*v),
{
    v.is_object()
}

/// An object whose every member is absent or `null`, a string, or an
/// unsigned whole number.
pub open spec fn json_flat(v: serde_json::Value) -> bool {
    &&& spec_json_is_object(v)
    &&& forall|k: Seq<char>|
        #![trigger spec_json_member(v, k)]
        spec_json_is_null(spec_json_member(v, k)) || spec_json_str(spec_json_member(v, k)) is Some
            || spec_json_u64(spec_json_member(v, k)) is Some
}

/// Builds `Value::Object` of an empty `serde_json::Map` (the value `{}`); the
/// contract claims that it is an object, not `null`, and that every member
/// of it reads as `Null`.
#[verifier::external_body]
pub(crate) fn json_empty_object() -> (r: serde_json::Value)
    ensures
        spec_json_is_object(r),
        !spec_json_is_null(r),
        forall|k: Seq<char>| #[trigger] spec_json_field_is_null(r, k),
        forall|k: Seq<char>| #[trigger] spec_json_is_null(spec_json_member(r, k)),
{
    serde_json::Value::Object(serde_json::Map::new())
}

/// The JSON string with the text `t`.
pub uninterp spec fn spec_json_string(t: Seq<char>) -> serde_json::Value;

/// Builds `Value::String`; the contract claims that the result is a function
/// of the text, that `Value::as_str` reads the text back, and that it is not
/// `null` and not a number.
#[verifier::external_body]
pub(crate) fn json_string(t: &str) -> (r: serde_json::Value)
    ensures
        r == spec_json_string(t@),
        spec_json_str(r) == Some(t@),
        !spec_json_is_null(r),
        spec_json_u64(r) is None,
{
    serde_json::Value::String(t.to_string())
}

/// The JSON number with the value `n`.
pub uninterp spec fn spec_json_number(n: u64) -> serde_json::Value;

/// Builds `Value::Number` from a `u64`; the contract claims that the result is
/// a function of `n`, that `Value::as_u64` reads `n` back, and that it is not
/// `null` and not a string.
#[verifier::external_body]
pub(crate) fn json_number(n: u64) -> (r: serde_json::Value)
    ensures
        r == spec_json_number(n),
        spec_json_u64(r) == Some(n),
        !spec_json_is_null(r),
        spec_json_str(r) is None,
{
    serde_json::Value::from(n)
}

/// Builds `Value::Null`; the contract claims that it is `null`, not a string
/// and not a number.
#[verifier::external_body]
pub(crate) fn json_null() -> (r: serde_json::Value)
    ensures
        spec_json_is_null(r),
        spec_json_str(r) is None,
        spec_json_u64(r) is None,
{
    serde_json::Value::Null
}

/// Sets the member `key` of an object with `IndexMut` (`v[key] = member`),
/// which inserts or replaces it. The contract claims that the value stays an
/// object, that `key` now reads as `member`, and that every other member
/// reads as before.
#[verifier::external_body]
pub(crate) fn json_insert(v: &mut serde_json::Value, key: &str, member: serde_json::Value)
    requires
        spec_json_is_object(*old(v)),
    ensures
        spec_json_is_object(*final(v)),
        spec_json_member(*final(v), key@) == member,
        spec_json_field_is_null(*final(v), key@) == spec_json_is_null(member),
        forall|k: Seq<char>|
            k != key@ ==> #[trigger] spec_json_member(*final(v), k) == spec_json_member(*old(v), k),
        forall|k: Seq<char>|
            k != key@ ==> #[trigger] spec_json_field_is_null(*final(v), k) == spec_json_field_is_null(*old(v), k),
{
    v[key] = member;
}

/// What `Value::as_u64` reads from a JSON value.
pub uninterp spec fn spec_json_u64(v: serde_json::Value) -> Option<u64>;

/// Calls `Value::as_u64`. The contract claims only that the result is a
/// function of the value.
#[verifier::external_body]
pub(crate) fn json_as_u64(v: &serde_json::Value) -> (r: Option<u64>)
    ensures
        r == spec_json_u64(*v),
{
    v.as_u64()
}

/// Calls `Value::is_null`. The contract claims only that the result is a
/// function of the value.
#[verifier::external_body]
pub(crate) fn json_is_null(v: &serde_json::Value) -> (r: bool)
    ensures
        r == spec_json_is_null(*v),
{
    v.is_null()
}

/// What `v[key]` of serde_json gives: the member `key` of an object, `Null`
/// when `v` is not an object or has no such member.
pub uninterp spec fn spec_json_member(v: serde_json::Value, key: Seq<char>) -> serde_json::Value;

/// Calls `Value::index(&str)` and clones what it gives. The contract claims
/// only that the result is a function of the value and the key.
#[verifier::external_body]
pub(crate) fn json_member(v: &serde_json::Value, key: &str) -> (r: serde_json::Value)
    ensures
        r == spec_json_member(*v, key@),
        spec_json_is_null(r) == spec_json_field_is_null(*v, key@),
{
    v[key].clone()
}

/// The text of a JSON string, as `Value::as_str` gives it; `None` for any
/// other value.
pub uninterp spec fn spec_json_str(v: serde_json::Value) -> Option<Seq<char>>;

/// Calls `Value::as_str` and copies the text. The contract claims only that
/// the result is a function of the value.
#[verifier::external_body]
pub(crate) fn json_as_str(v: &serde_json::Value) -> (r: Option<String>)
    ensures
        match r {
            Some(t) => spec_json_str(*v) == Some(t@),
            None => spec_json_str(*v) is None,
        },
{
    v.as_str().map(|t| t.to_string())
}

/// The items of a JSON array, as `Value::as_array` gives them; `None` for
/// any other value.
pub uninterp spec fn spec_json_array(v: serde_json::Value) -> Option<Seq<serde_json::Value>>;

/// Calls `Value::as_array` and clones the items. The contract claims only
/// that the result is a function of the value.
#[verifier::external_body]
pub(crate) fn json_as_array(v: &serde_json::Value) -> (r: Option<Vec<serde_json::Value>>)
    ensures
        match r {
            Some(items) => spec_json_array(*v) == Some(items@),
            None => spec_json_array(*v) is None,
        },
{
    v.as_array().cloned()
}

/// What `serde_json::from_str::<Value>` reads from a text: the value, or the
/// text of the error.
pub uninterp spec fn spec_json_parse(text: Seq<char>) -> Result<serde_json::Value, Seq<char>>;

/// Calls `serde_json::from_str::<Value>`, and `to_string` on the error. The
/// contract claims only that the result is a function of the text.
#[verifier::external_body]
pub(crate) fn json_parse(text: &str) -> (r: Result<serde_json::Value, String>)
    ensures
        match r {
            Ok(v) => spec_json_parse(text@) == Ok::<serde_json::Value, Seq<char>>(v),
            Err(e) => spec_json_parse(text@) == Err::<serde_json::Value, Seq<char>>(e@),
        },
{
    serde_json::from_str::<serde_json::Value>(text).map_err(|e| e.to_string())
}

} // verus!
