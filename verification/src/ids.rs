//! Connection ids: random version-4 UUIDs of the uuid crate, held as their
//! 128-bit value and written in the hyphenated form.

use vstd::prelude::*;

verus! {

/// What `Uuid::parse_str` reads from a text, as the UUID's 128-bit value.
pub uninterp spec fn spec_uuid_parse(text: Seq<char>) -> Option<u128>;

/// The lower-case hexadecimal digit for `n` (below 16).
pub open spec fn hex_digit(n: nat) -> char {
    if n < 10 {
        ((n + 48) as u8) as char
    } else {
        ((n + 87) as u8) as char
    }
}

/// The hexadecimal digits of a 128-bit value, most significant first.
pub open spec fn hex_digits(value: u128) -> Seq<char> {
    Seq::new(32, |i: int| hex_digit(((value as nat) / pow16((31 - i) as nat)) % 16))
}

pub open spec fn pow16(e: nat) -> nat
    decreases e,
{
    if e == 0 {
        1
    } else {
        16 * pow16((e - 1) as nat)
    }
}

/// What `Uuid::to_string` writes for the UUID with this 128-bit value: its
/// 32 hexadecimal digits in lower case, in groups of 8, 4, 4, 4 and 12
/// joined by `-`.
pub open spec fn spec_uuid_text(value: u128) -> Seq<char> {
    let h = hex_digits(value);
    h.subrange(0, 8) + "-"@ + h.subrange(8, 12) + "-"@ + h.subrange(12, 16) + "-"@ + h.subrange(16, 20) + "-"@
        + h.subrange(20, 32)
}

/// Calls `Uuid::new_v4` and returns its 128-bit value; the value is random,
/// so nothing is claimed of it.
#[verifier::external_body]
pub(crate) fn random_uuid() -> (r: u128) {
    uuid::Uuid::new_v4().as_u128()
}

/// Calls `Uuid::from_u128` and `to_string`. The contract claims that the
/// text is the hyphenated lower-case form that `Display` writes, 36
/// characters long, and that `Uuid::parse_str` reads the same value back
/// from it.
#[verifier::external_body]
pub(crate) fn uuid_text(value: u128) -> (r: String)
    ensures
        r@ == spec_uuid_text(value),
        r@.len() == 36,
        spec_uuid_parse(r@) == Some(value),
{
    uuid::Uuid::from_u128(value).to_string()
}

/// Calls `Uuid::parse_str` and returns the UUID's 128-bit value. The
/// contract claims only that the result is a function of the text.
#[verifier::external_body]
pub(crate) fn uuid_parse(text: &str) -> (r: Option<u128>)
    ensures
        r == spec_uuid_parse(text@),
{
    match uuid::Uuid::parse_str(text) {
        Ok(u) => Some(u.as_u128()),
        Err(_) => None,
    }
}

/// A fresh random id, in the hyphenated form.
pub fn next_id() -> (r: String)
    ensures
        r@.len() == 36,
        spec_uuid_parse(r@) is Some,
        r@ == spec_uuid_text(spec_uuid_parse(r@)->0),
{
    uuid_text(random_uuid())
}

} // verus!
