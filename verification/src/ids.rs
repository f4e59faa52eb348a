//! Identifiers: UUIDs, held as their 128-bit value.

use vstd::prelude::*;

verus! {

/// The lower-case hexadecimal digit for `d < 16`.
pub open spec fn hex_digit(d: nat) -> char {
    if d < 10 {
        ((48 + d) as u8) as char
    } else {
        ((87 + d) as u8) as char
    }
}

/// `16^e`.
pub open spec fn sixteen_pow(e: nat) -> nat
    decreases e,
{
    if e == 0 {
        1
    } else {
        16 * sixteen_pow((e - 1) as nat)
    }
}

/// The 32 lower-case hexadecimal digits of a 128-bit value, most
/// significant first.
pub open spec fn hex32(id: nat) -> Seq<char> {
    Seq::new(32, |i: int| hex_digit((id / sixteen_pow((31 - i) as nat)) % 16))
}

/// The hyphenated form of a UUID: its digits in groups of 8, 4, 4, 4 and 12.
pub open spec fn uuid_hyphenated(id: nat) -> Seq<char> {
    let h = hex32(id);
    h.subrange(0, 8) + seq!['-'] + h.subrange(8, 12) + seq!['-'] + h.subrange(12, 16) + seq!['-']
        + h.subrange(16, 20) + seq!['-'] + h.subrange(20, 32)
}

/// `uuid::Uuid::new_v4`, as the identifier's 128-bit value. The value is
/// random; nothing is stated of it.
#[verifier::external_body]
pub(crate) fn new_uuid() -> u128 {
    uuid::Uuid::new_v4().as_u128()
}

/// `uuid::Uuid::from_u128(id).to_string()`: the UUID's lower-case
/// hyphenated form, which the uuid crate writes from the big-endian bytes of
/// the value.
#[verifier::external_body]
pub(crate) fn uuid_text(id: u128) -> (r: String)
    ensures
        r@ == uuid_hyphenated(id as nat),
{
    uuid::Uuid::from_u128(id).to_string()
}

} // verus!
