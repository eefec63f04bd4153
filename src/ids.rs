//! Task identities: 128-bit values, minted and written through the uuid crate.

use vstd::prelude::*;
use crate::text::digit_char;

verus! {

/// The last `n` hexadecimal digits of `v`, most significant first, in lower case.
pub open spec fn hex_digits(v: nat, n: nat) -> Seq<char>
    decreases n,
{
    if n == 0 {
        Seq::empty()
    } else {
        hex_digits(v / 16, (n - 1) as nat).push(digit_char(v % 16))
    }
}

/// The hyphenated form of an identity: 8-4-4-4-12 lower-case hex digits.
pub open spec fn hyphenated(id: u128) -> Seq<char> {
    let h = hex_digits(id as nat, 32);
    h.subrange(0, 8) + seq!['-'] + h.subrange(8, 12) + seq!['-'] + h.subrange(12, 16) + seq!['-']
        + h.subrange(16, 20) + seq!['-'] + h.subrange(20, 32)
}

/// Relies on `uuid::Uuid::new_v4`: a fresh random identity, as its
/// big-endian 128-bit value (`Uuid::as_u128`). Nothing is promised of it.
#[verifier::external_body]
pub(crate) fn new_task_id() -> (r: u128) {
    uuid::Uuid::new_v4().as_u128()
}

/// Relies on `uuid::Uuid::from_u128` and the `Display` of `Uuid`, which
/// writes the hyphenated lower-case form of the big-endian bytes.
#[verifier::external_body]
pub(crate) fn id_text(id: u128) -> (r: String)
    ensures
        r@ == hyphenated(id),
{
    uuid::Uuid::from_u128(id).to_string()
}

} // verus!
