//! The names of workers.

use vstd::prelude::*;

verus! {

/// The unique name of a worker: a universally unique identifier, as a number.
pub type WorkerId = u128;

/// A digit of a number to the base of sixteen.
pub open spec fn hex_digit(d: nat) -> char
    recommends
        d < 16,
{
    if d < 10 {
        (0x30 + d) as char
    } else {
        (0x61 + d - 10) as char
    }
}

/// The last digits of a number to the base of sixteen, so many of them.
pub open spec fn hex(n: nat, width: nat) -> Seq<char>
    decreases width,
{
    if width == 0 {
        Seq::empty()
    } else {
        hex(n / 16, (width - 1) as nat).push(hex_digit(n % 16))
    }
}

/// The name of a worker, as it is shown: its digits to the base of sixteen, in five groups.
pub open spec fn shown_id(id: WorkerId) -> Seq<char> {
    let digits = hex(id as nat, 32);
    digits.subrange(0, 8) + "-"@ + digits.subrange(8, 12) + "-"@ + digits.subrange(12, 16) + "-"@
        + digits.subrange(16, 20) + "-"@ + digits.subrange(20, 32)
}

/// Calls `uuid::Uuid::from_u128` and formats what it made with `{}`: the digits of the number
/// to the base of sixteen, in lower case and in groups of eight, four, four, four and twelve
/// with dashes between them.
#[verifier::external_body]
pub(crate) fn show_id(id: WorkerId) -> (r: String)
    ensures
        r@ == shown_id(id),
{
    uuid::Uuid::from_u128(id).to_string()
}

} // verus!
