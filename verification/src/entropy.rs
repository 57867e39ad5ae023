//! Identifiers drawn from the operating system's random source.

use vstd::prelude::*;
use vstd::arithmetic::power::pow;
use rand::Rng;

verus! {

/// The lower-case hexadecimal digit of a value below sixteen.
pub open spec fn hex_digit(nibble: int) -> char {
    seq!['0', '1', '2', '3', '4', '5', '6', '7', '8', '9', 'a', 'b', 'c', 'd', 'e', 'f'][nibble]
}

/// The `digit`-th of the 32 hexadecimal digits of `id`, most significant first.
pub open spec fn nibble(id: u128, digit: int) -> int {
    (id as int / pow(16, (31 - digit) as nat)) % 16
}

/// Number of hyphens that stand before position `at` of a hyphenated identifier.
pub open spec fn hyphens_before(at: int) -> int {
    (if at > 8 { 1int } else { 0 }) + (if at > 13 { 1int } else { 0 }) + (if at > 18 { 1int }
    else { 0 }) + (if at > 23 { 1int } else { 0 })
}

/// The textual form of a 128-bit identifier: 32 lower-case hexadecimal digits,
/// most significant first, in groups of 8, 4, 4, 4 and 12 parted by hyphens.
pub open spec fn hyphenated(id: u128) -> Seq<char> {
    Seq::new(
        36,
        |at: int|
            if at == 8 || at == 13 || at == 18 || at == 23 {
                '-'
            } else {
                hex_digit(nibble(id, at - hyphens_before(at)))
            },
    )
}

/// The bits that every random identifier has in common: version 4 in the
/// thirteenth hexadecimal digit, and `10` on top of the seventeenth.
pub open spec fn is_random_identifier(id: u128) -> bool {
    id & 0x0000_0000_0000_f000_c000_0000_0000_0000 == 0x0000_0000_0000_4000_8000_0000_0000_0000
}

/// Calls `uuid::Uuid::new_v4` and hands the identifier out as its 128-bit
/// value (`Uuid::as_u128`). Which identifier comes back is left open; the
/// contract claims only the version and variant bits that `new_v4` always
/// sets. `new_v4` panics if the operating system yields no random bytes.
#[verifier::external_body]
pub(crate) fn random_uuid() -> (id: u128)
    ensures
        is_random_identifier(id),
{
    uuid::Uuid::new_v4().as_u128()
}

/// Formats an identifier as `uuid::Uuid` displays it (`Uuid::from_u128`, then
/// `to_string`): the contract claims the hyphenated lower-case form.
#[verifier::external_body]
pub(crate) fn uuid_text(id: u128) -> (text: String)
    ensures
        text@ == hyphenated(id),
{
    uuid::Uuid::from_u128(id).to_string()
}

/// Calls `rand::thread_rng().gen::<usize>()`. Nothing is claimed of the
/// number. `thread_rng` panics if its generator cannot be seeded.
#[verifier::external_body]
pub(crate) fn random_number() -> usize {
    rand::thread_rng().gen()
}

} // verus!
