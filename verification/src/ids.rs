//! Identifiers of challenges and long-running operations, which the service
//! exchanges as UUIDs. The library holds them as their 128-bit value.

use vstd::prelude::*;

verus! {

/// The lowercase hexadecimal digit for `d`, which is below sixteen.
pub open spec fn hex_digit(d: u128) -> char {
    if d < 10 {
        (48 + d) as char
    } else {
        (87 + d) as char
    }
}

/// The `k`-th hexadecimal digit of `id`, counting from the most significant.
pub open spec fn nibble(id: u128, k: int) -> u128 {
    (id >> ((31 - k) * 4) as u128) & 0xf
}

/// The 32 lowercase hexadecimal digits of `id`, most significant first.
pub open spec fn hex_digits(id: u128) -> Seq<char> {
    Seq::new(32, |k: int| hex_digit(nibble(id, k)))
}

/// The hyphenated form of a UUID: its hexadecimal digits in groups of
/// 8, 4, 4, 4 and 12, joined by `-`.
pub open spec fn hyphenated(id: u128) -> Seq<char> {
    let h = hex_digits(id);
    h.subrange(0, 8) + seq!['-'] + h.subrange(8, 12) + seq!['-'] + h.subrange(12, 16) + seq![
        '-',
    ] + h.subrange(16, 20) + seq!['-'] + h.subrange(20, 32)
}

/// `id` is a random (version 4, RFC 4122 variant) UUID: its version digit is
/// 4 and the two top bits of its variant byte are `10`.
pub open spec fn is_random_uuid(id: u128) -> bool {
    &&& (id >> 76u128) & 0xf == 4
    &&& (id >> 62u128) & 0x3 == 2
}

/// Calls `uuid::Uuid::new_v4` and returns the UUID's value. The crate's
/// source draws 128 random bits and then sets the version digit to 4 and
/// the variant bits to `10`; that is all that is stated. The crate panics
/// where the operating system's random source fails, which no precondition
/// can rule out.
#[verifier::external_body]
fn random_uuid() -> (id: u128)
    ensures
        is_random_uuid(id),
{
    uuid::Uuid::new_v4().as_u128()
}

/// Calls the `Display` impl of `uuid::Uuid` on the UUID with value `id`.
/// The crate documents and implements it as the lowercase hyphenated form.
#[verifier::external_body]
fn uuid_text(id: u128) -> (text: String)
    ensures
        text@ == hyphenated(id),
{
    uuid::Uuid::from_u128(id).to_string()
}

/// The text form of the UUID with value `id`, as the service expects it.
pub fn id_text(id: u128) -> (text: String)
    ensures
        text@ == hyphenated(id),
        text@.len() == 36,
{
    uuid_text(id)
}

/// The operation id of a long-running operation: the one given, so that a
/// timed-out operation can be retried under the same id, or else a fresh
/// random UUID.
pub fn resolve_operation_id(given: Option<u128>) -> (id: u128)
    ensures
        given matches Some(g) ==> id == g,
        given is None ==> is_random_uuid(id),
{
    match given {
        Some(g) => g,
        None => random_uuid(),
    }
}

} // verus!
