//! Identifiers of Terminal requests built by the client.

use vstd::prelude::*;
use crate::decimal::{decimal_digits, decimal_string, lemma_decimal_digits_well_formed};
use std::time::{Duration, SystemTime, SystemTimeError};

verus! {

/// Request identifiers are kept below this bound.
pub const REQUEST_ID_MODULUS: u64 = 999_999_999_999_999_999;

/// The number behind a request identifier, given the time elapsed since the
/// Unix epoch in nanoseconds (`None` when the clock stands before the epoch):
/// the elapsed nanoseconds truncated to 64 bits, reduced modulo
/// `REQUEST_ID_MODULUS`, and raised to 1 where that gives 0.
pub open spec fn request_number(elapsed_nanos: Option<u128>) -> nat {
    let nanos: nat = match elapsed_nanos {
        Some(n) => (n as nat) % 0x1_0000_0000_0000_0000,
        None => 1,
    };
    let reduced = nanos % (REQUEST_ID_MODULUS as nat);
    if reduced == 0 {
        1
    } else {
        reduced
    }
}

/// The request identifier for a clock reading: the decimal text of
/// `request_number(elapsed_nanos)`.
pub fn request_id_for(elapsed_nanos: Option<u128>) -> (id: String)
    ensures
        id@ == decimal_digits(request_number(elapsed_nanos)),
        1 <= request_number(elapsed_nanos) < REQUEST_ID_MODULUS,
{
    let nanos: u64 = match elapsed_nanos {
        Some(n) => (n % 0x1_0000_0000_0000_0000u128) as u64,
        None => 1,
    };
    let reduced = nanos % REQUEST_ID_MODULUS;
    let number = if reduced == 0 {
        1
    } else {
        reduced
    };
    decimal_string(number)
}

#[verifier::external_type_specification]
#[verifier::external_body]
pub struct ExSystemTime(SystemTime);

#[verifier::external_type_specification]
#[verifier::external_body]
pub struct ExSystemTimeError(SystemTimeError);

/// Calls `SystemTime::now`. Nothing is stated of the clock's reading.
#[verifier::external_body]
fn system_time_now() -> SystemTime {
    SystemTime::now()
}

/// Calls `SystemTime::duration_since` with `UNIX_EPOCH`: the time elapsed
/// since the epoch, or an error where the clock stands before it. Nothing
/// is stated of which comes back.
#[verifier::external_body]
fn elapsed_since_unix_epoch(time: &SystemTime) -> Result<Duration, SystemTimeError> {
    time.duration_since(std::time::UNIX_EPOCH)
}

/// Calls `Duration::as_nanos`. Nothing is stated of the result, which
/// comes from the clock.
#[verifier::external_body]
fn duration_as_nanos(duration: &Duration) -> u128 {
    duration.as_nanos()
}

/// A fresh request identifier taken from the system clock. Whatever the
/// clock says, it is the decimal text of a number from 1 up to
/// `REQUEST_ID_MODULUS - 1`.
pub fn next_request_id() -> (id: String)
    ensures
        exists|elapsed_nanos: Option<u128>|
            id@ == decimal_digits(#[trigger] request_number(elapsed_nanos)),
        exists|n: nat| 1 <= n < REQUEST_ID_MODULUS && id@ == #[trigger] decimal_digits(n),
        id@.len() > 0,
        id@[0] != '0',
        forall|i: int| 0 <= i < id@.len() ==> '0' <= #[trigger] id@[i] <= '9',
{
    let now = system_time_now();
    let elapsed = match elapsed_since_unix_epoch(&now) {
        Ok(duration) => Some(duration_as_nanos(&duration)),
        Err(_) => None,
    };
    let id = request_id_for(elapsed);
    proof {
        assert(1 <= request_number(elapsed) < REQUEST_ID_MODULUS);
        lemma_decimal_digits_well_formed(request_number(elapsed));
    }
    id
}

/// The number behind a request identifier lies in `[1, REQUEST_ID_MODULUS)`;
/// a reading below the modulus is used as it is (0 becoming 1); readings
/// that differ by the modulus, or by 2^64, give the same number; and a
/// clock before the epoch gives 1.
pub proof fn lemma_request_number_laws(n: u128)
    ensures
        1 <= request_number(Some(n)) < REQUEST_ID_MODULUS,
        0 < n < REQUEST_ID_MODULUS ==> request_number(Some(n)) == n,
        request_number(Some(0)) == 1,
        request_number(None) == 1,
        n + REQUEST_ID_MODULUS < 0x1_0000_0000_0000_0000 ==> request_number(
            Some((n + REQUEST_ID_MODULUS) as u128),
        ) == request_number(Some(n)),
        n + 0x1_0000_0000_0000_0000 <= u128::MAX ==> request_number(
            Some((n + 0x1_0000_0000_0000_0000) as u128),
        ) == request_number(Some(n)),
{
    let m = REQUEST_ID_MODULUS as nat;
    let w: nat = 0x1_0000_0000_0000_0000;
    if n + REQUEST_ID_MODULUS < w {
        assert(((n + m) as nat) % w == n + m);
        assert((n as nat) % w == n);
        vstd::arithmetic::div_mod::lemma_mod_add_multiples_vanish(n as int, m as int);
    }
    if n + w <= u128::MAX {
        vstd::arithmetic::div_mod::lemma_mod_add_multiples_vanish(n as int, w as int);
    }
}

} // verus!
