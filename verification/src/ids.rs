//! Tile identifiers: a deterministic linear congruential sequence and a
//! clock-based identifier.
use vstd::prelude::*;
use std::time::{Duration, SystemTime, SystemTimeError};

verus! {

/// Multiplier of the identifier sequence.
pub const LCG_MUL: u64 = 6364136223846793005;

/// Increment of the identifier sequence.
pub const LCG_INC: u64 = 1442695040888963407;

/// The identifier that `nano_id_seeded` derives from `seed`.
pub open spec fn seeded_id(seed: u64) -> u64 {
    ((seed as int * LCG_MUL as int + LCG_INC as int) % 0x1_0000_0000_0000_0000) as u64
}

/// The inverse of `LCG_MUL` modulo 2^64.
pub open spec fn lcg_mul_inverse() -> int {
    13877824140714322085
}

/// Distinct seeds give distinct identifiers: the multiplier is odd, so the
/// step is a bijection on 64-bit values.
pub proof fn seeded_id_is_injective(x: u64, y: u64)
    requires
        seeded_id(x) == seeded_id(y),
    ensures
        x == y,
{
    let n: int = 0x1_0000_0000_0000_0000;
    let m = LCG_MUL as int;
    let a = x as int * m + LCG_INC as int;
    let b = y as int * m + LCG_INC as int;
    vstd::arithmetic::div_mod::lemma_fundamental_div_mod(a, n);
    vstd::arithmetic::div_mod::lemma_fundamental_div_mod(b, n);
    let qa = a / n;
    let qb = b / n;
    let d = x as int - y as int;
    assert(m * lcg_mul_inverse() == n * 4787856489426250814 + 1);
    assert(d * m == n * (qa - qb)) by (nonlinear_arith)
        requires
            a == n * qa + a % n,
            b == n * qb + b % n,
            a % n == b % n,
            a == x as int * m + LCG_INC as int,
            b == y as int * m + LCG_INC as int,
            d == x as int - y as int,
    ;
    let t = (qa - qb) * lcg_mul_inverse() - d * 4787856489426250814;
    assert(d == n * t) by (nonlinear_arith)
        requires
            d * m == n * (qa - qb),
            m * lcg_mul_inverse() == n * 4787856489426250814 + 1,
            t == (qa - qb) * lcg_mul_inverse() - d * 4787856489426250814,
    ;
    assert(d == 0) by (nonlinear_arith)
        requires
            d == n * t,
            -n < d < n,
            n > 0,
    ;
}

/// One step of a linear congruential generator, computed modulo 2^64.
pub fn nano_id_seeded(seed: u64) -> (id: u64)
    ensures
        id == seeded_id(seed),
{
    let m = seed.wrapping_mul(LCG_MUL);
    let r = m.wrapping_add(LCG_INC);
    proof {
        let p = seed as int * LCG_MUL as int;
        vstd::arithmetic::div_mod::lemma_add_mod_noop(p, LCG_INC as int, 0x1_0000_0000_0000_0000);
        vstd::arithmetic::div_mod::lemma_mod_twice(LCG_INC as int, 0x1_0000_0000_0000_0000);
    }
    r
}

/// The clock of the standard library, declared so that its readings can be
/// carried through verified code.
#[verifier::external_type_specification]
#[verifier::external_body]
pub struct ExSystemTime(SystemTime);

/// The error that `SystemTime::duration_since` reports for a reading before
/// the reference point.
#[verifier::external_type_specification]
#[verifier::external_body]
pub struct ExSystemTimeError(SystemTimeError);

/// Calls `SystemTime::now`. The reading depends on the clock, so nothing is
/// stated of it.
#[verifier::external_body]
fn clock_now() -> SystemTime {
    SystemTime::now()
}

/// Calls `SystemTime::duration_since` with the Unix epoch as reference point.
/// Whether it succeeds depends on the reading, so nothing is stated of it.
#[verifier::external_body]
fn since_unix_epoch(t: &SystemTime) -> Result<Duration, SystemTimeError> {
    t.duration_since(std::time::UNIX_EPOCH)
}

/// Calls `Duration::as_nanos`. `Duration` is opaque here, so nothing is
/// stated of the count.
#[verifier::external_body]
fn duration_nanos(d: &Duration) -> u128 {
    d.as_nanos()
}

/// The identifier made of a clock reading: the nanoseconds since the Unix
/// epoch truncated to 64 bits, or 0 for a reading before the epoch (`None`).
pub open spec fn id_of_reading(nanos: Option<u128>) -> u64 {
    match nanos {
        Some(n) => (n % 0x1_0000_0000_0000_0000) as u64,
        None => 0,
    }
}

/// Turns a clock reading in nanoseconds since the Unix epoch into an
/// identifier: truncated to 64 bits, or 0 for a reading before the epoch.
pub fn id_from_nanos(nanos: Option<u128>) -> (id: u64)
    ensures
        id == id_of_reading(nanos),
{
    match nanos {
        Some(n) => (n % 0x1_0000_0000_0000_0000) as u64,
        None => 0,
    }
}

/// Nanoseconds since the Unix epoch, truncated to 64 bits, or 0 when the
/// clock reads a time before the epoch. The reading itself depends on the
/// clock; `id_from_nanos` states what is made of it.
pub fn nano_id() -> u64 {
    let now = clock_now();
    let reading: Option<u128> = match since_unix_epoch(&now) {
        Ok(d) => Some(duration_nanos(&d)),
        Err(_) => None,
    };
    id_from_nanos(reading)
}

} // verus!
