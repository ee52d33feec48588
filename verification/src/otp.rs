//! The one-time passcode generator. A passcode is a deterministic function
//! of the current timestamp and a monotonically advancing counter: the two
//! are framed as bytes, hashed with Keccak-256, and the first three digest
//! bytes are composed into a nine-digit decimal code. The inputs are
//! chain-visible, so the codes are auditable but not unpredictable; the
//! protocol accepts that trade-off because the environment offers no secure
//! entropy source.

use crate::codec::{lemma_otp_input_injective, otp_input, spec_otp_input};
use crate::hashing::{keccak256, keccak256_of};
use vstd::prelude::*;

verus! {

/// The smallest passcode the generator can produce.
pub open spec fn otp_min() -> u32 {
    100100100
}

/// The largest passcode the generator can produce.
pub open spec fn otp_max() -> u32 {
    255255255
}

/// How one digest byte contributes to the passcode: a value below 100 is
/// raised by 100 so that every contribution has three decimal digits and no
/// leading zero collapses.
pub open spec fn adjust_byte(b: u8) -> u32 {
    if b < 100 {
        (b + 100) as u32
    } else {
        b as u32
    }
}

/// The passcode composed from the first three bytes of a digest.
pub open spec fn compose_otp(digest: Seq<u8>) -> u32
    recommends
        digest.len() >= 3,
{
    ((adjust_byte(digest[0]) * 1000 + adjust_byte(digest[1])) * 1000 + adjust_byte(
        digest[2],
    )) as u32
}

/// What `generate_otp` returns for a given timestamp and counter value.
pub open spec fn spec_generate_otp(now: u64, salt: u64) -> u32 {
    compose_otp(keccak256_of(spec_otp_input(now, salt)))
}

/// Every adjusted byte lies between 100 and 255, so every passcode lies
/// between 100100100 and 255255255: exactly nine decimal digits.
pub proof fn lemma_otp_nine_digits(digest: Seq<u8>)
    requires
        digest.len() >= 3,
    ensures
        otp_min() <= compose_otp(digest) <= otp_max(),
{
    assert(100 <= adjust_byte(digest[0]) <= 255);
    assert(100 <= adjust_byte(digest[1]) <= 255);
    assert(100 <= adjust_byte(digest[2]) <= 255);
}

/// Two generator calls at the same timestamp but with different counter
/// values hand different inputs to the digest. The codes themselves can
/// still collide, since only three digest bytes survive into the code.
pub proof fn lemma_otp_seeds_distinct(now: u64, salt1: u64, salt2: u64)
    requires
        salt1 != salt2,
    ensures
        spec_otp_input(now, salt1) != spec_otp_input(now, salt2),
{
    lemma_otp_input_injective(now, salt1, salt2);
}

/// Generates the nine-digit passcode for `(now, salt)`.
pub fn generate_otp(now: u64, salt: u64) -> (r: u32)
    ensures
        r == spec_generate_otp(now, salt),
        otp_min() <= r <= otp_max(),
{
    let input = otp_input(now, salt);
    let digest = keccak256(&input);
    let mut part1: u32 = digest[0] as u32;
    if part1 < 100 {
        part1 = part1 + 100;
    }
    let mut part2: u32 = digest[1] as u32;
    if part2 < 100 {
        part2 = part2 + 100;
    }
    let mut part3: u32 = digest[2] as u32;
    if part3 < 100 {
        part3 = part3 + 100;
    }
    proof {
        let d = keccak256_of(spec_otp_input(now, salt));
        assert(part1 == adjust_byte(d[0]));
        assert(part2 == adjust_byte(d[1]));
        assert(part3 == adjust_byte(d[2]));
        lemma_otp_nine_digits(d);
    }
    (part1 * 1000 + part2) * 1000 + part3
}

} // verus!
