//! Byte framing. A payment record is named by the digest of its encoding,
//! so the encoding is pinned down exactly: the fixed-width fields of the
//! record, least-significant byte first, in declaration order, with the
//! status as a one-byte code. The passcode generator is seeded with the
//! timestamp and the counter, most-significant byte first.

use crate::record::{PaymentInfo, PaymentStatus};
use crate::AccountId;
use vstd::bytes::{
    lemma_auto_spec_u64_to_from_le_bytes, spec_u128_to_le_bytes, spec_u32_to_le_bytes,
    spec_u64_from_le_bytes, spec_u64_to_le_bytes, u128_to_le_bytes, u32_to_le_bytes,
    u64_to_le_bytes,
};
use vstd::prelude::*;

verus! {

/// The one-byte code that stands for a status in the encoded record, by
/// declaration order of the variants.
pub open spec fn status_code(s: PaymentStatus) -> u8 {
    match s {
        PaymentStatus::Expired => 0,
        PaymentStatus::Waiting => 1,
        PaymentStatus::AllAttemptsFailed => 2,
        PaymentStatus::Success => 3,
        PaymentStatus::Refunded => 4,
    }
}

/// Returns the one-byte code of `s`.
pub fn status_byte(s: PaymentStatus) -> (r: u8)
    ensures
        r == status_code(s),
{
    match s {
        PaymentStatus::Expired => 0,
        PaymentStatus::Waiting => 1,
        PaymentStatus::AllAttemptsFailed => 2,
        PaymentStatus::Success => 3,
        PaymentStatus::Refunded => 4,
    }
}

/// How an account identifier stands in the encoded record: its sixteen
/// bytes, least-significant first.
pub open spec fn spec_account_bytes(a: AccountId) -> Seq<u8> {
    spec_u128_to_le_bytes(a.id)
}

/// The encoding whose digest names a payment record: every field of the
/// record, fixed-width, in declaration order.
pub open spec fn spec_encode_record(r: PaymentInfo) -> Seq<u8> {
    spec_account_bytes(r.sender) + spec_account_bytes(r.receiver) + spec_u128_to_le_bytes(
        r.amount,
    ) + spec_u32_to_le_bytes(r.otp) + seq![r.otp_attempts] + spec_u64_to_le_bytes(
        r.recorded_time,
    ) + seq![status_code(r.status)]
}

/// Encodes `r` as the byte sequence whose digest names it.
pub fn encode_record(r: &PaymentInfo) -> (out: Vec<u8>)
    ensures
        out@ == spec_encode_record(*r),
{
    let mut out: Vec<u8> = Vec::new();
    let mut sender_bytes = u128_to_le_bytes(r.sender.id);
    out.append(&mut sender_bytes);
    let mut receiver_bytes = u128_to_le_bytes(r.receiver.id);
    out.append(&mut receiver_bytes);
    let mut amount_bytes = u128_to_le_bytes(r.amount);
    out.append(&mut amount_bytes);
    let mut otp_bytes = u32_to_le_bytes(r.otp);
    out.append(&mut otp_bytes);
    out.push(r.otp_attempts);
    let mut time_bytes = u64_to_le_bytes(r.recorded_time);
    out.append(&mut time_bytes);
    out.push(status_byte(r.status));
    proof {
        assert(out@ =~= spec_encode_record(*r));
    }
    out
}

/// The eight bytes of `x`, most-significant first.
pub open spec fn spec_u64_to_be_bytes(x: u64) -> Seq<u8> {
    Seq::new(8, |i: int| spec_u64_to_le_bytes(x)[7 - i])
}

/// Writes `x` as eight bytes, most-significant first.
pub fn u64_to_be_bytes(x: u64) -> (r: Vec<u8>)
    ensures
        r@ == spec_u64_to_be_bytes(x),
        r@.len() == 8,
{
    proof {
        lemma_auto_spec_u64_to_from_le_bytes();
    }
    let le = u64_to_le_bytes(x);
    let mut r: Vec<u8> = Vec::new();
    for i in 0..8
        invariant
            le@ == spec_u64_to_le_bytes(x),
            le@.len() == 8,
            r@.len() == i,
            forall|j: int| 0 <= j < i ==> r@[j] == spec_u64_to_le_bytes(x)[7 - j],
    {
        r.push(le[7 - i]);
    }
    proof {
        assert(r@ =~= spec_u64_to_be_bytes(x));
    }
    r
}

/// What the passcode generator hashes: the timestamp, then the counter,
/// each as eight bytes with the most significant first.
pub open spec fn spec_otp_input(now: u64, salt: u64) -> Seq<u8> {
    spec_u64_to_be_bytes(now) + spec_u64_to_be_bytes(salt)
}

/// Builds the seed bytes for the passcode generator.
pub fn otp_input(now: u64, salt: u64) -> (r: Vec<u8>)
    ensures
        r@ == spec_otp_input(now, salt),
{
    let mut r = u64_to_be_bytes(now);
    let mut salt_bytes = u64_to_be_bytes(salt);
    r.append(&mut salt_bytes);
    r
}

/// Writing a value most-significant byte first loses nothing: equal byte
/// sequences come only from equal values.
pub proof fn lemma_u64_be_bytes_injective(x: u64, y: u64)
    requires
        spec_u64_to_be_bytes(x) == spec_u64_to_be_bytes(y),
    ensures
        x == y,
{
    lemma_auto_spec_u64_to_from_le_bytes();
    assert forall|j: int| 0 <= j < 8 implies spec_u64_to_le_bytes(x)[j] == spec_u64_to_le_bytes(
        y,
    )[j] by {
        assert(spec_u64_to_be_bytes(x)[7 - j] == spec_u64_to_le_bytes(x)[j]);
        assert(spec_u64_to_be_bytes(y)[7 - j] == spec_u64_to_le_bytes(y)[j]);
    }
    assert(spec_u64_to_le_bytes(x) =~= spec_u64_to_le_bytes(y));
    assert(spec_u64_from_le_bytes(spec_u64_to_le_bytes(x)) == x);
    assert(spec_u64_from_le_bytes(spec_u64_to_le_bytes(y)) == y);
}

/// Two generator seeds taken at the same timestamp but with different
/// counter values are different byte sequences, so the generator never
/// hands the very same input to the digest twice while the counter moves.
pub proof fn lemma_otp_input_injective(now: u64, salt1: u64, salt2: u64)
    requires
        salt1 != salt2,
    ensures
        spec_otp_input(now, salt1) != spec_otp_input(now, salt2),
{
    lemma_auto_spec_u64_to_from_le_bytes();
    if spec_otp_input(now, salt1) == spec_otp_input(now, salt2) {
        assert forall|i: int| 0 <= i < 8 implies spec_u64_to_be_bytes(salt1)[i]
            == spec_u64_to_be_bytes(salt2)[i] by {
            assert(spec_otp_input(now, salt1)[8 + i] == spec_u64_to_be_bytes(salt1)[i]);
            assert(spec_otp_input(now, salt2)[8 + i] == spec_u64_to_be_bytes(salt2)[i]);
        }
        assert(spec_u64_to_be_bytes(salt1) =~= spec_u64_to_be_bytes(salt2));
        lemma_u64_be_bytes_injective(salt1, salt2);
    }
}

} // verus!
