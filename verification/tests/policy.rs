//! Policy administration, the passcode generator observed from outside,
//! and the exact byte framing behind the transaction identifiers.

use secure_transaction_system::codec::{encode_record, status_byte, u64_to_be_bytes};
use secure_transaction_system::errors::Error;
use secure_transaction_system::ledger::{PaymentContract, DEFAULT_EXPIRY, DEFAULT_THRESHOLD};
use secure_transaction_system::record::{PaymentInfo, PaymentStatus};
use secure_transaction_system::AccountId;

const ADMIN: AccountId = AccountId { id: 3 };
const SENDER: AccountId = AccountId { id: 4 };
const RECEIVER: AccountId = AccountId { id: 5 };
const OUTSIDER: AccountId = AccountId { id: 9 };

#[test]
fn new_works() {
    let c = PaymentContract::new(ADMIN);
    assert_eq!(c.view_threshold_value(), DEFAULT_THRESHOLD);
    assert_eq!(c.view_threshold_value(), 100_000_000_000_000);
    assert_eq!(c.view_expiry_period(), DEFAULT_EXPIRY);
    assert_eq!(c.view_expiry_period(), 86_400_000);
    assert_eq!(c.view_admin(), ADMIN);
    assert_eq!(c.view_salt(), 0);
}

#[test]
fn only_admin_sets_threshold() {
    let mut c = PaymentContract::new(ADMIN);
    assert_eq!(c.set_threshold_amount(ADMIN, 1_000), Ok(()));
    assert_eq!(c.view_threshold_value(), 1_000);

    assert_eq!(c.set_threshold_amount(OUTSIDER, 5), Err(Error::InvalidCaller));
    assert_eq!(c.view_threshold_value(), 1_000);
}

#[test]
fn only_admin_sets_expiry_period() {
    let mut c = PaymentContract::new(ADMIN);
    assert_eq!(c.set_expiry_period(ADMIN, 2_000), Ok(()));
    assert_eq!(c.view_expiry_period(), 2_000);

    assert_eq!(c.set_expiry_period(OUTSIDER, 7), Err(Error::InvalidCaller));
    assert_eq!(c.view_expiry_period(), 2_000);
}

#[test]
fn threshold_change_governs_acceptance() {
    let mut c = PaymentContract::with_policy(ADMIN, 100, 1_000);
    assert_eq!(c.set_threshold_amount(ADMIN, 1_000), Ok(()));
    let r = c.send_payment(SENDER, 500, 100, RECEIVER, 500);
    assert_eq!(r.err(), Some(Error::BelowThresholdValue));
    assert!(c.send_payment(SENDER, 1_000, 100, RECEIVER, 1_000).is_ok());
}

#[test]
fn otp_has_nine_digits() {
    let mut c = PaymentContract::with_policy(ADMIN, 100, 1_000);
    for i in 0..20u64 {
        let ev = c
            .send_payment(SENDER, 500, 100 + i, RECEIVER, 500)
            .unwrap();
        assert!(ev.otp >= 100_100_100, "otp {} has fewer than nine digits", ev.otp);
        assert!(ev.otp <= 255_255_255, "otp {} is out of range", ev.otp);
    }
}

#[test]
fn otp_counter_advances_only_on_generation() {
    let mut c = PaymentContract::with_policy(ADMIN, 100, 1_000);
    assert_eq!(c.view_salt(), 0);
    let _ = c.send_payment(SENDER, 400, 100, RECEIVER, 500);
    assert_eq!(c.view_salt(), 0);
    let _ = c.send_payment(SENDER, 500, 100, RECEIVER, 500).unwrap();
    assert_eq!(c.view_salt(), 1);
    let _ = c.send_payment(SENDER, 500, 100, RECEIVER, 500).unwrap();
    assert_eq!(c.view_salt(), 2);
}

#[test]
fn otp_is_deterministic_in_time_and_counter() {
    let mut c1 = PaymentContract::with_policy(ADMIN, 100, 1_000);
    let mut c2 = PaymentContract::with_policy(ADMIN, 100, 1_000);
    let ev1 = c1.send_payment(SENDER, 500, 777, RECEIVER, 500).unwrap();
    let ev2 = c2.send_payment(SENDER, 500, 777, RECEIVER, 500).unwrap();
    // Same timestamp, same counter, same record: same passcode, and the
    // same content-derived identifier.
    assert_eq!(ev1.otp, ev2.otp);
    assert!(ev1.payment_id == ev2.payment_id);
}

#[test]
fn otps_at_one_timestamp_differ_while_counter_moves() {
    let mut c = PaymentContract::with_policy(ADMIN, 100, 1_000);
    let mut otps: Vec<u32> = Vec::new();
    for _ in 0..10 {
        let ev = c.send_payment(SENDER, 500, 4_242, RECEIVER, 500).unwrap();
        otps.push(ev.otp);
    }
    for i in 0..otps.len() {
        for j in 0..i {
            assert_ne!(otps[i], otps[j], "codes {} and {} repeated", i, j);
        }
    }
}

#[test]
fn transaction_id_is_a_digest_of_the_encoding() {
    let c = PaymentContract::with_policy(ADMIN, 100, 1_000);
    let info = PaymentInfo {
        sender: SENDER,
        receiver: RECEIVER,
        amount: 500,
        otp: 123_456_789,
        otp_attempts: 1,
        recorded_time: 100,
        status: PaymentStatus::Waiting,
    };
    let id = c.get_transaction_id(&info);
    let encoded = encode_record(&info);
    // A SHA-256 name is 32 bytes, not the 62-byte encoding itself.
    assert_eq!(id.bytes.len(), 32);
    assert_eq!(encoded.len(), 62);
    assert_ne!(id.bytes, encoded);

    // The name is content-derived: the same record gives the same name,
    // a record differing in one field another.
    let id_again = c.get_transaction_id(&info);
    assert!(id == id_again);
    let other = PaymentInfo { otp: 123_456_788, ..info };
    let id_other = c.get_transaction_id(&other);
    assert!(id != id_other);
}

#[test]
fn record_encoding_is_fixed_width_and_exact() {
    let info = PaymentInfo {
        sender: AccountId { id: 1 },
        receiver: AccountId { id: 2 },
        amount: 3,
        otp: 0x0403_0201,
        otp_attempts: 1,
        recorded_time: 0x0807_0605_0403_0201,
        status: PaymentStatus::Waiting,
    };
    let encoded = encode_record(&info);
    assert_eq!(encoded.len(), 62);
    // sender, sixteen bytes, least significant first
    assert_eq!(&encoded[0..16], &[1, 0, 0, 0, 0, 0, 0, 0, 0, 0, 0, 0, 0, 0, 0, 0]);
    // receiver
    assert_eq!(&encoded[16..32], &[2, 0, 0, 0, 0, 0, 0, 0, 0, 0, 0, 0, 0, 0, 0, 0]);
    // amount
    assert_eq!(&encoded[32..48], &[3, 0, 0, 0, 0, 0, 0, 0, 0, 0, 0, 0, 0, 0, 0, 0]);
    // passcode, four bytes
    assert_eq!(&encoded[48..52], &[1, 2, 3, 4]);
    // used verification slots, one byte
    assert_eq!(encoded[52], 1);
    // creation time, eight bytes
    assert_eq!(&encoded[53..61], &[1, 2, 3, 4, 5, 6, 7, 8]);
    // status code
    assert_eq!(encoded[61], 1);
}

#[test]
fn status_codes_follow_declaration_order() {
    assert_eq!(status_byte(PaymentStatus::Expired), 0);
    assert_eq!(status_byte(PaymentStatus::Waiting), 1);
    assert_eq!(status_byte(PaymentStatus::AllAttemptsFailed), 2);
    assert_eq!(status_byte(PaymentStatus::Success), 3);
    assert_eq!(status_byte(PaymentStatus::Refunded), 4);
}

#[test]
fn big_endian_framing_is_exact() {
    let bytes = u64_to_be_bytes(0x0102_0304_0506_0708);
    assert_eq!(bytes, vec![1, 2, 3, 4, 5, 6, 7, 8]);
    assert_eq!(u64_to_be_bytes(0), vec![0; 8]);
    assert_eq!(u64_to_be_bytes(u64::MAX), vec![0xff; 8]);
}
