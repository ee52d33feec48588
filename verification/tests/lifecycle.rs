//! The payment lifecycle driven through the public operations: create,
//! claim, burn verification slots, expire, reclaim.

use secure_transaction_system::errors::Error;
use secure_transaction_system::ledger::{LedgerStep, PaymentContract, PendingKind, PendingTransfer};
use secure_transaction_system::record::{PaymentStatus, TransactionId};
use secure_transaction_system::AccountId;

const ADMIN: AccountId = AccountId { id: 3 };
const SENDER: AccountId = AccountId { id: 4 };
const RECEIVER: AccountId = AccountId { id: 5 };
const OUTSIDER: AccountId = AccountId { id: 9 };

fn small_contract() -> PaymentContract {
    PaymentContract::with_policy(ADMIN, 100, 1_000)
}

fn need_transfer(step: LedgerStep) -> PendingTransfer {
    match step {
        LedgerStep::NeedsTransfer(p) => p,
        LedgerStep::Failed(e) => panic!("expected an owed transfer, got {:?}", e),
    }
}

fn failed_with(step: LedgerStep) -> Error {
    match step {
        LedgerStep::Failed(e) => e,
        LedgerStep::NeedsTransfer(_) => panic!("expected a failure, got an owed transfer"),
    }
}

#[test]
fn initiate_then_view_shows_waiting_record() {
    let mut c = small_contract();
    let ev = c
        .send_payment(SENDER, 500, 100, RECEIVER, 500)
        .expect("transfer above threshold must be accepted");
    assert_eq!(ev.sender, SENDER);
    assert_eq!(ev.receiver, RECEIVER);
    assert_eq!(ev.amount, 500);

    let info = c.view_payment_record(&ev.payment_id).unwrap();
    assert_eq!(info.status, PaymentStatus::Waiting);
    assert_eq!(info.otp_attempts, 1);
    assert_eq!(info.amount, 500);
    assert_eq!(info.sender, SENDER);
    assert_eq!(info.receiver, RECEIVER);
    assert_eq!(info.recorded_time, 100);
    assert_eq!(info.otp, ev.otp);
}

#[test]
fn balance_mismatch_creates_no_record() {
    let mut c = small_contract();
    let r = c.send_payment(SENDER, 400, 100, RECEIVER, 500);
    assert_eq!(r.err(), Some(Error::BalanceMismatch));
    // Nothing ran: the passcode counter did not move.
    assert_eq!(c.view_salt(), 0);
}

#[test]
fn zero_balance_rejected() {
    let mut c = small_contract();
    let r = c.send_payment(SENDER, 0, 100, RECEIVER, 0);
    assert_eq!(r.err(), Some(Error::ZeroBalance));
    assert_eq!(c.view_salt(), 0);
}

#[test]
fn below_threshold_rejected() {
    let mut c = small_contract();
    let r = c.send_payment(SENDER, 99, 100, RECEIVER, 99);
    assert_eq!(r.err(), Some(Error::BelowThresholdValue));
    assert_eq!(c.view_salt(), 0);
}

#[test]
fn claim_with_correct_otp_succeeds_exactly_once() {
    let mut c = small_contract();
    let ev = c.send_payment(SENDER, 500, 100, RECEIVER, 500).unwrap();

    let pending = need_transfer(c.receive_payment(RECEIVER, 200, &ev.payment_id, ev.otp));
    assert_eq!(pending.kind, PendingKind::ReleaseToReceiver);
    assert_eq!(pending.to, RECEIVER);
    assert_eq!(pending.amount, 500);
    // Until the host confirms the transfer, the record still waits.
    assert_eq!(
        c.view_payment_record(&ev.payment_id).unwrap().status,
        PaymentStatus::Waiting
    );

    assert_eq!(c.confirm_transfer(&pending), Ok(()));
    assert_eq!(
        c.view_payment_record(&ev.payment_id).unwrap().status,
        PaymentStatus::Success
    );

    // A second claim finds the record no longer waiting.
    let e = failed_with(c.receive_payment(RECEIVER, 300, &ev.payment_id, ev.otp));
    assert_eq!(e, Error::AlreadyReceivedPayment);
}

#[test]
fn wrong_otp_three_times_then_removal() {
    let mut c = small_contract();
    let ev = c.send_payment(SENDER, 500, 100, RECEIVER, 500).unwrap();
    let wrong = ev.otp ^ 1;

    for expected_attempts in 2..=4u8 {
        let e = failed_with(c.receive_payment(RECEIVER, 200, &ev.payment_id, wrong));
        assert_eq!(e, Error::WrongOTP);
        let info = c.view_payment_record(&ev.payment_id).unwrap();
        assert_eq!(info.status, PaymentStatus::Waiting);
        assert_eq!(info.otp_attempts, expected_attempts);
    }

    // The fourth wrong submission owes the sender a refund and, once the
    // host confirms it, the record is gone.
    let pending = need_transfer(c.receive_payment(RECEIVER, 200, &ev.payment_id, wrong));
    assert_eq!(pending.kind, PendingKind::RefundAttemptsExhausted);
    assert_eq!(pending.to, SENDER);
    assert_eq!(pending.amount, 500);
    assert_eq!(c.confirm_transfer(&pending), Err(Error::AttemptsExceedLimit));
    assert_eq!(
        c.view_payment_record(&ev.payment_id).err(),
        Some(Error::PaymentRecordMissing)
    );
}

#[test]
fn expired_claim_fails_regardless_of_otp() {
    let mut c = small_contract();
    let ev = c.send_payment(SENDER, 500, 100, RECEIVER, 500).unwrap();

    // Deadline is 100 + 1000; the first moment past it is 1101.
    let e = failed_with(c.receive_payment(RECEIVER, 1_101, &ev.payment_id, ev.otp));
    assert_eq!(e, Error::TimeLimitExceeded);
    assert_eq!(
        c.view_payment_record(&ev.payment_id).unwrap().status,
        PaymentStatus::Expired
    );

    // The same with a wrong passcode on a fresh record.
    let mut c2 = small_contract();
    let ev2 = c2.send_payment(SENDER, 500, 100, RECEIVER, 500).unwrap();
    let e2 = failed_with(c2.receive_payment(RECEIVER, 1_101, &ev2.payment_id, ev2.otp ^ 1));
    assert_eq!(e2, Error::TimeLimitExceeded);
}

#[test]
fn claim_at_deadline_still_allowed() {
    let mut c = small_contract();
    let ev = c.send_payment(SENDER, 500, 100, RECEIVER, 500).unwrap();
    // Exactly at the deadline the record is not yet expired.
    let pending = need_transfer(c.receive_payment(RECEIVER, 1_100, &ev.payment_id, ev.otp));
    assert_eq!(pending.kind, PendingKind::ReleaseToReceiver);
}

#[test]
fn claim_by_wrong_caller_rejected() {
    let mut c = small_contract();
    let ev = c.send_payment(SENDER, 500, 100, RECEIVER, 500).unwrap();
    let e = failed_with(c.receive_payment(OUTSIDER, 200, &ev.payment_id, ev.otp));
    assert_eq!(e, Error::InvalidReceiver);
}

#[test]
fn refund_before_expiry_not_allowed() {
    let mut c = small_contract();
    let ev = c.send_payment(SENDER, 500, 100, RECEIVER, 500).unwrap();
    let e = failed_with(c.get_refund(SENDER, 500, &ev.payment_id));
    assert_eq!(e, Error::NotAllowed);
    assert_eq!(
        c.view_payment_record(&ev.payment_id).unwrap().status,
        PaymentStatus::Waiting
    );
}

#[test]
fn refund_after_expiry_by_sender_succeeds() {
    let mut c = small_contract();
    let ev = c.send_payment(SENDER, 500, 100, RECEIVER, 500).unwrap();

    let pending = need_transfer(c.get_refund(SENDER, 2_000, &ev.payment_id));
    assert_eq!(pending.kind, PendingKind::RefundExpired);
    assert_eq!(pending.to, SENDER);
    assert_eq!(pending.amount, 500);

    assert_eq!(c.confirm_transfer(&pending), Ok(()));
    assert_eq!(
        c.view_payment_record(&ev.payment_id).unwrap().status,
        PaymentStatus::Refunded
    );

    // A refunded record cannot be refunded again.
    let e = failed_with(c.get_refund(SENDER, 3_000, &ev.payment_id));
    assert_eq!(e, Error::NotAllowed);
}

#[test]
fn refund_by_non_sender_rejected_regardless_of_expiry() {
    let mut c = small_contract();
    let ev = c.send_payment(SENDER, 500, 100, RECEIVER, 500).unwrap();
    let e = failed_with(c.get_refund(OUTSIDER, 500, &ev.payment_id));
    assert_eq!(e, Error::InvalidSender);
    let e = failed_with(c.get_refund(OUTSIDER, 2_000, &ev.payment_id));
    assert_eq!(e, Error::InvalidSender);
    // The receiver is not the sender either.
    let e = failed_with(c.get_refund(RECEIVER, 2_000, &ev.payment_id));
    assert_eq!(e, Error::InvalidSender);
}

#[test]
fn refund_still_possible_after_expired_claim() {
    let mut c = small_contract();
    let ev = c.send_payment(SENDER, 500, 100, RECEIVER, 500).unwrap();
    // A late claim marks the record Expired but keeps it in storage.
    let e = failed_with(c.receive_payment(RECEIVER, 1_200, &ev.payment_id, ev.otp));
    assert_eq!(e, Error::TimeLimitExceeded);
    // So the sender can still reclaim.
    let pending = need_transfer(c.get_refund(SENDER, 1_300, &ev.payment_id));
    assert_eq!(c.confirm_transfer(&pending), Ok(()));
    assert_eq!(
        c.view_payment_record(&ev.payment_id).unwrap().status,
        PaymentStatus::Refunded
    );
}

#[test]
fn unknown_identifier_reported_missing() {
    let mut c = small_contract();
    let fake = TransactionId { bytes: vec![0u8; 32] };
    assert_eq!(
        failed_with(c.receive_payment(RECEIVER, 100, &fake, 123_456_789)),
        Error::PaymentRecordMissing
    );
    assert_eq!(
        failed_with(c.get_refund(SENDER, 100, &fake)),
        Error::PaymentRecordMissing
    );
    assert_eq!(
        c.view_payment_record(&fake).err(),
        Some(Error::PaymentRecordMissing)
    );
    assert_eq!(
        c.view_payment_expiry_time(&fake).err(),
        Some(Error::PaymentRecordMissing)
    );
}

#[test]
fn expiry_deadline_reported_and_overflow_is_an_error() {
    let mut c = small_contract();
    let ev = c.send_payment(SENDER, 500, 100, RECEIVER, 500).unwrap();
    assert_eq!(c.view_payment_expiry_time(&ev.payment_id), Ok(1_100));

    let mut far = PaymentContract::with_policy(ADMIN, 100, u64::MAX);
    let ev2 = far.send_payment(SENDER, 500, 100, RECEIVER, 500).unwrap();
    assert_eq!(far.view_payment_expiry_time(&ev2.payment_id).err(), Some(Error::Overflow));
    // And a record anchored past the clock's reach never expires.
    let e = failed_with(far.get_refund(SENDER, u64::MAX, &ev2.payment_id));
    assert_eq!(e, Error::NotAllowed);
}
