//! The laws of the protocol, proved over the same transition functions
//! that the executable operations are specified against: what a stored
//! record looks like right after it was created, when a duplicate
//! identifier is refused, that a record can be claimed exactly once, how
//! the verification slots run out, what expiry does to a claim and to a
//! reclaim, and that the passcode generator never reuses a seed while the
//! counter moves.

use crate::errors::Error;
use crate::ledger::{
    claim_outcome, claim_records_after, confirm_records_after, confirm_result, is_expired_at,
    refund_outcome, send_check, send_id, send_otp, send_record, send_records_after,
    send_salt_after, view_record_result, ContractModel, PendingKind, PendingModel, StepModel,
    ATTEMPTS_LIMIT,
};
use crate::record::{PaymentInfo, PaymentStatus};
use crate::{AccountId, Balance, Timestamp};
use vstd::prelude::*;

verus! {

/// After any accepted transfer, looking the fresh identifier up returns a
/// record that is `Waiting`, has exactly one used verification slot, and
/// carries the announced amount between the announced parties.
pub proof fn lemma_initiate_then_view(
    m: ContractModel,
    caller: AccountId,
    transferred_value: Balance,
    now: Timestamp,
    receiver: AccountId,
    amount: Balance,
    post: ContractModel,
)
    requires
        send_check(m, caller, transferred_value, now, receiver, amount) == None::<Error>,
        post.records == send_records_after(m, caller, transferred_value, now, receiver, amount),
    ensures
        view_record_result(post, send_id(m, caller, now, receiver, amount))
            == Ok::<PaymentInfo, Error>(send_record(m, caller, now, receiver, amount)),
        send_record(m, caller, now, receiver, amount).status == PaymentStatus::Waiting,
        send_record(m, caller, now, receiver, amount).otp_attempts == 1,
        send_record(m, caller, now, receiver, amount).amount == amount,
        send_record(m, caller, now, receiver, amount).sender == caller,
        send_record(m, caller, now, receiver, amount).receiver == receiver,
{
}

/// A transfer whose funded value does not match the announced amount is
/// refused as a balance mismatch and leaves the contract untouched: no
/// record appears and the counter does not move.
pub proof fn lemma_balance_mismatch_creates_nothing(
    m: ContractModel,
    caller: AccountId,
    transferred_value: Balance,
    now: Timestamp,
    receiver: AccountId,
    amount: Balance,
)
    requires
        amount != transferred_value,
    ensures
        send_check(m, caller, transferred_value, now, receiver, amount)
            == Some(Error::BalanceMismatch),
        send_records_after(m, caller, transferred_value, now, receiver, amount) == m.records,
        send_salt_after(m, caller, transferred_value, now, receiver, amount) == m.salt,
{
}

/// A second transfer that rebuilds the very same record — possible only
/// when the timestamp and the counter repeat, as a test harness can force
/// — derives the same identifier and is refused as a duplicate, storing
/// nothing.
pub proof fn lemma_duplicate_identifier_rejected(
    m: ContractModel,
    caller: AccountId,
    transferred_value: Balance,
    now: Timestamp,
    receiver: AccountId,
    amount: Balance,
    m2: ContractModel,
)
    requires
        send_check(m, caller, transferred_value, now, receiver, amount) == None::<Error>,
        m2.records == send_records_after(m, caller, transferred_value, now, receiver, amount),
        m2.salt == m.salt,
        m2.threshold_value == m.threshold_value,
    ensures
        send_id(m2, caller, now, receiver, amount) == send_id(m, caller, now, receiver, amount),
        send_check(m2, caller, transferred_value, now, receiver, amount)
            == Some(Error::TxnIDAlreadExists),
        send_records_after(m2, caller, transferred_value, now, receiver, amount) == m2.records,
{
    assert(send_otp(m2, now) == send_otp(m, now));
    assert(send_record(m2, caller, now, receiver, amount)
        == send_record(m, caller, now, receiver, amount));
}

/// A claim with the correct passcode before expiry releases the escrow to
/// the receiver and, once confirmed, marks the record `Success` — exactly
/// once: on the committed state every further claim, by anyone, with any
/// passcode, at any time, fails because the record is no longer waiting.
pub proof fn lemma_claim_success_exactly_once(
    m: ContractModel,
    now: Timestamp,
    k: Seq<u8>,
    m2: ContractModel,
    caller2: AccountId,
    now2: Timestamp,
    otp2: u32,
)
    requires
        m.records.contains_key(k),
        m.records[k].status == PaymentStatus::Waiting,
        !is_expired_at(m.records[k].recorded_time, m.expiry_time, now),
        m2.records == confirm_records_after(
            m,
            PendingModel {
                kind: PendingKind::ReleaseToReceiver,
                payment_id: k,
                to: m.records[k].receiver,
                amount: m.records[k].amount,
            },
        ),
    ensures
        claim_outcome(m, m.records[k].receiver, now, k, m.records[k].otp)
            == StepModel::NeedsTransfer(
            PendingModel {
                kind: PendingKind::ReleaseToReceiver,
                payment_id: k,
                to: m.records[k].receiver,
                amount: m.records[k].amount,
            },
        ),
        claim_records_after(m, m.records[k].receiver, now, k, m.records[k].otp) == m.records,
        confirm_result(
            m,
            PendingModel {
                kind: PendingKind::ReleaseToReceiver,
                payment_id: k,
                to: m.records[k].receiver,
                amount: m.records[k].amount,
            },
        ) == Ok::<(), Error>(()),
        m2.records[k].status == PaymentStatus::Success,
        claim_outcome(m2, caller2, now2, k, otp2) == StepModel::Failed(
            Error::AlreadyReceivedPayment,
        ),
        claim_records_after(m2, caller2, now2, k, otp2) == m2.records,
{
}

/// A wrong passcode while a verification slot is left keeps the record
/// `Waiting` and burns exactly one slot; nothing else of the record
/// changes and no other record is touched.
pub proof fn lemma_wrong_otp_burns_slot(m: ContractModel, now: Timestamp, k: Seq<u8>, sent: u32)
    requires
        m.records.contains_key(k),
        m.records[k].status == PaymentStatus::Waiting,
        !is_expired_at(m.records[k].recorded_time, m.expiry_time, now),
        sent != m.records[k].otp,
        m.records[k].otp_attempts <= ATTEMPTS_LIMIT,
    ensures
        claim_outcome(m, m.records[k].receiver, now, k, sent) == StepModel::Failed(Error::WrongOTP),
        claim_records_after(m, m.records[k].receiver, now, k, sent) == m.records.insert(
            k,
            PaymentInfo { otp_attempts: (m.records[k].otp_attempts + 1) as u8, ..m.records[k] },
        ),
        claim_records_after(m, m.records[k].receiver, now, k, sent)[k].status
            == PaymentStatus::Waiting,
        claim_records_after(m, m.records[k].receiver, now, k, sent)[k].otp_attempts
            == m.records[k].otp_attempts + 1,
{
}

/// A wrong passcode with no verification slot left owes the sender the
/// escrowed amount back; confirming that refund removes the record, the
/// claim call answers that the attempts ran out, and a later lookup of
/// the identifier finds nothing.
pub proof fn lemma_attempts_exhausted_removes_record(
    m: ContractModel,
    now: Timestamp,
    k: Seq<u8>,
    sent: u32,
    m2: ContractModel,
)
    requires
        m.records.contains_key(k),
        m.records[k].status == PaymentStatus::Waiting,
        !is_expired_at(m.records[k].recorded_time, m.expiry_time, now),
        sent != m.records[k].otp,
        m.records[k].otp_attempts > ATTEMPTS_LIMIT,
        m2.records == confirm_records_after(
            m,
            PendingModel {
                kind: PendingKind::RefundAttemptsExhausted,
                payment_id: k,
                to: m.records[k].sender,
                amount: m.records[k].amount,
            },
        ),
    ensures
        claim_outcome(m, m.records[k].receiver, now, k, sent) == StepModel::NeedsTransfer(
            PendingModel {
                kind: PendingKind::RefundAttemptsExhausted,
                payment_id: k,
                to: m.records[k].sender,
                amount: m.records[k].amount,
            },
        ),
        claim_records_after(m, m.records[k].receiver, now, k, sent) == m.records,
        confirm_result(
            m,
            PendingModel {
                kind: PendingKind::RefundAttemptsExhausted,
                payment_id: k,
                to: m.records[k].sender,
                amount: m.records[k].amount,
            },
        ) == Err::<(), Error>(Error::AttemptsExceedLimit),
        !m2.records.contains_key(k),
        view_record_result(m2, k) == Err::<PaymentInfo, Error>(Error::PaymentRecordMissing),
{
}

/// A claim on a waiting record whose window has elapsed marks the record
/// `Expired` and fails with the time limit — whatever passcode was sent,
/// right or wrong.
pub proof fn lemma_expired_claim(m: ContractModel, now: Timestamp, k: Seq<u8>, sent: u32)
    requires
        m.records.contains_key(k),
        m.records[k].status == PaymentStatus::Waiting,
        is_expired_at(m.records[k].recorded_time, m.expiry_time, now),
    ensures
        claim_outcome(m, m.records[k].receiver, now, k, sent) == StepModel::Failed(
            Error::TimeLimitExceeded,
        ),
        claim_records_after(m, m.records[k].receiver, now, k, sent) == m.records.insert(
            k,
            PaymentInfo { status: PaymentStatus::Expired, ..m.records[k] },
        ),
        claim_records_after(m, m.records[k].receiver, now, k, sent)[k].status
            == PaymentStatus::Expired,
{
}

/// Before the window has elapsed, the sender cannot reclaim: the answer
/// is that the reclaim is not allowed, and nothing changes.
pub proof fn lemma_refund_before_expiry_refused(m: ContractModel, now: Timestamp, k: Seq<u8>)
    requires
        m.records.contains_key(k),
        !is_expired_at(m.records[k].recorded_time, m.expiry_time, now),
    ensures
        refund_outcome(m, m.records[k].sender, now, k) == StepModel::Failed(Error::NotAllowed),
{
}

/// Once the window has elapsed and the funds have not already moved, the
/// sender's reclaim owes the sender the escrowed amount, and confirming
/// it marks the record `Refunded`.
pub proof fn lemma_refund_after_expiry(
    m: ContractModel,
    now: Timestamp,
    k: Seq<u8>,
    m2: ContractModel,
)
    requires
        m.records.contains_key(k),
        is_expired_at(m.records[k].recorded_time, m.expiry_time, now),
        m.records[k].status != PaymentStatus::Refunded,
        m.records[k].status != PaymentStatus::Success,
        m2.records == confirm_records_after(
            m,
            PendingModel {
                kind: PendingKind::RefundExpired,
                payment_id: k,
                to: m.records[k].sender,
                amount: m.records[k].amount,
            },
        ),
    ensures
        refund_outcome(m, m.records[k].sender, now, k) == StepModel::NeedsTransfer(
            PendingModel {
                kind: PendingKind::RefundExpired,
                payment_id: k,
                to: m.records[k].sender,
                amount: m.records[k].amount,
            },
        ),
        confirm_result(
            m,
            PendingModel {
                kind: PendingKind::RefundExpired,
                payment_id: k,
                to: m.records[k].sender,
                amount: m.records[k].amount,
            },
        ) == Ok::<(), Error>(()),
        m2.records[k].status == PaymentStatus::Refunded,
{
}

/// Anyone but the sender is refused a reclaim as the wrong caller,
/// whether or not the record is expired.
pub proof fn lemma_refund_wrong_caller(
    m: ContractModel,
    caller: AccountId,
    now: Timestamp,
    k: Seq<u8>,
)
    requires
        m.records.contains_key(k),
        caller != m.records[k].sender,
    ensures
        refund_outcome(m, caller, now, k) == StepModel::Failed(Error::InvalidSender),
{
}

/// Every accepted transfer moves the counter, so two transfers initiated
/// in a row at the same timestamp draw their passcodes from different
/// generator seeds. The passcodes themselves are three digest bytes and
/// can still collide; what never repeats while the counter moves is the
/// seed.
pub proof fn lemma_consecutive_sends_use_distinct_seeds(
    m: ContractModel,
    caller: AccountId,
    transferred_value: Balance,
    now: Timestamp,
    receiver: AccountId,
    amount: Balance,
)
    requires
        amount == transferred_value,
        transferred_value != 0,
        amount >= m.threshold_value,
    ensures
        send_salt_after(m, caller, transferred_value, now, receiver, amount) != m.salt,
        crate::codec::spec_otp_input(
            now,
            send_salt_after(m, caller, transferred_value, now, receiver, amount),
        ) != crate::codec::spec_otp_input(now, m.salt),
{
    crate::codec::lemma_otp_input_injective(
        now,
        send_salt_after(m, caller, transferred_value, now, receiver, amount),
        m.salt,
    );
}


/// No claim, confirmation or reclaim ever returns a record to `Waiting`:
/// a record that waits after such a transition was already waiting before
/// it. Only the creation of a record makes it wait.
pub proof fn lemma_waiting_never_reentered(
    m: ContractModel,
    caller: AccountId,
    now: Timestamp,
    k: Seq<u8>,
    sent: u32,
    p: PendingModel,
    k2: Seq<u8>,
)
    ensures
        claim_records_after(m, caller, now, k, sent).contains_key(k2) && claim_records_after(
            m,
            caller,
            now,
            k,
            sent,
        )[k2].status == PaymentStatus::Waiting ==> m.records.contains_key(k2) && m.records[k2].status
            == PaymentStatus::Waiting,
        confirm_records_after(m, p).contains_key(k2) && confirm_records_after(m, p)[k2].status
            == PaymentStatus::Waiting ==> m.records.contains_key(k2) && m.records[k2].status
            == PaymentStatus::Waiting,
{
}

/// A record's parties, amount, passcode and creation time are fixed at
/// creation: no claim, confirmation or reclaim changes anything but the
/// status and the used verification slots, and no transition invents a
/// record.
pub proof fn lemma_record_core_immutable(
    m: ContractModel,
    caller: AccountId,
    now: Timestamp,
    k: Seq<u8>,
    sent: u32,
    p: PendingModel,
    k2: Seq<u8>,
)
    ensures
        claim_records_after(m, caller, now, k, sent).contains_key(k2) ==> {
            let pre = m.records[k2];
            let post = claim_records_after(m, caller, now, k, sent)[k2];
            m.records.contains_key(k2) && post.sender == pre.sender && post.receiver
                == pre.receiver && post.amount == pre.amount && post.otp == pre.otp
                && post.recorded_time == pre.recorded_time
        },
        confirm_records_after(m, p).contains_key(k2) ==> {
            let pre = m.records[k2];
            let post = confirm_records_after(m, p)[k2];
            m.records.contains_key(k2) && post.sender == pre.sender && post.receiver
                == pre.receiver && post.amount == pre.amount && post.otp == pre.otp
                && post.recorded_time == pre.recorded_time && post.otp_attempts
                == pre.otp_attempts
        },
{
}

} // verus!
