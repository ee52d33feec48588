//! The payment contract: policy parameters plus the record store, and the
//! operations that create, verify, refund and expire escrow records.
//!
//! The host environment owns caller identity, the clock and the actual
//! movement of funds, so every operation takes the caller and the current
//! time as arguments. An operation that must move funds does not change the
//! store itself: it answers with a [`PendingTransfer`], the host performs
//! the transfer, and only a confirming call commits the state change. A
//! failed transfer is then simply never confirmed, so no record can claim
//! that funds moved when they did not.
//!
//! Every operation is specified against [`ContractModel`], the mathematical
//! image of the contract state; the laws of the protocol are proved over
//! the same transition functions.

use crate::codec::{encode_record, spec_encode_record};
use crate::errors::Error;
use crate::hashing::{sha256, sha256_of};
use crate::otp::{generate_otp, spec_generate_otp};
use crate::record::{PaymentInfo, PaymentStatus, SecurePaymentRequested, TransactionId};
use crate::store::Ledger;
use crate::{AccountId, Balance, Timestamp};
use vstd::prelude::*;

verus! {

/// How many verification slots a record has. Creation takes the first
/// slot, so this limit admits three wrong submissions before a fourth one
/// removes the record.
pub const ATTEMPTS_LIMIT: u8 = 3;

/// The threshold a freshly constructed contract starts with.
pub const DEFAULT_THRESHOLD: u128 = 100_000_000_000_000;

/// The expiry window a freshly constructed contract starts with: one day
/// of milliseconds.
pub const DEFAULT_EXPIRY: u64 = 86_400_000;

/// The escrow ledger and its policy parameters.
pub struct PaymentContract {
    payment_records: Ledger,
    threshold_value: Balance,
    admin: AccountId,
    expiry_time: Timestamp,
    salt: u64,
}

/// The mathematical image of a contract state: the stored records as a
/// map keyed by identifier bytes, and the policy fields as plain values.
pub struct ContractModel {
    /// The stored records, keyed by the bytes of their identifiers.
    pub records: Map<Seq<u8>, PaymentInfo>,
    /// The minimum amount `send_payment` accepts.
    pub threshold_value: Balance,
    /// The only account allowed to change policy parameters.
    pub admin: AccountId,
    /// How long after creation a record stays claimable.
    pub expiry_time: Timestamp,
    /// The passcode generator's counter.
    pub salt: u64,
}

impl View for PaymentContract {
    type V = ContractModel;

    closed spec fn view(&self) -> ContractModel {
        ContractModel {
            records: self.payment_records@,
            threshold_value: self.threshold_value,
            admin: self.admin,
            expiry_time: self.expiry_time,
            salt: self.salt,
        }
    }
}

/// What a pending transfer is for.
#[derive(Clone, Copy, PartialEq, Eq, Structural, Debug)]
pub enum PendingKind {
    /// The receiver presented the correct passcode: pay the receiver, then
    /// confirm to mark the record `Success`.
    ReleaseToReceiver,
    /// The last verification slot was used up: pay the sender back, then
    /// confirm to remove the record.
    RefundAttemptsExhausted,
    /// The record expired and the sender reclaims: pay the sender back,
    /// then confirm to mark the record `Refunded`.
    RefundExpired,
}

/// A transfer the host must perform before the matching state change is
/// committed through [`PaymentContract::confirm_transfer`].
pub struct PendingTransfer {
    /// What the transfer is for.
    pub kind: PendingKind,
    /// The record the transfer belongs to.
    pub payment_id: TransactionId,
    /// The account to pay.
    pub to: AccountId,
    /// The amount to move out of escrow.
    pub amount: Balance,
}

/// The mathematical image of a [`PendingTransfer`].
pub struct PendingModel {
    /// What the transfer is for.
    pub kind: PendingKind,
    /// The identifier bytes of the record the transfer belongs to.
    pub payment_id: Seq<u8>,
    /// The account to pay.
    pub to: AccountId,
    /// The amount to move out of escrow.
    pub amount: Balance,
}

impl View for PendingTransfer {
    type V = PendingModel;

    open spec fn view(&self) -> PendingModel {
        PendingModel {
            kind: self.kind,
            payment_id: self.payment_id@,
            to: self.to,
            amount: self.amount,
        }
    }
}

/// What a claim or reclaim call comes to: either it failed with an error,
/// with all bookkeeping already stored, or the host owes a transfer whose
/// state change waits for confirmation.
pub enum LedgerStep {
    /// The operation failed; nothing waits for the host.
    Failed(Error),
    /// The host must perform this transfer and, once it succeeded, hand it
    /// to [`PaymentContract::confirm_transfer`].
    NeedsTransfer(PendingTransfer),
}

/// The mathematical image of a [`LedgerStep`].
pub enum StepModel {
    /// The operation failed with this error.
    Failed(Error),
    /// The host owes this transfer.
    NeedsTransfer(PendingModel),
}

impl View for LedgerStep {
    type V = StepModel;

    open spec fn view(&self) -> StepModel {
        match self {
            LedgerStep::Failed(e) => StepModel::Failed(*e),
            LedgerStep::NeedsTransfer(p) => StepModel::NeedsTransfer(p@),
        }
    }
}

// ------------------------- transition functions -------------------------

/// The record a fresh transfer stores: one used verification slot, waiting
/// for the passcode, anchored at the creation time.
pub open spec fn fresh_record(
    sender: AccountId,
    receiver: AccountId,
    amount: Balance,
    otp: u32,
    now: Timestamp,
) -> PaymentInfo {
    PaymentInfo {
        sender,
        receiver,
        amount,
        otp,
        otp_attempts: 1,
        recorded_time: now,
        status: PaymentStatus::Waiting,
    }
}

/// The identifier bytes of a record: the digest of its encoding.
pub open spec fn record_id(r: PaymentInfo) -> Seq<u8> {
    sha256_of(spec_encode_record(r))
}

/// Whether a record anchored at `recorded_time` is expired at `now` under
/// the window `expiry_time`. The comparison is exact: a deadline past the
/// clock's range can never be exceeded.
pub open spec fn is_expired_at(recorded_time: Timestamp, expiry_time: Timestamp, now: Timestamp) -> bool {
    now > recorded_time + expiry_time
}

/// The passcode a transfer initiated at `now` draws.
pub open spec fn send_otp(m: ContractModel, now: Timestamp) -> u32 {
    spec_generate_otp(now, m.salt)
}

/// The record a transfer initiated at `now` would store.
pub open spec fn send_record(
    m: ContractModel,
    caller: AccountId,
    now: Timestamp,
    receiver: AccountId,
    amount: Balance,
) -> PaymentInfo {
    fresh_record(caller, receiver, amount, send_otp(m, now), now)
}

/// The identifier under which that record would be stored.
pub open spec fn send_id(
    m: ContractModel,
    caller: AccountId,
    now: Timestamp,
    receiver: AccountId,
    amount: Balance,
) -> Seq<u8> {
    record_id(send_record(m, caller, now, receiver, amount))
}

/// Why `send_payment` refuses, if it does: the funded value must equal the
/// announced amount, be nonzero and reach the threshold, and the derived
/// identifier must be fresh.
pub open spec fn send_check(
    m: ContractModel,
    caller: AccountId,
    transferred_value: Balance,
    now: Timestamp,
    receiver: AccountId,
    amount: Balance,
) -> Option<Error> {
    if amount != transferred_value {
        Some(Error::BalanceMismatch)
    } else if transferred_value == 0 {
        Some(Error::ZeroBalance)
    } else if amount < m.threshold_value {
        Some(Error::BelowThresholdValue)
    } else if m.records.contains_key(send_id(m, caller, now, receiver, amount)) {
        Some(Error::TxnIDAlreadExists)
    } else {
        None
    }
}

/// Whether `send_payment` reaches the passcode generator: everything up to
/// the identifier check passed.
pub open spec fn send_draws_otp(
    m: ContractModel,
    caller: AccountId,
    transferred_value: Balance,
    now: Timestamp,
    receiver: AccountId,
    amount: Balance,
) -> bool {
    amount == transferred_value && transferred_value != 0 && amount >= m.threshold_value
}

/// The counter after `send_payment`: it advances, wrapping, exactly when
/// the generator ran, whether or not the record was stored.
pub open spec fn send_salt_after(
    m: ContractModel,
    caller: AccountId,
    transferred_value: Balance,
    now: Timestamp,
    receiver: AccountId,
    amount: Balance,
) -> u64 {
    if send_draws_otp(m, caller, transferred_value, now, receiver, amount) {
        if m.salt == u64::MAX {
            0
        } else {
            (m.salt + 1) as u64
        }
    } else {
        m.salt
    }
}

/// The stored records after `send_payment`.
pub open spec fn send_records_after(
    m: ContractModel,
    caller: AccountId,
    transferred_value: Balance,
    now: Timestamp,
    receiver: AccountId,
    amount: Balance,
) -> Map<Seq<u8>, PaymentInfo> {
    if send_check(m, caller, transferred_value, now, receiver, amount) == None::<Error> {
        m.records.insert(
            send_id(m, caller, now, receiver, amount),
            send_record(m, caller, now, receiver, amount),
        )
    } else {
        m.records
    }
}

/// What `receive_payment` answers: every guard in the order the ledger
/// checks them, then either a wrong-passcode outcome or the owed release.
pub open spec fn claim_outcome(
    m: ContractModel,
    caller: AccountId,
    now: Timestamp,
    k: Seq<u8>,
    sent_otp: u32,
) -> StepModel {
    if !m.records.contains_key(k) {
        StepModel::Failed(Error::PaymentRecordMissing)
    } else {
        let rec = m.records[k];
        if rec.status != PaymentStatus::Waiting {
            StepModel::Failed(Error::AlreadyReceivedPayment)
        } else if caller != rec.receiver {
            StepModel::Failed(Error::InvalidReceiver)
        } else if is_expired_at(rec.recorded_time, m.expiry_time, now) {
            StepModel::Failed(Error::TimeLimitExceeded)
        } else if sent_otp != rec.otp {
            if rec.otp_attempts > ATTEMPTS_LIMIT {
                StepModel::NeedsTransfer(
                    PendingModel {
                        kind: PendingKind::RefundAttemptsExhausted,
                        payment_id: k,
                        to: rec.sender,
                        amount: rec.amount,
                    },
                )
            } else {
                StepModel::Failed(Error::WrongOTP)
            }
        } else {
            StepModel::NeedsTransfer(
                PendingModel {
                    kind: PendingKind::ReleaseToReceiver,
                    payment_id: k,
                    to: rec.receiver,
                    amount: rec.amount,
                },
            )
        }
    }
}

/// The stored records after `receive_payment`: an expired record is marked
/// `Expired`, a wrong passcode with a slot left burns one slot, and
/// everything else waits for confirmation or fails without a change.
pub open spec fn claim_records_after(
    m: ContractModel,
    caller: AccountId,
    now: Timestamp,
    k: Seq<u8>,
    sent_otp: u32,
) -> Map<Seq<u8>, PaymentInfo> {
    if !m.records.contains_key(k) {
        m.records
    } else {
        let rec = m.records[k];
        if rec.status != PaymentStatus::Waiting || caller != rec.receiver {
            m.records
        } else if is_expired_at(rec.recorded_time, m.expiry_time, now) {
            m.records.insert(k, PaymentInfo { status: PaymentStatus::Expired, ..rec })
        } else if sent_otp != rec.otp && rec.otp_attempts <= ATTEMPTS_LIMIT {
            m.records.insert(
                k,
                PaymentInfo { otp_attempts: (rec.otp_attempts + 1) as u8, ..rec },
            )
        } else {
            m.records
        }
    }
}

/// What `get_refund` answers: only the sender, only once the record is
/// expired by the clock, and never after the funds already moved.
pub open spec fn refund_outcome(
    m: ContractModel,
    caller: AccountId,
    now: Timestamp,
    k: Seq<u8>,
) -> StepModel {
    if !m.records.contains_key(k) {
        StepModel::Failed(Error::PaymentRecordMissing)
    } else {
        let rec = m.records[k];
        if caller != rec.sender {
            StepModel::Failed(Error::InvalidSender)
        } else if is_expired_at(rec.recorded_time, m.expiry_time, now) && rec.status
            != PaymentStatus::Refunded && rec.status != PaymentStatus::Success {
            StepModel::NeedsTransfer(
                PendingModel {
                    kind: PendingKind::RefundExpired,
                    payment_id: k,
                    to: rec.sender,
                    amount: rec.amount,
                },
            )
        } else {
            StepModel::Failed(Error::NotAllowed)
        }
    }
}

/// What `confirm_transfer` answers. A release or an exhausted-attempts
/// refund commits only on a record still `Waiting`; an expiry refund
/// commits unless the funds already moved. The error of a committed
/// exhausted-attempts refund is the error the claim call owes its caller.
pub open spec fn confirm_result(m: ContractModel, p: PendingModel) -> Result<(), Error> {
    if !m.records.contains_key(p.payment_id) {
        Err(Error::PaymentRecordMissing)
    } else {
        let rec = m.records[p.payment_id];
        match p.kind {
            PendingKind::ReleaseToReceiver => if rec.status != PaymentStatus::Waiting {
                Err(Error::AlreadyReceivedPayment)
            } else {
                Ok(())
            },
            PendingKind::RefundAttemptsExhausted => if rec.status != PaymentStatus::Waiting {
                Err(Error::AlreadyReceivedPayment)
            } else {
                Err(Error::AttemptsExceedLimit)
            },
            PendingKind::RefundExpired => if rec.status == PaymentStatus::Refunded || rec.status
                == PaymentStatus::Success {
                Err(Error::NotAllowed)
            } else {
                Ok(())
            },
        }
    }
}

/// The stored records after `confirm_transfer`.
pub open spec fn confirm_records_after(m: ContractModel, p: PendingModel) -> Map<
    Seq<u8>,
    PaymentInfo,
> {
    if !m.records.contains_key(p.payment_id) {
        m.records
    } else {
        let rec = m.records[p.payment_id];
        match p.kind {
            PendingKind::ReleaseToReceiver => if rec.status != PaymentStatus::Waiting {
                m.records
            } else {
                m.records.insert(
                    p.payment_id,
                    PaymentInfo { status: PaymentStatus::Success, ..rec },
                )
            },
            PendingKind::RefundAttemptsExhausted => if rec.status != PaymentStatus::Waiting {
                m.records
            } else {
                m.records.remove(p.payment_id)
            },
            PendingKind::RefundExpired => if rec.status == PaymentStatus::Refunded || rec.status
                == PaymentStatus::Success {
                m.records
            } else {
                m.records.insert(
                    p.payment_id,
                    PaymentInfo { status: PaymentStatus::Refunded, ..rec },
                )
            },
        }
    }
}

/// What `view_payment_record` answers.
pub open spec fn view_record_result(m: ContractModel, k: Seq<u8>) -> Result<PaymentInfo, Error> {
    if m.records.contains_key(k) {
        Ok(m.records[k])
    } else {
        Err(Error::PaymentRecordMissing)
    }
}

/// What `view_payment_expiry_time` answers: the deadline, or `Overflow`
/// where it does not fit the clock's type. Here a wrapped deadline would
/// make an active escrow look permanently expired or permanently alive, so
/// overflow is a hard error.
pub open spec fn expiry_deadline_result(m: ContractModel, k: Seq<u8>) -> Result<Timestamp, Error> {
    if !m.records.contains_key(k) {
        Err(Error::PaymentRecordMissing)
    } else if m.records[k].recorded_time + m.expiry_time > u64::MAX {
        Err(Error::Overflow)
    } else {
        Ok((m.records[k].recorded_time + m.expiry_time) as u64)
    }
}

/// The policy fields and the counter one operation never touches.
pub open spec fn policy_unchanged(pre: ContractModel, post: ContractModel) -> bool {
    post.threshold_value == pre.threshold_value && post.admin == pre.admin && post.expiry_time
        == pre.expiry_time && post.salt == pre.salt
}

// ------------------------------ operations ------------------------------

impl PaymentContract {
    /// The store never holds two slots with the same identifier.
    pub closed spec fn wf(&self) -> bool {
        self.payment_records.wf()
    }

    /// A fresh contract under `admin`, with the default threshold and the
    /// default one-day expiry window.
    pub fn new(admin: AccountId) -> (r: Self)
        ensures
            r.wf(),
            r@.records == Map::<Seq<u8>, PaymentInfo>::empty(),
            r@.threshold_value == DEFAULT_THRESHOLD,
            r@.admin == admin,
            r@.expiry_time == DEFAULT_EXPIRY,
            r@.salt == 0,
    {
        PaymentContract {
            payment_records: Ledger::new(),
            threshold_value: DEFAULT_THRESHOLD,
            admin,
            expiry_time: DEFAULT_EXPIRY,
            salt: 0,
        }
    }

    /// A fresh contract with every policy parameter chosen at
    /// construction.
    pub fn with_policy(admin: AccountId, threshold_value: Balance, expiry_time: Timestamp) -> (r:
        Self)
        ensures
            r.wf(),
            r@.records == Map::<Seq<u8>, PaymentInfo>::empty(),
            r@.threshold_value == threshold_value,
            r@.admin == admin,
            r@.expiry_time == expiry_time,
            r@.salt == 0,
    {
        PaymentContract {
            payment_records: Ledger::new(),
            threshold_value,
            admin,
            expiry_time,
            salt: 0,
        }
    }

    /// The record a transfer accepted at `now` stores: one used
    /// verification slot, waiting for the passcode.
    fn create_payment_info(
        &self,
        receiver: AccountId,
        sender: AccountId,
        amount: Balance,
        otp: u32,
        now: Timestamp,
    ) -> (r: PaymentInfo)
        ensures
            r == fresh_record(sender, receiver, amount, otp, now),
    {
        PaymentInfo {
            sender,
            receiver,
            amount,
            otp,
            otp_attempts: 1,
            recorded_time: now,
            status: PaymentStatus::Waiting,
        }
    }

    /// The identifier of a record: the digest of its encoding.
    pub fn get_transaction_id(&self, payment_info: &PaymentInfo) -> (r: TransactionId)
        ensures
            r@ == record_id(*payment_info),
    {
        let encoded = encode_record(payment_info);
        let digest = sha256(&encoded);
        TransactionId { bytes: digest }
    }

    /// Whether a record anchored at `recorded_time` is expired at `now`.
    fn is_expired(&self, recorded_time: Timestamp, now: Timestamp) -> (r: bool)
        ensures
            r == is_expired_at(recorded_time, self@.expiry_time, now),
    {
        if recorded_time <= u64::MAX - self.expiry_time {
            now > recorded_time + self.expiry_time
        } else {
            false
        }
    }

    /// Stores a new escrow record for `amount` from the caller to
    /// `receiver`, funded by `transferred_value` which the calling
    /// convention has already moved into escrow. On success the answer
    /// carries the identifier and the passcode for the initiating party;
    /// the passcode must never be delivered to the receiver.
    pub fn send_payment(
        &mut self,
        caller: AccountId,
        transferred_value: Balance,
        now: Timestamp,
        receiver: AccountId,
        amount: Balance,
    ) -> (r: Result<SecurePaymentRequested, Error>)
        requires
            old(self).wf(),
        ensures
            final(self).wf(),
            final(self)@.threshold_value == old(self)@.threshold_value,
            final(self)@.admin == old(self)@.admin,
            final(self)@.expiry_time == old(self)@.expiry_time,
            final(self)@.salt == send_salt_after(
                old(self)@,
                caller,
                transferred_value,
                now,
                receiver,
                amount,
            ),
            final(self)@.records == send_records_after(
                old(self)@,
                caller,
                transferred_value,
                now,
                receiver,
                amount,
            ),
            match r {
                Ok(ev) => {
                    &&& send_check(old(self)@, caller, transferred_value, now, receiver, amount)
                        == None::<Error>
                    &&& ev.sender == caller
                    &&& ev.receiver == receiver
                    &&& ev.amount == amount
                    &&& ev.payment_id@ == send_id(old(self)@, caller, now, receiver, amount)
                    &&& ev.otp == send_otp(old(self)@, now)
                },
                Err(e) => send_check(old(self)@, caller, transferred_value, now, receiver, amount)
                    == Some(e),
            },
    {
        if amount != transferred_value {
            return Err(Error::BalanceMismatch);
        }
        if transferred_value == 0 {
            return Err(Error::ZeroBalance);
        }
        if amount < self.threshold_value {
            return Err(Error::BelowThresholdValue);
        }
        let otp = generate_otp(now, self.salt);
        self.salt = if self.salt == u64::MAX {
            0
        } else {
            self.salt + 1
        };
        let payment_info = self.create_payment_info(receiver, caller, amount, otp, now);
        let transaction_id = self.get_transaction_id(&payment_info);
        if self.payment_records.contains(&transaction_id) {
            return Err(Error::TxnIDAlreadExists);
        }
        let payment_id = transaction_id.clone();
        self.payment_records.insert_new(transaction_id, payment_info);
        Ok(SecurePaymentRequested { sender: caller, receiver, amount, payment_id, otp })
    }

    /// Checks a candidate passcode against the record under `payment_id`.
    /// An expired record is marked `Expired`; a wrong passcode burns a
    /// verification slot while one is left, and owes the sender a refund
    /// once none is; the correct passcode owes the receiver the escrowed
    /// amount. Owed transfers wait for [`Self::confirm_transfer`].
    pub fn receive_payment(
        &mut self,
        caller: AccountId,
        now: Timestamp,
        payment_id: &TransactionId,
        sent_otp: u32,
    ) -> (r: LedgerStep)
        requires
            old(self).wf(),
        ensures
            final(self).wf(),
            policy_unchanged(old(self)@, final(self)@),
            r@ == claim_outcome(old(self)@, caller, now, payment_id@, sent_otp),
            final(self)@.records == claim_records_after(
                old(self)@,
                caller,
                now,
                payment_id@,
                sent_otp,
            ),
    {
        let payment_info = match self.payment_records.get(payment_id) {
            None => {
                return LedgerStep::Failed(Error::PaymentRecordMissing);
            },
            Some(info) => info,
        };
        if !matches!(payment_info.status, PaymentStatus::Waiting) {
            return LedgerStep::Failed(Error::AlreadyReceivedPayment);
        }
        if caller != payment_info.receiver {
            return LedgerStep::Failed(Error::InvalidReceiver);
        }
        if self.is_expired(payment_info.recorded_time, now) {
            let expired = PaymentInfo { status: PaymentStatus::Expired, ..payment_info };
            self.payment_records.set(payment_id, expired);
            return LedgerStep::Failed(Error::TimeLimitExceeded);
        }
        if sent_otp != payment_info.otp {
            if payment_info.otp_attempts > ATTEMPTS_LIMIT {
                LedgerStep::NeedsTransfer(
                    PendingTransfer {
                        kind: PendingKind::RefundAttemptsExhausted,
                        payment_id: payment_id.clone(),
                        to: payment_info.sender,
                        amount: payment_info.amount,
                    },
                )
            } else {
                let burned = PaymentInfo {
                    otp_attempts: payment_info.otp_attempts + 1,
                    ..payment_info
                };
                self.payment_records.set(payment_id, burned);
                LedgerStep::Failed(Error::WrongOTP)
            }
        } else {
            LedgerStep::NeedsTransfer(
                PendingTransfer {
                    kind: PendingKind::ReleaseToReceiver,
                    payment_id: payment_id.clone(),
                    to: payment_info.receiver,
                    amount: payment_info.amount,
                },
            )
        }
    }

    /// Hands the sender back an expired, unclaimed escrow. The owed
    /// transfer waits for [`Self::confirm_transfer`]; the store itself
    /// does not change here.
    pub fn get_refund(&mut self, caller: AccountId, now: Timestamp, payment_id: &TransactionId) -> (r:
        LedgerStep)
        requires
            old(self).wf(),
        ensures
            final(self).wf(),
            policy_unchanged(old(self)@, final(self)@),
            final(self)@.records == old(self)@.records,
            r@ == refund_outcome(old(self)@, caller, now, payment_id@),
    {
        let payment_info = match self.payment_records.get(payment_id) {
            None => {
                return LedgerStep::Failed(Error::PaymentRecordMissing);
            },
            Some(info) => info,
        };
        if caller != payment_info.sender {
            return LedgerStep::Failed(Error::InvalidSender);
        }
        let expired = self.is_expired(payment_info.recorded_time, now);
        if expired && !matches!(payment_info.status, PaymentStatus::Refunded) && !matches!(
            payment_info.status,
            PaymentStatus::Success,
        ) {
            LedgerStep::NeedsTransfer(
                PendingTransfer {
                    kind: PendingKind::RefundExpired,
                    payment_id: payment_id.clone(),
                    to: payment_info.sender,
                    amount: payment_info.amount,
                },
            )
        } else {
            LedgerStep::Failed(Error::NotAllowed)
        }
    }

    /// Commits the state change behind a transfer the host has performed:
    /// a release marks the record `Success`, an exhausted-attempts refund
    /// removes it, an expiry refund marks it `Refunded`. To be called
    /// exactly once, with the pending transfer a decision step answered,
    /// after the funds moved; the result of an exhausted-attempts refund
    /// is the error the claim call owes its caller. A record that is no
    /// longer in the state its pending transfer came from is left alone.
    pub fn confirm_transfer(&mut self, pending: &PendingTransfer) -> (r: Result<(), Error>)
        requires
            old(self).wf(),
        ensures
            final(self).wf(),
            policy_unchanged(old(self)@, final(self)@),
            r == confirm_result(old(self)@, pending@),
            final(self)@.records == confirm_records_after(old(self)@, pending@),
    {
        let payment_info = match self.payment_records.get(&pending.payment_id) {
            None => {
                return Err(Error::PaymentRecordMissing);
            },
            Some(info) => info,
        };
        match pending.kind {
            PendingKind::ReleaseToReceiver => {
                if !matches!(payment_info.status, PaymentStatus::Waiting) {
                    return Err(Error::AlreadyReceivedPayment);
                }
                let done = PaymentInfo { status: PaymentStatus::Success, ..payment_info };
                self.payment_records.set(&pending.payment_id, done);
                Ok(())
            },
            PendingKind::RefundAttemptsExhausted => {
                if !matches!(payment_info.status, PaymentStatus::Waiting) {
                    return Err(Error::AlreadyReceivedPayment);
                }
                self.payment_records.remove(&pending.payment_id);
                Err(Error::AttemptsExceedLimit)
            },
            PendingKind::RefundExpired => {
                if matches!(payment_info.status, PaymentStatus::Refunded) || matches!(
                    payment_info.status,
                    PaymentStatus::Success,
                ) {
                    return Err(Error::NotAllowed);
                }
                let refunded = PaymentInfo { status: PaymentStatus::Refunded, ..payment_info };
                self.payment_records.set(&pending.payment_id, refunded);
                Ok(())
            },
        }
    }

    /// Sets the minimum transfer amount; administrator only.
    pub fn set_threshold_amount(&mut self, caller: AccountId, threshold_value: Balance) -> (r:
        Result<(), Error>)
        requires
            old(self).wf(),
        ensures
            final(self).wf(),
            final(self)@.records == old(self)@.records,
            final(self)@.admin == old(self)@.admin,
            final(self)@.expiry_time == old(self)@.expiry_time,
            final(self)@.salt == old(self)@.salt,
            caller == old(self)@.admin ==> r == Ok::<(), Error>(()) && final(self)@.threshold_value
                == threshold_value,
            caller != old(self)@.admin ==> r == Err::<(), Error>(Error::InvalidCaller) && final(self)@.threshold_value == old(self)@.threshold_value,
    {
        if self.admin == caller {
            self.threshold_value = threshold_value;
            Ok(())
        } else {
            Err(Error::InvalidCaller)
        }
    }

    /// Sets the expiry window; administrator only.
    pub fn set_expiry_period(&mut self, caller: AccountId, time: Timestamp) -> (r: Result<
        (),
        Error,
    >)
        requires
            old(self).wf(),
        ensures
            final(self).wf(),
            final(self)@.records == old(self)@.records,
            final(self)@.admin == old(self)@.admin,
            final(self)@.threshold_value == old(self)@.threshold_value,
            final(self)@.salt == old(self)@.salt,
            caller == old(self)@.admin ==> r == Ok::<(), Error>(()) && final(self)@.expiry_time
                == time,
            caller != old(self)@.admin ==> r == Err::<(), Error>(Error::InvalidCaller) && final(self)@.expiry_time == old(self)@.expiry_time,
    {
        if self.admin == caller {
            self.expiry_time = time;
            Ok(())
        } else {
            Err(Error::InvalidCaller)
        }
    }

    /// The record stored under `payment_id`, if any.
    pub fn view_payment_record(&self, payment_id: &TransactionId) -> (r: Result<PaymentInfo, Error>)
        requires
            self.wf(),
        ensures
            r == view_record_result(self@, payment_id@),
    {
        match self.payment_records.get(payment_id) {
            Some(info) => Ok(info),
            None => Err(Error::PaymentRecordMissing),
        }
    }

    /// The moment the record under `payment_id` stops being claimable.
    pub fn view_payment_expiry_time(&self, payment_id: &TransactionId) -> (r: Result<
        Timestamp,
        Error,
    >)
        requires
            self.wf(),
        ensures
            r == expiry_deadline_result(self@, payment_id@),
    {
        let payment_info = match self.payment_records.get(payment_id) {
            None => {
                return Err(Error::PaymentRecordMissing);
            },
            Some(info) => info,
        };
        if payment_info.recorded_time <= u64::MAX - self.expiry_time {
            Ok(payment_info.recorded_time + self.expiry_time)
        } else {
            Err(Error::Overflow)
        }
    }

    /// The configured minimum transfer amount.
    pub fn view_threshold_value(&self) -> (r: Balance)
        ensures
            r == self@.threshold_value,
    {
        self.threshold_value
    }

    /// The configured expiry window.
    pub fn view_expiry_period(&self) -> (r: Timestamp)
        ensures
            r == self@.expiry_time,
    {
        self.expiry_time
    }

    /// The administrator chosen at construction.
    pub fn view_admin(&self) -> (r: AccountId)
        ensures
            r == self@.admin,
    {
        self.admin
    }

    /// The passcode generator's counter.
    pub fn view_salt(&self) -> (r: u64)
        ensures
            r == self@.salt,
    {
        self.salt
    }
}

} // verus!
