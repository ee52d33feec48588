//! The data carried by the ledger: one payment record per escrow
//! transaction, the content-derived identifier that names it, and the event
//! values that the host environment is expected to publish.

use crate::{AccountId, Balance, Timestamp};
use vstd::prelude::*;
use vstd::std_specs::cmp::PartialEqSpec;

verus! {

/// Where a payment record stands in its lifecycle.
///
/// `Waiting` is the only state from which funds can still move to the
/// receiver; the other four are terminal for the escrowed amount.
#[derive(Clone, Copy, PartialEq, Eq, Structural, Debug)]
pub enum PaymentStatus {
    /// The time window elapsed before a successful claim.
    Expired,
    /// The record waits for the receiver's passcode.
    Waiting,
    /// Too many wrong passcodes were submitted.
    AllAttemptsFailed,
    /// The receiver presented the correct passcode in time.
    Success,
    /// The sender recovered the escrowed amount after expiry.
    Refunded,
}

/// One escrow transaction: who pays whom how much, the secret passcode, how
/// many verification slots are used, when the record was created, and where
/// it stands.
#[derive(Clone, Copy, PartialEq, Eq, Structural, Debug)]
pub struct PaymentInfo {
    /// The account that funded the escrow.
    pub sender: AccountId,
    /// The account that may claim the escrowed amount.
    pub receiver: AccountId,
    /// The escrowed amount; fixed at creation.
    pub amount: Balance,
    /// The one-time passcode, nine decimal digits; fixed at creation.
    pub otp: u32,
    /// Used verification slots. Creation itself takes the first slot, so the
    /// counter starts at 1 and grows by 1 on every wrong submission.
    pub otp_attempts: u8,
    /// When the record was created; the anchor of the expiry window.
    pub recorded_time: Timestamp,
    /// Where the record stands in its lifecycle.
    pub status: PaymentStatus,
}

/// The content-derived digest that names a payment record in the ledger.
pub struct TransactionId {
    /// The digest bytes.
    pub bytes: Vec<u8>,
}

impl View for TransactionId {
    type V = Seq<u8>;

    open spec fn view(&self) -> Seq<u8> {
        self.bytes@
    }
}

impl Clone for TransactionId {
    fn clone(&self) -> (r: Self)
        ensures
            r@ == self@,
    {
        let bytes = self.bytes.clone();
        proof {
            assert(bytes@ =~= self.bytes@);
        }
        TransactionId { bytes }
    }
}

impl PartialEq for TransactionId {
    fn eq(&self, other: &Self) -> (r: bool) {
        let r = self.bytes == other.bytes;
        proof {
            if self.bytes@ =~= other.bytes@ {
                assert(self.bytes.eq_spec(&other.bytes));
            }
            if self.bytes.eq_spec(&other.bytes) {
                assert(self.bytes@ =~= other.bytes@);
            }
        }
        r
    }
}

impl vstd::std_specs::cmp::PartialEqSpecImpl for TransactionId {
    open spec fn obeys_eq_spec() -> bool {
        true
    }

    open spec fn eq_spec(&self, other: &Self) -> bool {
        self@ == other@
    }
}

/// Published when a new payment record has been stored: the initiating
/// party learns the identifier and can correlate by the passcode it already
/// holds. The passcode must never reach the receiver through this value.
pub struct SecurePaymentRequested {
    /// The account that funded the escrow.
    pub sender: AccountId,
    /// The account that may claim it.
    pub receiver: AccountId,
    /// The escrowed amount.
    pub amount: Balance,
    /// The identifier under which the record was stored.
    pub payment_id: TransactionId,
    /// The generated one-time passcode.
    pub otp: u32,
}

/// Published when a record changes state: carries the parties, the amount,
/// the identifier and the status reached.
pub struct SecurePaymentInfo {
    /// The account that funded the escrow.
    pub sender: AccountId,
    /// The account that may claim it.
    pub receiver: AccountId,
    /// The escrowed amount.
    pub amount: Balance,
    /// The identifier of the record.
    pub payment_id: TransactionId,
    /// The status the record reached.
    pub status: PaymentStatus,
}

/// Published when a record is looked up for inspection.
pub struct ViewPaymentInfo {
    /// The record as stored.
    pub info: PaymentInfo,
}

} // verus!
