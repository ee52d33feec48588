//! The closed set of errors that the payment operations return. Every error
//! is recoverable by the caller; none is process-fatal.

use vstd::prelude::*;

verus! {

/// Why a payment operation was refused.
#[derive(Clone, Copy, PartialEq, Eq, Structural, Debug)]
pub enum Error {
    /// The value funded with the call does not equal the announced amount.
    BalanceMismatch,
    /// The payment request expired before it was claimed.
    TimeLimitExceeded,
    /// The caller is not the receiver of the payment record.
    InvalidReceiver,
    /// The caller is not the sender of the payment record.
    InvalidSender,
    /// The submitted passcode does not match the record's passcode.
    WrongOTP,
    /// No verification attempts are left; the record has been removed.
    AttemptsExceedLimit,
    /// A record already exists under the derived transaction identifier.
    TxnIDAlreadExists,
    /// No record exists under the given transaction identifier.
    PaymentRecordMissing,
    /// The record is not in a state that allows the requested transition.
    NotAllowed,
    /// A refund was requested in a form the ledger does not accept.
    IncorrectREFUND,
    /// An arithmetic result does not fit its type.
    Overflow,
    /// The caller is not the administrator.
    InvalidCaller,
    /// The amount is below the configured minimum transfer threshold.
    BelowThresholdValue,
    /// The record is no longer waiting for a passcode.
    AlreadyReceivedPayment,
    /// A zero amount is not accepted.
    ZeroBalance,
}

} // verus!
