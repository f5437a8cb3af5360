//! The errors of the escrow engine.

use vstd::prelude::*;

verus! {

/// The input that a validation error is about.
#[derive(Clone, Copy, Debug, PartialEq, Eq, Structural)]
pub enum Field {
    LoanAmount,
    LoanTerm,
    PurposeOfLoan,
    MonthlyIncome,
    /// The amount handed to `lock_funds`.
    LockAmount,
    /// The amount locked on a record, where the status does not allow it.
    LockedFunds,
    /// A status name that names no status.
    Status,
}

/// The transition that a record's status did not permit.
#[derive(Clone, Copy, Debug, PartialEq, Eq, Structural)]
pub enum Transition {
    Lock,
    Release,
    Cancel,
    UpdateStatus,
}

/// Why the ledger did not carry out a payment.
#[derive(Clone, Copy, Debug, PartialEq, Eq, Structural)]
pub enum LedgerCause {
    NetworkUnreachable,
    /// An address or key that the ledger does not accept.
    InvalidAddress,
    InsufficientBalance,
    /// The network's consensus rejected the submission.
    Rejected,
    /// The caller's timeout expired before the ledger answered.
    TimedOut,
    /// A payment was required and no outcome of it was reported.
    NotSubmitted,
}

/// What a transition can fail with. No failure leaves a transition half
/// applied.
#[derive(Clone, Copy, Debug, PartialEq, Eq, Structural)]
pub enum EscrowError {
    /// Bad input; the caller can correct it.
    ValidationError(Field),
    /// No escrow has the identifier.
    NotFound,
    /// The status does not permit the transition.
    InvalidTransition(Transition),
    /// The caller lacks the role that the transition asks for.
    Unauthorized,
    /// The settlement call failed or timed out; nothing was committed.
    LedgerFailure(LedgerCause),
    /// Another transition changed the status first; nothing was committed.
    ConcurrencyConflict,
}

impl EscrowError {
    /// Ledger failures and lost races left the record as it was, so the
    /// caller may try again. The other errors would only repeat.
    pub open spec fn retryable(self) -> bool {
        self is LedgerFailure || self is ConcurrencyConflict
    }

    /// Whether the caller may try the same call again.
    pub fn is_retryable(&self) -> (r: bool)
        ensures
            r == self.retryable(),
    {
        match self {
            EscrowError::LedgerFailure(_) | EscrowError::ConcurrencyConflict => true,
            _ => false,
        }
    }

    /// The HTTP status that stands for the error: 400 for bad input, 404 for
    /// an unknown escrow, 403 for a caller without the role, 409 where the
    /// status does not permit the transition or was changed meanwhile, and
    /// 502 for a failure of the ledger.
    pub open spec fn status(self) -> u16 {
        match self {
            EscrowError::ValidationError(_) => 400,
            EscrowError::NotFound => 404,
            EscrowError::InvalidTransition(_) => 409,
            EscrowError::Unauthorized => 403,
            EscrowError::LedgerFailure(_) => 502,
            EscrowError::ConcurrencyConflict => 409,
        }
    }

    /// The HTTP status that stands for the error.
    pub fn status_code(&self) -> (code: u16)
        ensures
            code == self.status(),
    {
        match self {
            EscrowError::ValidationError(_) => 400,
            EscrowError::NotFound => 404,
            EscrowError::InvalidTransition(_) => 409,
            EscrowError::Unauthorized => 403,
            EscrowError::LedgerFailure(_) => 502,
            EscrowError::ConcurrencyConflict => 409,
        }
    }

    /// The text of the error for the end user.
    pub open spec fn text(self) -> Seq<char> {
        match self {
            EscrowError::ValidationError(Field::LoanAmount) => "Loan amount must be greater than 0"@,
            EscrowError::ValidationError(Field::LoanTerm) => "Loan term must be provided"@,
            EscrowError::ValidationError(Field::PurposeOfLoan) => "Purpose of loan must be provided"@,
            EscrowError::ValidationError(Field::MonthlyIncome) => "Monthly income must be greater than 0"@,
            EscrowError::ValidationError(Field::LockAmount) => "Locked amount must be greater than 0"@,
            EscrowError::ValidationError(Field::LockedFunds) => "Locked funds do not fit the status"@,
            EscrowError::ValidationError(Field::Status) => "Unknown escrow status"@,
            EscrowError::NotFound => "Escrow not found"@,
            EscrowError::InvalidTransition(Transition::Lock) => "Escrow must be in PENDING status to lock funds"@,
            EscrowError::InvalidTransition(Transition::Release) => "Escrow must be in FUNDED status to release funds"@,
            EscrowError::InvalidTransition(Transition::Cancel) => "Cannot cancel escrow in current status"@,
            EscrowError::InvalidTransition(Transition::UpdateStatus) => "Escrow does not permit this status update"@,
            EscrowError::Unauthorized => "Caller is not authorized for this transition"@,
            EscrowError::LedgerFailure(LedgerCause::NetworkUnreachable) => "Ledger network is unreachable"@,
            EscrowError::LedgerFailure(LedgerCause::InvalidAddress) => "Invalid recipient key"@,
            EscrowError::LedgerFailure(LedgerCause::InsufficientBalance) => "Insufficient balance on the ledger"@,
            EscrowError::LedgerFailure(LedgerCause::Rejected) => "Ledger rejected the transaction"@,
            EscrowError::LedgerFailure(LedgerCause::TimedOut) => "Ledger call timed out"@,
            EscrowError::LedgerFailure(LedgerCause::NotSubmitted) => "Ledger payment was not submitted"@,
            EscrowError::ConcurrencyConflict => "Escrow was changed by another transition"@,
        }
    }

    /// The text of the error for the end user.
    pub fn message(&self) -> (text: String)
        ensures
            text@ == self.text(),
    {
        match self {
            EscrowError::ValidationError(Field::LoanAmount) => "Loan amount must be greater than 0".to_string(),
            EscrowError::ValidationError(Field::LoanTerm) => "Loan term must be provided".to_string(),
            EscrowError::ValidationError(Field::PurposeOfLoan) => "Purpose of loan must be provided".to_string(),
            EscrowError::ValidationError(Field::MonthlyIncome) => "Monthly income must be greater than 0".to_string(),
            EscrowError::ValidationError(Field::LockAmount) => "Locked amount must be greater than 0".to_string(),
            EscrowError::ValidationError(Field::LockedFunds) => "Locked funds do not fit the status".to_string(),
            EscrowError::ValidationError(Field::Status) => "Unknown escrow status".to_string(),
            EscrowError::NotFound => "Escrow not found".to_string(),
            EscrowError::InvalidTransition(Transition::Lock) => "Escrow must be in PENDING status to lock funds".to_string(),
            EscrowError::InvalidTransition(Transition::Release) => "Escrow must be in FUNDED status to release funds".to_string(),
            EscrowError::InvalidTransition(Transition::Cancel) => "Cannot cancel escrow in current status".to_string(),
            EscrowError::InvalidTransition(Transition::UpdateStatus) => "Escrow does not permit this status update".to_string(),
            EscrowError::Unauthorized => "Caller is not authorized for this transition".to_string(),
            EscrowError::LedgerFailure(LedgerCause::NetworkUnreachable) => "Ledger network is unreachable".to_string(),
            EscrowError::LedgerFailure(LedgerCause::InvalidAddress) => "Invalid recipient key".to_string(),
            EscrowError::LedgerFailure(LedgerCause::InsufficientBalance) => "Insufficient balance on the ledger".to_string(),
            EscrowError::LedgerFailure(LedgerCause::Rejected) => "Ledger rejected the transaction".to_string(),
            EscrowError::LedgerFailure(LedgerCause::TimedOut) => "Ledger call timed out".to_string(),
            EscrowError::LedgerFailure(LedgerCause::NotSubmitted) => "Ledger payment was not submitted".to_string(),
            EscrowError::ConcurrencyConflict => "Escrow was changed by another transition".to_string(),
        }
    }
}

/// Whether `r` is the exec form of `model`: the same error, or a value with
/// the model's view.
pub open spec fn agrees<T: View>(r: Result<T, EscrowError>, model: Result<T::V, EscrowError>) -> bool {
    match model {
        Ok(view) => r is Ok && r->Ok_0@ == view,
        Err(e) => r is Err && r->Err_0 == e,
    }
}

} // verus!
