//! The escrow state machine.
//!
//! Each transition is decided on one record: from the record as it stands,
//! the request and the caller to a staged
//! [`crate::coordinator::Transaction`]. Nothing is written here and nothing
//! is paid; the store and the ledger are the caller's.

use crate::coordinator::{Mutation, Transaction, TransactionView, Write, WriteView};
use crate::error::{agrees, EscrowError, Field, LedgerCause, Transition};
use crate::escrow::{Escrow, EscrowStatus, EscrowView};
use crate::ledger::{is_ed25519_public_key, valid_public_key, Payment, PaymentKind, PaymentView};
use crate::policy::{authorized, is_authorized, AccessPolicy};
use vstd::prelude::*;

verus! {

/// The first input of a new escrow that is not acceptable, in the order in
/// which the inputs are checked.
pub open spec fn creation_defect(escrow: EscrowView) -> Option<Field> {
    if escrow.loan_amount <= 0 {
        Some(Field::LoanAmount)
    } else if escrow.loan_term.len() == 0 {
        Some(Field::LoanTerm)
    } else if escrow.purpose_of_loan.len() == 0 {
        Some(Field::PurposeOfLoan)
    } else if escrow.monthly_income <= 0 {
        Some(Field::MonthlyIncome)
    } else {
        None
    }
}

/// The record that creation stores for `escrow`: pending, with nothing locked.
pub open spec fn pending_record(escrow: EscrowView) -> EscrowView {
    EscrowView { status: EscrowStatus::Pending, locked_funds: 0, ..escrow }
}

/// The payment of `amount`, which the ledger is asked for only where there is
/// something to move.
pub open spec fn required_payment(kind: PaymentKind, destination: Seq<char>, amount: int) -> Option<
    PaymentView,
> {
    if amount > 0 {
        Some(PaymentView { kind, destination, amount })
    } else {
        None
    }
}

/// Creation: acceptable inputs give a pending record; no ledger call.
pub open spec fn planned_creation(escrow: EscrowView) -> Result<TransactionView, EscrowError> {
    match creation_defect(escrow) {
        Some(field) => Err(EscrowError::ValidationError(field)),
        None => Ok(
            TransactionView { write: WriteView::Insert(pending_record(escrow)), payment: None },
        ),
    }
}

/// Creation on the ledger: as creation, and the amount asked for is paid out
/// to the recipient, whose address the ledger must accept.
pub open spec fn planned_disbursement(escrow: EscrowView, recipient_is_valid: bool) -> Result<
    TransactionView,
    EscrowError,
> {
    match creation_defect(escrow) {
        Some(field) => Err(EscrowError::ValidationError(field)),
        None => if recipient_is_valid {
            Ok(
                TransactionView {
                    write: WriteView::Insert(pending_record(escrow)),
                    payment: Some(
                        PaymentView {
                            kind: PaymentKind::Disbursement,
                            destination: escrow.recipient_public_key,
                            amount: escrow.loan_amount,
                        },
                    ),
                },
            )
        } else {
            Err(EscrowError::LedgerFailure(LedgerCause::InvalidAddress))
        },
    }
}

/// Locking: a pending escrow becomes funded with `amount`, which must be
/// positive. The status is checked before the amount. No ledger call.
pub open spec fn planned_lock(escrow: EscrowView, amount: i64) -> Result<
    TransactionView,
    EscrowError,
> {
    if escrow.status != EscrowStatus::Pending {
        Err(EscrowError::InvalidTransition(Transition::Lock))
    } else if amount <= 0 {
        Err(EscrowError::ValidationError(Field::LockAmount))
    } else {
        Ok(
            TransactionView {
                write: WriteView::Update {
                    id: escrow.id,
                    expected: EscrowStatus::Pending,
                    mutation: Mutation { status: EscrowStatus::Funded, locked_funds: Some(amount) },
                },
                payment: None,
            },
        )
    }
}

/// Release: a caller with a releasing role turns a funded escrow into a
/// released one, and the locked funds are paid to the recipient address. The
/// role is checked before the status.
pub open spec fn planned_release(escrow: EscrowView, caller: Seq<char>, policy: AccessPolicy) -> Result<
    TransactionView,
    EscrowError,
> {
    if !authorized(escrow, caller, policy.release) {
        Err(EscrowError::Unauthorized)
    } else if escrow.status != EscrowStatus::Funded {
        Err(EscrowError::InvalidTransition(Transition::Release))
    } else {
        Ok(
            TransactionView {
                write: WriteView::Update {
                    id: escrow.id,
                    expected: EscrowStatus::Funded,
                    mutation: Mutation { status: EscrowStatus::Released, locked_funds: None },
                },
                payment: required_payment(
                    PaymentKind::Release,
                    escrow.recipient_public_key,
                    escrow.locked_funds,
                ),
            },
        )
    }
}

/// Cancellation: a caller with a cancelling role turns a pending or funded
/// escrow into a cancelled one with nothing locked, and what was locked is
/// paid back to the owner. The role is checked before the status.
pub open spec fn planned_cancel(escrow: EscrowView, caller: Seq<char>, policy: AccessPolicy) -> Result<
    TransactionView,
    EscrowError,
> {
    if !authorized(escrow, caller, policy.cancel) {
        Err(EscrowError::Unauthorized)
    } else if escrow.status != EscrowStatus::Pending && escrow.status != EscrowStatus::Funded {
        Err(EscrowError::InvalidTransition(Transition::Cancel))
    } else {
        Ok(
            TransactionView {
                write: WriteView::Update {
                    id: escrow.id,
                    expected: escrow.status,
                    mutation: Mutation { status: EscrowStatus::Cancelled, locked_funds: Some(0) },
                },
                payment: required_payment(PaymentKind::Refund, escrow.owner, escrow.locked_funds),
            },
        )
    }
}

/// Whether funds are locked on `escrow` that the status `status` does not
/// allow: funds are locked only in a funded or released escrow.
pub open spec fn strands_funds(escrow: EscrowView, status: EscrowStatus) -> bool {
    escrow.locked_funds > 0 && status != EscrowStatus::Funded && status != EscrowStatus::Released
}

/// The operational overwrite of the status of an escrow that is not in a
/// terminal status. No other field is touched and no ledger call is made.
/// The overwrite is refused where funds are locked that the new status does
/// not allow.
pub open spec fn planned_status_update(escrow: EscrowView, status: EscrowStatus) -> Result<
    TransactionView,
    EscrowError,
> {
    if escrow.status.terminal() || strands_funds(escrow, status) {
        Err(EscrowError::InvalidTransition(Transition::UpdateStatus))
    } else {
        Ok(
            TransactionView {
                write: WriteView::Update {
                    id: escrow.id,
                    expected: escrow.status,
                    mutation: Mutation { status, locked_funds: None },
                },
                payment: None,
            },
        )
    }
}

/// The first input of `escrow` that creation does not accept.
pub fn first_defect(escrow: &Escrow) -> (defect: Option<Field>)
    ensures
        defect == creation_defect(escrow@),
{
    if escrow.loan_amount <= 0 {
        Some(Field::LoanAmount)
    } else if escrow.loan_term.as_str().is_empty() {
        Some(Field::LoanTerm)
    } else if escrow.purpose_of_loan.as_str().is_empty() {
        Some(Field::PurposeOfLoan)
    } else if escrow.monthly_income <= 0 {
        Some(Field::MonthlyIncome)
    } else {
        None
    }
}

fn payment_of(kind: PaymentKind, destination: &String, amount: i64) -> (payment: Option<Payment>)
    ensures
        match required_payment(kind, destination@, amount as int) {
            Some(view) => payment is Some && payment->Some_0@ == view,
            None => payment is None,
        },
{
    if amount > 0 {
        Some(Payment { kind, destination: destination.clone(), amount })
    } else {
        None
    }
}

/// Stages the creation of `new_escrow`. The identifier, the status and the
/// locked amount that it came with are not kept: the record is pending with
/// nothing locked, and the store assigns the identifier.
pub fn create(new_escrow: Escrow) -> (r: Result<Transaction, EscrowError>)
    ensures
        agrees(r, planned_creation(new_escrow@)),
        r is Ok ==> (r->Ok_0@.write matches WriteView::Insert(record) && record.status
            == EscrowStatus::Pending && record.locked_funds == 0),
{
    match first_defect(&new_escrow) {
        Some(field) => Err(EscrowError::ValidationError(field)),
        None => {
            let mut record = new_escrow;
            record.status = EscrowStatus::Pending;
            record.locked_funds = 0;
            Ok(Transaction::stage(Write::Insert(record), None))
        },
    }
}

/// Stages the creation of `new_escrow` together with the payment of the
/// amount asked for to its recipient. `recipient_is_valid` says whether the
/// ledger accepts the recipient address.
pub fn create_with_disbursement(new_escrow: Escrow, recipient_is_valid: bool) -> (r: Result<
    Transaction,
    EscrowError,
>)
    ensures
        agrees(r, planned_disbursement(new_escrow@, recipient_is_valid)),
{
    match first_defect(&new_escrow) {
        Some(field) => Err(EscrowError::ValidationError(field)),
        None => {
            if !recipient_is_valid {
                return Err(EscrowError::LedgerFailure(LedgerCause::InvalidAddress));
            }
            let payment = Payment {
                kind: PaymentKind::Disbursement,
                destination: new_escrow.recipient_public_key.clone(),
                amount: new_escrow.loan_amount,
            };
            let mut record = new_escrow;
            record.status = EscrowStatus::Pending;
            record.locked_funds = 0;
            Ok(Transaction::stage(Write::Insert(record), Some(payment)))
        },
    }
}

/// Stages the creation of `new_escrow` together with the payment of the
/// amount asked for to its recipient. The inputs are validated as in
/// [`create`]; then the recipient address must be a public key of the ledger,
/// or the ledger failure `InvalidAddress` is returned.
pub fn create_stellar_escrow(new_escrow: Escrow) -> (r: Result<Transaction, EscrowError>)
    ensures
        agrees(
            r,
            planned_disbursement(
                new_escrow@,
                is_ed25519_public_key(new_escrow@.recipient_public_key),
            ),
        ),
{
    let recipient_is_valid = valid_public_key(new_escrow.recipient_public_key.as_str());
    create_with_disbursement(new_escrow, recipient_is_valid)
}

/// Stages the locking of `amount` on `escrow`.
pub fn lock_funds(escrow: &Escrow, amount: i64) -> (r: Result<Transaction, EscrowError>)
    ensures
        agrees(r, planned_lock(escrow@, amount)),
{
    match escrow.status {
        EscrowStatus::Pending => {},
        _ => {
            return Err(EscrowError::InvalidTransition(Transition::Lock));
        },
    }
    if amount <= 0 {
        return Err(EscrowError::ValidationError(Field::LockAmount));
    }
    Ok(
        Transaction::stage(
            Write::Update {
                id: escrow.id,
                expected: EscrowStatus::Pending,
                mutation: Mutation { status: EscrowStatus::Funded, locked_funds: Some(amount) },
            },
            None,
        ),
    )
}

/// Stages the release of `escrow` at the request of `caller`.
pub fn release_funds(escrow: &Escrow, caller: &str, policy: &AccessPolicy) -> (r: Result<
    Transaction,
    EscrowError,
>)
    ensures
        agrees(r, planned_release(escrow@, caller@, *policy)),
{
    if !is_authorized(escrow, caller, &policy.release) {
        return Err(EscrowError::Unauthorized);
    }
    match escrow.status {
        EscrowStatus::Funded => {},
        _ => {
            return Err(EscrowError::InvalidTransition(Transition::Release));
        },
    }
    Ok(
        Transaction::stage(
            Write::Update {
                id: escrow.id,
                expected: EscrowStatus::Funded,
                mutation: Mutation { status: EscrowStatus::Released, locked_funds: None },
            },
            payment_of(
                PaymentKind::Release,
                &escrow.recipient_public_key,
                escrow.locked_funds,
            ),
        ),
    )
}

/// Stages the cancellation of `escrow` at the request of `caller`.
pub fn cancel_and_refund(escrow: &Escrow, caller: &str, policy: &AccessPolicy) -> (r: Result<
    Transaction,
    EscrowError,
>)
    ensures
        agrees(r, planned_cancel(escrow@, caller@, *policy)),
{
    if !is_authorized(escrow, caller, &policy.cancel) {
        return Err(EscrowError::Unauthorized);
    }
    match escrow.status {
        EscrowStatus::Pending | EscrowStatus::Funded => {},
        _ => {
            return Err(EscrowError::InvalidTransition(Transition::Cancel));
        },
    }
    Ok(
        Transaction::stage(
            Write::Update {
                id: escrow.id,
                expected: escrow.status,
                mutation: Mutation { status: EscrowStatus::Cancelled, locked_funds: Some(0) },
            },
            payment_of(PaymentKind::Refund, &escrow.owner, escrow.locked_funds),
        ),
    )
}

/// Stages the overwrite of the status of `escrow` with `status`. An escrow
/// in a terminal status takes no overwrite, and neither does one with funds
/// locked where the new status is not `Funded` or `Released`: the record
/// stays within the custody invariants.
pub fn update_status(escrow: &Escrow, status: EscrowStatus) -> (r: Result<Transaction, EscrowError>)
    ensures
        agrees(r, planned_status_update(escrow@, status)),
        escrow@.consistent() && r is Ok ==> (EscrowView { status, ..escrow@ }).consistent(),
{
    if escrow.status.is_terminal() {
        return Err(EscrowError::InvalidTransition(Transition::UpdateStatus));
    }
    let keeps_funds = match status {
        EscrowStatus::Funded | EscrowStatus::Released => true,
        _ => false,
    };
    if escrow.locked_funds > 0 && !keeps_funds {
        return Err(EscrowError::InvalidTransition(Transition::UpdateStatus));
    }
    Ok(
        Transaction::stage(
            Write::Update {
                id: escrow.id,
                expected: escrow.status,
                mutation: Mutation { status, locked_funds: None },
            },
            None,
        ),
    )
}

} // verus!
