//! The transaction coordinator.
//!
//! A transition that passes validation is staged as a [`Transaction`]: the
//! write to make, and the payment that the ledger has to confirm first. The
//! coordinator decides between commit and rollback once it is told how the
//! payment went. A write is never released for commit while its payment is
//! unconfirmed, and a transition that failed validation has no transaction,
//! so no payment is ever asked for on its behalf.

use crate::error::{agrees, EscrowError, LedgerCause};
use crate::escrow::{Escrow, EscrowStatus, EscrowView};
use crate::ledger::{LedgerOutcome, Payment, PaymentView};
use vstd::prelude::*;

verus! {

/// The fields that a transition writes. The status is always written; the
/// locked amount only where the transition sets it.
#[derive(Clone, Copy, Debug, PartialEq, Eq, Structural)]
pub struct Mutation {
    pub status: EscrowStatus,
    pub locked_funds: Option<i64>,
}

impl Mutation {
    /// The record after the mutation.
    pub open spec fn applied(self, escrow: EscrowView) -> EscrowView {
        EscrowView {
            status: self.status,
            locked_funds: match self.locked_funds {
                Some(amount) => amount as int,
                None => escrow.locked_funds,
            },
            ..escrow
        }
    }

    /// Writes the fields of the mutation onto `escrow`.
    pub fn apply(&self, escrow: &mut Escrow)
        ensures
            final(escrow)@ == self.applied(old(escrow)@),
    {
        escrow.status = self.status;
        match self.locked_funds {
            Some(amount) => {
                escrow.locked_funds = amount;
            },
            None => {},
        }
    }
}

/// What a transaction writes once it may commit: a new record, or new fields
/// on the record `id` provided that its status is still `expected`.
#[derive(Debug)]
pub enum Write {
    Insert(Escrow),
    Update { id: i32, expected: EscrowStatus, mutation: Mutation },
}

/// The mathematical content of a [`Write`].
pub enum WriteView {
    Insert(EscrowView),
    Update { id: int, expected: EscrowStatus, mutation: Mutation },
}

impl View for Write {
    type V = WriteView;

    open spec fn view(&self) -> WriteView {
        match *self {
            Write::Insert(escrow) => WriteView::Insert(escrow@),
            Write::Update { id, expected, mutation } => WriteView::Update {
                id: id as int,
                expected,
                mutation,
            },
        }
    }
}

impl Clone for Write {
    fn clone(&self) -> (copy: Self)
        ensures
            copy == *self,
    {
        match self {
            Write::Insert(escrow) => Write::Insert(escrow.clone()),
            Write::Update { id, expected, mutation } => Write::Update {
                id: *id,
                expected: *expected,
                mutation: *mutation,
            },
        }
    }
}

/// A staged transition: validated, not yet written. Where it holds a payment,
/// the ledger has to confirm that payment before the write may be made.
#[derive(Debug)]
pub struct Transaction {
    write: Write,
    payment: Option<Payment>,
}

/// The mathematical content of a [`Transaction`].
pub struct TransactionView {
    pub write: WriteView,
    pub payment: Option<PaymentView>,
}

/// The content of a transaction that makes `write` and needs `payment`.
pub open spec fn staged(write: Write, payment: Option<Payment>) -> TransactionView {
    TransactionView {
        write: write@,
        payment: match payment {
            Some(payment) => Some(payment@),
            None => None,
        },
    }
}

impl View for Transaction {
    type V = TransactionView;

    closed spec fn view(&self) -> TransactionView {
        staged(self.write, self.payment)
    }
}

impl TransactionView {
    /// What every staged transaction satisfies: a new record is pending with
    /// nothing locked and a positive amount asked for; an update expects a
    /// status that is not terminal and locks no negative amount; a payment
    /// moves a positive amount.
    pub open spec fn legal(self) -> bool {
        &&& match self.write {
            WriteView::Insert(record) => record.status == EscrowStatus::Pending
                && record.locked_funds == 0 && record.loan_amount > 0,
            WriteView::Update { id, expected, mutation } => !expected.terminal() && match mutation.locked_funds {
                Some(amount) => amount >= 0,
                None => true,
            },
        }
        &&& match self.payment {
            Some(payment) => payment.amount > 0,
            None => true,
        }
    }
}

/// Commit or roll back. A transaction without a payment commits. One with a
/// payment commits only on a confirmed outcome; a failure rolls it back with
/// its cause, and so does the absence of any outcome.
pub open spec fn resolved(transaction: TransactionView, outcome: Option<LedgerOutcome>) -> Result<
    WriteView,
    EscrowError,
> {
    match transaction.payment {
        None => Ok(transaction.write),
        Some(_) => match outcome {
            Some(LedgerOutcome::Confirmed) => Ok(transaction.write),
            Some(LedgerOutcome::Failed(cause)) => Err(EscrowError::LedgerFailure(cause)),
            None => Err(EscrowError::LedgerFailure(LedgerCause::NotSubmitted)),
        },
    }
}

impl Transaction {
    #[verifier::type_invariant]
    spec fn staged_by_the_rules(self) -> bool {
        self@.legal()
    }

    /// Stages a transaction. Only the state machine does so, and only what
    /// is legal.
    pub(crate) fn stage(write: Write, payment: Option<Payment>) -> (transaction: Transaction)
        requires
            staged(write, payment).legal(),
        ensures
            transaction@ == staged(write, payment),
    {
        Transaction { write, payment }
    }

    /// The payment that the ledger must confirm before the transaction may
    /// commit, if it needs one.
    pub fn payment(&self) -> (payment: Option<Payment>)
        ensures
            match self@.payment {
                Some(view) => payment is Some && payment->Some_0@ == view,
                None => payment is None,
            },
    {
        match &self.payment {
            Some(payment) => Some(payment.clone()),
            None => None,
        }
    }

    /// The write that the transaction makes if it commits. A store with
    /// transactions of its own may stage this write, uncommitted, before the
    /// payment is submitted, and commit or roll back as
    /// [`Transaction::resolve`] decides.
    pub fn write(&self) -> (write: Write)
        ensures
            write@ == self@.write,
    {
        self.write.clone()
    }

    /// Decides between commit and rollback, given how the payment went:
    /// `None` where no payment was submitted. `Ok` holds the write to make;
    /// `Err` means that nothing may be written.
    pub fn resolve(self, outcome: Option<LedgerOutcome>) -> (r: Result<Write, EscrowError>)
        ensures
            agrees(r, resolved(self@, outcome)),
            self@.legal(),
    {
        proof {
            use_type_invariant(&self);
        }
        match self.payment {
            None => Ok(self.write),
            Some(_) => match outcome {
                Some(LedgerOutcome::Confirmed) => Ok(self.write),
                Some(LedgerOutcome::Failed(cause)) => Err(EscrowError::LedgerFailure(cause)),
                None => Err(EscrowError::LedgerFailure(LedgerCause::NotSubmitted)),
            },
        }
    }
}

} // verus!
