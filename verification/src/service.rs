//! The escrow engine over the record store.
//!
//! Creation, locking and the status overwrite need no ledger call. Release
//! and cancellation move funds: the transition is staged against the record
//! as it stands; the write is tried against the record before the ledger is
//! reached; the ledger makes the staged payment; and the write is made only
//! on a confirmed outcome and only if the status is still the one that the
//! transition was staged on. A local failure keeps the ledger from being
//! called.
//!
//! With a ledger at hand, [`EscrowService::release_funds`] and
//! [`EscrowService::cancel_and_refund`] do all of this in one call, and
//! [`EscrowService::settle`] does it for a transaction staged before. A
//! caller that reaches its ledger in another way stages with
//! [`EscrowService::stage_release`] or [`EscrowService::stage_cancel`], asks
//! [`EscrowService::still_applies`], has the payment made, and reports the
//! outcome to [`EscrowService::commit`]. Of two transitions staged on the
//! same record, the first to commit wins and the second meets a conflict
//! before it pays.
//!
//! Every record of the engine satisfies the custody invariants at all times:
//! nothing is locked while an escrow is pending, and funds are locked only in
//! a funded or released escrow.
//!
//! A staged transaction that is dropped leaves no trace: that is a rollback.
//! Once its payment has been handed to the ledger it must be committed with
//! the outcome, whatever the outcome is.

use crate::coordinator::{resolved, Transaction, TransactionView};
use crate::error::{agrees, EscrowError};
use crate::escrow::{all_consistent, Escrow, EscrowStatus, EscrowView};
use crate::ledger::{is_ed25519_public_key, LedgerOutcome, Payment};
use crate::lifecycle;
use crate::lifecycle::{
    planned_cancel, planned_creation, planned_disbursement, planned_lock, planned_release,
    planned_status_update,
};
use crate::policy::AccessPolicy;
use crate::store::{found, numbered, write_result, written, EscrowStore};
use vstd::prelude::*;

verus! {

/// The answer of a transition together with the records that it leaves.
pub struct Step {
    pub result: Result<EscrowView, EscrowError>,
    pub records: Seq<EscrowView>,
}

/// A failure: the error, and the records as they were.
pub open spec fn refused(records: Seq<EscrowView>, error: EscrowError) -> Step {
    Step { result: Err(error), records }
}

/// Commit: the transaction is resolved with the outcome of its payment and,
/// if it may commit, its write is made. In every other case the records stay
/// as they were.
pub open spec fn committed(
    records: Seq<EscrowView>,
    transaction: TransactionView,
    outcome: Option<LedgerOutcome>,
) -> Step {
    match resolved(transaction, outcome) {
        Ok(write) => Step {
            result: write_result(records, write),
            records: written(records, write),
        },
        Err(error) => refused(records, error),
    }
}

/// A transition that needs no payment: staged and committed at once.
pub open spec fn settled(records: Seq<EscrowView>, staged: Result<TransactionView, EscrowError>) -> Step {
    match staged {
        Ok(transaction) => committed(records, transaction, None),
        Err(error) => refused(records, error),
    }
}

/// Release, staged on the record `id` as it stands.
pub open spec fn staged_release(
    records: Seq<EscrowView>,
    policy: AccessPolicy,
    id: int,
    caller: Seq<char>,
) -> Result<TransactionView, EscrowError> {
    match found(records, id) {
        Ok(escrow) => planned_release(escrow, caller, policy),
        Err(error) => Err(error),
    }
}

/// Cancellation, staged on the record `id` as it stands.
pub open spec fn staged_cancel(
    records: Seq<EscrowView>,
    policy: AccessPolicy,
    id: int,
    caller: Seq<char>,
) -> Result<TransactionView, EscrowError> {
    match found(records, id) {
        Ok(escrow) => planned_cancel(escrow, caller, policy),
        Err(error) => Err(error),
    }
}

/// Creation in one step.
pub open spec fn create_step(records: Seq<EscrowView>, new_escrow: EscrowView) -> Step {
    settled(records, planned_creation(new_escrow))
}

/// Locking in one step.
pub open spec fn lock_step(records: Seq<EscrowView>, id: int, amount: i64) -> Step {
    match found(records, id) {
        Ok(escrow) => settled(records, planned_lock(escrow, amount)),
        Err(error) => refused(records, error),
    }
}

/// The status overwrite in one step.
pub open spec fn status_step(records: Seq<EscrowView>, id: int, status: EscrowStatus) -> Step {
    match found(records, id) {
        Ok(escrow) => settled(records, planned_status_update(escrow, status)),
        Err(error) => refused(records, error),
    }
}

/// Whether `outcome` is what `ledger` returned for the payment of the
/// transaction, or no outcome where the transaction needs no payment.
pub open spec fn settled_with<F: FnOnce(Payment) -> LedgerOutcome>(
    transaction: TransactionView,
    outcome: Option<LedgerOutcome>,
    ledger: F,
) -> bool {
    match transaction.payment {
        None => outcome is None,
        Some(view) => outcome is Some && exists|payment: Payment|
            payment@ == view && call_ensures(ledger, (payment,), outcome->Some_0),
    }
}

/// Whether `r` and `records` are what settling `transaction` with `ledger`
/// gives. Where the write would fail on the records as they stand, that
/// failure is the answer and the records stay as they were: the ledger is
/// reached only for a write that still applies. Otherwise the answer is the
/// commit of the transaction with the outcome that `ledger` returned.
pub open spec fn settled_through<F: FnOnce(Payment) -> LedgerOutcome>(
    before: Seq<EscrowView>,
    transaction: TransactionView,
    ledger: F,
    r: Result<Escrow, EscrowError>,
    records: Seq<EscrowView>,
) -> bool {
    match write_result(before, transaction.write) {
        Err(error) => r is Err && r->Err_0 == error && records == before,
        Ok(_) => exists|outcome: Option<LedgerOutcome>| #[trigger]
            settled_with(transaction, outcome, ledger) && agrees(
                r,
                committed(before, transaction, outcome).result,
            ) && records == committed(before, transaction, outcome).records,
    }
}

/// Whether `r` and `records` are what staging a transition and carrying it
/// through with `ledger` in one call gives: the error of the staging and the
/// records as they were, or the commit of the staged transaction with the
/// outcome that `ledger` returned. A transition that is staged and settled
/// in one call always still applies.
pub open spec fn carried_through<F: FnOnce(Payment) -> LedgerOutcome>(
    before: Seq<EscrowView>,
    staged: Result<TransactionView, EscrowError>,
    ledger: F,
    r: Result<Escrow, EscrowError>,
    records: Seq<EscrowView>,
) -> bool {
    match staged {
        Err(error) => r is Err && r->Err_0 == error && records == before,
        Ok(transaction) => exists|outcome: Option<LedgerOutcome>| #[trigger]
            settled_with(transaction, outcome, ledger) && agrees(
                r,
                committed(before, transaction, outcome).result,
            ) && records == committed(before, transaction, outcome).records,
    }
}

/// A release or a cancellation that is staged on consistent records still
/// applies to them.
pub proof fn lemma_fresh_transaction_still_applies(
    records: Seq<EscrowView>,
    policy: AccessPolicy,
    id: int,
    caller: Seq<char>,
)
    requires
        numbered(records),
        all_consistent(records),
    ensures
        staged_release(records, policy, id, caller) matches Ok(transaction) ==> write_result(
            records,
            transaction.write,
        ) is Ok,
        staged_cancel(records, policy, id, caller) matches Ok(transaction) ==> write_result(
            records,
            transaction.write,
        ) is Ok,
{
    if 1 <= id <= records.len() {
        assert(records[id - 1].consistent());
    }
}

/// The escrow engine: the records, and the roles that may release and cancel.
pub struct EscrowService {
    store: EscrowStore,
    policy: AccessPolicy,
}

impl View for EscrowService {
    type V = Seq<EscrowView>;

    /// The records, in the order of their identifiers.
    closed spec fn view(&self) -> Seq<EscrowView> {
        self.store@
    }
}

impl EscrowService {
    #[verifier::type_invariant]
    spec fn well_formed(self) -> bool {
        &&& numbered(self.store@)
        &&& all_consistent(self.store@)
    }

    /// The roles that may release and cancel.
    pub closed spec fn policy(&self) -> AccessPolicy {
        self.policy
    }

    /// An engine without records.
    pub fn new(policy: AccessPolicy) -> (service: EscrowService)
        ensures
            service@.len() == 0,
            service.policy() == policy,
            numbered(service@),
            all_consistent(service@),
    {
        EscrowService { store: EscrowStore::new(), policy }
    }

    /// Takes the store out and leaves an empty one. The store changes outside
    /// the engine and is put back whole.
    fn take_store(&mut self) -> (store: EscrowStore)
        ensures
            store@ == old(self)@,
            final(self)@.len() == 0,
            final(self).policy == old(self).policy,
    {
        let mut store = EscrowStore::new();
        core::mem::swap(&mut self.store, &mut store);
        store
    }

    /// How many escrows there are. Their identifiers run from 1 to this
    /// number, each record is stored under its own, and every record
    /// satisfies the custody invariants.
    pub fn len(&self) -> (n: usize)
        ensures
            n == self@.len(),
            n <= i32::MAX,
            numbered(self@),
            all_consistent(self@),
    {
        proof {
            use_type_invariant(self);
        }
        self.store.len()
    }

    /// The access policy of the engine.
    pub fn access_policy(&self) -> (policy: AccessPolicy)
        ensures
            policy == self.policy(),
    {
        self.policy
    }

    /// Creates an escrow. The amount asked for and the monthly income must be
    /// positive and the term and the purpose not empty; the first of these
    /// that fails, in this order, is the validation error. The new record is
    /// pending with nothing locked, under the next identifier.
    pub fn create_escrow(&mut self, new_escrow: Escrow) -> (r: Result<Escrow, EscrowError>)
        requires
            old(self)@.len() < i32::MAX,
        ensures
            agrees(r, create_step(old(self)@, new_escrow@).result),
            final(self)@ == create_step(old(self)@, new_escrow@).records,
            final(self).policy() == old(self).policy(),
            r is Ok ==> r->Ok_0@.status == EscrowStatus::Pending && r->Ok_0@.locked_funds == 0
                && r->Ok_0@.id == old(self)@.len() + 1,
            numbered(final(self)@),
            all_consistent(final(self)@),
    {
        proof {
            use_type_invariant(&*self);
        }
        match lifecycle::create(new_escrow) {
            Ok(transaction) => self.commit(transaction, None),
            Err(error) => Err(error),
        }
    }

    /// Stages the creation of an escrow whose amount is paid out on the
    /// ledger to the recipient address. The inputs are validated as in
    /// [`EscrowService::create_escrow`]; then the recipient address must be a
    /// public key of the ledger, or the ledger failure `InvalidAddress` is
    /// returned. Nothing is stored before [`EscrowService::commit`].
    pub fn stage_stellar_escrow(&self, new_escrow: Escrow) -> (r: Result<Transaction, EscrowError>)
        ensures
            agrees(
                r,
                planned_disbursement(
                    new_escrow@,
                    is_ed25519_public_key(new_escrow@.recipient_public_key),
                ),
            ),
    {
        lifecycle::create_stellar_escrow(new_escrow)
    }

    /// The record of the escrow `id`.
    pub fn get_escrow(&self, id: i32) -> (r: Result<Escrow, EscrowError>)
        ensures
            agrees(r, found(self@, id as int)),
    {
        self.store.get(id)
    }

    /// Overwrites the status of the escrow `id`. No other field changes. An
    /// escrow in a terminal status takes no overwrite, and neither does one
    /// with funds locked where the new status is not `Funded` or `Released`;
    /// both are refused with `InvalidTransition`.
    pub fn update_status(&mut self, id: i32, new_status: EscrowStatus) -> (r: Result<
        Escrow,
        EscrowError,
    >)
        ensures
            agrees(r, status_step(old(self)@, id as int, new_status).result),
            final(self)@ == status_step(old(self)@, id as int, new_status).records,
            r is Ok ==> r->Ok_0@.consistent() && r->Ok_0@.status == new_status && found(
                final(self)@,
                id as int,
            ) == Ok::<EscrowView, EscrowError>(r->Ok_0@),
            final(self).policy() == old(self).policy(),
            numbered(final(self)@),
            all_consistent(final(self)@),
    {
        proof {
            use_type_invariant(&*self);
        }
        let escrow = match self.store.get(id) {
            Ok(escrow) => escrow,
            Err(error) => return Err(error),
        };
        match lifecycle::update_status(&escrow, new_status) {
            Ok(transaction) => self.commit(transaction, None),
            Err(error) => Err(error),
        }
    }

    /// Locks `amount` on the pending escrow `id`, which becomes funded.
    pub fn lock_funds(&mut self, id: i32, amount: i64) -> (r: Result<Escrow, EscrowError>)
        ensures
            agrees(r, lock_step(old(self)@, id as int, amount).result),
            final(self)@ == lock_step(old(self)@, id as int, amount).records,
            final(self).policy() == old(self).policy(),
            numbered(final(self)@),
            all_consistent(final(self)@),
    {
        proof {
            use_type_invariant(&*self);
        }
        let escrow = match self.store.get(id) {
            Ok(escrow) => escrow,
            Err(error) => return Err(error),
        };
        match lifecycle::lock_funds(&escrow, amount) {
            Ok(transaction) => self.commit(transaction, None),
            Err(error) => Err(error),
        }
    }

    /// Stages the release of the funded escrow `id` at the request of
    /// `caller`. The staged payment moves the locked funds to the recipient
    /// address. Nothing is written before [`EscrowService::commit`].
    pub fn stage_release(&self, id: i32, caller: &str) -> (r: Result<Transaction, EscrowError>)
        ensures
            agrees(r, staged_release(self@, self.policy(), id as int, caller@)),
    {
        let escrow = match self.store.get(id) {
            Ok(escrow) => escrow,
            Err(error) => return Err(error),
        };
        lifecycle::release_funds(&escrow, caller, &self.policy)
    }

    /// Stages the cancellation of the pending or funded escrow `id` at the
    /// request of `caller`. The staged payment, if funds are locked, moves
    /// them back to the owner. Nothing is written before
    /// [`EscrowService::commit`].
    pub fn stage_cancel(&self, id: i32, caller: &str) -> (r: Result<Transaction, EscrowError>)
        ensures
            agrees(r, staged_cancel(self@, self.policy(), id as int, caller@)),
    {
        let escrow = match self.store.get(id) {
            Ok(escrow) => escrow,
            Err(error) => return Err(error),
        };
        lifecycle::cancel_and_refund(&escrow, caller, &self.policy)
    }

    /// Creates an escrow and pays the amount asked for to its recipient
    /// address on the ledger. The escrow is stored only if `ledger` confirms
    /// the payment; where the inputs are not acceptable or the address is no
    /// public key of the ledger, `ledger` is not called.
    pub fn create_stellar_escrow<F: FnOnce(Payment) -> LedgerOutcome>(
        &mut self,
        new_escrow: Escrow,
        ledger: F,
    ) -> (r: Result<Escrow, EscrowError>)
        requires
            old(self)@.len() < i32::MAX,
            forall|payment: Payment| call_requires(ledger, (payment,)),
        ensures
            carried_through(
                old(self)@,
                planned_disbursement(
                    new_escrow@,
                    is_ed25519_public_key(new_escrow@.recipient_public_key),
                ),
                ledger,
                r,
                final(self)@,
            ),
            final(self).policy() == old(self).policy(),
            numbered(final(self)@),
            all_consistent(final(self)@),
    {
        proof {
            use_type_invariant(&*self);
        }
        match self.stage_stellar_escrow(new_escrow) {
            Ok(transaction) => self.settle(transaction, ledger),
            Err(error) => Err(error),
        }
    }

    /// Releases the funds of the funded escrow `id` to its beneficiary at the
    /// request of `caller`: the locked funds are paid to the recipient
    /// address through `ledger`, and on its confirmation the escrow is
    /// released. Where the caller lacks the role or the escrow is not funded,
    /// `ledger` is not called; where the payment fails, the escrow stays
    /// funded.
    pub fn release_funds<F: FnOnce(Payment) -> LedgerOutcome>(
        &mut self,
        id: i32,
        caller: &str,
        ledger: F,
    ) -> (r: Result<Escrow, EscrowError>)
        requires
            forall|payment: Payment| call_requires(ledger, (payment,)),
        ensures
            carried_through(
                old(self)@,
                staged_release(old(self)@, old(self).policy(), id as int, caller@),
                ledger,
                r,
                final(self)@,
            ),
            final(self).policy() == old(self).policy(),
            numbered(final(self)@),
            all_consistent(final(self)@),
    {
        proof {
            use_type_invariant(&*self);
            lemma_fresh_transaction_still_applies(self@, self.policy(), id as int, caller@);
        }
        match self.stage_release(id, caller) {
            Ok(transaction) => self.settle(transaction, ledger),
            Err(error) => Err(error),
        }
    }

    /// Cancels the pending or funded escrow `id` at the request of `caller`:
    /// what is locked is paid back to the owner through `ledger`, and on its
    /// confirmation the escrow is cancelled with nothing locked. Where
    /// nothing is locked, the escrow is cancelled without a call of `ledger`;
    /// where the payment fails, the escrow stays as it was.
    pub fn cancel_and_refund<F: FnOnce(Payment) -> LedgerOutcome>(
        &mut self,
        id: i32,
        caller: &str,
        ledger: F,
    ) -> (r: Result<Escrow, EscrowError>)
        requires
            forall|payment: Payment| call_requires(ledger, (payment,)),
        ensures
            carried_through(
                old(self)@,
                staged_cancel(old(self)@, old(self).policy(), id as int, caller@),
                ledger,
                r,
                final(self)@,
            ),
            final(self).policy() == old(self).policy(),
            numbered(final(self)@),
            all_consistent(final(self)@),
    {
        proof {
            use_type_invariant(&*self);
            lemma_fresh_transaction_still_applies(self@, self.policy(), id as int, caller@);
        }
        match self.stage_cancel(id, caller) {
            Ok(transaction) => self.settle(transaction, ledger),
            Err(error) => Err(error),
        }
    }

    /// Whether the write of a staged transaction would be made on the
    /// records as they stand: `Ok`, or the error that it would fail with,
    /// such as `ConcurrencyConflict` where the status is no longer the one
    /// that the transition was staged on. A caller that has the payment made
    /// itself asks this before it pays.
    pub fn still_applies(&self, transaction: &Transaction) -> (r: Result<(), EscrowError>)
        ensures
            match write_result(self@, transaction@.write) {
                Ok(_) => r is Ok,
                Err(error) => r == Err::<(), EscrowError>(error),
            },
    {
        self.store.check(&transaction.write())
    }

    /// Carries a staged transaction through with a ledger at hand. First the
    /// write is tried against the records as they stand; where it would
    /// fail, its failure is returned and `ledger` is not called. Then the
    /// payment, if the transaction needs one, is handed to `ledger`, and the
    /// transaction is committed with the outcome that `ledger` returns. A
    /// transaction without a payment is committed without a call of `ledger`.
    pub fn settle<F: FnOnce(Payment) -> LedgerOutcome>(
        &mut self,
        transaction: Transaction,
        ledger: F,
    ) -> (r: Result<Escrow, EscrowError>)
        requires
            transaction@.write is Insert ==> old(self)@.len() < i32::MAX,
            forall|payment: Payment| call_requires(ledger, (payment,)),
        ensures
            settled_through(old(self)@, transaction@, ledger, r, final(self)@),
            final(self).policy() == old(self).policy(),
            numbered(final(self)@),
            all_consistent(final(self)@),
    {
        proof {
            use_type_invariant(&*self);
        }
        match self.still_applies(&transaction) {
            Ok(()) => {},
            Err(error) => {
                return Err(error);
            },
        }
        let outcome = match transaction.payment() {
            Some(payment) => Some(ledger(payment)),
            None => None,
        };
        let r = self.commit(transaction, outcome);
        proof {
            assert(settled_with(transaction@, outcome, ledger));
        }
        r
    }

    /// Commits or rolls back a staged transaction. `outcome` says how its
    /// payment went, `None` where none was submitted. The write is made only
    /// if the transaction needs no payment or the payment is confirmed, and
    /// only if the record still has the status that the transaction was
    /// staged on; otherwise the records stay as they were and the error says
    /// why: the ledger failure with its cause, or `ConcurrencyConflict`.
    ///
    /// The payment is the caller's here, and so is its order: ask
    /// [`EscrowService::still_applies`] before the payment is submitted, and
    /// submit it only on `Ok`. A payment that is made for a transaction whose
    /// status has changed meanwhile is made for nothing, for this call then
    /// answers with the conflict.
    pub fn commit(&mut self, transaction: Transaction, outcome: Option<LedgerOutcome>) -> (r: Result<
        Escrow,
        EscrowError,
    >)
        requires
            transaction@.write is Insert ==> old(self)@.len() < i32::MAX,
        ensures
            agrees(r, committed(old(self)@, transaction@, outcome).result),
            final(self)@ == committed(old(self)@, transaction@, outcome).records,
            final(self).policy() == old(self).policy(),
            transaction@.legal(),
            numbered(final(self)@),
            all_consistent(final(self)@),
    {
        let resolution = transaction.resolve(outcome);
        proof {
            use_type_invariant(&*self);
        }
        match resolution {
            Ok(write) => {
                let mut store = self.take_store();
                let r = store.apply(write);
                self.store = store;
                r
            },
            Err(error) => Err(error),
        }
    }
}

} // verus!
