//! What holds of every call on the engine, and of calls that follow one
//! another.
//!
//! The laws are stated over the records and the functions by which the
//! contracts of [`crate::service::EscrowService`] describe each call. What
//! holds of whole histories is in [`crate::history`].

use crate::coordinator::{resolved, TransactionView, WriteView};
use crate::error::{EscrowError, LedgerCause, Transition};
use crate::escrow::{all_consistent, EscrowStatus, EscrowView};
use crate::ledger::{LedgerOutcome, PaymentKind, PaymentView};
use crate::lifecycle::{
    creation_defect, planned_cancel, planned_creation, planned_disbursement, planned_lock,
    planned_release, planned_status_update, required_payment,
};
use crate::policy::{authorized, AccessPolicy};
use crate::service::{
    committed, create_step, lock_step, refused, staged_cancel, staged_release, status_step,
};
use crate::store::{found, holds, numbered, write_result, written};
use vstd::prelude::*;

verus! {

/// A write keeps every record under its own identifier.
pub proof fn law_writes_keep_the_numbering(records: Seq<EscrowView>, write: WriteView)
    requires
        numbered(records),
    ensures
        numbered(written(records, write)),
{
}

/// Every transition that the state machine stages is legal.
pub proof fn law_staged_transitions_are_legal(
    escrow: EscrowView,
    caller: Seq<char>,
    policy: AccessPolicy,
    amount: i64,
    status: EscrowStatus,
    recipient_is_valid: bool,
)
    ensures
        planned_creation(escrow) matches Ok(transaction) ==> transaction.legal(),
        planned_disbursement(escrow, recipient_is_valid) matches Ok(transaction)
            ==> transaction.legal(),
        planned_lock(escrow, amount) matches Ok(transaction) ==> transaction.legal(),
        planned_release(escrow, caller, policy) matches Ok(transaction) ==> transaction.legal(),
        planned_cancel(escrow, caller, policy) matches Ok(transaction) ==> transaction.legal(),
        planned_status_update(escrow, status) matches Ok(transaction) ==> transaction.legal(),
{
}

/// Creation succeeds exactly on acceptable inputs, and the record it stores
/// is pending with nothing locked.
pub proof fn law_created_escrow_is_pending(records: Seq<EscrowView>, new_escrow: EscrowView)
    ensures
        create_step(records, new_escrow).result is Ok <==> creation_defect(new_escrow) is None,
        create_step(records, new_escrow).result matches Ok(record) ==> {
            &&& record.status == EscrowStatus::Pending
            &&& record.locked_funds == 0
            &&& record.id == records.len() + 1
            &&& found(create_step(records, new_escrow).records, record.id) == Ok::<
                EscrowView,
                EscrowError,
            >(record)
        },
{
}

/// A record in a terminal status never changes again: whatever legal
/// transaction is committed, with whatever outcome, the record stays as it
/// is, field by field.
pub proof fn law_terminal_record_never_changes(
    records: Seq<EscrowView>,
    id: int,
    transaction: TransactionView,
    outcome: Option<LedgerOutcome>,
)
    requires
        holds(records, id),
        records[id - 1].status.terminal(),
        transaction.legal(),
    ensures
        found(committed(records, transaction, outcome).records, id) == found(records, id),
        transaction.write matches WriteView::Update { id: target, .. } && target == id ==> {
            &&& committed(records, transaction, outcome).result is Err
            &&& committed(records, transaction, outcome).records == records
        },
{
}

/// On an escrow in a terminal status every transition fails and leaves all
/// records as they were. A caller with the right role is told
/// `InvalidTransition`; no transaction is staged, so no payment is made twice.
pub proof fn law_terminal_status_refuses_every_transition(
    records: Seq<EscrowView>,
    policy: AccessPolicy,
    id: int,
    caller: Seq<char>,
    amount: i64,
    status: EscrowStatus,
)
    requires
        holds(records, id),
        records[id - 1].status.terminal(),
    ensures
        lock_step(records, id, amount) == refused(
            records,
            EscrowError::InvalidTransition(Transition::Lock),
        ),
        status_step(records, id, status) == refused(
            records,
            EscrowError::InvalidTransition(Transition::UpdateStatus),
        ),
        staged_release(records, policy, id, caller) == Err::<TransactionView, EscrowError>(
            if authorized(records[id - 1], caller, policy.release) {
                EscrowError::InvalidTransition(Transition::Release)
            } else {
                EscrowError::Unauthorized
            },
        ),
        staged_cancel(records, policy, id, caller) == Err::<TransactionView, EscrowError>(
            if authorized(records[id - 1], caller, policy.cancel) {
                EscrowError::InvalidTransition(Transition::Cancel)
            } else {
                EscrowError::Unauthorized
            },
        ),
{
}

/// Locking and then releasing pays exactly the locked amount to the recipient
/// address, and the released record still shows that amount as locked.
pub proof fn law_lock_then_release_pays_locked_amount(
    records: Seq<EscrowView>,
    policy: AccessPolicy,
    id: int,
    amount: i64,
    caller: Seq<char>,
)
    requires
        numbered(records),
        lock_step(records, id, amount).result is Ok,
        authorized(records[id - 1], caller, policy.release),
    ensures
        ({
            let funded = lock_step(records, id, amount).records;
            let staged = staged_release(funded, policy, id, caller);
            &&& staged is Ok
            &&& staged->Ok_0.payment == Some(
                PaymentView {
                    kind: PaymentKind::Release,
                    destination: records[id - 1].recipient_public_key,
                    amount: amount as int,
                },
            )
            &&& committed(funded, staged->Ok_0, Some(LedgerOutcome::Confirmed)).result == Ok::<
                EscrowView,
                EscrowError,
            >(
                EscrowView {
                    status: EscrowStatus::Released,
                    locked_funds: amount as int,
                    ..records[id - 1]
                },
            )
            &&& found(
                committed(funded, staged->Ok_0, Some(LedgerOutcome::Confirmed)).records,
                id,
            ) == committed(funded, staged->Ok_0, Some(LedgerOutcome::Confirmed)).result
        }),
{
}

/// Cancelling a funded escrow refunds exactly what was locked to the owner
/// and leaves nothing locked.
pub proof fn law_cancel_refunds_locked_amount(
    records: Seq<EscrowView>,
    policy: AccessPolicy,
    id: int,
    caller: Seq<char>,
)
    requires
        numbered(records),
        all_consistent(records),
        holds(records, id),
        records[id - 1].status == EscrowStatus::Funded,
        authorized(records[id - 1], caller, policy.cancel),
    ensures
        ({
            let staged = staged_cancel(records, policy, id, caller);
            &&& staged is Ok
            &&& staged->Ok_0.payment == required_payment(
                PaymentKind::Refund,
                records[id - 1].owner,
                records[id - 1].locked_funds,
            )
            &&& records[id - 1].locked_funds > 0 ==> staged->Ok_0.payment == Some(
                PaymentView {
                    kind: PaymentKind::Refund,
                    destination: records[id - 1].owner,
                    amount: records[id - 1].locked_funds,
                },
            )
            &&& committed(records, staged->Ok_0, Some(LedgerOutcome::Confirmed)).result == Ok::<
                EscrowView,
                EscrowError,
            >(EscrowView { status: EscrowStatus::Cancelled, locked_funds: 0, ..records[id - 1] })
            &&& found(
                committed(records, staged->Ok_0, Some(LedgerOutcome::Confirmed)).records,
                id,
            ) == committed(records, staged->Ok_0, Some(LedgerOutcome::Confirmed)).result
        }),
{
    assert(records[id - 1].consistent());
}

/// A transaction with a payment does not commit without a confirmation: on a
/// ledger failure, and where no outcome is reported, the error carries the
/// cause and every record stays as it was. A release that fails on the ledger
/// leaves the escrow funded.
pub proof fn law_ledger_failure_rolls_back(
    records: Seq<EscrowView>,
    transaction: TransactionView,
    cause: LedgerCause,
)
    requires
        transaction.payment is Some,
    ensures
        committed(records, transaction, Some(LedgerOutcome::Failed(cause))) == refused(
            records,
            EscrowError::LedgerFailure(cause),
        ),
        committed(records, transaction, None) == refused(
            records,
            EscrowError::LedgerFailure(LedgerCause::NotSubmitted),
        ),
{
}

/// A release whose payment fails on the ledger leaves the stored status at
/// `Funded`, as a look at the record then shows.
pub proof fn law_failed_release_stays_funded(
    records: Seq<EscrowView>,
    policy: AccessPolicy,
    id: int,
    caller: Seq<char>,
    cause: LedgerCause,
)
    requires
        staged_release(records, policy, id, caller) is Ok,
        staged_release(records, policy, id, caller)->Ok_0.payment is Some,
    ensures
        ({
            let staged = staged_release(records, policy, id, caller)->Ok_0;
            let after = committed(records, staged, Some(LedgerOutcome::Failed(cause)));
            &&& after.result == Err::<EscrowView, EscrowError>(EscrowError::LedgerFailure(cause))
            &&& after.records == records
            &&& found(after.records, id) is Ok
            &&& found(after.records, id)->Ok_0.status == EscrowStatus::Funded
        }),
{
}

/// Of a release and a cancellation staged on the same funded escrow, exactly
/// one commits. The one that commits second meets `ConcurrencyConflict` and
/// changes nothing, in either order.
pub proof fn law_racing_release_and_cancel(
    records: Seq<EscrowView>,
    policy: AccessPolicy,
    id: int,
    releaser: Seq<char>,
    canceller: Seq<char>,
)
    requires
        numbered(records),
        all_consistent(records),
        staged_release(records, policy, id, releaser) is Ok,
        staged_cancel(records, policy, id, canceller) is Ok,
    ensures
        ({
            let release = staged_release(records, policy, id, releaser)->Ok_0;
            let cancel = staged_cancel(records, policy, id, canceller)->Ok_0;
            let confirmed = Some(LedgerOutcome::Confirmed);
            let released = committed(records, release, confirmed);
            let cancelled = committed(records, cancel, confirmed);
            &&& released.result is Ok
            &&& committed(released.records, cancel, confirmed) == refused(
                released.records,
                EscrowError::ConcurrencyConflict,
            )
            &&& cancelled.result is Ok
            &&& committed(cancelled.records, release, confirmed) == refused(
                cancelled.records,
                EscrowError::ConcurrencyConflict,
            )
        }),
{
    assert(records[id - 1].consistent());
}

/// Of any two updates staged on the same status of the same record, the
/// second to commit meets `ConcurrencyConflict` once the first has changed
/// the status.
pub proof fn law_first_commit_wins(
    records: Seq<EscrowView>,
    first: TransactionView,
    second: TransactionView,
    first_outcome: Option<LedgerOutcome>,
    second_outcome: Option<LedgerOutcome>,
)
    requires
        first.write matches WriteView::Update { id: a, expected: on_a, mutation } && second.write matches WriteView::Update {
            id: b,
            expected: on_b,
            ..
        } && a == b && on_a == on_b && mutation.status != on_a,
        committed(records, first, first_outcome).result is Ok,
        resolved(second, second_outcome) is Ok,
    ensures
        committed(
            committed(records, first, first_outcome).records,
            second,
            second_outcome,
        ) == refused(
            committed(records, first, first_outcome).records,
            EscrowError::ConcurrencyConflict,
        ),
{
}

/// Every transition keeps a record within the custody invariants: what
/// creation stores satisfies them, and what locking, release, cancellation
/// and the status overwrite write on a record that satisfies them gives a
/// record that satisfies them.
pub proof fn law_transitions_keep_custody_invariants(
    escrow: EscrowView,
    caller: Seq<char>,
    policy: AccessPolicy,
    amount: i64,
    status: EscrowStatus,
)
    ensures
        planned_creation(escrow) matches Ok(transaction) ==> (transaction.write matches WriteView::Insert(
            record,
        ) && record.consistent()),
        escrow.consistent() ==> {
            &&& planned_lock(escrow, amount) matches Ok(transaction) ==> (transaction.write matches WriteView::Update {
                mutation,
                ..
            } && mutation.applied(escrow).consistent())
            &&& planned_release(escrow, caller, policy) matches Ok(transaction) ==> (transaction.write matches WriteView::Update {
                mutation,
                ..
            } && mutation.applied(escrow).consistent())
            &&& planned_cancel(escrow, caller, policy) matches Ok(transaction) ==> (transaction.write matches WriteView::Update {
                mutation,
                ..
            } && mutation.applied(escrow).consistent())
            &&& planned_status_update(escrow, status) matches Ok(transaction) ==> (transaction.write matches WriteView::Update {
                mutation,
                ..
            } && mutation.applied(escrow).consistent() && mutation.applied(escrow) == escrow.with_status(
                status,
            ))
        },
{
}

/// The status overwrite succeeds exactly on an escrow that is not in a
/// terminal status and has no funds locked that the new status does not
/// allow; then it overwrites the status alone.
pub proof fn law_status_overwrite_never_strands_funds(
    records: Seq<EscrowView>,
    id: int,
    status: EscrowStatus,
)
    requires
        numbered(records),
        all_consistent(records),
        holds(records, id),
    ensures
        status_step(records, id, status).result is Ok <==> !records[id - 1].status.terminal() && (
        records[id - 1].locked_funds == 0 || status == EscrowStatus::Funded || status
            == EscrowStatus::Released),
        status_step(records, id, status).result is Ok ==> status_step(
            records,
            id,
            status,
        ).result->Ok_0 == records[id - 1].with_status(status),
        status_step(records, id, status).result is Err ==> status_step(records, id, status)
            == refused(records, EscrowError::InvalidTransition(Transition::UpdateStatus)),
        all_consistent(status_step(records, id, status).records),
{
    assert(records[id - 1].consistent());
    let next = status_step(records, id, status).records;
    assert forall|i: int| 0 <= i < next.len() implies (#[trigger] next[i]).consistent() by {
        assert(records[i].consistent());
    }
}

/// Of a release and a cancellation staged on the same funded escrow, the one
/// that comes second no longer applies once the first is committed: its
/// write would fail with `ConcurrencyConflict`. An engine that settles it
/// answers with that conflict and does not reach the ledger, so a payout and
/// a refund are never both made through it.
pub proof fn law_stale_transaction_no_longer_applies(
    records: Seq<EscrowView>,
    policy: AccessPolicy,
    id: int,
    releaser: Seq<char>,
    canceller: Seq<char>,
    outcome: Option<LedgerOutcome>,
)
    requires
        numbered(records),
        all_consistent(records),
        staged_release(records, policy, id, releaser) is Ok,
        staged_cancel(records, policy, id, canceller) is Ok,
    ensures
        ({
            let release = staged_release(records, policy, id, releaser)->Ok_0;
            let cancel = staged_cancel(records, policy, id, canceller)->Ok_0;
            let released = committed(records, release, outcome);
            let cancelled = committed(records, cancel, outcome);
            &&& released.result is Ok ==> write_result(released.records, cancel.write) == Err::<
                EscrowView,
                EscrowError,
            >(EscrowError::ConcurrencyConflict)
            &&& cancelled.result is Ok ==> write_result(cancelled.records, release.write) == Err::<
                EscrowView,
                EscrowError,
            >(EscrowError::ConcurrencyConflict)
        }),
{
    assert(records[id - 1].consistent());
}

} // verus!
