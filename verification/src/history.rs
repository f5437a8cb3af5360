//! What holds of the records after any sequence of calls.
//!
//! A history is a sequence of the calls that can change the records of an
//! [`crate::service::EscrowService`]: creation, locking, the status overwrite,
//! and the commit of a staged transaction with the outcome of its payment.
//! Staging itself changes nothing and so is no part of a history.

use crate::coordinator::TransactionView;
use crate::escrow::{all_consistent, EscrowStatus, EscrowView};
use crate::ledger::LedgerOutcome;
use crate::service::{committed, create_step, lock_step, status_step};
use crate::store::{found, holds, numbered};
use vstd::prelude::*;

verus! {

/// A call that can change the records.
pub enum Call {
    Create { new_escrow: EscrowView },
    Lock { id: int, amount: i64 },
    UpdateStatus { id: int, status: EscrowStatus },
    Commit { transaction: TransactionView, outcome: Option<LedgerOutcome> },
}

impl Call {
    /// A commit is of a transaction that the state machine staged; such a
    /// transaction is legal. The other calls take any arguments.
    pub open spec fn admissible(self) -> bool {
        self matches Call::Commit { transaction, .. } ==> transaction.legal()
    }
}

/// The records after one call.
pub open spec fn after(records: Seq<EscrowView>, call: Call) -> Seq<EscrowView> {
    match call {
        Call::Create { new_escrow } => create_step(records, new_escrow).records,
        Call::Lock { id, amount } => lock_step(records, id, amount).records,
        Call::UpdateStatus { id, status } => status_step(records, id, status).records,
        Call::Commit { transaction, outcome } => committed(records, transaction, outcome).records,
    }
}

/// The records after a history.
pub open spec fn after_all(records: Seq<EscrowView>, calls: Seq<Call>) -> Seq<EscrowView>
    decreases calls.len(),
{
    if calls.len() == 0 {
        records
    } else {
        after_all(after(records, calls[0]), calls.drop_first())
    }
}

/// Every call of the history is admissible.
pub open spec fn admissible(calls: Seq<Call>) -> bool {
    forall|i: int| 0 <= i < calls.len() ==> (#[trigger] calls[i]).admissible()
}

/// What a transition may never change in a record: everything but the status
/// and the locked amount.
pub open spec fn same_terms(before: EscrowView, after: EscrowView) -> bool {
    after == EscrowView { status: after.status, locked_funds: after.locked_funds, ..before }
}

/// Records are only ever added, and an existing record keeps its terms.
pub open spec fn extends(before: Seq<EscrowView>, after: Seq<EscrowView>) -> bool {
    &&& before.len() <= after.len()
    &&& forall|i: int| 0 <= i < before.len() ==> same_terms(#[trigger] before[i], after[i])
}

/// What is left of an admissible history after its first call is admissible.
proof fn lemma_rest_is_admissible(calls: Seq<Call>)
    requires
        admissible(calls),
        calls.len() > 0,
    ensures
        calls[0].admissible(),
        admissible(calls.drop_first()),
{
    let rest = calls.drop_first();
    assert forall|i: int| 0 <= i < rest.len() implies (#[trigger] rest[i]).admissible() by {
        assert(calls[i + 1].admissible());
    }
}

/// One call keeps the numbering and the custody invariants of the records,
/// adds records at most, changes no terms, and leaves every record that is
/// in a terminal status exactly as it is.
pub proof fn law_call_keeps_the_records_in_order(records: Seq<EscrowView>, call: Call)
    requires
        numbered(records),
        all_consistent(records),
        call.admissible(),
    ensures
        numbered(after(records, call)),
        all_consistent(after(records, call)),
        extends(records, after(records, call)),
        forall|id: int|
            holds(records, id) && records[id - 1].status.terminal() ==> #[trigger] found(
                after(records, call),
                id,
            ) == found(records, id),
{
    let next = after(records, call);
    assert forall|i: int| 0 <= i < next.len() implies (#[trigger] next[i]).consistent() by {
        if i < records.len() {
            assert(records[i].consistent());
        }
    }
    assert forall|i: int| 0 <= i < records.len() implies same_terms(
        #[trigger] records[i],
        next[i],
    ) by {
        assert(records[i].id == i + 1);
    }
}

/// After any history the records are numbered, none has been removed, and
/// none has changed its terms. The custody invariants hold of every record:
/// nothing is locked while an escrow is pending, and funds are locked only in
/// a funded or released escrow.
pub proof fn law_history_keeps_the_records_in_order(records: Seq<EscrowView>, calls: Seq<Call>)
    requires
        numbered(records),
        all_consistent(records),
        admissible(calls),
    ensures
        numbered(after_all(records, calls)),
        all_consistent(after_all(records, calls)),
        extends(records, after_all(records, calls)),
    decreases calls.len(),
{
    if calls.len() > 0 {
        let next = after(records, calls[0]);
        let rest = calls.drop_first();
        lemma_rest_is_admissible(calls);
        law_call_keeps_the_records_in_order(records, calls[0]);
        law_history_keeps_the_records_in_order(next, rest);
        let last = after_all(next, rest);
        assert forall|i: int| 0 <= i < records.len() implies same_terms(
            #[trigger] records[i],
            last[i],
        ) by {
            assert(same_terms(records[i], next[i]));
            assert(same_terms(next[i], last[i]));
        }
    }
}

/// The custody invariants hold of every record after any history.
pub proof fn law_history_keeps_the_custody_invariants(records: Seq<EscrowView>, calls: Seq<Call>)
    requires
        numbered(records),
        all_consistent(records),
        admissible(calls),
    ensures
        all_consistent(after_all(records, calls)),
{
    law_history_keeps_the_records_in_order(records, calls);
}

/// Once an escrow is released or cancelled, no history changes any field of
/// its record.
pub proof fn law_history_never_changes_a_terminal_record(
    records: Seq<EscrowView>,
    calls: Seq<Call>,
    id: int,
)
    requires
        numbered(records),
        all_consistent(records),
        admissible(calls),
        holds(records, id),
        records[id - 1].status.terminal(),
    ensures
        found(after_all(records, calls), id) == found(records, id),
    decreases calls.len(),
{
    if calls.len() > 0 {
        let next = after(records, calls[0]);
        let rest = calls.drop_first();
        lemma_rest_is_admissible(calls);
        law_call_keeps_the_records_in_order(records, calls[0]);
        assert(found(next, id) == found(records, id));
        law_history_never_changes_a_terminal_record(next, rest, id);
    }
}

} // verus!
