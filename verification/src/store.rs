//! The record store: one record per escrow, found by its identifier, changed
//! only by a write that names the status it expects to find.
//!
//! Identifiers are assigned on creation, counting from 1, and never change.
//! No record is ever removed. The store keeps the custody invariants of its
//! records: it takes no record that is outside them, and it refuses a write
//! that would leave a record outside them.

use crate::coordinator::{Mutation, Write, WriteView};
use crate::error::{agrees, EscrowError, Field};
use crate::escrow::{all_consistent, Escrow, EscrowStatus, EscrowView};
use vstd::prelude::*;

verus! {

/// Whether `records` holds a record with the identifier `id`.
pub open spec fn holds(records: Seq<EscrowView>, id: int) -> bool {
    1 <= id <= records.len()
}

/// The record with the identifier `id`, or `NotFound`.
pub open spec fn found(records: Seq<EscrowView>, id: int) -> Result<EscrowView, EscrowError> {
    if holds(records, id) {
        Ok(records[id - 1])
    } else {
        Err(EscrowError::NotFound)
    }
}

/// The record that is stored for `escrow`: under the next identifier.
pub open spec fn stored(records: Seq<EscrowView>, escrow: EscrowView) -> EscrowView {
    EscrowView { id: records.len() as int + 1, ..escrow }
}

/// What a conditional update answers: the record after the mutation, or
/// `NotFound`, or `ConcurrencyConflict` where the record does not take the
/// write as it stands: its status is not the expected one, or the mutation
/// would leave it outside the custody invariants.
pub open spec fn updated(
    records: Seq<EscrowView>,
    id: int,
    expected: EscrowStatus,
    mutation: Mutation,
) -> Result<EscrowView, EscrowError> {
    if !holds(records, id) {
        Err(EscrowError::NotFound)
    } else if records[id - 1].status != expected {
        Err(EscrowError::ConcurrencyConflict)
    } else if !mutation.applied(records[id - 1]).consistent() {
        Err(EscrowError::ConcurrencyConflict)
    } else {
        Ok(mutation.applied(records[id - 1]))
    }
}

/// Why a new record is not taken, if it is not: the amount asked for is not
/// positive, or what is locked does not fit the status.
pub open spec fn insert_refusal(escrow: EscrowView) -> Option<EscrowError> {
    if escrow.loan_amount <= 0 {
        Some(EscrowError::ValidationError(Field::LoanAmount))
    } else if !escrow.consistent() {
        Some(EscrowError::ValidationError(Field::LockedFunds))
    } else {
        None
    }
}

/// What an insertion answers: the stored record, or why it is not taken.
pub open spec fn inserted(records: Seq<EscrowView>, escrow: EscrowView) -> Result<
    EscrowView,
    EscrowError,
> {
    match insert_refusal(escrow) {
        Some(error) => Err(error),
        None => Ok(stored(records, escrow)),
    }
}

/// What `write` answers on `records`.
pub open spec fn write_result(records: Seq<EscrowView>, write: WriteView) -> Result<
    EscrowView,
    EscrowError,
> {
    match write {
        WriteView::Insert(escrow) => inserted(records, escrow),
        WriteView::Update { id, expected, mutation } => updated(records, id, expected, mutation),
    }
}

/// The records after `write`. A write that fails changes nothing.
pub open spec fn written(records: Seq<EscrowView>, write: WriteView) -> Seq<EscrowView> {
    match write_result(records, write) {
        Err(_) => records,
        Ok(record) => match write {
            WriteView::Insert(_) => records.push(record),
            WriteView::Update { id, .. } => records.update(id - 1, record),
        },
    }
}

/// Each record is stored under its place, counting from 1.
pub open spec fn numbered(records: Seq<EscrowView>) -> bool {
    forall|i: int| 0 <= i < records.len() ==> (#[trigger] records[i]).id == i + 1
}

/// The content of each record, in the order of the records.
pub open spec fn views(records: Seq<Escrow>) -> Seq<EscrowView> {
    Seq::new(records.len(), |i: int| records[i]@)
}

/// Records that differ from consistent ones in one consistent record, set or
/// added at `at`, are consistent.
pub proof fn lemma_consistent_after(
    before: Seq<EscrowView>,
    after: Seq<EscrowView>,
    at: int,
    record: EscrowView,
)
    requires
        all_consistent(before),
        record.consistent(),
        0 <= at <= before.len(),
        after == if at < before.len() {
            before.update(at, record)
        } else {
            before.push(record)
        },
    ensures
        all_consistent(after),
{
    assert forall|i: int| 0 <= i < after.len() implies (#[trigger] after[i]).consistent() by {
        if i != at {
            assert(before[i].consistent());
        }
    }
}

/// The records of all escrows, in memory.
pub struct EscrowStore {
    records: Vec<Escrow>,
}

impl View for EscrowStore {
    type V = Seq<EscrowView>;

    closed spec fn view(&self) -> Seq<EscrowView> {
        views(self.records@)
    }
}

/// Whether a store takes `escrow` as a new record: `Ok`, or why it does not.
pub fn insert_check(escrow: &Escrow) -> (r: Result<(), EscrowError>)
    ensures
        match insert_refusal(escrow@) {
            Some(error) => r == Err::<(), EscrowError>(error),
            None => r is Ok,
        },
{
    if escrow.loan_amount <= 0 {
        Err(EscrowError::ValidationError(Field::LoanAmount))
    } else if !escrow.is_consistent() {
        Err(EscrowError::ValidationError(Field::LockedFunds))
    } else {
        Ok(())
    }
}

impl EscrowStore {
    #[verifier::type_invariant]
    spec fn well_formed(self) -> bool {
        &&& self.records@.len() <= i32::MAX
        &&& numbered(self@)
        &&& all_consistent(self@)
    }

    /// An empty store.
    pub fn new() -> (store: EscrowStore)
        ensures
            store@.len() == 0,
            numbered(store@),
            all_consistent(store@),
    {
        EscrowStore { records: Vec::new() }
    }

    /// Takes the records out and leaves the store empty. The records change
    /// outside the store and are put back whole, so that the store is well
    /// formed at every point at which a call could unwind.
    fn take_records(&mut self) -> (records: Vec<Escrow>)
        ensures
            records == old(self).records,
            final(self).records@.len() == 0,
    {
        let mut records = Vec::new();
        core::mem::swap(&mut self.records, &mut records);
        records
    }

    /// How many records the store holds. Each is stored under its own
    /// identifier and satisfies the custody invariants.
    pub fn len(&self) -> (n: usize)
        ensures
            n == self@.len(),
            n <= i32::MAX,
            numbered(self@),
            all_consistent(self@),
    {
        proof {
            use_type_invariant(self);
        }
        self.records.len()
    }

    /// Whether the identifiers are used up.
    pub fn is_full(&self) -> (full: bool)
        ensures
            full == (self@.len() >= i32::MAX),
    {
        self.len() >= 0x7fff_ffff
    }

    /// Stores `escrow` under the next identifier and returns the stored
    /// record. A record whose amount asked for is not positive, or on which
    /// funds are locked that its status does not allow, is not taken.
    pub fn create(&mut self, escrow: Escrow) -> (r: Result<Escrow, EscrowError>)
        requires
            old(self)@.len() < i32::MAX,
        ensures
            agrees(r, inserted(old(self)@, escrow@)),
            final(self)@ == written(old(self)@, WriteView::Insert(escrow@)),
            numbered(final(self)@),
            all_consistent(final(self)@),
    {
        proof {
            use_type_invariant(&*self);
        }
        match insert_check(&escrow) {
            Ok(()) => {},
            Err(error) => {
                return Err(error);
            },
        }
        let mut record = escrow;
        let n: usize = self.records.len();
        record.id = (n + 1) as i32;
        let copy = record.clone();
        let mut records = self.take_records();
        records.push(record);
        proof {
            assert(views(records@) =~= old(self)@.push(copy@));
            lemma_consistent_after(old(self)@, views(records@), old(self)@.len() as int, copy@);
        }
        self.records = records;
        Ok(copy)
    }

    /// The record with the identifier `id`.
    pub fn get(&self, id: i32) -> (r: Result<Escrow, EscrowError>)
        ensures
            agrees(r, found(self@, id as int)),
    {
        if id < 1 || id as usize > self.records.len() {
            return Err(EscrowError::NotFound);
        }
        Ok(self.records[(id - 1) as usize].clone())
    }

    /// The record `id` as the conditional update would leave it, or why the
    /// update fails. Nothing is written.
    fn prepare(&self, id: i32, expected: EscrowStatus, mutation: Mutation) -> (r: Result<
        Escrow,
        EscrowError,
    >)
        ensures
            agrees(r, updated(self@, id as int, expected, mutation)),
    {
        if id < 1 || id as usize > self.records.len() {
            return Err(EscrowError::NotFound);
        }
        let at: usize = (id - 1) as usize;
        if self.records[at].status != expected {
            return Err(EscrowError::ConcurrencyConflict);
        }
        let mut record = self.records[at].clone();
        mutation.apply(&mut record);
        if !record.is_consistent() {
            return Err(EscrowError::ConcurrencyConflict);
        }
        Ok(record)
    }

    /// Whether `write` would be made on the records as they stand: `Ok`, or
    /// the error that the write would fail with. Nothing is written.
    pub fn check(&self, write: &Write) -> (r: Result<(), EscrowError>)
        ensures
            match write_result(self@, write@) {
                Ok(_) => r is Ok,
                Err(error) => r == Err::<(), EscrowError>(error),
            },
    {
        match write {
            Write::Insert(escrow) => insert_check(escrow),
            Write::Update { id, expected, mutation } => match self.prepare(
                *id,
                *expected,
                *mutation,
            ) {
                Ok(_) => Ok(()),
                Err(error) => Err(error),
            },
        }
    }

    /// Applies `mutation` to the record `id` if its status is `expected`, and
    /// returns the record as it then stands. Where the status is another, or
    /// the mutation would leave the record outside the custody invariants,
    /// the write fails with `ConcurrencyConflict`; it never passes in
    /// silence.
    pub fn compare_and_update(&mut self, id: i32, expected: EscrowStatus, mutation: Mutation) -> (r:
        Result<Escrow, EscrowError>)
        ensures
            agrees(r, updated(old(self)@, id as int, expected, mutation)),
            final(self)@ == written(
                old(self)@,
                WriteView::Update { id: id as int, expected, mutation },
            ),
            numbered(final(self)@),
            all_consistent(final(self)@),
    {
        proof {
            use_type_invariant(&*self);
        }
        let record = match self.prepare(id, expected, mutation) {
            Ok(record) => record,
            Err(error) => return Err(error),
        };
        let at: usize = (id - 1) as usize;
        let copy = record.clone();
        let mut records = self.take_records();
        records.set(at, record);
        proof {
            assert(views(records@) =~= old(self)@.update(at as int, copy@));
            lemma_consistent_after(old(self)@, views(records@), at as int, copy@);
        }
        self.records = records;
        Ok(copy)
    }

    /// Makes `write`: an insertion, or a conditional update.
    pub fn apply(&mut self, write: Write) -> (r: Result<Escrow, EscrowError>)
        requires
            write@ is Insert ==> old(self)@.len() < i32::MAX,
        ensures
            agrees(r, write_result(old(self)@, write@)),
            final(self)@ == written(old(self)@, write@),
            numbered(final(self)@),
            all_consistent(final(self)@),
    {
        match write {
            Write::Insert(escrow) => self.create(escrow),
            Write::Update { id, expected, mutation } => self.compare_and_update(
                id,
                expected,
                mutation,
            ),
        }
    }
}

} // verus!
