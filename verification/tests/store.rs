use trustbridge::error::{EscrowError, Field};
use trustbridge::escrow::{Escrow, EscrowStatus};
use trustbridge::coordinator::{Mutation, Write};
use trustbridge::store::EscrowStore;

fn record(owner: &str, amount: i64) -> Escrow {
    Escrow {
        id: 0,
        owner: owner.to_string(),
        beneficiary: "ben".to_string(),
        arbiter: "arbiter".to_string(),
        loan_amount: amount,
        loan_term: "6 months".to_string(),
        purpose_of_loan: "stock".to_string(),
        monthly_income: 900,
        status: EscrowStatus::Pending,
        recipient_public_key: "GBNTC5W2J7UHNWDSKIE26EOZL4ZJWNAPOCEWGZNMFBUM7GU2EFYVZNOL".to_string(),
        locked_funds: 0,
    }
}

#[test]
fn store_numbers_records_from_one() {
    let mut store = EscrowStore::new();
    assert_eq!(store.len(), 0);
    assert!(!store.is_full());
    let mut given = record("a", 10);
    given.id = 500;
    let first = store.create(given).unwrap();
    let second = store.create(record("b", 20)).unwrap();
    let third = store.create(record("c", 30)).unwrap();
    assert_eq!((first.id, second.id, third.id), (1, 2, 3));
    assert_eq!(store.len(), 3);
    assert_eq!(store.get(2).unwrap().owner, "b");
    assert_eq!(store.get(2).unwrap().loan_amount, 20);
    assert_eq!(store.get(3).unwrap().id, 3);
    assert_eq!(store.get(0).unwrap_err(), EscrowError::NotFound);
    assert_eq!(store.get(4).unwrap_err(), EscrowError::NotFound);
    assert_eq!(store.get(-2).unwrap_err(), EscrowError::NotFound);
}

#[test]
fn conditional_update_writes_on_the_expected_status() {
    let mut store = EscrowStore::new();
    store.create(record("a", 10)).unwrap();
    store.create(record("b", 20)).unwrap();
    let fund = Mutation { status: EscrowStatus::Funded, locked_funds: Some(15) };
    let updated = store.compare_and_update(2, EscrowStatus::Pending, fund).unwrap();
    assert_eq!(updated.id, 2);
    assert_eq!(updated.status, EscrowStatus::Funded);
    assert_eq!(updated.locked_funds, 15);
    assert_eq!(updated.owner, "b");
    let stored = store.get(2).unwrap();
    assert_eq!(stored.status, EscrowStatus::Funded);
    assert_eq!(stored.locked_funds, 15);
    let other = store.get(1).unwrap();
    assert_eq!(other.status, EscrowStatus::Pending);
    assert_eq!(other.locked_funds, 0);

    let release = Mutation { status: EscrowStatus::Released, locked_funds: None };
    let updated = store.compare_and_update(2, EscrowStatus::Funded, release).unwrap();
    assert_eq!(updated.status, EscrowStatus::Released);
    assert_eq!(updated.locked_funds, 15);
}

#[test]
fn conditional_update_fails_on_another_status() {
    let mut store = EscrowStore::new();
    store.create(record("a", 10)).unwrap();
    let release = Mutation { status: EscrowStatus::Released, locked_funds: None };
    assert_eq!(
        store.compare_and_update(1, EscrowStatus::Funded, release).unwrap_err(),
        EscrowError::ConcurrencyConflict
    );
    assert_eq!(store.get(1).unwrap().status, EscrowStatus::Pending);
    assert_eq!(
        store.compare_and_update(2, EscrowStatus::Pending, release).unwrap_err(),
        EscrowError::NotFound
    );
    assert_eq!(
        store.compare_and_update(0, EscrowStatus::Pending, release).unwrap_err(),
        EscrowError::NotFound
    );
    assert_eq!(store.len(), 1);
}

#[test]
fn store_applies_writes() {
    let mut store = EscrowStore::new();
    let inserted = store.apply(Write::Insert(record("a", 10))).unwrap();
    assert_eq!(inserted.id, 1);
    let updated = store
        .apply(Write::Update {
            id: 1,
            expected: EscrowStatus::Pending,
            mutation: Mutation { status: EscrowStatus::Cancelled, locked_funds: Some(0) },
        })
        .unwrap();
    assert_eq!(updated.status, EscrowStatus::Cancelled);
    assert_eq!(
        store
            .apply(Write::Update {
                id: 1,
                expected: EscrowStatus::Pending,
                mutation: Mutation { status: EscrowStatus::Funded, locked_funds: Some(4) },
            })
            .unwrap_err(),
        EscrowError::ConcurrencyConflict
    );
    assert_eq!(store.get(1).unwrap().status, EscrowStatus::Cancelled);
}

#[test]
fn mutation_changes_status_and_locked_amount_only() {
    let mut escrow = record("a", 10);
    escrow.id = 9;
    Mutation { status: EscrowStatus::Funded, locked_funds: Some(8) }.apply(&mut escrow);
    assert_eq!(escrow.status, EscrowStatus::Funded);
    assert_eq!(escrow.locked_funds, 8);
    Mutation { status: EscrowStatus::Released, locked_funds: None }.apply(&mut escrow);
    assert_eq!(escrow.status, EscrowStatus::Released);
    assert_eq!(escrow.locked_funds, 8);
    assert_eq!(escrow.id, 9);
    assert_eq!(escrow.owner, "a");
    assert_eq!(escrow.loan_amount, 10);
    let copy = escrow.clone();
    assert_eq!(copy.id, 9);
    assert_eq!(copy.locked_funds, 8);
    assert_eq!(copy.recipient_public_key, escrow.recipient_public_key);
}

fn with(status: EscrowStatus, loan_amount: i64, locked_funds: i64) -> Escrow {
    let mut escrow = record("a", loan_amount);
    escrow.status = status;
    escrow.locked_funds = locked_funds;
    escrow
}

#[test]
fn records_are_judged_by_the_custody_invariants() {
    assert!(with(EscrowStatus::Pending, 10, 0).is_consistent());
    assert!(with(EscrowStatus::Funded, 10, 0).is_consistent());
    assert!(with(EscrowStatus::Funded, 10, 7).is_consistent());
    assert!(with(EscrowStatus::Released, 10, 7).is_consistent());
    assert!(with(EscrowStatus::Released, 10, 0).is_consistent());
    assert!(with(EscrowStatus::Cancelled, 10, 0).is_consistent());
    assert!(!with(EscrowStatus::Pending, 10, 1).is_consistent());
    assert!(!with(EscrowStatus::Cancelled, 10, 1).is_consistent());
    assert!(!with(EscrowStatus::Funded, 10, -1).is_consistent());
    assert!(!with(EscrowStatus::Pending, 10, -1).is_consistent());
    assert!(!with(EscrowStatus::Funded, 0, 5).is_consistent());
    assert!(!with(EscrowStatus::Pending, -3, 0).is_consistent());
}

#[test]
fn store_takes_no_record_outside_the_custody_invariants() {
    let mut store = EscrowStore::new();
    assert_eq!(
        store.create(with(EscrowStatus::Pending, 0, 0)).unwrap_err(),
        EscrowError::ValidationError(Field::LoanAmount)
    );
    assert_eq!(
        store.create(with(EscrowStatus::Pending, 10, 5)).unwrap_err(),
        EscrowError::ValidationError(Field::LockedFunds)
    );
    assert_eq!(
        store.create(with(EscrowStatus::Cancelled, 10, 5)).unwrap_err(),
        EscrowError::ValidationError(Field::LockedFunds)
    );
    assert_eq!(
        store.apply(Write::Insert(with(EscrowStatus::Funded, 10, -5))).unwrap_err(),
        EscrowError::ValidationError(Field::LockedFunds)
    );
    assert_eq!(store.len(), 0);
    assert_eq!(store.create(with(EscrowStatus::Funded, 10, 5)).unwrap().id, 1);
    assert_eq!(store.len(), 1);
}

#[test]
fn store_refuses_a_write_that_would_strand_funds() {
    let mut store = EscrowStore::new();
    store.create(with(EscrowStatus::Funded, 10, 5)).unwrap();
    let writes = [
        Mutation { status: EscrowStatus::Pending, locked_funds: None },
        Mutation { status: EscrowStatus::Cancelled, locked_funds: None },
        Mutation { status: EscrowStatus::Pending, locked_funds: Some(3) },
        Mutation { status: EscrowStatus::Released, locked_funds: Some(-1) },
    ];
    for mutation in writes {
        let write = Write::Update { id: 1, expected: EscrowStatus::Funded, mutation };
        assert_eq!(store.check(&write), Err(EscrowError::ConcurrencyConflict));
        assert_eq!(
            store.compare_and_update(1, EscrowStatus::Funded, mutation).unwrap_err(),
            EscrowError::ConcurrencyConflict
        );
        let stored = store.get(1).unwrap();
        assert_eq!(stored.status, EscrowStatus::Funded);
        assert_eq!(stored.locked_funds, 5);
    }
    let cancel = Mutation { status: EscrowStatus::Cancelled, locked_funds: Some(0) };
    let write = Write::Update { id: 1, expected: EscrowStatus::Funded, mutation: cancel };
    assert_eq!(store.check(&write), Ok(()));
    assert_eq!(store.get(1).unwrap().status, EscrowStatus::Funded);
    let missing = Write::Update { id: 2, expected: EscrowStatus::Funded, mutation: cancel };
    assert_eq!(store.check(&missing), Err(EscrowError::NotFound));
    let stale = Write::Update { id: 1, expected: EscrowStatus::Pending, mutation: cancel };
    assert_eq!(store.check(&stale), Err(EscrowError::ConcurrencyConflict));
    assert_eq!(store.check(&Write::Insert(with(EscrowStatus::Pending, 10, 0))), Ok(()));
    assert_eq!(
        store.check(&Write::Insert(with(EscrowStatus::Pending, 10, 1))),
        Err(EscrowError::ValidationError(Field::LockedFunds))
    );
    assert_eq!(store.len(), 1);
}
