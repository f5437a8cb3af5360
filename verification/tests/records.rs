use trustbridge::error::{EscrowError, Field, LedgerCause, Transition};
use trustbridge::escrow::{Escrow, EscrowStatus};
use trustbridge::ledger::{LedgerOutcome, PaymentKind};
use trustbridge::coordinator::{Mutation, Write};
use trustbridge::lifecycle::{
    cancel_and_refund, create, create_with_disbursement, first_defect, lock_funds, release_funds,
    update_status,
};
use trustbridge::policy::{is_authorized, roles_of, AccessPolicy, Role, RoleSet};
use trustbridge::ledger::cause_of_report;
use trustbridge::text::{contains, text_eq};

fn escrow(status: EscrowStatus, locked: i64) -> Escrow {
    Escrow {
        id: 12,
        owner: "olivia".to_string(),
        beneficiary: "ben".to_string(),
        arbiter: "arbiter".to_string(),
        loan_amount: 300,
        loan_term: "24 months".to_string(),
        purpose_of_loan: "van".to_string(),
        monthly_income: 1800,
        status,
        recipient_public_key: "GBEN".to_string(),
        locked_funds: locked,
    }
}

#[test]
fn staged_creation_inserts_a_pending_record() {
    let mut input = escrow(EscrowStatus::Funded, 99);
    input.id = 4;
    let staged = create(input).unwrap();
    assert!(staged.payment().is_none());
    match staged.resolve(None).unwrap() {
        Write::Insert(record) => {
            assert_eq!(record.status, EscrowStatus::Pending);
            assert_eq!(record.locked_funds, 0);
            assert_eq!(record.loan_amount, 300);
            assert_eq!(record.owner, "olivia");
        }
        Write::Update { .. } => panic!("creation must insert"),
    }
}

#[test]
fn staged_lock_expects_pending() {
    let staged = lock_funds(&escrow(EscrowStatus::Pending, 0), 300).unwrap();
    assert!(staged.payment().is_none());
    match staged.resolve(None).unwrap() {
        Write::Update { id, expected, mutation } => {
            assert_eq!(id, 12);
            assert_eq!(expected, EscrowStatus::Pending);
            assert_eq!(mutation, Mutation { status: EscrowStatus::Funded, locked_funds: Some(300) });
        }
        Write::Insert(_) => panic!("locking must update"),
    }
    for status in [EscrowStatus::Funded, EscrowStatus::Released, EscrowStatus::Cancelled] {
        assert_eq!(
            lock_funds(&escrow(status, 0), 300).unwrap_err(),
            EscrowError::InvalidTransition(Transition::Lock)
        );
    }
    assert_eq!(
        lock_funds(&escrow(EscrowStatus::Pending, 0), i64::MIN).unwrap_err(),
        EscrowError::ValidationError(Field::LockAmount)
    );
    assert!(lock_funds(&escrow(EscrowStatus::Pending, 0), i64::MAX).is_ok());
}

#[test]
fn staged_release_pays_the_recipient() {
    let policy = AccessPolicy::arbiter_release();
    let staged = release_funds(&escrow(EscrowStatus::Funded, 250), "arbiter", &policy).unwrap();
    let payment = staged.payment().unwrap();
    assert_eq!(payment.kind, PaymentKind::Release);
    assert_eq!(payment.destination, "GBEN");
    assert_eq!(payment.amount, 250);
    let copy = payment.clone();
    assert_eq!(copy.amount, 250);
    assert_eq!(copy.destination, "GBEN");
    match staged.resolve(Some(LedgerOutcome::Confirmed)).unwrap() {
        Write::Update { id, expected, mutation } => {
            assert_eq!(id, 12);
            assert_eq!(expected, EscrowStatus::Funded);
            assert_eq!(mutation, Mutation { status: EscrowStatus::Released, locked_funds: None });
        }
        Write::Insert(_) => panic!("release must update"),
    }
}

#[test]
fn staged_cancel_refunds_the_owner() {
    let policy = AccessPolicy::arbiter_release();
    let staged = cancel_and_refund(&escrow(EscrowStatus::Funded, 250), "olivia", &policy).unwrap();
    let payment = staged.payment().unwrap();
    assert_eq!(payment.kind, PaymentKind::Refund);
    assert_eq!(payment.destination, "olivia");
    assert_eq!(payment.amount, 250);
    match staged.resolve(Some(LedgerOutcome::Confirmed)).unwrap() {
        Write::Update { id, expected, mutation } => {
            assert_eq!(id, 12);
            assert_eq!(expected, EscrowStatus::Funded);
            assert_eq!(mutation, Mutation { status: EscrowStatus::Cancelled, locked_funds: Some(0) });
        }
        Write::Insert(_) => panic!("cancellation must update"),
    }
    let staged = cancel_and_refund(&escrow(EscrowStatus::Pending, 0), "arbiter", &policy).unwrap();
    assert!(staged.payment().is_none());
    match staged.resolve(None).unwrap() {
        Write::Update { expected, .. } => assert_eq!(expected, EscrowStatus::Pending),
        Write::Insert(_) => panic!("cancellation must update"),
    }
}

#[test]
fn resolution_follows_the_ledger() {
    let policy = AccessPolicy::arbiter_release();
    let funded = escrow(EscrowStatus::Funded, 250);
    let causes = [
        LedgerCause::NetworkUnreachable,
        LedgerCause::InvalidAddress,
        LedgerCause::InsufficientBalance,
        LedgerCause::Rejected,
        LedgerCause::TimedOut,
    ];
    for cause in causes {
        let staged = release_funds(&funded, "arbiter", &policy).unwrap();
        assert_eq!(
            staged.resolve(Some(LedgerOutcome::Failed(cause))).unwrap_err(),
            EscrowError::LedgerFailure(cause)
        );
    }
    let staged = release_funds(&funded, "arbiter", &policy).unwrap();
    assert_eq!(
        staged.resolve(None).unwrap_err(),
        EscrowError::LedgerFailure(LedgerCause::NotSubmitted)
    );
    let unpaid = lock_funds(&escrow(EscrowStatus::Pending, 0), 5).unwrap();
    assert!(unpaid.resolve(Some(LedgerOutcome::Failed(LedgerCause::Rejected))).is_ok());
}

#[test]
fn staged_status_update_keeps_the_locked_amount() {
    let staged = update_status(&escrow(EscrowStatus::Funded, 250), EscrowStatus::Released).unwrap();
    match staged.resolve(None).unwrap() {
        Write::Update { id, expected, mutation } => {
            assert_eq!(id, 12);
            assert_eq!(expected, EscrowStatus::Funded);
            assert_eq!(mutation, Mutation { status: EscrowStatus::Released, locked_funds: None });
        }
        Write::Insert(_) => panic!("the overwrite must update"),
    }
    let staged = update_status(&escrow(EscrowStatus::Funded, 0), EscrowStatus::Pending).unwrap();
    match staged.resolve(None).unwrap() {
        Write::Update { expected, mutation, .. } => {
            assert_eq!(expected, EscrowStatus::Funded);
            assert_eq!(mutation, Mutation { status: EscrowStatus::Pending, locked_funds: None });
        }
        Write::Insert(_) => panic!("the overwrite must update"),
    }
    for status in [EscrowStatus::Pending, EscrowStatus::Cancelled] {
        assert_eq!(
            update_status(&escrow(EscrowStatus::Funded, 250), status).unwrap_err(),
            EscrowError::InvalidTransition(Transition::UpdateStatus)
        );
        assert_eq!(
            update_status(&escrow(EscrowStatus::Funded, 1), status).unwrap_err(),
            EscrowError::InvalidTransition(Transition::UpdateStatus)
        );
        assert!(update_status(&escrow(EscrowStatus::Pending, 0), status).is_ok());
    }
    assert!(update_status(&escrow(EscrowStatus::Funded, 250), EscrowStatus::Funded).is_ok());
    for status in [EscrowStatus::Released, EscrowStatus::Cancelled] {
        assert_eq!(
            update_status(&escrow(status, 0), EscrowStatus::Pending).unwrap_err(),
            EscrowError::InvalidTransition(Transition::UpdateStatus)
        );
    }
}

#[test]
fn disbursement_depends_on_the_recipient_key() {
    let staged = create_with_disbursement(escrow(EscrowStatus::Pending, 0), true).unwrap();
    let payment = staged.payment().unwrap();
    assert_eq!(payment.kind, PaymentKind::Disbursement);
    assert_eq!(payment.amount, 300);
    assert_eq!(payment.destination, "GBEN");
    assert_eq!(
        create_with_disbursement(escrow(EscrowStatus::Pending, 0), false).unwrap_err(),
        EscrowError::LedgerFailure(LedgerCause::InvalidAddress)
    );
    let mut invalid = escrow(EscrowStatus::Pending, 0);
    invalid.monthly_income = 0;
    assert_eq!(
        create_with_disbursement(invalid, false).unwrap_err(),
        EscrowError::ValidationError(Field::MonthlyIncome)
    );
}

#[test]
fn defects_are_found_in_order() {
    assert_eq!(first_defect(&escrow(EscrowStatus::Pending, 0)), None);
    let mut input = escrow(EscrowStatus::Pending, 0);
    input.monthly_income = -1;
    assert_eq!(first_defect(&input), Some(Field::MonthlyIncome));
    input.purpose_of_loan.clear();
    assert_eq!(first_defect(&input), Some(Field::PurposeOfLoan));
    input.loan_term.clear();
    assert_eq!(first_defect(&input), Some(Field::LoanTerm));
    input.loan_amount = 0;
    assert_eq!(first_defect(&input), Some(Field::LoanAmount));
}

#[test]
fn roles_follow_identities() {
    let record = escrow(EscrowStatus::Funded, 1);
    assert_eq!(
        roles_of(&record, "olivia"),
        RoleSet { owner: true, beneficiary: false, arbiter: false }
    );
    assert_eq!(roles_of(&record, "ben"), RoleSet { owner: false, beneficiary: true, arbiter: false });
    assert_eq!(
        roles_of(&record, "arbiter"),
        RoleSet { owner: false, beneficiary: false, arbiter: true }
    );
    assert_eq!(roles_of(&record, "Olivia"), RoleSet::empty());
    let policy = AccessPolicy::arbiter_release();
    assert!(is_authorized(&record, "arbiter", &policy.release));
    assert!(!is_authorized(&record, "olivia", &policy.release));
    assert!(is_authorized(&record, "olivia", &policy.cancel));
    assert!(!is_authorized(&record, "ben", &policy.cancel));
}

#[test]
fn role_sets_behave_as_sets() {
    let empty = RoleSet::empty();
    for role in [Role::Owner, Role::Beneficiary, Role::Arbiter] {
        assert!(!empty.contains(role));
        let one = empty.insert(role);
        assert!(one.contains(role));
        assert!(one.intersects(&one));
        assert!(!one.intersects(&empty));
        assert_eq!(one.insert(role), one);
    }
    let owner = empty.insert(Role::Owner);
    let arbiter = empty.insert(Role::Arbiter);
    assert!(!owner.intersects(&arbiter));
    assert!(owner.insert(Role::Arbiter).intersects(&arbiter));
    assert_eq!(
        AccessPolicy::arbiter_release().cancel,
        RoleSet::empty().insert(Role::Owner).insert(Role::Arbiter)
    );
    assert_eq!(AccessPolicy::beneficiary_release().release, empty.insert(Role::Beneficiary));
    assert_eq!(AccessPolicy::arbiter_only().cancel, arbiter);
    assert_eq!(AccessPolicy::arbiter_only().release, arbiter);
}

#[test]
fn text_is_compared_by_content() {
    assert!(text_eq("", ""));
    assert!(text_eq("escrow", "escrow"));
    assert!(!text_eq("escrow", "escrou"));
    assert!(!text_eq("escrow", "escro"));
    assert!(!text_eq("", "a"));
    assert!(text_eq("dépôt", "dépôt"));
    assert!(!text_eq("dépôt", "depot"));
    assert!(!text_eq("é", "e\u{301}"));
}

#[test]
fn text_is_searched_for_markers() {
    assert!(contains("", ""));
    assert!(contains("abc", ""));
    assert!(contains("abc", "abc"));
    assert!(contains("abc", "a"));
    assert!(contains("abc", "bc"));
    assert!(contains("xxabcxx", "abc"));
    assert!(contains("aab", "ab"));
    assert!(contains("ababac", "abac"));
    assert!(!contains("abc", "abcd"));
    assert!(!contains("", "a"));
    assert!(!contains("abc", "ac"));
    assert!(!contains("ababab", "abac"));
    assert!(contains("dépôt refusé", "refus"));
    assert!(!contains("depot", "dépôt"));
}

#[test]
fn ledger_reports_are_read_for_their_cause() {
    let underfunded = "HorizonError { status: 400, extras: Some(ExtraHorizonError { result_codes: \
        Some(ErrorResultCode { transaction: \"tx_failed\", operations: [\"op_underfunded\"] }) }) }";
    assert_eq!(cause_of_report(underfunded), LedgerCause::InsufficientBalance);
    assert_eq!(
        cause_of_report("transaction: \"tx_insufficient_balance\""),
        LedgerCause::InsufficientBalance
    );
    assert_eq!(cause_of_report("operations: [\"op_no_destination\"]"), LedgerCause::InvalidAddress);
    assert_eq!(cause_of_report("operations: [\"op_malformed\"]"), LedgerCause::InvalidAddress);
    assert_eq!(
        cause_of_report("Transport(Transport { kind: Dns, message: None })"),
        LedgerCause::NetworkUnreachable
    );
    assert_eq!(cause_of_report("transaction: \"tx_bad_seq\""), LedgerCause::Rejected);
    assert_eq!(cause_of_report(""), LedgerCause::Rejected);
    assert_eq!(cause_of_report("transport"), LedgerCause::Rejected);
    assert_eq!(
        cause_of_report("Transport failed after op_underfunded"),
        LedgerCause::InsufficientBalance
    );
    assert_eq!(
        cause_of_report("Transport failed after op_malformed"),
        LedgerCause::InvalidAddress
    );
}
