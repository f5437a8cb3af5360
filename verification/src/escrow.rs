//! The escrow record and its status.

use crate::error::{EscrowError, Field};
use crate::text::text_eq;
use vstd::prelude::*;

verus! {

/// Where an escrow stands in its lifecycle.
///
/// `Pending` leads to `Funded` or `Cancelled`, `Funded` to `Released` or
/// `Cancelled`. `Released` and `Cancelled` are terminal.
#[derive(Clone, Copy, Debug, PartialEq, Eq, Structural)]
pub enum EscrowStatus {
    Pending,
    Funded,
    Released,
    Cancelled,
}

impl EscrowStatus {
    /// No transition leaves a terminal status.
    pub open spec fn terminal(self) -> bool {
        self == EscrowStatus::Released || self == EscrowStatus::Cancelled
    }

    /// The name under which the status is stored and shown.
    pub open spec fn name(self) -> Seq<char> {
        match self {
            EscrowStatus::Pending => "PENDING"@,
            EscrowStatus::Funded => "FUNDED"@,
            EscrowStatus::Released => "RELEASED"@,
            EscrowStatus::Cancelled => "CANCELLED"@,
        }
    }

    /// The status that `text` names, if it names one.
    pub open spec fn named(text: Seq<char>) -> Option<EscrowStatus> {
        if text == "PENDING"@ {
            Some(EscrowStatus::Pending)
        } else if text == "FUNDED"@ {
            Some(EscrowStatus::Funded)
        } else if text == "RELEASED"@ {
            Some(EscrowStatus::Released)
        } else if text == "CANCELLED"@ {
            Some(EscrowStatus::Cancelled)
        } else {
            None
        }
    }

    /// Whether the status is terminal.
    pub fn is_terminal(&self) -> (r: bool)
        ensures
            r == self.terminal(),
    {
        match self {
            EscrowStatus::Released | EscrowStatus::Cancelled => true,
            _ => false,
        }
    }

    /// The name under which the status is stored and shown.
    pub fn to_string(&self) -> (text: String)
        ensures
            text@ == self.name(),
    {
        match self {
            EscrowStatus::Pending => "PENDING".to_string(),
            EscrowStatus::Funded => "FUNDED".to_string(),
            EscrowStatus::Released => "RELEASED".to_string(),
            EscrowStatus::Cancelled => "CANCELLED".to_string(),
        }
    }

    /// Reads a status from its name. Any other text is a validation error on
    /// the status field.
    pub fn from_string(text: &str) -> (r: Result<EscrowStatus, EscrowError>)
        ensures
            r == match Self::named(text@) {
                Some(status) => Ok::<EscrowStatus, EscrowError>(status),
                None => Err(EscrowError::ValidationError(Field::Status)),
            },
    {
        if text_eq(text, "PENDING") {
            Ok(EscrowStatus::Pending)
        } else if text_eq(text, "FUNDED") {
            Ok(EscrowStatus::Funded)
        } else if text_eq(text, "RELEASED") {
            Ok(EscrowStatus::Released)
        } else if text_eq(text, "CANCELLED") {
            Ok(EscrowStatus::Cancelled)
        } else {
            Err(EscrowError::ValidationError(Field::Status))
        }
    }
}

/// Every status is read back from its own name.
pub proof fn law_status_names_round_trip(status: EscrowStatus)
    ensures
        EscrowStatus::named(status.name()) == Some(status),
{
    reveal_strlit("PENDING");
    reveal_strlit("FUNDED");
    reveal_strlit("RELEASED");
    reveal_strlit("CANCELLED");
    assert("PENDING"@.len() == 7);
    assert("FUNDED"@.len() == 6);
    assert("RELEASED"@.len() == 8);
    assert("CANCELLED"@.len() == 9);
}

/// A custody record: the parties, the amount asked for, the amount locked on
/// the ledger, and the status.
#[derive(Debug)]
pub struct Escrow {
    /// Assigned by the store on creation.
    pub id: i32,
    /// The party that funds the escrow and is refunded on cancellation.
    pub owner: String,
    /// The party entitled to the funds on release.
    pub beneficiary: String,
    /// The neutral party that supervises the escrow.
    pub arbiter: String,
    /// The amount asked for, in minor units.
    pub loan_amount: i64,
    pub loan_term: String,
    pub purpose_of_loan: String,
    pub monthly_income: i64,
    pub status: EscrowStatus,
    /// The ledger address that receives the funds on release.
    pub recipient_public_key: String,
    /// The amount committed on the ledger, in minor units.
    pub locked_funds: i64,
}

/// The mathematical content of an [`Escrow`].
pub struct EscrowView {
    pub id: int,
    pub owner: Seq<char>,
    pub beneficiary: Seq<char>,
    pub arbiter: Seq<char>,
    pub loan_amount: int,
    pub loan_term: Seq<char>,
    pub purpose_of_loan: Seq<char>,
    pub monthly_income: int,
    pub status: EscrowStatus,
    pub recipient_public_key: Seq<char>,
    pub locked_funds: int,
}

impl View for Escrow {
    type V = EscrowView;

    open spec fn view(&self) -> EscrowView {
        EscrowView {
            id: self.id as int,
            owner: self.owner@,
            beneficiary: self.beneficiary@,
            arbiter: self.arbiter@,
            loan_amount: self.loan_amount as int,
            loan_term: self.loan_term@,
            purpose_of_loan: self.purpose_of_loan@,
            monthly_income: self.monthly_income as int,
            status: self.status,
            recipient_public_key: self.recipient_public_key@,
            locked_funds: self.locked_funds as int,
        }
    }
}

impl EscrowView {
    /// The custody invariants: nothing is locked while the escrow is pending,
    /// funds are locked only in a funded or released escrow, and neither
    /// amount is out of range.
    pub open spec fn consistent(self) -> bool {
        &&& self.loan_amount > 0
        &&& self.locked_funds >= 0
        &&& self.status == EscrowStatus::Pending ==> self.locked_funds == 0
        &&& self.locked_funds > 0 ==> (self.status == EscrowStatus::Funded || self.status
            == EscrowStatus::Released)
    }

    /// The record with another status, every other field as it was.
    pub open spec fn with_status(self, status: EscrowStatus) -> EscrowView {
        EscrowView { status, ..self }
    }
}

impl Escrow {
    /// Whether the record satisfies the custody invariants.
    pub fn is_consistent(&self) -> (r: bool)
        ensures
            r == self@.consistent(),
    {
        let held_where_allowed = match self.status {
            EscrowStatus::Pending => self.locked_funds == 0,
            EscrowStatus::Funded | EscrowStatus::Released => true,
            EscrowStatus::Cancelled => self.locked_funds <= 0,
        };
        self.loan_amount > 0 && self.locked_funds >= 0 && held_where_allowed
    }
}

/// Every record satisfies the custody invariants.
pub open spec fn all_consistent(records: Seq<EscrowView>) -> bool {
    forall|i: int| 0 <= i < records.len() ==> (#[trigger] records[i]).consistent()
}

impl Clone for Escrow {
    fn clone(&self) -> (copy: Self)
        ensures
            copy == *self,
    {
        Escrow {
            id: self.id,
            owner: self.owner.clone(),
            beneficiary: self.beneficiary.clone(),
            arbiter: self.arbiter.clone(),
            loan_amount: self.loan_amount,
            loan_term: self.loan_term.clone(),
            purpose_of_loan: self.purpose_of_loan.clone(),
            monthly_income: self.monthly_income,
            status: self.status,
            recipient_public_key: self.recipient_public_key.clone(),
            locked_funds: self.locked_funds,
        }
    }
}

} // verus!
