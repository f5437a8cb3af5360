//! The ledger-native registry of escrows.
//!
//! One contract holds many escrows, each created with the value sent along
//! and numbered from 0 in the order of creation. As in
//! [`crate::trustbridge_contract`], a message takes the caller and the value
//! as plain arguments and hands the transfer that it needs to a function of
//! the caller's, and a message that fails changes nothing.

use crate::account::{party_roles, roles_among, AccountId, Balance, Transfer};
use crate::policy::{AccessPolicy, RoleSet};
use vstd::prelude::*;

verus! {

/// One escrow of the registry. It is active from its creation until its
/// funds are released.
#[derive(Clone, Copy, Debug, PartialEq, Eq)]
pub struct EscrowDetails {
    pub amount: Balance,
    pub owner: AccountId,
    pub beneficiary: AccountId,
    pub arbiter: AccountId,
    pub is_active: bool,
}

impl EscrowDetails {
    /// The roles that `caller` holds on this escrow.
    pub open spec fn roles(self, caller: AccountId) -> RoleSet {
        party_roles(caller, self.owner, self.beneficiary, self.arbiter)
    }
}

/// Emitted when an escrow is created.
#[derive(Clone, Copy, Debug, PartialEq, Eq)]
pub struct EscrowCreated {
    pub escrow_id: u32,
    pub amount: Balance,
}

/// Emitted when the funds of an escrow are released to its beneficiary.
#[derive(Clone, Copy, Debug, PartialEq, Eq)]
pub struct FundsReleased {
    pub escrow_id: u32,
    pub amount: Balance,
}

#[derive(Clone, Copy, Debug, PartialEq, Eq, Structural)]
pub enum Error {
    /// No value came with the creation, or the ledger could not make the
    /// transfer.
    InsufficientFunds,
    NotAuthorized,
    EscrowNotFound,
    EscrowNotActive,
}

/// The escrow that a creation stores.
pub open spec fn new_details(
    caller: AccountId,
    transferred_value: Balance,
    beneficiary: AccountId,
    arbiter: AccountId,
) -> EscrowDetails {
    EscrowDetails { amount: transferred_value, owner: caller, beneficiary, arbiter, is_active: true }
}

/// The transfer that the release of the escrow `escrow_id` by `caller`
/// needs, or why there is no release. The escrow must exist and be active,
/// and the caller must hold a releasing role, checked in this order.
pub open spec fn release_check(
    escrows: Seq<EscrowDetails>,
    policy: AccessPolicy,
    escrow_id: u32,
    caller: AccountId,
) -> Result<Transfer, Error> {
    if escrow_id >= escrows.len() {
        Err(Error::EscrowNotFound)
    } else if !escrows[escrow_id as int].is_active {
        Err(Error::EscrowNotActive)
    } else if !policy.release.meets(escrows[escrow_id as int].roles(caller)) {
        Err(Error::NotAuthorized)
    } else {
        Ok(
            Transfer {
                to: escrows[escrow_id as int].beneficiary,
                amount: escrows[escrow_id as int].amount,
            },
        )
    }
}

/// What a release answers, given whether the ledger made the transfer.
pub open spec fn release_result(
    escrows: Seq<EscrowDetails>,
    policy: AccessPolicy,
    escrow_id: u32,
    caller: AccountId,
    transferred: bool,
) -> Result<FundsReleased, Error> {
    match release_check(escrows, policy, escrow_id, caller) {
        Err(error) => Err(error),
        Ok(transfer) => if transferred {
            Ok(FundsReleased { escrow_id, amount: transfer.amount })
        } else {
            Err(Error::InsufficientFunds)
        },
    }
}

/// The escrows after a release: the released one is no longer active, and
/// nothing else differs.
pub open spec fn after_release(escrows: Seq<EscrowDetails>, escrow_id: u32) -> Seq<EscrowDetails> {
    escrows.update(
        escrow_id as int,
        EscrowDetails { is_active: false, ..escrows[escrow_id as int] },
    )
}

/// Every escrow holds a positive amount.
pub open spec fn all_funded(escrows: Seq<EscrowDetails>) -> bool {
    forall|i: int| 0 <= i < escrows.len() ==> (#[trigger] escrows[i]).amount > 0
}

/// The state of the registry.
pub struct TrustbridgeContract {
    escrows: Vec<EscrowDetails>,
    admin: AccountId,
    policy: AccessPolicy,
}

impl View for TrustbridgeContract {
    type V = Seq<EscrowDetails>;

    /// The escrows, each at the place of its number.
    closed spec fn view(&self) -> Seq<EscrowDetails> {
        self.escrows@
    }
}

impl TrustbridgeContract {
    #[verifier::type_invariant]
    spec fn well_formed(self) -> bool {
        &&& self.escrows@.len() <= u32::MAX
        &&& all_funded(self.escrows@)
    }

    /// The account that created the registry.
    pub closed spec fn admin(&self) -> AccountId {
        self.admin
    }

    /// Who may release.
    pub closed spec fn policy(&self) -> AccessPolicy {
        self.policy
    }

    /// An empty registry created by `caller`, in which the arbiter of an
    /// escrow alone releases it.
    pub fn new(caller: AccountId) -> (contract: Self)
        ensures
            contract@.len() == 0,
            contract.admin() == caller,
            contract.policy() == AccessPolicy::arbiter_only_policy(),
    {
        Self::with_policy(caller, AccessPolicy::arbiter_only())
    }

    /// An empty registry created by `caller` under the given access policy.
    pub fn with_policy(caller: AccountId, policy: AccessPolicy) -> (contract: Self)
        ensures
            contract@.len() == 0,
            contract.admin() == caller,
            contract.policy() == policy,
    {
        TrustbridgeContract { escrows: Vec::new(), admin: caller, policy }
    }

    /// Takes the escrows out and leaves the registry empty. They change
    /// outside the registry and are put back whole.
    fn take_escrows(&mut self) -> (escrows: Vec<EscrowDetails>)
        ensures
            escrows@ == old(self)@,
            final(self)@.len() == 0,
            final(self).admin == old(self).admin,
            final(self).policy == old(self).policy,
    {
        let mut escrows = Vec::new();
        core::mem::swap(&mut self.escrows, &mut escrows);
        escrows
    }

    /// The number that the next escrow gets. Every escrow of the registry
    /// holds a positive amount.
    pub fn next_escrow_id(&self) -> (next: u32)
        ensures
            next == self@.len(),
            all_funded(self@),
    {
        proof {
            use_type_invariant(self);
        }
        self.escrows.len() as u32
    }

    /// Creates an escrow owned by `caller` that holds the value sent with
    /// the message, under the next number. Without a value there is no
    /// escrow.
    pub fn create_escrow(
        &mut self,
        caller: AccountId,
        transferred_value: Balance,
        beneficiary: AccountId,
        arbiter: AccountId,
    ) -> (r: Result<EscrowCreated, Error>)
        requires
            old(self)@.len() < u32::MAX,
        ensures
            final(self).admin() == old(self).admin(),
            final(self).policy() == old(self).policy(),
            transferred_value == 0 ==> r == Err::<EscrowCreated, Error>(Error::InsufficientFunds)
                && final(self)@ == old(self)@,
            transferred_value > 0 ==> r == Ok::<EscrowCreated, Error>(
                EscrowCreated { escrow_id: old(self)@.len() as u32, amount: transferred_value },
            ) && final(self)@ == old(self)@.push(
                new_details(caller, transferred_value, beneficiary, arbiter),
            ),
    {
        proof {
            use_type_invariant(&*self);
        }
        if transferred_value == 0 {
            return Err(Error::InsufficientFunds);
        }
        let escrow_id = self.escrows.len() as u32;
        let escrow = EscrowDetails {
            amount: transferred_value,
            owner: caller,
            beneficiary,
            arbiter,
            is_active: true,
        };
        let mut escrows = self.take_escrows();
        escrows.push(escrow);
        self.escrows = escrows;
        Ok(EscrowCreated { escrow_id, amount: transferred_value })
    }

    /// The transfer that the ledger has to make for the release of the
    /// escrow `escrow_id` by `caller`.
    pub fn release_transfer(&self, escrow_id: u32, caller: &AccountId) -> (r: Result<Transfer, Error>)
        ensures
            r == release_check(self@, self.policy(), escrow_id, *caller),
    {
        if escrow_id as usize >= self.escrows.len() {
            return Err(Error::EscrowNotFound);
        }
        let escrow = &self.escrows[escrow_id as usize];
        if !escrow.is_active {
            return Err(Error::EscrowNotActive);
        }
        let held = roles_among(caller, &escrow.owner, &escrow.beneficiary, &escrow.arbiter);
        if !self.policy.release.intersects(&held) {
            return Err(Error::NotAuthorized);
        }
        Ok(Transfer { to: escrow.beneficiary, amount: escrow.amount })
    }

    /// Releases the funds of the escrow `escrow_id` to its beneficiary. The
    /// transfer of [`TrustbridgeContract::release_transfer`] is handed to
    /// `transfer`, which has the ledger make it and says whether it was made;
    /// where it was not, the release fails with `InsufficientFunds`. Where
    /// there is no such active escrow or the caller may not release it,
    /// `transfer` is not called. On success the escrow is no longer active;
    /// on failure nothing changes.
    pub fn release_funds<F: FnOnce(Transfer) -> bool>(
        &mut self,
        escrow_id: u32,
        caller: &AccountId,
        transfer: F,
    ) -> (r: Result<FundsReleased, Error>)
        requires
            forall|needed: Transfer| call_requires(transfer, (needed,)),
        ensures
            match release_check(old(self)@, old(self).policy(), escrow_id, *caller) {
                Err(error) => r == Err::<FundsReleased, Error>(error),
                Ok(needed) => exists|transferred: bool| #[trigger]
                    call_ensures(transfer, (needed,), transferred) && r == release_result(
                        old(self)@,
                        old(self).policy(),
                        escrow_id,
                        *caller,
                        transferred,
                    ),
            },
            r is Ok ==> final(self)@ == after_release(old(self)@, escrow_id),
            r is Err ==> final(self)@ == old(self)@,
            final(self).admin() == old(self).admin(),
            final(self).policy() == old(self).policy(),
    {
        proof {
            use_type_invariant(&*self);
        }
        let needed = match self.release_transfer(escrow_id, caller) {
            Ok(needed) => needed,
            Err(error) => return Err(error),
        };
        let transferred = transfer(needed);
        if !transferred {
            return Err(Error::InsufficientFunds);
        }
        let mut released = self.escrows[escrow_id as usize];
        released.is_active = false;
        let mut escrows = self.take_escrows();
        escrows.set(escrow_id as usize, released);
        self.escrows = escrows;
        Ok(FundsReleased { escrow_id, amount: needed.amount })
    }

    /// The escrow with the number `escrow_id`, if there is one.
    pub fn get_escrow(&self, escrow_id: u32) -> (r: Option<EscrowDetails>)
        ensures
            r == if escrow_id < self@.len() {
                Some(self@[escrow_id as int])
            } else {
                None
            },
    {
        if escrow_id as usize >= self.escrows.len() {
            return None;
        }
        Some(self.escrows[escrow_id as usize])
    }
}

/// An escrow is released at most once: after a release, every further
/// release of it fails with `EscrowNotActive`, whoever asks, and no other
/// escrow is touched by it.
pub proof fn law_released_escrow_stays_released(
    escrows: Seq<EscrowDetails>,
    policy: AccessPolicy,
    escrow_id: u32,
    caller: AccountId,
    again: AccountId,
    transferred: bool,
)
    requires
        release_result(escrows, policy, escrow_id, caller, true) is Ok,
    ensures
        release_result(after_release(escrows, escrow_id), policy, escrow_id, again, transferred)
            == Err::<FundsReleased, Error>(Error::EscrowNotActive),
        release_check(after_release(escrows, escrow_id), policy, escrow_id, again) is Err,
        forall|other: int|
            0 <= other < escrows.len() && other != escrow_id ==> after_release(
                escrows,
                escrow_id,
            )[other] == escrows[other],
{
}

} // verus!
