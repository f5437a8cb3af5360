//! The ledger-native escrow that holds a single deposit.
//!
//! The contract lives on the ledger itself: the caller of a message and the
//! value sent with it come from the ledger, and funds leave by a transfer
//! that the ledger carries out during the message. Here each message takes
//! the caller and the value as plain arguments, and hands the transfer that
//! it needs to a function of the caller's, which has the ledger make it. A
//! message that fails changes nothing.

use crate::account::{party_roles, roles_among, AccountId, Balance, Transfer};
use crate::escrow::EscrowStatus;
use crate::policy::{AccessPolicy, RoleSet};
use vstd::prelude::*;

verus! {

/// Emitted when a deposit is accepted.
#[derive(Clone, Copy, Debug, PartialEq, Eq)]
pub struct FundsDeposited {
    pub amount: Balance,
}

/// Emitted when the funds are released to the beneficiary.
#[derive(Clone, Copy, Debug, PartialEq, Eq)]
pub struct FundsReleased {
    pub beneficiary: AccountId,
    pub amount: Balance,
}

/// Emitted when the escrow is cancelled and the funds go back to the owner.
#[derive(Clone, Copy, Debug, PartialEq, Eq)]
pub struct FundsRefunded {
    pub owner: AccountId,
    pub amount: Balance,
}

#[derive(Clone, Copy, Debug, PartialEq, Eq, Structural)]
pub enum Error {
    /// There is nothing to release, or the ledger could not make the transfer.
    InsufficientBalance,
    NotAuthorized,
    AlreadyReleased,
    AlreadyCancelled,
}

/// The state of the contract.
#[derive(Clone, Copy, Debug, PartialEq, Eq)]
pub struct TrustbridgeContract {
    pub funds: Balance,
    pub owner: AccountId,
    pub beneficiary: AccountId,
    pub arbiter: AccountId,
    pub is_released: bool,
    pub is_cancelled: bool,
    /// Who may release and who may cancel.
    pub policy: AccessPolicy,
}

impl TrustbridgeContract {
    /// The status of the escrow in terms of the lifecycle.
    pub open spec fn status(self) -> EscrowStatus {
        if self.is_released {
            EscrowStatus::Released
        } else if self.is_cancelled {
            EscrowStatus::Cancelled
        } else if self.funds > 0 {
            EscrowStatus::Funded
        } else {
            EscrowStatus::Pending
        }
    }

    /// A contract is never both released and cancelled, and a cancelled one
    /// holds nothing.
    pub open spec fn consistent(self) -> bool {
        &&& !(self.is_released && self.is_cancelled)
        &&& self.is_cancelled ==> self.funds == 0
    }

    /// The roles that `caller` holds on this escrow.
    pub open spec fn roles(self, caller: AccountId) -> RoleSet {
        party_roles(caller, self.owner, self.beneficiary, self.arbiter)
    }

    /// The contract as created.
    pub open spec fn created(
        caller: AccountId,
        beneficiary: AccountId,
        arbiter: AccountId,
        policy: AccessPolicy,
    ) -> TrustbridgeContract {
        TrustbridgeContract {
            funds: 0,
            owner: caller,
            beneficiary,
            arbiter,
            is_released: false,
            is_cancelled: false,
            policy,
        }
    }

    /// Why a deposit is refused, if it is: the escrow is completed.
    pub open spec fn deposit_refusal(self) -> Option<Error> {
        if self.is_released {
            Some(Error::AlreadyReleased)
        } else if self.is_cancelled {
            Some(Error::AlreadyCancelled)
        } else {
            None
        }
    }

    /// The transfer that a release by `caller` needs, or why there is no
    /// release: the caller's role is checked first, then the status, then
    /// that something is held.
    pub open spec fn release_check(self, caller: AccountId) -> Result<Transfer, Error> {
        if !self.policy.release.meets(self.roles(caller)) {
            Err(Error::NotAuthorized)
        } else if self.is_released || self.is_cancelled {
            Err(Error::AlreadyReleased)
        } else if self.funds == 0 {
            Err(Error::InsufficientBalance)
        } else {
            Ok(Transfer { to: self.beneficiary, amount: self.funds })
        }
    }

    /// The transfer that a cancellation by `caller` needs, `None` where
    /// nothing is held, or why there is no cancellation: the caller's role is
    /// checked first, then the status.
    pub open spec fn cancel_check(self, caller: AccountId) -> Result<Option<Transfer>, Error> {
        if !self.policy.cancel.meets(self.roles(caller)) {
            Err(Error::NotAuthorized)
        } else if self.is_released || self.is_cancelled {
            Err(Error::AlreadyCancelled)
        } else if self.funds == 0 {
            Ok(None)
        } else {
            Ok(Some(Transfer { to: self.owner, amount: self.funds }))
        }
    }

    /// What a release answers, given whether the ledger made the transfer.
    pub open spec fn release_result(self, caller: AccountId, transferred: bool) -> Result<
        FundsReleased,
        Error,
    > {
        match self.release_check(caller) {
            Err(error) => Err(error),
            Ok(transfer) => if transferred {
                Ok(FundsReleased { beneficiary: transfer.to, amount: transfer.amount })
            } else {
                Err(Error::InsufficientBalance)
            },
        }
    }

    /// What a cancellation answers, given whether the ledger made the
    /// transfer. Where nothing is held no transfer is needed.
    pub open spec fn cancel_result(self, caller: AccountId, transferred: bool) -> Result<
        FundsRefunded,
        Error,
    > {
        match self.cancel_check(caller) {
            Err(error) => Err(error),
            Ok(None) => Ok(FundsRefunded { owner: self.owner, amount: 0 }),
            Ok(Some(transfer)) => if transferred {
                Ok(FundsRefunded { owner: transfer.to, amount: transfer.amount })
            } else {
                Err(Error::InsufficientBalance)
            },
        }
    }

    /// A new escrow owned by `caller`, in which the arbiter alone releases
    /// and cancels.
    pub fn new(caller: AccountId, beneficiary: AccountId, arbiter: AccountId) -> (contract: Self)
        ensures
            contract == Self::created(
                caller,
                beneficiary,
                arbiter,
                AccessPolicy::arbiter_only_policy(),
            ),
    {
        Self::with_policy(caller, beneficiary, arbiter, AccessPolicy::arbiter_only())
    }

    /// A new escrow owned by `caller` under the given access policy.
    pub fn with_policy(
        caller: AccountId,
        beneficiary: AccountId,
        arbiter: AccountId,
        policy: AccessPolicy,
    ) -> (contract: Self)
        ensures
            contract == Self::created(caller, beneficiary, arbiter, policy),
    {
        TrustbridgeContract {
            funds: 0,
            owner: caller,
            beneficiary,
            arbiter,
            is_released: false,
            is_cancelled: false,
            policy,
        }
    }

    /// Adds the value sent with the message to the funds held. A completed
    /// escrow takes no deposit.
    pub fn deposit(&mut self, transferred_value: Balance) -> (r: Result<FundsDeposited, Error>)
        requires
            old(self).funds + transferred_value <= Balance::MAX,
        ensures
            match old(self).deposit_refusal() {
                Some(error) => r == Err::<FundsDeposited, Error>(error) && *final(self) == *old(
                    self,
                ),
                None => r == Ok::<FundsDeposited, Error>(
                    FundsDeposited { amount: transferred_value },
                ) && *final(self) == (TrustbridgeContract {
                    funds: (old(self).funds + transferred_value) as Balance,
                    ..*old(self)
                }),
            },
    {
        if self.is_released {
            return Err(Error::AlreadyReleased);
        }
        if self.is_cancelled {
            return Err(Error::AlreadyCancelled);
        }
        self.funds = self.funds + transferred_value;
        Ok(FundsDeposited { amount: transferred_value })
    }

    /// The transfer that the ledger has to make for a release by `caller`.
    pub fn release_transfer(&self, caller: &AccountId) -> (r: Result<Transfer, Error>)
        ensures
            r == self.release_check(*caller),
    {
        let held = roles_among(caller, &self.owner, &self.beneficiary, &self.arbiter);
        if !self.policy.release.intersects(&held) {
            return Err(Error::NotAuthorized);
        }
        if self.is_released || self.is_cancelled {
            return Err(Error::AlreadyReleased);
        }
        if self.funds == 0 {
            return Err(Error::InsufficientBalance);
        }
        Ok(Transfer { to: self.beneficiary, amount: self.funds })
    }

    /// The transfer that the ledger has to make for a cancellation by
    /// `caller`, if any.
    pub fn refund_transfer(&self, caller: &AccountId) -> (r: Result<Option<Transfer>, Error>)
        ensures
            r == self.cancel_check(*caller),
    {
        let held = roles_among(caller, &self.owner, &self.beneficiary, &self.arbiter);
        if !self.policy.cancel.intersects(&held) {
            return Err(Error::NotAuthorized);
        }
        if self.is_released || self.is_cancelled {
            return Err(Error::AlreadyCancelled);
        }
        if self.funds == 0 {
            return Ok(None);
        }
        Ok(Some(Transfer { to: self.owner, amount: self.funds }))
    }

    /// Releases the funds to the beneficiary. The transfer of
    /// [`TrustbridgeContract::release_transfer`] is handed to `transfer`,
    /// which has the ledger make it and says whether it was made; where it
    /// was not, the release fails with `InsufficientBalance`. Where the
    /// caller may not release or there is nothing to release, `transfer` is
    /// not called. On success the escrow is released and still shows the
    /// funds it held; on failure nothing changes.
    pub fn release_funds<F: FnOnce(Transfer) -> bool>(&mut self, caller: &AccountId, transfer: F) -> (r:
        Result<FundsReleased, Error>)
        requires
            forall|needed: Transfer| call_requires(transfer, (needed,)),
        ensures
            match old(self).release_check(*caller) {
                Err(error) => r == Err::<FundsReleased, Error>(error),
                Ok(needed) => exists|transferred: bool| #[trigger]
                    call_ensures(transfer, (needed,), transferred) && r == old(
                        self,
                    ).release_result(*caller, transferred),
            },
            r is Ok ==> *final(self) == (TrustbridgeContract { is_released: true, ..*old(self) }),
            r is Err ==> *final(self) == *old(self),
    {
        let needed = match self.release_transfer(caller) {
            Ok(needed) => needed,
            Err(error) => return Err(error),
        };
        let transferred = transfer(needed);
        if !transferred {
            return Err(Error::InsufficientBalance);
        }
        self.is_released = true;
        Ok(FundsReleased { beneficiary: needed.to, amount: needed.amount })
    }

    /// Cancels the escrow and refunds the owner. The transfer of
    /// [`TrustbridgeContract::refund_transfer`], if one is needed, is handed
    /// to `transfer`, which has the ledger make it and says whether it was
    /// made; where it was not, the cancellation fails with
    /// `InsufficientBalance`. Where the caller may not cancel, or nothing is
    /// held, `transfer` is not called. On success the escrow is cancelled and
    /// holds nothing; on failure nothing changes.
    pub fn cancel_escrow<F: FnOnce(Transfer) -> bool>(&mut self, caller: &AccountId, transfer: F) -> (r:
        Result<FundsRefunded, Error>)
        requires
            forall|needed: Transfer| call_requires(transfer, (needed,)),
        ensures
            match old(self).cancel_check(*caller) {
                Err(error) => r == Err::<FundsRefunded, Error>(error),
                Ok(None) => r == old(self).cancel_result(*caller, false),
                Ok(Some(needed)) => exists|transferred: bool| #[trigger]
                    call_ensures(transfer, (needed,), transferred) && r == old(self).cancel_result(
                        *caller,
                        transferred,
                    ),
            },
            r is Ok ==> *final(self) == (TrustbridgeContract {
                is_cancelled: true,
                funds: 0,
                ..*old(self)
            }),
            r is Err ==> *final(self) == *old(self),
    {
        let refund = match self.refund_transfer(caller) {
            Ok(refund) => refund,
            Err(error) => return Err(error),
        };
        let amount = match refund {
            Some(needed) => {
                let transferred = transfer(needed);
                if !transferred {
                    return Err(Error::InsufficientBalance);
                }
                needed.amount
            },
            None => 0,
        };
        self.is_cancelled = true;
        self.funds = 0;
        Ok(FundsRefunded { owner: self.owner, amount })
    }

    /// The funds held.
    pub fn get_balance(&self) -> (funds: Balance)
        ensures
            funds == self.funds,
    {
        self.funds
    }
}

/// Once the escrow is released or cancelled, every message fails and the
/// state stays as it is.
pub proof fn law_completed_contract_is_final(
    contract: TrustbridgeContract,
    caller: AccountId,
    transferred: bool,
)
    requires
        contract.status().terminal(),
    ensures
        contract.deposit_refusal() is Some,
        contract.release_result(caller, transferred) is Err,
        contract.cancel_result(caller, transferred) is Err,
        contract.release_check(caller) is Err,
        contract.cancel_check(caller) is Err,
{
}

/// Release happens only from `Funded` and pays exactly the funds held to the
/// beneficiary; cancellation happens only from `Pending` or `Funded` and
/// refunds exactly the funds held to the owner. Both need a caller whose role
/// the policy accepts.
pub proof fn law_contract_follows_the_lifecycle(
    contract: TrustbridgeContract,
    caller: AccountId,
    transferred: bool,
)
    ensures
        contract.release_result(caller, transferred) matches Ok(event) ==> {
            &&& contract.status() == EscrowStatus::Funded
            &&& contract.policy.release.meets(contract.roles(caller))
            &&& transferred
            &&& event.beneficiary == contract.beneficiary
            &&& event.amount == contract.funds
        },
        contract.cancel_result(caller, transferred) matches Ok(event) ==> {
            &&& !contract.status().terminal()
            &&& contract.policy.cancel.meets(contract.roles(caller))
            &&& (transferred || contract.funds == 0)
            &&& event.owner == contract.owner
            &&& event.amount == contract.funds
        },
{
}

} // verus!
