//! Accounts and balances of the ledger-native escrows.

use crate::policy::RoleSet;
use vstd::prelude::*;

verus! {

/// An amount of the ledger's native token.
pub type Balance = u128;

/// The address of an account: 32 bytes.
#[derive(Clone, Copy, Debug, PartialEq, Eq)]
pub struct AccountId {
    pub bytes: [u8; 32],
}

impl View for AccountId {
    type V = Seq<u8>;

    open spec fn view(&self) -> Seq<u8> {
        self.bytes@
    }
}

impl AccountId {
    /// The account with the given address.
    pub fn new(bytes: [u8; 32]) -> (account: AccountId)
        ensures
            account.bytes == bytes,
    {
        AccountId { bytes }
    }

    /// Whether the two addresses are the same, byte for byte.
    pub fn same_as(&self, other: &AccountId) -> (same: bool)
        ensures
            same == (self@ == other@),
            same == (*self == *other),
    {
        let mut i: usize = 0;
        while i < 32
            invariant
                i <= 32,
                forall|k: int| 0 <= k < i ==> self.bytes@[k] == other.bytes@[k],
            decreases 32 - i,
        {
            if self.bytes[i] != other.bytes[i] {
                return false;
            }
            i += 1;
        }
        proof {
            assert(self.bytes@ =~= other.bytes@);
            assert(self.bytes == other.bytes);
        }
        true
    }
}

/// A transfer of native tokens out of a contract's account.
#[derive(Clone, Copy, Debug, PartialEq, Eq)]
pub struct Transfer {
    pub to: AccountId,
    pub amount: Balance,
}

/// The roles that `caller` holds among the three parties.
pub open spec fn party_roles(
    caller: AccountId,
    owner: AccountId,
    beneficiary: AccountId,
    arbiter: AccountId,
) -> RoleSet {
    RoleSet { owner: caller == owner, beneficiary: caller == beneficiary, arbiter: caller == arbiter }
}

/// The roles that `caller` holds among the three parties.
pub fn roles_among(
    caller: &AccountId,
    owner: &AccountId,
    beneficiary: &AccountId,
    arbiter: &AccountId,
) -> (held: RoleSet)
    ensures
        held == party_roles(*caller, *owner, *beneficiary, *arbiter),
{
    RoleSet {
        owner: caller.same_as(owner),
        beneficiary: caller.same_as(beneficiary),
        arbiter: caller.same_as(arbiter),
    }
}

} // verus!
