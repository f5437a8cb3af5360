//! Who may release and who may cancel.
//!
//! A caller is known by an identity. The roles that the caller holds on an
//! escrow follow from comparing that identity with the parties of the record.
//! Which roles a transition accepts is configuration, not code.

use crate::escrow::{Escrow, EscrowView};
use crate::text::text_eq;
use vstd::prelude::*;

verus! {

/// The part that a party plays in an escrow.
#[derive(Clone, Copy, Debug, PartialEq, Eq, Structural)]
pub enum Role {
    Owner,
    Beneficiary,
    Arbiter,
}

/// A set of roles.
#[derive(Clone, Copy, Debug, PartialEq, Eq, Structural)]
pub struct RoleSet {
    pub owner: bool,
    pub beneficiary: bool,
    pub arbiter: bool,
}

impl RoleSet {
    /// The set without any role.
    pub open spec fn empty_set() -> RoleSet {
        RoleSet { owner: false, beneficiary: false, arbiter: false }
    }

    /// Whether `role` is in the set.
    pub open spec fn has(self, role: Role) -> bool {
        match role {
            Role::Owner => self.owner,
            Role::Beneficiary => self.beneficiary,
            Role::Arbiter => self.arbiter,
        }
    }

    /// The set with `role` added.
    pub open spec fn with(self, role: Role) -> RoleSet {
        match role {
            Role::Owner => RoleSet { owner: true, ..self },
            Role::Beneficiary => RoleSet { beneficiary: true, ..self },
            Role::Arbiter => RoleSet { arbiter: true, ..self },
        }
    }

    /// Whether the two sets share a role.
    pub open spec fn meets(self, other: RoleSet) -> bool {
        ||| self.owner && other.owner
        ||| self.beneficiary && other.beneficiary
        ||| self.arbiter && other.arbiter
    }

    /// The set without any role.
    pub fn empty() -> (set: RoleSet)
        ensures
            set == RoleSet::empty_set(),
    {
        RoleSet { owner: false, beneficiary: false, arbiter: false }
    }

    /// Whether `role` is in the set.
    pub fn contains(&self, role: Role) -> (r: bool)
        ensures
            r == self.has(role),
    {
        match role {
            Role::Owner => self.owner,
            Role::Beneficiary => self.beneficiary,
            Role::Arbiter => self.arbiter,
        }
    }

    /// The set with `role` added.
    pub fn insert(&self, role: Role) -> (set: RoleSet)
        ensures
            set == self.with(role),
            forall|other: Role| set.has(other) == (other == role || self.has(other)),
    {
        match role {
            Role::Owner => RoleSet { owner: true, ..*self },
            Role::Beneficiary => RoleSet { beneficiary: true, ..*self },
            Role::Arbiter => RoleSet { arbiter: true, ..*self },
        }
    }

    /// Whether the two sets share a role.
    pub fn intersects(&self, other: &RoleSet) -> (r: bool)
        ensures
            r == self.meets(*other),
    {
        (self.owner && other.owner) || (self.beneficiary && other.beneficiary) || (self.arbiter
            && other.arbiter)
    }
}

/// Two sets meet exactly where some role is in both.
pub proof fn law_sets_meet_on_a_shared_role(a: RoleSet, b: RoleSet)
    ensures
        a.meets(b) <==> exists|role: Role| a.has(role) && b.has(role),
{
    if a.owner && b.owner {
        assert(a.has(Role::Owner) && b.has(Role::Owner));
    }
    if a.beneficiary && b.beneficiary {
        assert(a.has(Role::Beneficiary) && b.has(Role::Beneficiary));
    }
    if a.arbiter && b.arbiter {
        assert(a.has(Role::Arbiter) && b.has(Role::Arbiter));
    }
}

/// The roles accepted for each transition that is gated by role.
#[derive(Clone, Copy, Debug, PartialEq, Eq, Structural)]
pub struct AccessPolicy {
    /// Who may release the funds to the beneficiary.
    pub release: RoleSet,
    /// Who may cancel the escrow and have the funds refunded.
    pub cancel: RoleSet,
}

impl AccessPolicy {
    /// The arbiter releases; the owner or the arbiter cancels.
    pub open spec fn arbiter_release_policy() -> AccessPolicy {
        AccessPolicy {
            release: RoleSet { owner: false, beneficiary: false, arbiter: true },
            cancel: RoleSet { owner: true, beneficiary: false, arbiter: true },
        }
    }

    /// The beneficiary releases; the owner or the arbiter cancels.
    pub open spec fn beneficiary_release_policy() -> AccessPolicy {
        AccessPolicy {
            release: RoleSet { owner: false, beneficiary: true, arbiter: false },
            cancel: RoleSet { owner: true, beneficiary: false, arbiter: true },
        }
    }

    /// The arbiter alone releases and cancels.
    pub open spec fn arbiter_only_policy() -> AccessPolicy {
        AccessPolicy {
            release: RoleSet { owner: false, beneficiary: false, arbiter: true },
            cancel: RoleSet { owner: false, beneficiary: false, arbiter: true },
        }
    }

    /// The policy that a deployment names: `beneficiary` lets the
    /// beneficiary release; every other name, and no name, lets the arbiter.
    pub open spec fn selected(name: Option<String>) -> AccessPolicy {
        match name {
            Some(text) => if text@ == "beneficiary"@ {
                AccessPolicy::beneficiary_release_policy()
            } else {
                AccessPolicy::arbiter_release_policy()
            },
            None => AccessPolicy::arbiter_release_policy(),
        }
    }

    /// The policy that a deployment names.
    pub fn select(name: &Option<String>) -> (policy: AccessPolicy)
        ensures
            policy == AccessPolicy::selected(*name),
    {
        match name {
            Some(text) => if text_eq(text.as_str(), "beneficiary") {
                AccessPolicy::beneficiary_release()
            } else {
                AccessPolicy::arbiter_release()
            },
            None => AccessPolicy::arbiter_release(),
        }
    }

    /// The arbiter releases; the owner or the arbiter cancels.
    pub fn arbiter_release() -> (policy: AccessPolicy)
        ensures
            policy == AccessPolicy::arbiter_release_policy(),
    {
        AccessPolicy {
            release: RoleSet { owner: false, beneficiary: false, arbiter: true },
            cancel: RoleSet { owner: true, beneficiary: false, arbiter: true },
        }
    }

    /// The beneficiary releases; the owner or the arbiter cancels.
    pub fn beneficiary_release() -> (policy: AccessPolicy)
        ensures
            policy == AccessPolicy::beneficiary_release_policy(),
    {
        AccessPolicy {
            release: RoleSet { owner: false, beneficiary: true, arbiter: false },
            cancel: RoleSet { owner: true, beneficiary: false, arbiter: true },
        }
    }

    /// The arbiter alone releases and cancels.
    pub fn arbiter_only() -> (policy: AccessPolicy)
        ensures
            policy == AccessPolicy::arbiter_only_policy(),
    {
        AccessPolicy {
            release: RoleSet { owner: false, beneficiary: false, arbiter: true },
            cancel: RoleSet { owner: false, beneficiary: false, arbiter: true },
        }
    }
}

/// The roles that `caller` holds on `escrow`: each party whose identity is the
/// caller's.
pub open spec fn roles_held(escrow: EscrowView, caller: Seq<char>) -> RoleSet {
    RoleSet {
        owner: caller == escrow.owner,
        beneficiary: caller == escrow.beneficiary,
        arbiter: caller == escrow.arbiter,
    }
}

/// Whether `caller` holds one of the roles in `allowed` on `escrow`.
pub open spec fn authorized(escrow: EscrowView, caller: Seq<char>, allowed: RoleSet) -> bool {
    allowed.meets(roles_held(escrow, caller))
}

/// The roles that `caller` holds on `escrow`.
pub fn roles_of(escrow: &Escrow, caller: &str) -> (held: RoleSet)
    ensures
        held == roles_held(escrow@, caller@),
{
    RoleSet {
        owner: text_eq(caller, escrow.owner.as_str()),
        beneficiary: text_eq(caller, escrow.beneficiary.as_str()),
        arbiter: text_eq(caller, escrow.arbiter.as_str()),
    }
}

/// Whether `caller` holds one of the roles in `allowed` on `escrow`.
pub fn is_authorized(escrow: &Escrow, caller: &str, allowed: &RoleSet) -> (r: bool)
    ensures
        r == authorized(escrow@, caller@, *allowed),
{
    let held = roles_of(escrow, caller);
    allowed.intersects(&held)
}

} // verus!
