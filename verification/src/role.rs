//! The ordered capability levels of a group membership.

use core::cmp::Ordering;
use vstd::prelude::*;

verus! {

/// Capability level of an account inside one group.
///
/// The levels are totally ordered:
/// `Banned < Applicant < Member < Admin < SuperAdmin`.
#[derive(Clone, Copy, Debug, PartialEq, Eq, Structural, Hash)]
pub enum Role {
    Banned,
    Applicant,
    Member,
    Admin,
    SuperAdmin,
}

impl Role {
    /// The rank of a role: its position in the order, starting at 0.
    pub open spec fn rank(&self) -> u8 {
        match self {
            Role::Banned => 0,
            Role::Applicant => 1,
            Role::Member => 2,
            Role::Admin => 3,
            Role::SuperAdmin => 4,
        }
    }

    /// The rank of the role as a number.
    #[verifier::when_used_as_spec(rank)]
    pub fn to_int(&self) -> (n: u8)
        ensures
            n == self.rank(),
    {
        match *self {
            Role::Banned => 0,
            Role::Applicant => 1,
            Role::Member => 2,
            Role::Admin => 3,
            Role::SuperAdmin => 4,
        }
    }

    /// Whether an account of this role may leave its group by itself: every
    /// role strictly between `Banned` and `SuperAdmin` may.
    pub open spec fn may_leave(self) -> bool {
        Role::Banned.rank() < self.rank() < Role::SuperAdmin.rank()
    }

    /// Whether an account of this role may remove, or set the role of, an
    /// account of the role `target`: it is at least `Admin`, and not below
    /// `target`.
    pub open spec fn may_manage(self, target: Role) -> bool {
        self.rank() >= Role::Admin.rank() && self.rank() >= target.rank()
    }

    /// Whether an account of this role may hand out the role `granted`: none
    /// above its own.
    pub open spec fn may_grant(self, granted: Role) -> bool {
        granted.rank() <= self.rank()
    }

    /// How `self` stands to `other` in the order of ranks.
    pub open spec fn order(self, other: Role) -> Ordering {
        if self.rank() < other.rank() {
            Ordering::Less
        } else if self.rank() == other.rank() {
            Ordering::Equal
        } else {
            Ordering::Greater
        }
    }
}

impl PartialOrd for Role {
    fn partial_cmp(&self, other: &Role) -> (r: Option<Ordering>) {
        let a: u8 = self.to_int();
        let b: u8 = other.to_int();
        if a < b {
            Some(Ordering::Less)
        } else if a == b {
            Some(Ordering::Equal)
        } else {
            Some(Ordering::Greater)
        }
    }
}

impl vstd::std_specs::cmp::PartialOrdSpecImpl for Role {
    open spec fn obeys_partial_cmp_spec() -> bool {
        true
    }

    open spec fn partial_cmp_spec(&self, other: &Role) -> Option<Ordering> {
        Some(self.order(*other))
    }
}

/// Two roles of equal rank are the same role.
pub proof fn lemma_rank_injective(a: Role, b: Role)
    ensures
        a.rank() == b.rank() <==> a == b,
{
}

/// The order of roles is total: of `<`, `==` and `>` exactly one holds of any
/// two roles.
pub proof fn lemma_role_order_total(a: Role, b: Role)
    ensures
        a.order(b) == Ordering::Less || a == b || a.order(b) == Ordering::Greater,
        !(a.order(b) == Ordering::Less && a == b),
        !(a.order(b) == Ordering::Less && a.order(b) == Ordering::Greater),
        !(a == b && a.order(b) == Ordering::Greater),
        a.order(b) == Ordering::Equal <==> a == b,
        a.order(b) == Ordering::Less <==> b.order(a) == Ordering::Greater,
{
}

/// The order of roles is transitive.
pub proof fn lemma_role_order_transitive(a: Role, b: Role, c: Role)
    ensures
        a.order(b) == Ordering::Less && b.order(c) == Ordering::Less ==> a.order(c)
            == Ordering::Less,
        a.order(b) != Ordering::Greater && b.order(c) != Ordering::Greater ==> a.order(c)
            != Ordering::Greater,
{
}

/// The five roles stand in the order in which they are declared.
pub proof fn lemma_role_order_chain()
    ensures
        Role::Banned.order(Role::Applicant) == Ordering::Less,
        Role::Applicant.order(Role::Member) == Ordering::Less,
        Role::Member.order(Role::Admin) == Ordering::Less,
        Role::Admin.order(Role::SuperAdmin) == Ordering::Less,
{
}

} // verus!
