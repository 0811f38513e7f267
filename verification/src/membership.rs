//! Memberships: a customer's standing in a tiered loyalty programme.

use vstd::prelude::*;
use crate::datetime::Instant;
use crate::decimal::Decimal;

verus! {

/// The audience a tier is meant for.
#[derive(Debug, Clone, Copy, PartialEq, Eq, Hash, Structural)]
pub enum MembershipTarget {
    Customer,
    Reseller,
    Affiliate,
}

/// A named membership level. Two tiers are the same tier, and equal under
/// `==`, when their names are equal; the audience and the description are
/// carried for display only.
#[derive(Debug, Clone)]
pub struct MembershipTier {
    pub name: String,
    pub target: MembershipTarget,
    pub description: Option<String>,
}

impl MembershipTier {
    /// The two tiers carry the same name.
    pub open spec fn same_tier(&self, other: &MembershipTier) -> bool {
        self.name@ == other.name@
    }

    /// A tier without a description.
    pub fn new(name: String, target: MembershipTarget) -> (tier: MembershipTier)
        ensures
            tier.name == name,
            tier.target == target,
            tier.description is None,
    {
        MembershipTier { name, description: None, target }
    }

    /// The same tier with `description` as its description.
    pub fn with_description(self, description: String) -> (tier: MembershipTier)
        ensures
            tier.name == self.name,
            tier.target == self.target,
            tier.description == Some(description),
    {
        let mut tier = self;
        tier.description = Some(description);
        tier
    }

    /// The tier as it is shown: its name.
    pub fn to_string(&self) -> (text: String)
        ensures
            text@ == self.name@,
    {
        self.name.clone()
    }
}

impl PartialEq for MembershipTier {
    fn eq(&self, other: &MembershipTier) -> (same: bool) {
        self.name == other.name
    }
}

impl vstd::std_specs::cmp::PartialEqSpecImpl for MembershipTier {
    open spec fn obeys_eq_spec() -> bool {
        true
    }

    open spec fn eq_spec(&self, other: &MembershipTier) -> bool {
        self.same_tier(other)
    }
}

impl Eq for MembershipTier {

}

/// `wanted` names one of `tiers`.
pub open spec fn has_tier(tiers: Seq<MembershipTier>, wanted: &MembershipTier) -> bool {
    exists|i: int| 0 <= i < tiers.len() && (#[trigger] tiers[i]).same_tier(wanted)
}

/// Whether `wanted` names one of `tiers`.
pub fn contains_tier(tiers: &Vec<MembershipTier>, wanted: &MembershipTier) -> (found: bool)
    ensures
        found == has_tier(tiers@, wanted),
{
    let n: usize = tiers.len();
    let mut i: usize = 0;
    while i < n
        invariant
            n == tiers@.len(),
            i <= n,
            forall|j: int| 0 <= j < i ==> !(#[trigger] tiers@[j]).same_tier(wanted),
        decreases n - i,
    {
        if tiers[i] == *wanted {
            return true;
        }
        i += 1;
    }
    false
}

/// A customer's membership in one shop.
#[derive(Debug, Clone)]
pub struct Membership {
    pub id: String,
    pub shop_id: String,
    pub customer_id: String,
    pub tier: MembershipTier,
    pub discount_percentage: Decimal,
    pub is_active: bool,
    pub starts_at: Option<Instant>,
    pub expires_at: Option<Instant>,
    pub created_at: Instant,
    pub updated_at: Instant,
}

impl Membership {
    /// The membership is valid at `date`: it is active, and `date` is neither
    /// before its start nor after its expiry, where it has them. Both bounds
    /// belong to the window.
    pub open spec fn valid_at(&self, date: Instant) -> bool {
        self.is_active && date.within(self.starts_at, self.expires_at)
    }

    /// Whether the membership is valid at `date`.
    pub fn is_valid_at(&self, date: Instant) -> (valid: bool)
        ensures
            valid == self.valid_at(date),
            !self.is_active ==> !valid,
            (self.starts_at matches Some(start) && date.before(start)) ==> !valid,
            (self.expires_at matches Some(end) && date.after(end)) ==> !valid,
    {
        if !self.is_active {
            return false;
        }
        date.is_within(&self.starts_at, &self.expires_at)
    }

    /// The percentage that the membership takes off.
    pub fn get_discount_value(&self) -> (value: Decimal)
        ensures
            value == self.discount_percentage,
    {
        self.discount_percentage
    }
}

} // verus!
