//! Discount rules, their conditions, and the evaluation of both against a
//! snapshot of the cart, the customer and the calendar.

use vstd::prelude::*;
use crate::coupon::Coupon;
use crate::datetime::Instant;
use crate::decimal::{Decimal, Relation};
use crate::lookup::StringMap;
use crate::membership::{contains_tier, has_tier, Membership, MembershipTier};
use crate::text::{share_text, shares_text};

verus! {

/// A comparison operator of a condition.
///
/// `Contains` and `DoesNotContain` belong to tests on text and collections.
/// Between two numbers they accept nothing.
#[derive(Debug, Clone, Copy, PartialEq, Eq, Structural)]
pub enum Operator {
    Equal,
    NotEqual,
    GreaterThan,
    LessThan,
    GreaterThanOrEqual,
    LessThanOrEqual,
    Contains,
    DoesNotContain,
}

impl Operator {
    /// Whether the operator is satisfied by a left side that stands in
    /// `relation` to the right side. Sides that cannot be ordered satisfy
    /// `NotEqual` and nothing else.
    pub open spec fn satisfied_by(self, relation: Relation) -> bool {
        match self {
            Operator::Equal => relation == Relation::Equal,
            Operator::NotEqual => relation != Relation::Equal,
            Operator::GreaterThan => relation == Relation::Greater,
            Operator::LessThan => relation == Relation::Less,
            Operator::GreaterThanOrEqual => relation == Relation::Greater || relation
                == Relation::Equal,
            Operator::LessThanOrEqual => relation == Relation::Less || relation == Relation::Equal,
            Operator::Contains => false,
            Operator::DoesNotContain => false,
        }
    }

    /// Whether the operator is satisfied by a left side that stands in
    /// `relation` to the right side.
    pub fn is_satisfied_by(&self, relation: Relation) -> (satisfied: bool)
        ensures
            satisfied == self.satisfied_by(relation),
    {
        match self {
            Operator::Equal => relation == Relation::Equal,
            Operator::NotEqual => relation != Relation::Equal,
            Operator::GreaterThan => relation == Relation::Greater,
            Operator::LessThan => relation == Relation::Less,
            Operator::GreaterThanOrEqual => relation == Relation::Greater || relation
                == Relation::Equal,
            Operator::LessThanOrEqual => relation == Relation::Less || relation == Relation::Equal,
            _ => false,
        }
    }
}

/// How the integer `a` relates to the integer `b`.
pub open spec fn relation_of(a: int, b: int) -> Relation {
    if a < b {
        Relation::Less
    } else if a == b {
        Relation::Equal
    } else {
        Relation::Greater
    }
}

/// Applies `op` to two decimals, ordered by the binary values they read as.
pub fn compare_decimal(a: Decimal, b: Decimal, op: &Operator) -> (satisfied: bool)
    ensures
        satisfied == op.satisfied_by(a.relation_to(b)),
        *op == Operator::Contains || *op == Operator::DoesNotContain ==> !satisfied,
{
    op.is_satisfied_by(a.relate(&b))
}

/// Applies `op` to two integers.
pub fn compare_i32(a: i32, b: i32, op: &Operator) -> (satisfied: bool)
    ensures
        satisfied == op.satisfied_by(relation_of(a as int, b as int)),
        *op == Operator::Contains || *op == Operator::DoesNotContain ==> !satisfied,
{
    match op {
        Operator::Equal => a == b,
        Operator::NotEqual => a != b,
        Operator::GreaterThan => a > b,
        Operator::LessThan => a < b,
        Operator::GreaterThanOrEqual => a >= b,
        Operator::LessThanOrEqual => a <= b,
        _ => false,
    }
}

/// What a rule grants once it applies. The evaluator carries actions and
/// never reads them.
#[derive(Debug, Clone)]
pub enum DiscountAction {
    PercentageOff { percent: Decimal },
    FixedAmountOff { amount: Decimal },
    FreeShipping,
    BuyXGetY {
        buy_product_id: String,
        buy_quantity: i32,
        get_product_id: String,
        get_quantity: i32,
    },
}

/// A single predicate over an evaluation context.
#[derive(Debug, Clone)]
pub enum Condition {
    CartTotal { operator: Operator, value: Decimal },
    ProductCategory { category_ids: Vec<String> },
    CustomerGroup { group_ids: Vec<String> },
    PurchaseHistory { min_orders: i32, timeframe_days: i32 },
    TimeOfDay { start_hour: i32, end_hour: i32 },
    DayOfWeek { days: Vec<u8> },
    ProductQuantity { product_id: String, operator: Operator, quantity: i32 },
    FirstPurchase,
    Coupon { code: String },
    MinimumSpend { amount: Decimal },
    MembershipTier { tiers: Vec<MembershipTier> },
    MembershipActive,
}

/// The facts about cart, customer and calendar that one evaluation reads.
#[derive(Debug, Clone)]
pub struct EvaluationContext {
    pub shop_id: String,
    pub cart_total: Decimal,
    pub product_quantities: StringMap<i32>,
    pub product_categories: StringMap<Vec<String>>,
    pub customer_groups: Vec<String>,
    pub order_count: i32,
    pub now: Instant,
    pub is_first_purchase: bool,
    pub current_day: u8,
    pub current_hour: i32,
    pub applied_coupon: Option<Coupon>,
    pub customer_membership: Option<Membership>,
}

impl EvaluationContext {
    /// How many of `product` the cart holds: 0 for a product that the cart
    /// does not list.
    pub open spec fn quantity(&self, product: Seq<char>) -> int {
        if self.product_quantities@.contains_key(product) {
            self.product_quantities@[product] as int
        } else {
            0
        }
    }

    /// The categories recorded for `product`: none for a product without a
    /// record.
    pub open spec fn categories(&self, product: Seq<char>) -> Seq<String> {
        if self.product_categories@.contains_key(product) {
            self.product_categories@[product]@
        } else {
            Seq::empty()
        }
    }

    /// Some product that the cart holds at least once has one of
    /// `category_ids` among its categories.
    pub open spec fn has_product_in(&self, category_ids: Seq<String>) -> bool {
        exists|product: Seq<char>|
            #[trigger] self.quantity(product) > 0 && share_text(
                category_ids,
                self.categories(product),
            )
    }

    /// How many of `product_id` the cart holds.
    pub fn quantity_of(&self, product_id: &String) -> (quantity: i32)
        ensures
            quantity == self.quantity(product_id@),
    {
        match self.product_quantities.get(product_id) {
            Some(quantity) => *quantity,
            None => 0,
        }
    }

    /// Whether some product of the cart falls under one of `category_ids`.
    pub fn has_product_in_categories(&self, category_ids: &Vec<String>) -> (found: bool)
        ensures
            found == self.has_product_in(category_ids@),
    {
        let n: usize = self.product_quantities.len();
        let mut i: usize = 0;
        while i < n
            invariant
                n == self.product_quantities.keys().len(),
                self.product_quantities.wf(),
                i <= n,
                forall|j: int|
                    0 <= j < i ==> !(self.quantity(#[trigger] self.product_quantities.keys()[j]) > 0
                        && share_text(
                        category_ids@,
                        self.categories(self.product_quantities.keys()[j]),
                    )),
            decreases n - i,
        {
            let product_id = self.product_quantities.key_at(i);
            let quantity: i32 = *self.product_quantities.value_at(i);
            if quantity > 0 {
                match self.product_categories.get(product_id) {
                    Some(categories) => {
                        if shares_text(category_ids, categories) {
                            return true;
                        }
                    },
                    None => {},
                }
            }
            i += 1;
        }
        proof {
            assert forall|product: Seq<char>| #[trigger]
                self.quantity(product) > 0 implies !share_text(
                category_ids@,
                self.categories(product),
            ) by {
                self.product_quantities.lemma_key_has_position(product);
                let j = self.product_quantities.keys().index_of(product);
                assert(self.product_quantities.keys()[j] == product);
            }
        }
        false
    }
}

/// Whether `day` is one of `days`.
pub fn contains_day(days: &Vec<u8>, day: u8) -> (found: bool)
    ensures
        found == days@.contains(day),
{
    let n: usize = days.len();
    let mut i: usize = 0;
    while i < n
        invariant
            n == days@.len(),
            i <= n,
            forall|j: int| 0 <= j < i ==> days@[j] != day,
        decreases n - i,
    {
        if days[i] == day {
            return true;
        }
        i += 1;
    }
    false
}

impl Condition {
    /// The condition is satisfied in `ctx`.
    ///
    /// Data that the context lacks never satisfies a condition: a product
    /// that the cart does not list counts as quantity 0, a product without
    /// recorded categories as having none, and a condition on a coupon or a
    /// membership fails where the context has none.
    pub open spec fn holds(&self, ctx: &EvaluationContext) -> bool {
        match self {
            Condition::CartTotal { operator, value } => operator.satisfied_by(
                ctx.cart_total.relation_to(*value),
            ),
            Condition::ProductCategory { category_ids } => ctx.has_product_in(category_ids@),
            Condition::CustomerGroup { group_ids } => share_text(group_ids@, ctx.customer_groups@),
            Condition::PurchaseHistory { min_orders, timeframe_days } => ctx.order_count
                >= *min_orders,
            Condition::TimeOfDay { start_hour, end_hour } => *start_hour <= ctx.current_hour
                <= *end_hour,
            Condition::DayOfWeek { days } => days@.contains(ctx.current_day),
            Condition::ProductQuantity { product_id, operator, quantity } => operator.satisfied_by(
                relation_of(ctx.quantity(product_id@), *quantity as int),
            ),
            Condition::FirstPurchase => ctx.is_first_purchase,
            Condition::Coupon { code } => ctx.applied_coupon matches Some(coupon) && coupon.usable(
                code@,
                ctx.now,
            ),
            Condition::MinimumSpend { amount } => Operator::GreaterThanOrEqual.satisfied_by(
                ctx.cart_total.relation_to(*amount),
            ),
            Condition::MembershipTier { tiers } => ctx.customer_membership matches Some(membership)
                && membership.valid_at(ctx.now) && has_tier(tiers@, &membership.tier),
            Condition::MembershipActive => ctx.customer_membership matches Some(membership)
                && membership.valid_at(ctx.now),
        }
    }

    /// Whether the condition is satisfied in `ctx`.
    pub fn evaluate(&self, ctx: &EvaluationContext) -> (satisfied: bool)
        ensures
            satisfied == self.holds(ctx),
    {
        match self {
            Condition::CartTotal { operator, value } => compare_decimal(
                ctx.cart_total,
                *value,
                operator,
            ),
            Condition::ProductQuantity { product_id, operator, quantity } => {
                let in_cart = ctx.quantity_of(product_id);
                compare_i32(in_cart, *quantity, operator)
            },
            Condition::CustomerGroup { group_ids } => shares_text(group_ids, &ctx.customer_groups),
            Condition::PurchaseHistory { min_orders, timeframe_days: _ } => ctx.order_count
                >= *min_orders,
            Condition::TimeOfDay { start_hour, end_hour } => ctx.current_hour >= *start_hour
                && ctx.current_hour <= *end_hour,
            Condition::DayOfWeek { days } => contains_day(days, ctx.current_day),
            Condition::FirstPurchase => ctx.is_first_purchase,
            Condition::ProductCategory { category_ids } => ctx.has_product_in_categories(
                category_ids,
            ),
            Condition::Coupon { code } => {
                match &ctx.applied_coupon {
                    Some(coupon) => coupon.is_usable(code, ctx.now),
                    None => false,
                }
            },
            Condition::MinimumSpend { amount } => compare_decimal(
                ctx.cart_total,
                *amount,
                &Operator::GreaterThanOrEqual,
            ),
            Condition::MembershipTier { tiers } => {
                match &ctx.customer_membership {
                    Some(membership) => {
                        if !membership.is_valid_at(ctx.now) {
                            return false;
                        }
                        contains_tier(tiers, &membership.tier)
                    },
                    None => false,
                }
            },
            Condition::MembershipActive => {
                match &ctx.customer_membership {
                    Some(membership) => membership.is_valid_at(ctx.now),
                    None => false,
                }
            },
        }
    }
}

/// A named, time-windowed list of conditions that must all hold for the
/// rule's actions to be granted.
///
/// Priority and the usage counters are hints for whoever grants the actions;
/// the evaluator does not read them.
#[derive(Debug, Clone)]
pub struct DiscountRule {
    pub id: String,
    pub shop_id: String,
    pub name: String,
    pub conditions: Vec<Condition>,
    pub actions: Vec<DiscountAction>,
    pub priority: i32,
    pub start_date: Option<Instant>,
    pub end_date: Option<Instant>,
    pub is_active: bool,
    pub usage_count: i32,
    pub max_usage: Option<i32>,
    pub created_at: Instant,
    pub updated_at: Instant,
}

impl DiscountRule {
    /// The rule's gates are open at `now`: the rule is active, and `now` lies
    /// in the window from its start to its end, both of which belong to it.
    pub open spec fn open_at(&self, now: Instant) -> bool {
        self.is_active && now.within(self.start_date, self.end_date)
    }

    /// Every condition of the rule holds in `ctx`. A rule without conditions
    /// has them all hold.
    pub open spec fn conditions_hold(&self, ctx: &EvaluationContext) -> bool {
        forall|i: int|
            0 <= i < self.conditions@.len() ==> (#[trigger] self.conditions@[i]).holds(ctx)
    }

    /// The rule applies to `ctx`.
    pub open spec fn applies(&self, ctx: &EvaluationContext) -> bool {
        self.open_at(ctx.now) && self.conditions_hold(ctx)
    }

    /// Whether the rule applies to `ctx`.
    pub fn evaluate(&self, ctx: &EvaluationContext) -> (applies: bool)
        ensures
            applies == self.applies(ctx),
            !self.is_active ==> !applies,
            (self.start_date matches Some(start) && start.after(ctx.now)) ==> !applies,
            (self.end_date matches Some(end) && end.before(ctx.now)) ==> !applies,
            self.open_at(ctx.now) && self.conditions@.len() == 0 ==> applies,
    {
        if !self.is_active {
            return false;
        }
        if let Some(start) = &self.start_date {
            if ctx.now.is_before(start) {
                return false;
            }
        }
        if let Some(end) = &self.end_date {
            if ctx.now.is_after(end) {
                return false;
            }
        }
        let n: usize = self.conditions.len();
        let mut i: usize = 0;
        while i < n
            invariant
                n == self.conditions@.len(),
                i <= n,
                forall|j: int| 0 <= j < i ==> (#[trigger] self.conditions@[j]).holds(ctx),
            decreases n - i,
        {
            if !self.conditions[i].evaluate(ctx) {
                return false;
            }
            i += 1;
        }
        true
    }
}

/// A rule whose gates are open applies exactly when each of its conditions,
/// taken by itself, holds. Whether the conditions are tried one after the
/// other until one fails, or all of them are tried, makes no difference.
pub proof fn lemma_open_rule_applies_iff_every_condition_holds(
    rule: DiscountRule,
    ctx: EvaluationContext,
)
    requires
        rule.open_at(ctx.now),
    ensures
        rule.applies(&ctx) <==> (forall|i: int|
            0 <= i < rule.conditions@.len() ==> (#[trigger] rule.conditions@[i]).holds(&ctx)),
        !rule.applies(&ctx) <==> (exists|i: int|
            0 <= i < rule.conditions@.len() && !(#[trigger] rule.conditions@[i]).holds(&ctx)),
{
}

/// A rule whose gates are shut applies to nothing, whatever its conditions.
pub proof fn lemma_shut_rule_never_applies(rule: DiscountRule, ctx: EvaluationContext)
    requires
        !rule.is_active || (rule.start_date matches Some(start) && start.after(ctx.now)) || (
        rule.end_date matches Some(end) && end.before(ctx.now)),
    ensures
        !rule.applies(&ctx),
{
}

/// A coupon condition holds exactly for a context whose applied coupon
/// carries the condition's code, has not expired and has uses left. It fails
/// for a coupon with another code, for one past its expiry, for one whose
/// uses have reached the cap, and where no coupon is applied.
pub proof fn lemma_coupon_condition(condition: Condition, ctx: EvaluationContext)
    requires
        condition is Coupon,
    ensures
        ctx.applied_coupon is None ==> !condition.holds(&ctx),
        ctx.applied_coupon matches Some(coupon) ==> {
            &&& coupon.code@ != condition->code@ ==> !condition.holds(&ctx)
            &&& coupon.expired_at(ctx.now) ==> !condition.holds(&ctx)
            &&& coupon.exhausted() ==> !condition.holds(&ctx)
            &&& (coupon.code@ == condition->code@ && !coupon.expired_at(ctx.now)
                && !coupon.exhausted()) ==> condition.holds(&ctx)
        },
{
}

/// A membership-tier condition fails for a membership that is inactive, has
/// not started or has expired, even where the tier's name is among the
/// condition's tiers.
pub proof fn lemma_tier_condition_needs_valid_membership(
    condition: Condition,
    ctx: EvaluationContext,
)
    requires
        condition is MembershipTier,
        ctx.customer_membership matches Some(membership) && (!membership.is_active || (
        membership.starts_at matches Some(start) && ctx.now.before(start)) || (
        membership.expires_at matches Some(end) && ctx.now.after(end))),
    ensures
        !condition.holds(&ctx),
{
}

/// A day-of-week condition on a single day holds on that day and on no other.
pub proof fn lemma_single_day_condition(condition: Condition, ctx: EvaluationContext, day: u8)
    requires
        condition matches Condition::DayOfWeek { days } && days@ == seq![day],
    ensures
        condition.holds(&ctx) <==> ctx.current_day == day,
{
    if ctx.current_day == day {
        assert(seq![day][0] == day);
    }
}

/// A product-quantity condition reads a product that the cart does not list
/// as quantity 0.
pub proof fn lemma_unlisted_product_counts_as_zero(condition: Condition, ctx: EvaluationContext)
    requires
        condition matches Condition::ProductQuantity { product_id, .. }
            && !ctx.product_quantities@.contains_key(product_id@),
    ensures
        condition matches Condition::ProductQuantity { operator, quantity, .. } && (
        condition.holds(&ctx) <==> operator.satisfied_by(relation_of(0, quantity as int))),
{
}

} // verus!
