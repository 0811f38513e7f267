//! Decides whether a discount rule applies to a shopping cart at a point in
//! time.
//!
//! A [`discount::DiscountRule`] is a time-windowed list of
//! [`discount::Condition`]s; it applies to an
//! [`discount::EvaluationContext`] when the rule is active, the context's
//! instant lies inside the rule's window, and every condition holds. What
//! "holds" means is fixed by spec functions on the data types, and every
//! executable function is proved to compute exactly that.

pub mod coupon;
pub mod datetime;
pub mod decimal;
pub mod discount;
pub mod lookup;
pub mod membership;
pub mod text;
