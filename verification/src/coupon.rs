//! Coupons: code-redeemable discount tokens.

use vstd::prelude::*;
use crate::datetime::Instant;
use crate::decimal::Decimal;

verus! {

/// What kind of discount a coupon gives.
#[derive(Debug, Clone, Copy, PartialEq, Eq, Structural)]
pub enum CouponDiscountType {
    Percentage,
    FixedAmount,
    FreeShipping,
}

/// A coupon as it was loaded.
#[derive(Debug, Clone)]
pub struct Coupon {
    pub id: String,
    pub shop_id: String,
    pub code: String,
    pub description: Option<String>,
    pub is_active: bool,
    pub discount_type: CouponDiscountType,
    pub discount_value: Decimal,
    pub is_single_use: bool,
    pub used_count: i32,
    pub max_uses: Option<i32>,
    pub starts_at: Option<Instant>,
    pub expires_at: Option<Instant>,
    pub created_at: Instant,
    pub updated_at: Instant,
}

impl Coupon {
    /// The coupon has an expiry and `now` is past it. The expiry instant
    /// itself is still in time.
    pub open spec fn expired_at(&self, now: Instant) -> bool {
        self.expires_at matches Some(expiry) && now.after(expiry)
    }

    /// The coupon has a cap on its uses and has reached it.
    pub open spec fn exhausted(&self) -> bool {
        self.max_uses matches Some(cap) && self.used_count >= cap
    }

    /// The coupon can be redeemed under `code` at `now`: the code is the
    /// coupon's, the coupon has not expired, and its uses are not exhausted.
    /// Neither the coupon's active flag nor its start takes part.
    pub open spec fn usable(&self, code: Seq<char>, now: Instant) -> bool {
        &&& self.code@ == code
        &&& !self.expired_at(now)
        &&& !self.exhausted()
    }

    /// Whether the coupon can be redeemed under `code` at `now`.
    pub fn is_usable(&self, code: &String, now: Instant) -> (usable: bool)
        ensures
            usable == self.usable(code@, now),
            self.code@ != code@ ==> !usable,
            self.expired_at(now) ==> !usable,
            self.exhausted() ==> !usable,
    {
        if !(self.code == *code) {
            return false;
        }
        let in_time = match &self.expires_at {
            Some(expiry) => !now.is_after(expiry),
            None => true,
        };
        let uses_left = match self.max_uses {
            Some(cap) => self.used_count < cap,
            None => true,
        };
        in_time && uses_left
    }
}

} // verus!
