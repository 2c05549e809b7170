//! Referral-aware fee routing. The total fee stays at 6%; the referrer
//! category decides how it is divided between referrer, project and community.
use vstd::prelude::*;
use crate::errors::CurveError;
use crate::math::{bps_of, buy_fees_of, sell_fees_of, BPS_DENOMINATOR, BUYBACK_BPS, RESERVE_BPS};

pub use crate::math::{
    approximate_power_0_6, calculate_buy_cost, calculate_price_at_supply, calculate_sell_return,
};

verus! {

/// Referral share with a user referrer.
pub const USER_REFERRAL_BPS: u128 = 300;

/// Project share with a user referrer.
pub const USER_PROJECT_BPS: u128 = 100;

/// Project share when the project refers itself.
pub const SELF_REFERRAL_PROJECT_BPS: u128 = 400;

/// Project share without a referrer.
pub const NO_REFERRAL_PROJECT_BPS: u128 = 200;

/// Who referred the trade.
#[derive(Debug, Clone, Copy, PartialEq, Eq, Structural)]
pub enum ReferrerType {
    /// A regular user referral.
    User,
    /// The project referred itself.
    Project,
    /// No referral.
    NoReferral,
}

/// Referral and project shares, in basis points, for a referrer category;
/// the community receives the rest of the 5% after buyback.
pub open spec fn routing_bps(referrer_type: ReferrerType) -> (int, int) {
    match referrer_type {
        ReferrerType::User => (USER_REFERRAL_BPS as int, USER_PROJECT_BPS as int),
        ReferrerType::Project => (0, SELF_REFERRAL_PROJECT_BPS as int),
        ReferrerType::NoReferral => (0, NO_REFERRAL_PROJECT_BPS as int),
    }
}

fn routed_shares(amount: u128, referrer_type: ReferrerType) -> (r: (u128, u128))
    requires
        amount * RESERVE_BPS <= u128::MAX,
    ensures
        r.0 == bps_of(amount as int, routing_bps(referrer_type).0),
        r.1 == bps_of(amount as int, routing_bps(referrer_type).1),
{
    match referrer_type {
        ReferrerType::User => (
            amount * USER_REFERRAL_BPS / BPS_DENOMINATOR,
            amount * USER_PROJECT_BPS / BPS_DENOMINATOR,
        ),
        ReferrerType::Project => (0, amount * SELF_REFERRAL_PROJECT_BPS / BPS_DENOMINATOR),
        ReferrerType::NoReferral => (0, amount * NO_REFERRAL_PROJECT_BPS / BPS_DENOMINATOR),
    }
}

/// Buckets of a purchase under referral-aware routing.
#[derive(Debug, Clone, Copy)]
pub struct V6BuyFeeDistribution {
    /// 94%, to the reserve vault.
    pub reserve: u128,
    /// 3% with a user referrer, else nothing.
    pub referral: u128,
    /// 1% with a user referrer, 4% on self-referral, 2% without referrer.
    pub project: u128,
    /// 1%, to the buyback-and-burn wallet.
    pub buyback_burn: u128,
    /// The rest: nominally 1%, or 3% without referrer.
    pub community_rewards: u128,
}

impl V6BuyFeeDistribution {
    /// Sum of all buckets.
    pub open spec fn total(self) -> int {
        self.reserve + self.referral + self.project + self.buyback_burn + self.community_rewards
    }
}

/// The referral-aware split of a purchase costing `t`.
pub open spec fn v6_buy_fees_of(t: int, referrer_type: ReferrerType) -> V6BuyFeeDistribution {
    let reserve = bps_of(t, RESERVE_BPS as int);
    let buyback_burn = bps_of(t, BUYBACK_BPS as int);
    let referral = bps_of(t, routing_bps(referrer_type).0);
    let project = bps_of(t, routing_bps(referrer_type).1);
    V6BuyFeeDistribution {
        reserve: reserve as u128,
        referral: referral as u128,
        project: project as u128,
        buyback_burn: buyback_burn as u128,
        community_rewards: (t - reserve - buyback_burn - referral - project) as u128,
    }
}

/// Splits a purchase's cost by referrer category; the community bucket,
/// computed last, absorbs the rounding remainder.
pub fn calculate_v6_buy_fees(total_cost: u128, referrer_type: ReferrerType) -> (r: Result<
    V6BuyFeeDistribution,
    CurveError,
>)
    ensures
        r == if total_cost * RESERVE_BPS > u128::MAX {
            Err::<V6BuyFeeDistribution, CurveError>(CurveError::ArithmeticOverflow)
        } else {
            Ok::<V6BuyFeeDistribution, CurveError>(v6_buy_fees_of(total_cost as int, referrer_type))
        },
        r is Ok ==> r->Ok_0.total() == total_cost,
{
    let reserve = match total_cost.checked_mul(RESERVE_BPS) {
        Some(v) => v / BPS_DENOMINATOR,
        None => return Err(CurveError::ArithmeticOverflow),
    };
    let buyback_burn = total_cost * BUYBACK_BPS / BPS_DENOMINATOR;
    let (referral, project) = routed_shares(total_cost, referrer_type);
    let community_rewards = total_cost - reserve - buyback_burn - referral - project;
    Ok(V6BuyFeeDistribution { reserve, referral, project, buyback_burn, community_rewards })
}

/// Buckets of a sale under referral-aware routing.
#[derive(Debug, Clone, Copy)]
pub struct V6SellFeeDistribution {
    /// 94% of gross, paid to the seller.
    pub to_seller: u128,
    /// 3% with a user referrer, else nothing.
    pub referral: u128,
    /// 1% with a user referrer, 4% on self-referral, 2% without referrer.
    pub project: u128,
    /// 1%, to the buyback-and-burn wallet.
    pub buyback_burn: u128,
    /// The rest: nominally 1%, or 3% without referrer.
    pub community_rewards: u128,
}

impl V6SellFeeDistribution {
    /// Sum of all buckets.
    pub open spec fn total(self) -> int {
        self.to_seller + self.referral + self.project + self.buyback_burn
            + self.community_rewards
    }
}

/// The referral-aware split of a sale with gross proceeds `g`.
pub open spec fn v6_sell_fees_of(g: int, referrer_type: ReferrerType) -> V6SellFeeDistribution {
    let to_seller = bps_of(g, RESERVE_BPS as int);
    let buyback_burn = bps_of(g, BUYBACK_BPS as int);
    let referral = bps_of(g, routing_bps(referrer_type).0);
    let project = bps_of(g, routing_bps(referrer_type).1);
    V6SellFeeDistribution {
        to_seller: to_seller as u128,
        referral: referral as u128,
        project: project as u128,
        buyback_burn: buyback_burn as u128,
        community_rewards: (g - to_seller - buyback_burn - referral - project) as u128,
    }
}

/// Splits a sale's gross proceeds by referrer category: the seller keeps 94%
/// and the community bucket, computed last, absorbs the rounding remainder.
pub fn calculate_v6_sell_fees(gross_return: u128, referrer_type: ReferrerType) -> (r: Result<
    V6SellFeeDistribution,
    CurveError,
>)
    ensures
        r == if gross_return * RESERVE_BPS > u128::MAX {
            Err::<V6SellFeeDistribution, CurveError>(CurveError::ArithmeticOverflow)
        } else {
            Ok::<V6SellFeeDistribution, CurveError>(
                v6_sell_fees_of(gross_return as int, referrer_type),
            )
        },
        r is Ok ==> r->Ok_0.total() == gross_return,
{
    let to_seller = match gross_return.checked_mul(RESERVE_BPS) {
        Some(v) => v / BPS_DENOMINATOR,
        None => return Err(CurveError::ArithmeticOverflow),
    };
    let buyback_burn = gross_return * BUYBACK_BPS / BPS_DENOMINATOR;
    let (referral, project) = routed_shares(gross_return, referrer_type);
    let community_rewards = gross_return - to_seller - buyback_burn - referral - project;
    Ok(V6SellFeeDistribution { to_seller, referral, project, buyback_burn, community_rewards })
}

/// No lamport is lost to rounding: under every schedule and routing mode the
/// buckets of an amount `t` sum exactly to `t`.
pub proof fn lemma_fee_split_conserves(t: int, referrer_type: ReferrerType)
    requires
        0 <= t <= u128::MAX,
    ensures
        buy_fees_of(t).total() == t,
        sell_fees_of(t).total() == t,
        v6_buy_fees_of(t, referrer_type).total() == t,
        v6_sell_fees_of(t, referrer_type).total() == t,
{
}

} // verus!
