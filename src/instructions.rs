//! The curve program's operations as state transitions.
//!
//! Each operation checks every precondition and every arithmetic step before
//! it writes anything: on failure the records are left exactly as they were.
//! Fund-moving operations set the curve's reentrancy guard together with the
//! bookkeeping and hand back the transfers to perform; the caller clears the
//! guard once those transfers have gone through.
use vstd::prelude::*;
use crate::errors::CurveError;
use crate::events::{
    CurveFrozenEvent, CurveLaunchedEvent, KeysPurchasedEvent, KeysSoldEvent, SnapshotCreatedEvent,
    TokensClaimedEvent,
};
use crate::math::{
    buy_cost_defined, buy_fees_of, calculate_buy_cost, calculate_buy_fees, calculate_sell_fees,
    price_sum, sell_fees_of, BuyFeeDistribution, SellFeeDistribution, RESERVE_BPS, TOTAL_FEE_BPS,
};
use crate::merkle::{bytes32_eq, claim_leaf, claim_leaf_of, merkle_fold, verify_merkle_proof};
use crate::state::{
    default_address, is_default_address, max_keys_for_supply, Address, BanList, BondingCurve,
    ClaimRecord, CurveConfig, CurveStatus, CurveType, FreezeTrigger, KeyHolder, Snapshot, frozen,
    freeze_outcome, MAX_BANS,
};
use vstd::utf8::encode_utf8;

verus! {

/// Error for a trade on a curve that is not active.
pub open spec fn not_trading_error(status: CurveStatus) -> CurveError {
    if status == CurveStatus::Pending {
        CurveError::CurveNotActive
    } else {
        CurveError::TradingDisabled
    }
}

/// A referrer must not be the zero address nor the trader itself.
pub open spec fn referrer_error(referrer: Option<Address>, trader: Address) -> Option<CurveError> {
    match referrer {
        Some(r) => if r@ == default_address() {
            Some(CurveError::InvalidReferrer)
        } else if r@ == trader@ {
            Some(CurveError::SelfReferral)
        } else {
            None
        },
        None => None,
    }
}

fn check_referrer(referrer: &Option<Address>, trader: &Address) -> (r: Result<(), CurveError>)
    ensures
        r is Ok <==> referrer_error(*referrer, *trader) is None,
        r is Err ==> referrer_error(*referrer, *trader) == Some(r->Err_0),
{
    match referrer {
        Some(key) => {
            if is_default_address(key) {
                return Err(CurveError::InvalidReferrer);
            }
            if bytes32_eq(key, trader) {
                return Err(CurveError::SelfReferral);
            }
            Ok(())
        },
        None => Ok(()),
    }
}

/// Transfers and notification of a sale.
#[derive(Debug, Clone, Copy)]
pub struct SellSettlement {
    /// From the reserve vault, in order: seller, instant-fee recipient,
    /// buyback, community, platform.
    pub fees: SellFeeDistribution,
    /// The referrer, or the creator without one.
    pub instant_fee_recipient: Address,
    pub event: KeysSoldEvent,
}

/// Why `sell_keys` refuses, checked in this order; `None` when it succeeds.
pub open spec fn sell_keys_error(
    c: BondingCurve,
    h: KeyHolder,
    ban_list: BanList,
    seller: Address,
    amount: u64,
    referrer: Option<Address>,
    now: i64,
) -> Option<CurveError> {
    let gross = price_sum(c.supply - amount, amount as nat);
    let fees = sell_fees_of(gross);
    if c.reentrancy_guard {
        Some(CurveError::ReentrancyDetected)
    } else if c.status != CurveStatus::Active {
        Some(not_trading_error(c.status))
    } else if ban_list.banned(seller@) {
        Some(CurveError::AccountBanned)
    } else if amount == 0 {
        Some(CurveError::InvalidAmount)
    } else if h.amount < amount {
        Some(CurveError::InsufficientReserve)
    } else if h.is_creator && now < c.creator_unlock_time {
        Some(CurveError::KeysLocked)
    } else if referrer_error(referrer, seller) is Some {
        referrer_error(referrer, seller)
    } else if c.supply < amount {
        Some(CurveError::InsufficientReserve)
    } else if !buy_cost_defined(c.supply - amount, amount as int) || gross * TOTAL_FEE_BPS
        > u128::MAX {
        Some(CurveError::ArithmeticOverflow)
    } else if c.reserve_balance < gross {
        Some(CurveError::InsufficientReserve)
    } else if (referrer is None && c.creator_fees_collected + fees.instant_fee > u128::MAX)
        || c.rewards_fees_collected + fees.buyback_burn + fees.community_rewards > u128::MAX
        || c.total_sells + 1 > u64::MAX {
        Some(CurveError::ArithmeticOverflow)
    } else {
        None
    }
}

/// The curve after selling `amount` keys for gross proceeds `gross`.
pub open spec fn curve_after_sale(
    c: BondingCurve,
    amount: u64,
    gross: int,
    referrer: Option<Address>,
) -> BondingCurve {
    let fees = sell_fees_of(gross);
    BondingCurve {
        supply: (c.supply - amount) as u128,
        reserve_balance: (c.reserve_balance - gross) as u128,
        creator_fees_collected: if referrer is None {
            (c.creator_fees_collected + fees.instant_fee) as u128
        } else {
            c.creator_fees_collected
        },
        rewards_fees_collected: (c.rewards_fees_collected + fees.buyback_burn
            + fees.community_rewards) as u128,
        total_sells: (c.total_sells + 1) as u64,
        reentrancy_guard: true,
        ..c
    }
}

/// Sells `amount` keys back to the curve. The reserve gives up the gross
/// proceeds; the seller is paid 94% of them and the 6% fee is split.
pub fn sell_keys(
    curve: &mut BondingCurve,
    curve_key: &Address,
    holder: &mut KeyHolder,
    ban_list: &BanList,
    seller: &Address,
    amount: u64,
    referrer: Option<Address>,
    now: i64,
) -> (r: Result<SellSettlement, CurveError>)
    requires
        old(curve).wf(),
    ensures
        final(curve).wf(),
        ({
            let err = sell_keys_error(*old(curve), *old(holder), *ban_list, *seller, amount, referrer, now);
            let gross = price_sum(old(curve).supply - amount, amount as nat);
            match r {
                Ok(s) => {
                    &&& err is None
                    &&& *final(curve) == curve_after_sale(*old(curve), amount, gross, referrer)
                    &&& *final(holder) == (KeyHolder { amount: (old(holder).amount - amount) as u64, ..*old(holder) })
                    &&& s.fees == sell_fees_of(gross)
                    &&& s.instant_fee_recipient == (match referrer { Some(k) => k, None => old(curve).creator })
                    &&& s.event == (KeysSoldEvent { curve: *curve_key, seller: *seller, amount, payout: sell_fees_of(gross).to_seller, gross_return: gross as u128 })
                },
                Err(e) => {
                    &&& err == Some(e)
                    &&& *final(curve) == *old(curve)
                    &&& *final(holder) == *old(holder)
                },
            }
        }),
{
    if !curve.check_reentrancy() {
        return Err(CurveError::ReentrancyDetected);
    }
    if curve.status != CurveStatus::Active {
        return Err(
            if curve.status == CurveStatus::Pending {
                CurveError::CurveNotActive
            } else {
                CurveError::TradingDisabled
            },
        );
    }
    if ban_list.is_banned(seller) {
        return Err(CurveError::AccountBanned);
    }
    if amount == 0 {
        return Err(CurveError::InvalidAmount);
    }
    if holder.amount < amount {
        return Err(CurveError::InsufficientReserve);
    }
    if holder.is_creator && curve.are_keys_locked(now) {
        return Err(CurveError::KeysLocked);
    }
    check_referrer(&referrer, seller)?;
    if curve.supply < amount as u128 {
        return Err(CurveError::InsufficientReserve);
    }
    let gross_return = calculate_buy_cost(curve.supply - amount as u128, amount)?;
    let fees = calculate_sell_fees(gross_return)?;
    if curve.reserve_balance < gross_return {
        return Err(CurveError::InsufficientReserve);
    }
    let creator_fees_collected = if referrer.is_none() {
        match curve.creator_fees_collected.checked_add(fees.instant_fee) {
            Some(v) => v,
            None => return Err(CurveError::ArithmeticOverflow),
        }
    } else {
        curve.creator_fees_collected
    };
    let rewards_fees_collected = match curve.rewards_fees_collected.checked_add(
        fees.buyback_burn,
    ) {
        Some(v) => match v.checked_add(fees.community_rewards) {
            Some(w) => w,
            None => return Err(CurveError::ArithmeticOverflow),
        },
        None => return Err(CurveError::ArithmeticOverflow),
    };
    let total_sells = match curve.total_sells.checked_add(1) {
        Some(v) => v,
        None => return Err(CurveError::ArithmeticOverflow),
    };
    curve.set_reentrancy(true);
    curve.supply = curve.supply - amount as u128;
    curve.reserve_balance = curve.reserve_balance - gross_return;
    curve.creator_fees_collected = creator_fees_collected;
    curve.rewards_fees_collected = rewards_fees_collected;
    curve.total_sells = total_sells;
    holder.amount = holder.amount - amount;
    let instant_fee_recipient = match referrer {
        Some(k) => k,
        None => curve.creator,
    };
    Ok(SellSettlement {
        fees,
        instant_fee_recipient,
        event: KeysSoldEvent {
            curve: *curve_key,
            seller: *seller,
            amount,
            payout: fees.to_seller,
            gross_return,
        },
    })
}

/// Transfers and notification of a purchase.
#[derive(Debug, Clone, Copy)]
pub struct BuySettlement {
    /// From the buyer, in order: reserve vault, instant-fee recipient,
    /// buyback, community, platform.
    pub fees: BuyFeeDistribution,
    /// The referrer, or the creator without one.
    pub instant_fee_recipient: Address,
    pub event: KeysPurchasedEvent,
}

/// The bookkeeping of a purchase costing `cost` fits the counters' ranges.
pub open spec fn purchase_fits(c: BondingCurve, amount: u64, cost: int, creator_paid: bool) -> bool {
    let fees = buy_fees_of(cost);
    &&& c.supply + amount <= u128::MAX
    &&& c.reserve_balance + fees.reserve <= u128::MAX
    &&& creator_paid ==> c.creator_fees_collected + fees.instant_fee <= u128::MAX
    &&& c.rewards_fees_collected + fees.buyback_burn + fees.community_rewards <= u128::MAX
    &&& c.total_buys + 1 <= u64::MAX
}

/// The curve after a purchase of `amount` keys costing `cost`.
pub open spec fn curve_after_purchase(
    c: BondingCurve,
    amount: u64,
    cost: int,
    creator_paid: bool,
    new_holders: int,
) -> BondingCurve {
    let fees = buy_fees_of(cost);
    BondingCurve {
        supply: (c.supply + amount) as u128,
        reserve_balance: (c.reserve_balance + fees.reserve) as u128,
        creator_fees_collected: if creator_paid {
            (c.creator_fees_collected + fees.instant_fee) as u128
        } else {
            c.creator_fees_collected
        },
        rewards_fees_collected: (c.rewards_fees_collected + fees.buyback_burn
            + fees.community_rewards) as u128,
        total_buys: (c.total_buys + 1) as u64,
        unique_holders: (c.unique_holders + new_holders) as u32,
        reentrancy_guard: true,
        ..c
    }
}

/// Applies the bookkeeping of a purchase whose price and split are known.
fn record_purchase(
    curve: &mut BondingCurve,
    amount: u64,
    fees: &BuyFeeDistribution,
    creator_paid: bool,
    new_holders: u32,
) -> (r: Result<(), CurveError>)
    requires
        new_holders <= 1,
        *fees == buy_fees_of(fees.total()),
    ensures
        r is Ok <==> (purchase_fits(*old(curve), amount, fees.total(), creator_paid)
            && old(curve).unique_holders + new_holders <= u32::MAX),
        r is Ok ==> *final(curve) == curve_after_purchase(*old(curve), amount, fees.total(), creator_paid, new_holders as int),
        r is Err ==> r->Err_0 == CurveError::ArithmeticOverflow && *final(curve) == *old(curve),
{
    let supply = match curve.supply.checked_add(amount as u128) {
        Some(v) => v,
        None => return Err(CurveError::ArithmeticOverflow),
    };
    let reserve_balance = match curve.reserve_balance.checked_add(fees.reserve) {
        Some(v) => v,
        None => return Err(CurveError::ArithmeticOverflow),
    };
    let creator_fees_collected = if creator_paid {
        match curve.creator_fees_collected.checked_add(fees.instant_fee) {
            Some(v) => v,
            None => return Err(CurveError::ArithmeticOverflow),
        }
    } else {
        curve.creator_fees_collected
    };
    let rewards_fees_collected = match curve.rewards_fees_collected.checked_add(
        fees.buyback_burn,
    ) {
        Some(v) => match v.checked_add(fees.community_rewards) {
            Some(w) => w,
            None => return Err(CurveError::ArithmeticOverflow),
        },
        None => return Err(CurveError::ArithmeticOverflow),
    };
    let total_buys = match curve.total_buys.checked_add(1) {
        Some(v) => v,
        None => return Err(CurveError::ArithmeticOverflow),
    };
    let unique_holders = match curve.unique_holders.checked_add(new_holders) {
        Some(v) => v,
        None => return Err(CurveError::ArithmeticOverflow),
    };
    curve.set_reentrancy(true);
    curve.supply = supply;
    curve.reserve_balance = reserve_balance;
    curve.creator_fees_collected = creator_fees_collected;
    curve.rewards_fees_collected = rewards_fees_collected;
    curve.total_buys = total_buys;
    curve.unique_holders = unique_holders;
    Ok(())
}

/// Why `buy_keys` refuses, checked in this order; `None` when it succeeds.
pub open spec fn buy_keys_error(
    c: BondingCurve,
    h: KeyHolder,
    config: CurveConfig,
    ban_list: BanList,
    buyer: Address,
    amount: u64,
    referrer: Option<Address>,
) -> Option<CurveError> {
    let cost = price_sum(c.supply as int, amount as nat);
    if c.reentrancy_guard {
        Some(CurveError::ReentrancyDetected)
    } else if config.paused {
        Some(CurveError::ProgramPaused)
    } else if c.status != CurveStatus::Active {
        Some(not_trading_error(c.status))
    } else if ban_list.banned(buyer@) {
        Some(CurveError::AccountBanned)
    } else if amount == 0 {
        Some(CurveError::InvalidAmount)
    } else if amount > config.max_purchase {
        Some(CurveError::ExceedsMaxPurchase)
    } else if h.amount + amount > u64::MAX {
        Some(CurveError::ArithmeticOverflow)
    } else if h.amount + amount > max_keys_for_supply(c.supply as int) {
        Some(CurveError::ExceedsMaxKeysPerWallet)
    } else if referrer_error(referrer, buyer) is Some {
        referrer_error(referrer, buyer)
    } else if !buy_cost_defined(c.supply as int, amount as int) || cost * RESERVE_BPS > u128::MAX
        || !purchase_fits(c, amount, cost, referrer is None) || (h.amount == 0
        && c.unique_holders + 1 > u32::MAX) {
        Some(CurveError::ArithmeticOverflow)
    } else {
        None
    }
}

/// The holding after buying `amount` keys: a fresh record when it was empty.
pub open spec fn holder_after_purchase(
    h: KeyHolder,
    curve_key: Address,
    buyer: Address,
    amount: u64,
    now: i64,
) -> KeyHolder {
    if h.amount == 0 {
        KeyHolder { owner: buyer, curve: curve_key, amount, acquired_at: now, is_creator: false }
    } else {
        KeyHolder { amount: (h.amount + amount) as u64, ..h }
    }
}

/// Buys `amount` keys on an active curve, within the per-transaction bound
/// and the per-wallet cap; the instant fee goes to the referrer or the creator.
pub fn buy_keys(
    curve: &mut BondingCurve,
    curve_key: &Address,
    holder: &mut KeyHolder,
    config: &CurveConfig,
    ban_list: &BanList,
    buyer: &Address,
    amount: u64,
    referrer: Option<Address>,
    now: i64,
) -> (r: Result<BuySettlement, CurveError>)
    requires
        old(curve).wf(),
    ensures
        final(curve).wf(),
        ({
            let err = buy_keys_error(*old(curve), *old(holder), *config, *ban_list, *buyer, amount, referrer);
            let cost = price_sum(old(curve).supply as int, amount as nat);
            match r {
                Ok(s) => {
                    &&& err is None
                    &&& *final(curve) == curve_after_purchase(*old(curve), amount, cost, referrer is None, if old(holder).amount == 0 { 1int } else { 0int })
                    &&& *final(holder) == holder_after_purchase(*old(holder), *curve_key, *buyer, amount, now)
                    &&& s.fees == buy_fees_of(cost)
                    &&& s.instant_fee_recipient == (match referrer { Some(k) => k, None => old(curve).creator })
                    &&& s.event == (KeysPurchasedEvent { curve: *curve_key, buyer: *buyer, amount, cost: cost as u128, referrer, instant_fee_paid: buy_fees_of(cost).instant_fee })
                },
                Err(e) => {
                    &&& err == Some(e)
                    &&& *final(curve) == *old(curve)
                    &&& *final(holder) == *old(holder)
                },
            }
        }),
{
    if !curve.check_reentrancy() {
        return Err(CurveError::ReentrancyDetected);
    }
    if config.paused {
        return Err(CurveError::ProgramPaused);
    }
    if curve.status != CurveStatus::Active {
        return Err(
            if curve.status == CurveStatus::Pending {
                CurveError::CurveNotActive
            } else {
                CurveError::TradingDisabled
            },
        );
    }
    if ban_list.is_banned(buyer) {
        return Err(CurveError::AccountBanned);
    }
    curve.validate_amount(amount, config.max_purchase)?;
    curve.validate_key_cap(holder.amount, amount)?;
    check_referrer(&referrer, buyer)?;
    let total_cost = curve.calculate_buy_price(amount)?;
    let fees = calculate_buy_fees(total_cost)?;
    let new_holders: u32 = if holder.amount == 0 {
        1
    } else {
        0
    };
    record_purchase(curve, amount, &fees, referrer.is_none(), new_holders)?;
    if holder.amount == 0 {
        holder.owner = *buyer;
        holder.curve = *curve_key;
        holder.amount = amount;
        holder.acquired_at = now;
        holder.is_creator = false;
    } else {
        holder.amount = holder.amount + amount;
    }
    let instant_fee_recipient = match referrer {
        Some(k) => k,
        None => curve.creator,
    };
    Ok(BuySettlement {
        fees,
        instant_fee_recipient,
        event: KeysPurchasedEvent {
            curve: *curve_key,
            buyer: *buyer,
            amount,
            cost: total_cost,
            referrer,
            instant_fee_paid: fees.instant_fee,
        },
    })
}

/// Why `creator_initial_buy` refuses, checked in this order; `None` when it succeeds.
pub open spec fn creator_initial_buy_error(
    c: BondingCurve,
    config: CurveConfig,
    buyer: Address,
    amount: u64,
    now: i64,
) -> Option<CurveError> {
    let cost = price_sum(c.supply as int, amount as nat);
    if c.reentrancy_guard {
        Some(CurveError::ReentrancyDetected)
    } else if c.creator@ != buyer@ {
        Some(CurveError::Unauthorized)
    } else if c.status != CurveStatus::Pending || c.supply != 0 {
        Some(CurveError::InvalidStatusTransition)
    } else if amount < config.creator_min_buy {
        Some(CurveError::CreatorMinNotMet)
    } else if amount == 0 {
        Some(CurveError::InvalidAmount)
    } else if amount > config.max_purchase {
        Some(CurveError::ExceedsMaxPurchase)
    } else if !buy_cost_defined(c.supply as int, amount as int) || cost * RESERVE_BPS > u128::MAX
        || !purchase_fits(c, amount, cost, true) || c.unique_holders + 1 > u32::MAX
        || now + config.lock_period > i64::MAX || now + config.lock_period < i64::MIN {
        Some(CurveError::ArithmeticOverflow)
    } else {
        None
    }
}

/// The creator's first purchase on a pending curve: at least the configured
/// minimum, locked for the configured period from `now`.
pub fn creator_initial_buy(
    curve: &mut BondingCurve,
    curve_key: &Address,
    config: &CurveConfig,
    buyer: &Address,
    amount: u64,
    now: i64,
) -> (r: Result<(KeyHolder, BuySettlement), CurveError>)
    requires
        old(curve).wf(),
    ensures
        final(curve).wf(),
        ({
            let err = creator_initial_buy_error(*old(curve), *config, *buyer, amount, now);
            let cost = price_sum(old(curve).supply as int, amount as nat);
            match r {
                Ok((h, s)) => {
                    &&& err is None
                    &&& *final(curve) == (BondingCurve {
                        creator_unlock_time: (now + config.lock_period) as i64,
                        ..curve_after_purchase(*old(curve), amount, cost, true, 1)
                    })
                    &&& h == (KeyHolder { owner: *buyer, curve: *curve_key, amount, acquired_at: now, is_creator: true })
                    &&& s.fees == buy_fees_of(cost)
                    &&& s.instant_fee_recipient == old(curve).creator
                    &&& s.event == (KeysPurchasedEvent { curve: *curve_key, buyer: *buyer, amount, cost: cost as u128, referrer: None, instant_fee_paid: buy_fees_of(cost).instant_fee })
                },
                Err(e) => err == Some(e) && *final(curve) == *old(curve),
            }
        }),
{
    if !curve.check_reentrancy() {
        return Err(CurveError::ReentrancyDetected);
    }
    if !bytes32_eq(&curve.creator, buyer) {
        return Err(CurveError::Unauthorized);
    }
    if curve.status != CurveStatus::Pending || curve.supply != 0 {
        return Err(CurveError::InvalidStatusTransition);
    }
    if amount < config.creator_min_buy {
        return Err(CurveError::CreatorMinNotMet);
    }
    curve.validate_amount(amount, config.max_purchase)?;
    let total_cost = curve.calculate_buy_price(amount)?;
    let fees = calculate_buy_fees(total_cost)?;
    let unlock_time = match now.checked_add(config.lock_period) {
        Some(t) => t,
        None => return Err(CurveError::ArithmeticOverflow),
    };
    record_purchase(curve, amount, &fees, true, 1)?;
    curve.creator_unlock_time = unlock_time;
    let holder = KeyHolder {
        owner: *buyer,
        curve: *curve_key,
        amount,
        acquired_at: now,
        is_creator: true,
    };
    let instant_fee_recipient = curve.creator;
    Ok((
        holder,
        BuySettlement {
            fees,
            instant_fee_recipient,
            event: KeysPurchasedEvent {
                curve: *curve_key,
                buyer: *buyer,
                amount,
                cost: total_cost,
                referrer: None,
                instant_fee_paid: fees.instant_fee,
            },
        },
    ))
}

/// Why `activate_curve` refuses, checked in this order; `None` when it succeeds.
pub open spec fn activate_curve_error(c: BondingCurve, signer: Address) -> Option<CurveError> {
    if c.creator@ != signer@ {
        Some(CurveError::Unauthorized)
    } else if c.status != CurveStatus::Pending {
        Some(CurveError::InvalidStatusTransition)
    } else if c.supply == 0 {
        Some(CurveError::CreatorMinNotMet)
    } else {
        None
    }
}

/// Opens a pending curve to public trading once the creator has bought in.
pub fn activate_curve(curve: &mut BondingCurve, signer: &Address, now: i64) -> (r: Result<
    (),
    CurveError,
>)
    requires
        old(curve).wf(),
    ensures
        final(curve).wf(),
        r is Ok <==> activate_curve_error(*old(curve), *signer) is None,
        r is Ok ==> *final(curve) == (BondingCurve {
            status: CurveStatus::Active,
            activated_at: now,
            ..*old(curve)
        }),
        r is Err ==> activate_curve_error(*old(curve), *signer) == Some(r->Err_0) && *final(curve)
            == *old(curve),
{
    if !bytes32_eq(&curve.creator, signer) {
        return Err(CurveError::Unauthorized);
    }
    if curve.status != CurveStatus::Pending {
        return Err(CurveError::InvalidStatusTransition);
    }
    if curve.supply == 0 {
        return Err(CurveError::CreatorMinNotMet);
    }
    curve.status = CurveStatus::Active;
    curve.activated_at = now;
    Ok(())
}

/// Smallest share of the frozen reserve for the initial token buy, in percent.
pub const MIN_INITIAL_BUY_PERCENT: u8 = 20;

/// Largest share of the frozen reserve for the initial token buy, in percent.
pub const MAX_INITIAL_BUY_PERCENT: u8 = 30;

/// Share of the frozen reserve for marketing, in percent.
pub const MARKETING_PERCENT: u128 = 50;

/// The reserve recorded at freeze (zero before any freeze).
pub open spec fn frozen_reserve(c: BondingCurve) -> int {
    match c.reserve_at_freeze {
        Some(r) => r as int,
        None => 0,
    }
}

/// Why `launch` refuses, checked in this order; `None` when it succeeds.
pub open spec fn launch_error(c: BondingCurve, signer: Address, initial_buy_percentage: u8) -> Option<
    CurveError,
> {
    if c.creator@ != signer@ {
        Some(CurveError::Unauthorized)
    } else if c.status == CurveStatus::Launched || c.is_launching || c.launched_at is Some {
        Some(CurveError::AlreadyLaunched)
    } else if c.status != CurveStatus::Frozen {
        Some(CurveError::CurveNotFrozen)
    } else if c.snapshot_root is None {
        Some(CurveError::SnapshotNotCreated)
    } else if initial_buy_percentage < MIN_INITIAL_BUY_PERCENT || initial_buy_percentage
        > MAX_INITIAL_BUY_PERCENT {
        Some(CurveError::InvalidAmount)
    } else if frozen_reserve(c) * MARKETING_PERCENT > u128::MAX {
        Some(CurveError::ArithmeticOverflow)
    } else if c.reserve_balance < frozen_reserve(c) {
        Some(CurveError::InsufficientReserve)
    } else {
        None
    }
}

/// Splits the frozen reserve: the initial-buy share, half for marketing, the
/// rest for utility, and records the launch before any transfer.
pub fn launch(
    curve: &mut BondingCurve,
    curve_key: &Address,
    signer: &Address,
    initial_buy_percentage: u8,
    lp_vault: &Address,
    marketing_wallet: &Address,
    utility_wallet: &Address,
    now: i64,
) -> (r: Result<CurveLaunchedEvent, CurveError>)
    requires
        old(curve).wf(),
    ensures
        final(curve).wf(),
        ({
            let err = launch_error(*old(curve), *signer, initial_buy_percentage);
            let total = frozen_reserve(*old(curve));
            let initial_buy = total * initial_buy_percentage / 100;
            let marketing = total * MARKETING_PERCENT / 100;
            match r {
                Ok(e) => {
                    &&& err is None
                    &&& *final(curve) == (BondingCurve {
                        status: CurveStatus::Launched,
                        launched_at: Some(now),
                        initial_buy_amount: initial_buy as u128,
                        lp_vault: Some(*lp_vault),
                        marketing_wallet: Some(*marketing_wallet),
                        utility_wallet: Some(*utility_wallet),
                        reserve_balance: (old(curve).reserve_balance - total) as u128,
                        is_launching: true,
                        ..*old(curve)
                    })
                    &&& e == (CurveLaunchedEvent {
                        curve_id: *curve_key,
                        token_mint: None,
                        snapshot_root: old(curve).snapshot_root->Some_0,
                        supply_at_launch: old(curve).supply_at_freeze->Some_0,
                        initial_buy_sol: initial_buy as u128,
                        marketing_sol: marketing as u128,
                        utility_sol: (total - initial_buy - marketing) as u128,
                        lp_vault: *lp_vault,
                        marketing_wallet: *marketing_wallet,
                        utility_wallet: *utility_wallet,
                        timestamp: now,
                    })
                },
                Err(e) => err == Some(e) && *final(curve) == *old(curve),
            }
        }),
{
    if !bytes32_eq(&curve.creator, signer) {
        return Err(CurveError::Unauthorized);
    }
    if curve.status == CurveStatus::Launched || curve.is_launching || curve.launched_at.is_some() {
        return Err(CurveError::AlreadyLaunched);
    }
    if curve.status != CurveStatus::Frozen {
        return Err(CurveError::CurveNotFrozen);
    }
    let snapshot_root = match curve.snapshot_root {
        Some(root) => root,
        None => return Err(CurveError::SnapshotNotCreated),
    };
    if initial_buy_percentage < MIN_INITIAL_BUY_PERCENT || initial_buy_percentage
        > MAX_INITIAL_BUY_PERCENT {
        return Err(CurveError::InvalidAmount);
    }
    let total_reserve = match curve.reserve_at_freeze {
        Some(v) => v,
        None => return Err(CurveError::CurveNotFrozen),
    };
    let supply_at_launch = match curve.supply_at_freeze {
        Some(v) => v,
        None => return Err(CurveError::CurveNotFrozen),
    };
    let marketing_sol = match total_reserve.checked_mul(MARKETING_PERCENT) {
        Some(v) => v / 100,
        None => return Err(CurveError::ArithmeticOverflow),
    };
    proof {
        let t = total_reserve as int;
        let p = initial_buy_percentage as int;
        assert(t * p <= t * 50 && t * p / 100 + t * 50 / 100 <= t) by (nonlinear_arith)
            requires
                0 <= t,
                0 <= p <= 30,
        ;
    }
    let initial_buy_sol = total_reserve * initial_buy_percentage as u128 / 100;
    let utility_sol = total_reserve - initial_buy_sol - marketing_sol;
    if curve.reserve_balance < total_reserve {
        return Err(CurveError::InsufficientReserve);
    }
    curve.is_launching = true;
    curve.status = CurveStatus::Launched;
    curve.launched_at = Some(now);
    curve.initial_buy_amount = initial_buy_sol;
    curve.lp_vault = Some(*lp_vault);
    curve.marketing_wallet = Some(*marketing_wallet);
    curve.utility_wallet = Some(*utility_wallet);
    curve.reserve_balance = curve.reserve_balance - total_reserve;
    Ok(CurveLaunchedEvent {
        curve_id: *curve_key,
        token_mint: None,
        snapshot_root,
        supply_at_launch,
        initial_buy_sol,
        marketing_sol,
        utility_sol,
        lp_vault: *lp_vault,
        marketing_wallet: *marketing_wallet,
        utility_wallet: *utility_wallet,
        timestamp: now,
    })
}

/// The notification of freezing `c` (already frozen) at `now`.
pub open spec fn freeze_event(curve_key: Address, c: BondingCurve, trigger: FreezeTrigger, now: i64) -> CurveFrozenEvent {
    CurveFrozenEvent {
        curve_id: curve_key,
        trigger,
        supply: c.supply,
        reserve: c.reserve_balance,
        timestamp: now,
    }
}

fn freeze_with(curve: &mut BondingCurve, curve_key: &Address, trigger: FreezeTrigger, now: i64) -> (r: Result<CurveFrozenEvent, CurveError>)
    requires
        old(curve).wf(),
    ensures
        final(curve).wf(),
        r is Ok <==> freeze_outcome(*old(curve)) is Ok,
        r is Ok ==> *final(curve) == frozen(*old(curve), trigger, now) && r->Ok_0 == freeze_event(*curve_key, *old(curve), trigger, now),
        r is Err ==> freeze_outcome(*old(curve)) == Err::<(), CurveError>(r->Err_0) && *final(curve) == *old(curve),
{
    curve.execute_freeze(trigger, now)?;
    Ok(CurveFrozenEvent {
        curve_id: *curve_key,
        trigger,
        supply: curve.supply,
        reserve: curve.reserve_balance,
        timestamp: now,
    })
}

/// The creator freezes an active curve.
pub fn freeze_manual(curve: &mut BondingCurve, curve_key: &Address, signer: &Address, now: i64) -> (r: Result<CurveFrozenEvent, CurveError>)
    requires
        old(curve).wf(),
    ensures
        final(curve).wf(),
        r is Ok <==> old(curve).creator@ == signer@ && freeze_outcome(*old(curve)) is Ok,
        r is Ok ==> *final(curve) == frozen(*old(curve), FreezeTrigger::Manual, now) && r->Ok_0 == freeze_event(*curve_key, *old(curve), FreezeTrigger::Manual, now),
        r is Err ==> *final(curve) == *old(curve) && r->Err_0 == if old(curve).creator@ != signer@ {
            CurveError::Unauthorized
        } else {
            freeze_outcome(*old(curve))->Err_0
        },
{
    if !bytes32_eq(&curve.creator, signer) {
        return Err(CurveError::Unauthorized);
    }
    freeze_with(curve, curve_key, FreezeTrigger::Manual, now)
}

/// Anyone freezes an active curve whose reserve reached its target.
pub fn freeze_if_reserve(curve: &mut BondingCurve, curve_key: &Address, now: i64) -> (r: Result<CurveFrozenEvent, CurveError>)
    requires
        old(curve).wf(),
    ensures
        final(curve).wf(),
        r is Ok <==> old(curve).reserve_balance >= old(curve).target_reserve && freeze_outcome(*old(curve)) is Ok,
        r is Ok ==> *final(curve) == frozen(*old(curve), FreezeTrigger::ReserveThreshold, now) && r->Ok_0 == freeze_event(*curve_key, *old(curve), FreezeTrigger::ReserveThreshold, now),
        r is Err ==> *final(curve) == *old(curve) && r->Err_0 == if old(curve).reserve_balance < old(curve).target_reserve {
            CurveError::ReserveThresholdNotMet
        } else {
            freeze_outcome(*old(curve))->Err_0
        },
{
    if !curve.is_reserve_threshold_met() {
        return Err(CurveError::ReserveThresholdNotMet);
    }
    freeze_with(curve, curve_key, FreezeTrigger::ReserveThreshold, now)
}

/// Anyone freezes an active curve once its configured launch time has passed.
pub fn freeze_if_time(curve: &mut BondingCurve, curve_key: &Address, now: i64) -> (r: Result<CurveFrozenEvent, CurveError>)
    requires
        old(curve).wf(),
    ensures
        final(curve).wf(),
        r is Ok <==> (old(curve).launch_ts matches Some(t) && now >= t) && freeze_outcome(*old(curve)) is Ok,
        r is Ok ==> *final(curve) == frozen(*old(curve), FreezeTrigger::TimeBased, now) && r->Ok_0 == freeze_event(*curve_key, *old(curve), FreezeTrigger::TimeBased, now),
        r is Err ==> *final(curve) == *old(curve) && r->Err_0 == match old(curve).launch_ts {
            None => CurveError::LaunchTimeNotSet,
            Some(t) => if now < t {
                CurveError::LaunchTimeNotReached
            } else {
                freeze_outcome(*old(curve))->Err_0
            },
        },
{
    if curve.launch_ts.is_none() {
        return Err(CurveError::LaunchTimeNotSet);
    }
    if !curve.is_time_threshold_met(now) {
        return Err(CurveError::LaunchTimeNotReached);
    }
    freeze_with(curve, curve_key, FreezeTrigger::TimeBased, now)
}

/// Why `create_snapshot` refuses, checked in this order; `None` when it succeeds.
pub open spec fn create_snapshot_error(c: BondingCurve, signer: Address) -> Option<CurveError> {
    if c.creator@ != signer@ {
        Some(CurveError::Unauthorized)
    } else if c.status != CurveStatus::Frozen {
        Some(CurveError::CurveNotFrozen)
    } else if c.snapshot_root is Some {
        Some(CurveError::SnapshotAlreadyExists)
    } else {
        None
    }
}

/// Records the Merkle root of all holdings of a frozen curve, exactly once.
pub fn create_snapshot(
    curve: &mut BondingCurve,
    curve_key: &Address,
    snapshot_key: &Address,
    signer: &Address,
    merkle_root: [u8; 32],
    total_holders: u32,
    now: i64,
) -> (r: Result<(Snapshot, SnapshotCreatedEvent), CurveError>)
    requires
        old(curve).wf(),
    ensures
        final(curve).wf(),
        r is Ok <==> create_snapshot_error(*old(curve), *signer) is None,
        r is Ok ==> {
            let (snapshot, event) = r->Ok_0;
            let total_supply = old(curve).supply_at_freeze->Some_0;
            &&& *final(curve) == (BondingCurve { snapshot_root: Some(merkle_root), ..*old(curve) })
            &&& snapshot == (Snapshot {
                curve: *curve_key,
                merkle_root,
                total_supply,
                total_holders,
                total_token_pool: 0,
                created_at: now,
            })
            &&& event == (SnapshotCreatedEvent {
                curve_id: *curve_key,
                snapshot: *snapshot_key,
                merkle_root,
                total_supply,
                total_holders,
                timestamp: now,
            })
        },
        r is Err ==> create_snapshot_error(*old(curve), *signer) == Some(r->Err_0) && *final(curve)
            == *old(curve),
{
    if !bytes32_eq(&curve.creator, signer) {
        return Err(CurveError::Unauthorized);
    }
    if curve.status != CurveStatus::Frozen {
        return Err(CurveError::CurveNotFrozen);
    }
    if curve.snapshot_root.is_some() {
        return Err(CurveError::SnapshotAlreadyExists);
    }
    let total_supply = match curve.supply_at_freeze {
        Some(v) => v,
        None => return Err(CurveError::CurveNotFrozen),
    };
    curve.snapshot_root = Some(merkle_root);
    let snapshot = Snapshot {
        curve: *curve_key,
        merkle_root,
        total_supply,
        total_holders,
        total_token_pool: 0,
        created_at: now,
    };
    let event = SnapshotCreatedEvent {
        curve_id: *curve_key,
        snapshot: *snapshot_key,
        merkle_root,
        total_supply,
        total_holders,
        timestamp: now,
    };
    Ok((snapshot, event))
}

/// A snapshot is taken at most once: after one succeeds, the next attempt on
/// the same curve fails with `SnapshotAlreadyExists`.
pub proof fn lemma_snapshot_taken_once(c: BondingCurve, signer: Address, root: [u8; 32])
    requires
        create_snapshot_error(c, signer) is None,
    ensures
        create_snapshot_error(BondingCurve { snapshot_root: Some(root), ..c }, signer) == Some(
            CurveError::SnapshotAlreadyExists,
        ),
{
}

/// Tokens due to a holder: its share of the pool, rounded down.
pub open spec fn claim_amount(snapshot: Snapshot, holder: KeyHolder) -> int {
    holder.amount * snapshot.total_token_pool / snapshot.total_supply as int
}

/// Why `claim_tokens` refuses, checked in this order; `None` when it succeeds.
pub open spec fn claim_tokens_error(
    snapshot: Snapshot,
    holder: KeyHolder,
    claim_record: Option<ClaimRecord>,
    proof: Seq<[u8; 32]>,
) -> Option<CurveError> {
    if claim_record is Some {
        Some(CurveError::AlreadyClaimed)
    } else if merkle_fold(claim_leaf_of(holder.owner@, holder.amount), proof)
        != snapshot.merkle_root@ {
        Some(CurveError::InvalidMerkleProof)
    } else if snapshot.total_token_pool == 0 {
        Some(CurveError::TokenPoolNotFunded)
    } else if snapshot.total_supply == 0 || claim_amount(snapshot, holder) > u64::MAX {
        Some(CurveError::ArithmeticOverflow)
    } else {
        None
    }
}

/// Pays a holder its share of the token pool on a valid Merkle proof of its
/// recorded holding, and records the claim so it cannot repeat.
pub fn claim_tokens(
    snapshot: &Snapshot,
    snapshot_key: &Address,
    holder: &KeyHolder,
    claim_record: &mut Option<ClaimRecord>,
    proof: &Vec<[u8; 32]>,
    now: i64,
) -> (r: Result<TokensClaimedEvent, CurveError>)
    ensures
        r is Ok <==> claim_tokens_error(*snapshot, *holder, *old(claim_record), proof@) is None,
        r is Ok ==> {
            let amount = claim_amount(*snapshot, *holder) as u64;
            &&& *final(claim_record) == Some(ClaimRecord {
                snapshot: *snapshot_key,
                holder: holder.owner,
                amount_claimed: amount,
                claimed_at: now,
            })
            &&& r->Ok_0 == (TokensClaimedEvent {
                snapshot: *snapshot_key,
                holder: holder.owner,
                keys_held: holder.amount,
                tokens_claimed: amount,
                timestamp: now,
            })
        },
        r is Err ==> claim_tokens_error(*snapshot, *holder, *old(claim_record), proof@) == Some(
            r->Err_0,
        ) && *final(claim_record) == *old(claim_record),
{
    if claim_record.is_some() {
        return Err(CurveError::AlreadyClaimed);
    }
    let leaf = claim_leaf(&holder.owner, holder.amount);
    if !verify_merkle_proof(proof.as_slice(), &snapshot.merkle_root, &leaf) {
        return Err(CurveError::InvalidMerkleProof);
    }
    if snapshot.total_token_pool == 0 {
        return Err(CurveError::TokenPoolNotFunded);
    }
    if snapshot.total_supply == 0 {
        return Err(CurveError::ArithmeticOverflow);
    }
    proof {
        let a = holder.amount as int;
        let p = snapshot.total_token_pool as int;
        assert(a * p <= 0xffff_ffff_ffff_ffff * 0xffff_ffff_ffff_ffff) by (nonlinear_arith)
            requires
                0 <= a <= 0xffff_ffff_ffff_ffff,
                0 <= p <= 0xffff_ffff_ffff_ffff,
        ;
    }
    let share = holder.amount as u128 * snapshot.total_token_pool as u128 / snapshot.total_supply;
    if share > u64::MAX as u128 {
        return Err(CurveError::ArithmeticOverflow);
    }
    let token_amount = share as u64;
    *claim_record = Some(
        ClaimRecord {
            snapshot: *snapshot_key,
            holder: holder.owner,
            amount_claimed: token_amount,
            claimed_at: now,
        },
    );
    Ok(
        TokensClaimedEvent {
            snapshot: *snapshot_key,
            holder: holder.owner,
            keys_held: holder.amount,
            tokens_claimed: token_amount,
            timestamp: now,
        },
    )
}

/// A holder claims at most once: after a claim succeeds, the next one on the
/// same record fails with `AlreadyClaimed`.
pub proof fn lemma_claimed_once(
    snapshot: Snapshot,
    holder: KeyHolder,
    record: ClaimRecord,
    proof: Seq<[u8; 32]>,
)
    ensures
        claim_tokens_error(snapshot, holder, Some(record), proof) == Some(
            CurveError::AlreadyClaimed,
        ),
{
}

/// Default per-transaction key maximum.
pub const MAX_PURCHASE_DEFAULT: u64 = 100;

/// Default minimum for the creator's first purchase.
pub const CREATOR_MIN_BUY_PROFILE: u64 = 10;

/// Default creator lock: seven days, in seconds.
pub const LOCK_PERIOD_SECONDS: i64 = 604800;

/// Default reserve at which a curve may be frozen: 32 SOL.
pub const TARGET_RESERVE_DEFAULT: u64 = 32_000_000_000;

/// Longest accepted handle, in bytes.
pub const MAX_HANDLE_LEN: usize = 32;

/// The program configuration as first created by `authority`.
pub open spec fn initial_config(
    authority: Address,
    platform_treasury: Address,
    buyback_wallet: Address,
    community_wallet: Address,
) -> CurveConfig {
    CurveConfig {
        authority,
        platform_treasury,
        buyback_wallet,
        community_wallet,
        max_purchase: MAX_PURCHASE_DEFAULT,
        creator_min_buy: CREATOR_MIN_BUY_PROFILE,
        lock_period: LOCK_PERIOD_SECONDS,
        target_reserve_default: TARGET_RESERVE_DEFAULT,
        paused: false,
    }
}

/// Creates the program configuration with its default limits, unpaused.
pub fn initialize(
    authority: Address,
    platform_treasury: Address,
    buyback_wallet: Address,
    community_wallet: Address,
) -> (r: CurveConfig)
    ensures
        r == initial_config(authority, platform_treasury, buyback_wallet, community_wallet),
{
    CurveConfig {
        authority,
        platform_treasury,
        buyback_wallet,
        community_wallet,
        max_purchase: MAX_PURCHASE_DEFAULT,
        creator_min_buy: CREATOR_MIN_BUY_PROFILE,
        lock_period: LOCK_PERIOD_SECONDS,
        target_reserve_default: TARGET_RESERVE_DEFAULT,
        paused: false,
    }
}

/// Creates an empty ban list administered by `authority`.
pub fn initialize_ban_list(authority: Address) -> (r: BanList)
    ensures
        r.authority == authority,
        r.banned_accounts@.len() == 0,
{
    BanList { authority, banned_accounts: Vec::new() }
}

/// A fresh curve: pending, empty, with the configuration's wallets and target.
pub open spec fn new_curve(
    config: CurveConfig,
    creator: Address,
    twitter_handle: String,
    curve_type: CurveType,
    launch_ts: Option<i64>,
    now: i64,
) -> BondingCurve {
    BondingCurve {
        creator,
        twitter_handle,
        curve_type,
        status: CurveStatus::Pending,
        supply: 0,
        reserve_balance: 0,
        unique_holders: 0,
        created_at: now,
        activated_at: 0,
        creator_unlock_time: 0,
        launch_ts,
        target_reserve: config.target_reserve_default,
        freeze_ts: None,
        freeze_trigger: None,
        supply_at_freeze: None,
        reserve_at_freeze: None,
        snapshot_root: None,
        token_mint: None,
        lp_vault: None,
        marketing_wallet: None,
        utility_wallet: None,
        launched_at: None,
        initial_buy_amount: 0,
        is_launching: false,
        creator_fees_collected: 0,
        rewards_fees_collected: 0,
        total_buys: 0,
        total_sells: 0,
        platform_treasury: config.platform_treasury,
        buyback_wallet: config.buyback_wallet,
        community_wallet: config.community_wallet,
        reentrancy_guard: false,
    }
}

/// Length of a handle in UTF-8 bytes, as `str::len` reports it.
pub open spec fn handle_byte_len(handle: Seq<char>) -> usize {
    encode_utf8(handle).len() as usize
}

/// Creates a pending curve for a non-banned creator whose handle is 1 to 32 bytes.
pub fn create_curve(
    config: &CurveConfig,
    ban_list: &BanList,
    creator: &Address,
    twitter_handle: String,
    curve_type: CurveType,
    launch_ts: Option<i64>,
    now: i64,
) -> (r: Result<BondingCurve, CurveError>)
    ensures
        r == if handle_byte_len(twitter_handle@) == 0 || handle_byte_len(twitter_handle@)
            > MAX_HANDLE_LEN {
            Err::<BondingCurve, CurveError>(CurveError::InvalidAmount)
        } else if ban_list.banned(creator@) {
            Err::<BondingCurve, CurveError>(CurveError::AccountBanned)
        } else {
            Ok::<BondingCurve, CurveError>(
                new_curve(*config, *creator, twitter_handle, curve_type, launch_ts, now),
            )
        },
        r is Ok ==> r->Ok_0.wf(),
{
    let handle_len = twitter_handle.as_str().len();
    if handle_len == 0 || handle_len > MAX_HANDLE_LEN {
        return Err(CurveError::InvalidAmount);
    }
    if ban_list.is_banned(creator) {
        return Err(CurveError::AccountBanned);
    }
    Ok(
        BondingCurve {
            creator: *creator,
            twitter_handle,
            curve_type,
            status: CurveStatus::Pending,
            supply: 0,
            reserve_balance: 0,
            unique_holders: 0,
            created_at: now,
            activated_at: 0,
            creator_unlock_time: 0,
            launch_ts,
            target_reserve: config.target_reserve_default,
            freeze_ts: None,
            freeze_trigger: None,
            supply_at_freeze: None,
            reserve_at_freeze: None,
            snapshot_root: None,
            token_mint: None,
            lp_vault: None,
            marketing_wallet: None,
            utility_wallet: None,
            launched_at: None,
            initial_buy_amount: 0,
            is_launching: false,
            creator_fees_collected: 0,
            rewards_fees_collected: 0,
            total_buys: 0,
            total_sells: 0,
            platform_treasury: config.platform_treasury,
            buyback_wallet: config.buyback_wallet,
            community_wallet: config.community_wallet,
            reentrancy_guard: false,
        },
    )
}

/// A report of suspected bot activity; advisory only.
#[derive(Debug, Clone, Copy)]
pub struct BotReport {
    pub reporter: Address,
    pub reported_account: Address,
}

/// Files a bot report; changes no state.
pub fn report_bot(reporter: &Address, reported_account: &Address) -> (r: BotReport)
    ensures
        r == (BotReport { reporter: *reporter, reported_account: *reported_account }),
{
    BotReport { reporter: *reporter, reported_account: *reported_account }
}

/// The authority appends `account` to the ban list; banning twice changes nothing.
pub fn ban_account(ban_list: &mut BanList, signer: &Address, account: &Address) -> (r: Result<
    (),
    CurveError,
>)
    ensures
        final(ban_list).authority == old(ban_list).authority,
        r == if old(ban_list).authority@ != signer@ {
            Err::<(), CurveError>(CurveError::Unauthorized)
        } else if old(ban_list).banned(account@) {
            Ok::<(), CurveError>(())
        } else if old(ban_list).banned_accounts@.len() >= MAX_BANS {
            Err::<(), CurveError>(CurveError::BanListFull)
        } else {
            Ok::<(), CurveError>(())
        },
        final(ban_list).banned_accounts@ == if r is Ok && !old(ban_list).banned(account@) {
            old(ban_list).banned_accounts@.push(*account)
        } else {
            old(ban_list).banned_accounts@
        },
        final(ban_list).banned(account@) <==> (r is Ok || old(ban_list).banned(account@)),
{
    if !bytes32_eq(&ban_list.authority, signer) {
        return Err(CurveError::Unauthorized);
    }
    if ban_list.is_banned(account) {
        return Ok(());
    }
    if ban_list.banned_accounts.len() >= MAX_BANS {
        return Err(CurveError::BanListFull);
    }
    ban_list.banned_accounts.push(*account);
    proof {
        let n = old(ban_list).banned_accounts@.len() as int;
        assert(ban_list.banned_accounts@[n]@ == account@);
    }
    Ok(())
}

/// The authority pauses purchases.
pub fn pause(config: &mut CurveConfig, signer: &Address) -> (r: Result<(), CurveError>)
    ensures
        r is Ok <==> old(config).authority@ == signer@,
        r is Err ==> r->Err_0 == CurveError::Unauthorized && *final(config) == *old(config),
        r is Ok ==> *final(config) == (CurveConfig { paused: true, ..*old(config) }),
{
    if !bytes32_eq(&config.authority, signer) {
        return Err(CurveError::Unauthorized);
    }
    config.paused = true;
    Ok(())
}

/// The authority resumes purchases.
pub fn unpause(config: &mut CurveConfig, signer: &Address) -> (r: Result<(), CurveError>)
    ensures
        r is Ok <==> old(config).authority@ == signer@,
        r is Err ==> r->Err_0 == CurveError::Unauthorized && *final(config) == *old(config),
        r is Ok ==> *final(config) == (CurveConfig { paused: false, ..*old(config) }),
{
    if !bytes32_eq(&config.authority, signer) {
        return Err(CurveError::Unauthorized);
    }
    config.paused = false;
    Ok(())
}

/// A fresh curve is pending: purchases fail as not active, and activation
/// fails until the creator has bought in.
pub proof fn lemma_fresh_curve_gates(
    config: CurveConfig,
    ban_list: BanList,
    creator: Address,
    twitter_handle: String,
    curve_type: CurveType,
    launch_ts: Option<i64>,
    now: i64,
    holder: KeyHolder,
    buyer: Address,
    amount: u64,
    referrer: Option<Address>,
)
    requires
        !config.paused,
    ensures
        ({
            let c = new_curve(config, creator, twitter_handle, curve_type, launch_ts, now);
            &&& c.status == CurveStatus::Pending
            &&& buy_keys_error(c, holder, config, ban_list, buyer, amount, referrer) == Some(
                CurveError::CurveNotActive,
            )
            &&& activate_curve_error(c, creator) == Some(CurveError::CreatorMinNotMet)
        }),
{
}

/// The creator's holding cannot be sold before its unlock time, and the lock
/// is the only thing that stops it once the checks before it pass.
pub proof fn lemma_creator_lock(
    c: BondingCurve,
    h: KeyHolder,
    ban_list: BanList,
    seller: Address,
    amount: u64,
    referrer: Option<Address>,
    now: i64,
)
    requires
        h.is_creator,
        !c.reentrancy_guard,
        c.status == CurveStatus::Active,
        !ban_list.banned(seller@),
        0 < amount <= h.amount,
    ensures
        now < c.creator_unlock_time ==> sell_keys_error(c, h, ban_list, seller, amount, referrer, now)
            == Some(CurveError::KeysLocked),
        now >= c.creator_unlock_time ==> sell_keys_error(c, h, ban_list, seller, amount, referrer, now)
            != Some(CurveError::KeysLocked),
{
}

} // verus!
