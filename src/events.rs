//! Notifications each state change hands to off-chain observers.
use vstd::prelude::*;
use crate::state::{Address, FreezeTrigger};

verus! {

/// A curve was frozen.
#[derive(Debug, Clone, Copy)]
pub struct CurveFrozenEvent {
    pub curve_id: Address,
    pub trigger: FreezeTrigger,
    pub supply: u128,
    pub reserve: u128,
    pub timestamp: i64,
}

/// A snapshot root was recorded.
#[derive(Debug, Clone, Copy)]
pub struct SnapshotCreatedEvent {
    pub curve_id: Address,
    pub snapshot: Address,
    pub merkle_root: [u8; 32],
    pub total_supply: u128,
    pub total_holders: u32,
    pub timestamp: i64,
}

/// A curve launched: everything the off-chain launcher needs.
#[derive(Debug, Clone, Copy)]
pub struct CurveLaunchedEvent {
    pub curve_id: Address,
    pub token_mint: Option<Address>,
    pub snapshot_root: [u8; 32],
    pub supply_at_launch: u128,
    pub initial_buy_sol: u128,
    pub marketing_sol: u128,
    pub utility_sol: u128,
    pub lp_vault: Address,
    pub marketing_wallet: Address,
    pub utility_wallet: Address,
    pub timestamp: i64,
}

/// Keys were bought.
#[derive(Debug, Clone, Copy)]
pub struct KeysPurchasedEvent {
    pub curve: Address,
    pub buyer: Address,
    pub amount: u64,
    pub cost: u128,
    pub referrer: Option<Address>,
    /// Paid to the referrer, or to the creator without one.
    pub instant_fee_paid: u128,
}

/// Keys were sold.
#[derive(Debug, Clone, Copy)]
pub struct KeysSoldEvent {
    pub curve: Address,
    pub seller: Address,
    pub amount: u64,
    /// Paid to the seller after fees.
    pub payout: u128,
    /// Taken from the reserve, before fees.
    pub gross_return: u128,
}

/// A holder claimed tokens.
#[derive(Debug, Clone, Copy)]
pub struct TokensClaimedEvent {
    pub snapshot: Address,
    pub holder: Address,
    pub keys_held: u64,
    pub tokens_claimed: u64,
    pub timestamp: i64,
}

} // verus!
