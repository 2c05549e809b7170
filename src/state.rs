//! Persisted records of the curve program and the checks they answer.
use vstd::prelude::*;
use crate::errors::CurveError;
use crate::math::{buy_cost_defined, calculate_buy_cost, calculate_sell_return, price_sum, sell_return_outcome};
use crate::merkle::bytes32_eq;

verus! {

/// A 32-byte account address.
pub type Address = [u8; 32];

/// The all-zero address, which no referrer may use.
pub open spec fn default_address() -> Seq<u8> {
    Seq::new(32, |_i: int| 0u8)
}

/// Whether `a` is the all-zero address.
pub fn is_default_address(a: &Address) -> (r: bool)
    ensures
        r == (a@ == default_address()),
{
    let mut i: usize = 0;
    while i < 32
        invariant
            i <= 32,
            a@.len() == 32,
            forall|j: int| 0 <= j < i ==> a@[j] == 0u8,
        decreases 32 - i,
    {
        if a[i] != 0 {
            assert(a@[i as int] != default_address()[i as int]);
            return false;
        }
        i = i + 1;
    }
    assert(a@ =~= default_address());
    true
}

/// Smallest per-wallet key cap.
pub const MIN_KEYS_PER_WALLET: u64 = 20;

/// Largest per-wallet key cap.
pub const MAX_KEYS_PER_WALLET: u64 = 100;

/// Capacity of the ban list.
pub const MAX_BANS: usize = 1000;

/// Lifecycle of a curve; transitions only move forward.
#[derive(Debug, Clone, Copy, PartialEq, Eq, Structural)]
pub enum CurveStatus {
    /// Created, hidden from public trading; only the creator acts.
    Pending,
    /// Public buying and selling.
    Active,
    /// Trading stopped; supply and reserve are fixed for the snapshot.
    Frozen,
    /// Terminal: the frozen reserve has been split and paid out.
    Launched,
}

/// Kind of curve owner.
#[derive(Debug, Clone, Copy, PartialEq, Eq, Structural)]
pub enum CurveType {
    /// An individual creator profile.
    Profile,
    /// A project or company.
    Project,
}

/// What caused a freeze.
#[derive(Debug, Clone, Copy, PartialEq, Eq, Structural)]
pub enum FreezeTrigger {
    /// The creator froze the curve.
    Manual,
    /// The reserve reached the curve's target.
    ReserveThreshold,
    /// The configured launch time passed.
    TimeBased,
}

/// One bonding curve, addressed by its creator's handle.
#[derive(Debug, Clone)]
pub struct BondingCurve {
    pub creator: Address,
    pub twitter_handle: String,
    pub curve_type: CurveType,
    pub status: CurveStatus,
    /// Keys in circulation.
    pub supply: u128,
    /// Lamports held in the reserve vault for redemptions.
    pub reserve_balance: u128,
    pub unique_holders: u32,
    pub created_at: i64,
    pub activated_at: i64,
    /// Until this time the creator's keys cannot be sold.
    pub creator_unlock_time: i64,
    /// Optional time from which anyone may freeze the curve.
    pub launch_ts: Option<i64>,
    /// Reserve from which anyone may freeze the curve.
    pub target_reserve: u64,
    pub freeze_ts: Option<i64>,
    pub freeze_trigger: Option<FreezeTrigger>,
    pub supply_at_freeze: Option<u128>,
    pub reserve_at_freeze: Option<u128>,
    pub snapshot_root: Option<[u8; 32]>,
    pub token_mint: Option<Address>,
    pub lp_vault: Option<Address>,
    pub marketing_wallet: Option<Address>,
    pub utility_wallet: Option<Address>,
    pub launched_at: Option<i64>,
    pub initial_buy_amount: u128,
    /// Latch against a second launch.
    pub is_launching: bool,
    pub creator_fees_collected: u128,
    pub rewards_fees_collected: u128,
    pub total_buys: u64,
    pub total_sells: u64,
    pub platform_treasury: Address,
    pub buyback_wallet: Address,
    pub community_wallet: Address,
    /// Set while a fund-moving operation has transfers outstanding.
    pub reentrancy_guard: bool,
}

/// Per-wallet cap: 1% of supply, clamped to `[20, 100]`.
pub open spec fn max_keys_for_supply(supply: int) -> int {
    let one_percent = supply / 100;
    if one_percent < MIN_KEYS_PER_WALLET {
        MIN_KEYS_PER_WALLET as int
    } else if one_percent > MAX_KEYS_PER_WALLET {
        MAX_KEYS_PER_WALLET as int
    } else {
        one_percent
    }
}

impl BondingCurve {
    /// The lifecycle invariant: freeze data exists exactly once frozen,
    /// a snapshot only after the freeze, launch data exactly once launched.
    pub open spec fn wf(&self) -> bool {
        let frozen_or_later = self.status == CurveStatus::Frozen || self.status
            == CurveStatus::Launched;
        &&& self.freeze_ts is Some <==> frozen_or_later
        &&& self.freeze_trigger is Some <==> frozen_or_later
        &&& self.supply_at_freeze is Some <==> frozen_or_later
        &&& self.reserve_at_freeze is Some <==> frozen_or_later
        &&& self.snapshot_root is Some ==> frozen_or_later
        &&& self.status == CurveStatus::Launched ==> self.snapshot_root is Some
        &&& self.launched_at is Some <==> self.status == CurveStatus::Launched
        &&& self.is_launching <==> self.status == CurveStatus::Launched
    }

    /// Checks the lifecycle invariant at run time, for records read from storage.
    pub fn is_well_formed(&self) -> (r: bool)
        ensures
            r == self.wf(),
    {
        let frozen_or_later = self.status == CurveStatus::Frozen || self.status
            == CurveStatus::Launched;
        self.freeze_ts.is_some() == frozen_or_later && self.freeze_trigger.is_some()
            == frozen_or_later && self.supply_at_freeze.is_some() == frozen_or_later
            && self.reserve_at_freeze.is_some() == frozen_or_later && (self.snapshot_root.is_none()
            || frozen_or_later) && (self.status != CurveStatus::Launched
            || self.snapshot_root.is_some()) && self.launched_at.is_some() == (self.status
            == CurveStatus::Launched) && self.is_launching == (self.status
            == CurveStatus::Launched)
    }

    /// True when no fund-moving operation is in flight.
    pub fn check_reentrancy(&self) -> (r: bool)
        ensures
            r == !self.reentrancy_guard,
    {
        !self.reentrancy_guard
    }

    /// Sets or clears the reentrancy guard.
    pub fn set_reentrancy(&mut self, value: bool)
        ensures
            *final(self) == (BondingCurve { reentrancy_guard: value, ..*old(self) }),
    {
        self.reentrancy_guard = value;
    }

    /// Cost of buying `amount` keys at the current supply.
    pub fn calculate_buy_price(&self, amount: u64) -> (r: Result<u128, CurveError>)
        ensures
            r is Ok <==> buy_cost_defined(self.supply as int, amount as int),
            r is Ok ==> r->Ok_0 == price_sum(self.supply as int, amount as nat),
            r is Err ==> r->Err_0 == CurveError::ArithmeticOverflow,
    {
        calculate_buy_cost(self.supply, amount)
    }

    /// Net return of selling `amount` keys at the current supply.
    pub fn calculate_sell_price(&self, amount: u64) -> (r: Result<u128, CurveError>)
        ensures
            r == sell_return_outcome(self.supply as int, amount as int),
    {
        calculate_sell_return(self.supply, amount)
    }

    /// A trade amount must be positive and within the per-transaction maximum.
    pub fn validate_amount(&self, amount: u64, max_purchase: u64) -> (r: Result<(), CurveError>)
        ensures
            r == if amount == 0 {
                Err::<(), CurveError>(CurveError::InvalidAmount)
            } else if amount > max_purchase {
                Err::<(), CurveError>(CurveError::ExceedsMaxPurchase)
            } else {
                Ok::<(), CurveError>(())
            },
    {
        if amount == 0 {
            return Err(CurveError::InvalidAmount);
        }
        if amount > max_purchase {
            return Err(CurveError::ExceedsMaxPurchase);
        }
        Ok(())
    }

    /// A holding plus a purchase must stay within the per-wallet cap.
    pub fn validate_key_cap(&self, holder_amount: u64, purchase_amount: u64) -> (r: Result<
        (),
        CurveError,
    >)
        ensures
            r == if holder_amount + purchase_amount > u64::MAX {
                Err::<(), CurveError>(CurveError::ArithmeticOverflow)
            } else if holder_amount + purchase_amount > max_keys_for_supply(self.supply as int) {
                Err::<(), CurveError>(CurveError::ExceedsMaxKeysPerWallet)
            } else {
                Ok::<(), CurveError>(())
            },
    {
        let max_keys = self.get_max_keys_per_wallet();
        let new_total = match holder_amount.checked_add(purchase_amount) {
            Some(v) => v,
            None => return Err(CurveError::ArithmeticOverflow),
        };
        if new_total > max_keys {
            return Err(CurveError::ExceedsMaxKeysPerWallet);
        }
        Ok(())
    }

    /// Keys one wallet may hold: 1% of supply, at least 20, at most 100.
    pub fn get_max_keys_per_wallet(&self) -> (r: u64)
        ensures
            r == max_keys_for_supply(self.supply as int),
    {
        let one_percent = self.supply / 100;
        if one_percent < MIN_KEYS_PER_WALLET as u128 {
            MIN_KEYS_PER_WALLET
        } else if one_percent > MAX_KEYS_PER_WALLET as u128 {
            MAX_KEYS_PER_WALLET
        } else {
            one_percent as u64
        }
    }

    /// Whether the creator's keys are still locked at `current_time`.
    pub fn are_keys_locked(&self, current_time: i64) -> (r: bool)
        ensures
            r == (current_time < self.creator_unlock_time),
    {
        current_time < self.creator_unlock_time
    }

    /// Only an active, never-frozen curve can freeze.
    pub fn can_freeze(&self) -> (r: bool)
        ensures
            r == (self.status == CurveStatus::Active && self.freeze_ts is None),
    {
        self.status == CurveStatus::Active && self.freeze_ts.is_none()
    }

    /// Whether the reserve has reached the freeze target.
    pub fn is_reserve_threshold_met(&self) -> (r: bool)
        ensures
            r == (self.reserve_balance >= self.target_reserve),
    {
        self.reserve_balance >= self.target_reserve as u128
    }

    /// Whether a configured launch time has passed at `current_time`.
    pub fn is_time_threshold_met(&self, current_time: i64) -> (r: bool)
        ensures
            r == (self.launch_ts matches Some(t) && current_time >= t),
    {
        match self.launch_ts {
            Some(launch_ts) => current_time >= launch_ts,
            None => false,
        }
    }

    /// Freezes an active curve, recording supply and reserve at this moment.
    pub fn execute_freeze(&mut self, trigger: FreezeTrigger, current_time: i64) -> (r: Result<
        (),
        CurveError,
    >)
        requires
            old(self).wf(),
        ensures
            final(self).wf(),
            r == freeze_outcome(*old(self)),
            r is Ok ==> *final(self) == frozen(*old(self), trigger, current_time),
            r is Err ==> *final(self) == *old(self),
    {
        if self.status == CurveStatus::Pending {
            return Err(CurveError::CurveNotActive);
        }
        if !self.can_freeze() {
            return Err(CurveError::AlreadyFrozen);
        }
        self.status = CurveStatus::Frozen;
        self.freeze_ts = Some(current_time);
        self.freeze_trigger = Some(trigger);
        self.supply_at_freeze = Some(self.supply);
        self.reserve_at_freeze = Some(self.reserve_balance);
        Ok(())
    }

    /// Whether the curve is frozen, has a snapshot, and has not launched.
    pub fn can_launch(&self) -> (r: bool)
        ensures
            r == (self.status == CurveStatus::Frozen && self.snapshot_root is Some
                && !self.is_launching && self.launched_at is None),
    {
        self.status == CurveStatus::Frozen && self.snapshot_root.is_some() && !self.is_launching
            && self.launched_at.is_none()
    }
}

/// Whether a freeze of `c` succeeds, and why not.
pub open spec fn freeze_outcome(c: BondingCurve) -> Result<(), CurveError> {
    if c.status == CurveStatus::Pending {
        Err(CurveError::CurveNotActive)
    } else if !(c.status == CurveStatus::Active && c.freeze_ts is None) {
        Err(CurveError::AlreadyFrozen)
    } else {
        Ok(())
    }
}

/// `c` after freezing at `now`.
pub open spec fn frozen(c: BondingCurve, trigger: FreezeTrigger, now: i64) -> BondingCurve {
    BondingCurve {
        status: CurveStatus::Frozen,
        freeze_ts: Some(now),
        freeze_trigger: Some(trigger),
        supply_at_freeze: Some(c.supply),
        reserve_at_freeze: Some(c.reserve_balance),
        ..c
    }
}

/// A wallet's keys on one curve.
#[derive(Debug, Clone, Copy)]
pub struct KeyHolder {
    pub owner: Address,
    pub curve: Address,
    pub amount: u64,
    pub acquired_at: i64,
    /// The creator's holding, subject to the lock.
    pub is_creator: bool,
}

/// Program-wide settings, mutated only by the authority.
#[derive(Debug, Clone, Copy)]
pub struct CurveConfig {
    pub authority: Address,
    pub platform_treasury: Address,
    pub buyback_wallet: Address,
    pub community_wallet: Address,
    /// Most keys per transaction.
    pub max_purchase: u64,
    /// Fewest keys the creator's first purchase may buy.
    pub creator_min_buy: u64,
    /// Seconds the creator's keys stay locked.
    pub lock_period: i64,
    pub target_reserve_default: u64,
    pub paused: bool,
}

/// Addresses banned for bot activity; append-only.
#[derive(Debug, Clone)]
pub struct BanList {
    pub authority: Address,
    pub banned_accounts: Vec<Address>,
}

impl BanList {
    /// Whether `account` is on the list.
    pub open spec fn banned(&self, account: Seq<u8>) -> bool {
        exists|i: int| 0 <= i < self.banned_accounts@.len() && #[trigger] self.banned_accounts@[i]@ == account
    }

    /// Whether `account` is on the list.
    pub fn is_banned(&self, account: &Address) -> (r: bool)
        ensures
            r == self.banned(account@),
    {
        let mut i: usize = 0;
        while i < self.banned_accounts.len()
            invariant
                i <= self.banned_accounts@.len(),
                forall|j: int| 0 <= j < i ==> #[trigger] self.banned_accounts@[j]@ != account@,
            decreases self.banned_accounts@.len() - i,
        {
            if bytes32_eq(&self.banned_accounts[i], account) {
                return true;
            }
            i = i + 1;
        }
        false
    }
}

/// The Merkle commitment to all holdings of a frozen curve.
#[derive(Debug, Clone, Copy)]
pub struct Snapshot {
    pub curve: Address,
    pub merkle_root: [u8; 32],
    /// Supply at freeze.
    pub total_supply: u128,
    pub total_holders: u32,
    /// Tokens available to claimants; zero until funded after launch.
    pub total_token_pool: u64,
    pub created_at: i64,
}

/// Proof that a holder has claimed from a snapshot.
#[derive(Debug, Clone, Copy)]
pub struct ClaimRecord {
    pub snapshot: Address,
    pub holder: Address,
    pub amount_claimed: u64,
    pub claimed_at: i64,
}

} // verus!
