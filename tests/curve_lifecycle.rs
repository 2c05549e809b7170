use launchos::errors::CurveError;
use launchos::instructions::{
    activate_curve, ban_account, buy_keys, claim_tokens, create_curve, create_snapshot,
    creator_initial_buy, freeze_if_reserve, freeze_if_time, freeze_manual, initialize,
    initialize_ban_list, launch, pause, report_bot, sell_keys, unpause,
};
use launchos::math::{calculate_buy_cost, calculate_buy_fees};
use launchos::merkle::claim_leaf;
use launchos::state::{
    Address, BanList, BondingCurve, CurveConfig, CurveStatus, CurveType, FreezeTrigger, KeyHolder,
};

const NOW: i64 = 1_700_000_000;
const WEEK: i64 = 604_800;

fn addr(b: u8) -> Address {
    [b; 32]
}

fn creator() -> Address {
    addr(1)
}

fn curve_key() -> Address {
    addr(2)
}

fn setup() -> (CurveConfig, BanList, BondingCurve) {
    let config = initialize(addr(9), addr(10), addr(11), addr(12));
    let ban_list = initialize_ban_list(addr(9));
    let curve = create_curve(
        &config,
        &ban_list,
        &creator(),
        "launch_creator".to_string(),
        CurveType::Profile,
        None,
        NOW,
    )
    .unwrap();
    (config, ban_list, curve)
}

fn empty_holder() -> KeyHolder {
    KeyHolder { owner: [0; 32], curve: [0; 32], amount: 0, acquired_at: 0, is_creator: false }
}

/// A curve whose creator bought `amount` keys and which is now active.
fn active_curve(amount: u64) -> (CurveConfig, BanList, BondingCurve, KeyHolder) {
    let (config, ban_list, mut curve) = setup();
    let (holder, _) =
        creator_initial_buy(&mut curve, &curve_key(), &config, &creator(), amount, NOW).unwrap();
    curve.set_reentrancy(false);
    activate_curve(&mut curve, &creator(), NOW).unwrap();
    (config, ban_list, curve, holder)
}

#[test]
fn fresh_curve_is_pending_with_config_defaults() {
    let (config, _, curve) = setup();
    assert_eq!(curve.status, CurveStatus::Pending);
    assert_eq!(curve.supply, 0);
    assert_eq!(curve.reserve_balance, 0);
    assert_eq!(curve.target_reserve, 32_000_000_000);
    assert_eq!(curve.platform_treasury, config.platform_treasury);
    assert!(!curve.reentrancy_guard);
    assert_eq!(config.max_purchase, 100);
    assert_eq!(config.creator_min_buy, 10);
    assert_eq!(config.lock_period, WEEK);
}

#[test]
fn buy_before_activation_fails_not_active() {
    let (config, ban_list, mut curve) = setup();
    let mut holder = empty_holder();
    let r = buy_keys(&mut curve, &curve_key(), &mut holder, &config, &ban_list, &addr(5), 1, None, NOW);
    assert_eq!(r.unwrap_err(), CurveError::CurveNotActive);
    assert_eq!(holder.amount, 0);
    assert_eq!(curve.supply, 0);
}

#[test]
fn activate_before_creator_buy_fails_min_not_met() {
    let (_, _, mut curve) = setup();
    assert_eq!(activate_curve(&mut curve, &creator(), NOW), Err(CurveError::CreatorMinNotMet));
    assert_eq!(curve.status, CurveStatus::Pending);
}

#[test]
fn activation_only_by_creator() {
    let (config, _, mut curve) = setup();
    creator_initial_buy(&mut curve, &curve_key(), &config, &creator(), 10, NOW).unwrap();
    curve.set_reentrancy(false);
    assert_eq!(activate_curve(&mut curve, &addr(5), NOW), Err(CurveError::Unauthorized));
    activate_curve(&mut curve, &creator(), NOW + 5).unwrap();
    assert_eq!(curve.status, CurveStatus::Active);
    assert_eq!(curve.activated_at, NOW + 5);
    assert_eq!(
        activate_curve(&mut curve, &creator(), NOW),
        Err(CurveError::InvalidStatusTransition)
    );
}

#[test]
fn creator_initial_buy_books_before_transfers() {
    let (config, _, mut curve) = setup();
    let cost = calculate_buy_cost(0, 10).unwrap();
    let fees = calculate_buy_fees(cost).unwrap();
    let (holder, settlement) =
        creator_initial_buy(&mut curve, &curve_key(), &config, &creator(), 10, NOW).unwrap();
    assert_eq!(curve.supply, 10);
    assert_eq!(curve.reserve_balance, fees.reserve);
    assert_eq!(curve.creator_fees_collected, fees.instant_fee);
    assert_eq!(curve.rewards_fees_collected, fees.buyback_burn + fees.community_rewards);
    assert_eq!(curve.total_buys, 1);
    assert_eq!(curve.unique_holders, 1);
    assert_eq!(curve.creator_unlock_time, NOW + WEEK);
    assert!(curve.reentrancy_guard);
    assert!(holder.is_creator);
    assert_eq!(holder.amount, 10);
    assert_eq!(settlement.instant_fee_recipient, creator());
    assert_eq!(settlement.event.cost, cost);
    assert_eq!(settlement.fees.reserve, fees.reserve);
}

#[test]
fn creator_initial_buy_guards() {
    let (config, _, mut curve) = setup();
    assert_eq!(
        creator_initial_buy(&mut curve, &curve_key(), &config, &addr(5), 10, NOW).unwrap_err(),
        CurveError::Unauthorized
    );
    assert_eq!(
        creator_initial_buy(&mut curve, &curve_key(), &config, &creator(), 9, NOW).unwrap_err(),
        CurveError::CreatorMinNotMet
    );
    assert_eq!(
        creator_initial_buy(&mut curve, &curve_key(), &config, &creator(), 101, NOW).unwrap_err(),
        CurveError::ExceedsMaxPurchase
    );
    creator_initial_buy(&mut curve, &curve_key(), &config, &creator(), 10, NOW).unwrap();
    assert_eq!(
        creator_initial_buy(&mut curve, &curve_key(), &config, &creator(), 10, NOW).unwrap_err(),
        CurveError::ReentrancyDetected
    );
    curve.set_reentrancy(false);
    assert_eq!(
        creator_initial_buy(&mut curve, &curve_key(), &config, &creator(), 10, NOW).unwrap_err(),
        CurveError::InvalidStatusTransition
    );
}

#[test]
fn buy_keys_updates_curve_and_holder() {
    let (config, ban_list, mut curve, _) = active_curve(10);
    let mut holder = empty_holder();
    let reserve_before = curve.reserve_balance;
    let cost = calculate_buy_cost(10, 5).unwrap();
    let fees = calculate_buy_fees(cost).unwrap();
    let s = buy_keys(&mut curve, &curve_key(), &mut holder, &config, &ban_list, &addr(5), 5, None, NOW + 1)
        .unwrap();
    assert_eq!(curve.supply, 15);
    assert_eq!(curve.reserve_balance, reserve_before + fees.reserve);
    assert_eq!(curve.unique_holders, 2);
    assert_eq!(holder.owner, addr(5));
    assert_eq!(holder.curve, curve_key());
    assert_eq!(holder.amount, 5);
    assert_eq!(holder.acquired_at, NOW + 1);
    assert!(!holder.is_creator);
    assert_eq!(s.instant_fee_recipient, creator());
    assert_eq!(s.event.instant_fee_paid, fees.instant_fee);
    assert_eq!(s.event.cost, cost);
    assert!(curve.reentrancy_guard);

    curve.set_reentrancy(false);
    let referrer = addr(7);
    let creator_fees = curve.creator_fees_collected;
    let s = buy_keys(&mut curve, &curve_key(), &mut holder, &config, &ban_list, &addr(5), 3, Some(referrer), NOW + 2)
        .unwrap();
    assert_eq!(holder.amount, 8);
    assert_eq!(holder.acquired_at, NOW + 1);
    assert_eq!(curve.unique_holders, 2);
    assert_eq!(s.instant_fee_recipient, referrer);
    assert_eq!(curve.creator_fees_collected, creator_fees);
}

#[test]
fn buy_keys_rejections() {
    let (mut config, mut ban_list, mut curve, _) = active_curve(10);
    let mut holder = empty_holder();
    let buyer = addr(5);
    let mut attempt = |curve: &mut BondingCurve, config: &CurveConfig, ban_list: &BanList, amount: u64, referrer: Option<Address>| {
        buy_keys(curve, &curve_key(), &mut holder, config, ban_list, &buyer, amount, referrer, NOW).unwrap_err()
    };
    assert_eq!(attempt(&mut curve, &config, &ban_list, 0, None), CurveError::InvalidAmount);
    config.max_purchase = 30;
    assert_eq!(attempt(&mut curve, &config, &ban_list, 31, None), CurveError::ExceedsMaxPurchase);
    assert_eq!(attempt(&mut curve, &config, &ban_list, 21, None), CurveError::ExceedsMaxKeysPerWallet);
    assert_eq!(attempt(&mut curve, &config, &ban_list, 1, Some([0; 32])), CurveError::InvalidReferrer);
    assert_eq!(attempt(&mut curve, &config, &ban_list, 1, Some(buyer)), CurveError::SelfReferral);
    pause(&mut config, &addr(9)).unwrap();
    assert_eq!(attempt(&mut curve, &config, &ban_list, 1, None), CurveError::ProgramPaused);
    unpause(&mut config, &addr(9)).unwrap();
    ban_account(&mut ban_list, &addr(9), &buyer).unwrap();
    assert_eq!(attempt(&mut curve, &config, &ban_list, 1, None), CurveError::AccountBanned);
    curve.set_reentrancy(true);
    assert_eq!(attempt(&mut curve, &config, &ban_list, 1, None), CurveError::ReentrancyDetected);
    assert_eq!(curve.supply, 10);
}

#[test]
fn creator_sell_locked_until_unlock_time() {
    let (_, ban_list, mut curve, mut holder) = active_curve(10);
    let unlock = curve.creator_unlock_time;
    let r = sell_keys(&mut curve, &curve_key(), &mut holder, &ban_list, &creator(), 1, None, unlock - 1);
    assert_eq!(r.unwrap_err(), CurveError::KeysLocked);
    assert_eq!(holder.amount, 10);

    let gross = calculate_buy_cost(9, 1).unwrap();
    let reserve_before = curve.reserve_balance;
    let s = sell_keys(&mut curve, &curve_key(), &mut holder, &ban_list, &creator(), 1, None, unlock)
        .unwrap();
    assert_eq!(holder.amount, 9);
    assert_eq!(curve.supply, 9);
    assert_eq!(curve.reserve_balance, reserve_before - gross);
    assert_eq!(curve.total_sells, 1);
    assert_eq!(s.event.gross_return, gross);
    assert_eq!(s.event.payout, gross - gross * 600 / 10000);
    assert_eq!(s.fees.to_seller + s.fees.instant_fee + s.fees.buyback_burn + s.fees.community_rewards + s.fees.platform, gross);
}

#[test]
fn sell_keys_rejections() {
    let (config, ban_list, mut curve, _) = active_curve(10);
    let mut holder = empty_holder();
    buy_keys(&mut curve, &curve_key(), &mut holder, &config, &ban_list, &addr(5), 4, None, NOW).unwrap();
    curve.set_reentrancy(false);
    let seller = addr(5);
    assert_eq!(
        sell_keys(&mut curve, &curve_key(), &mut holder, &ban_list, &seller, 0, None, NOW).unwrap_err(),
        CurveError::InvalidAmount
    );
    assert_eq!(
        sell_keys(&mut curve, &curve_key(), &mut holder, &ban_list, &seller, 5, None, NOW).unwrap_err(),
        CurveError::InsufficientReserve
    );
    assert_eq!(
        sell_keys(&mut curve, &curve_key(), &mut holder, &ban_list, &seller, 1, Some(seller), NOW).unwrap_err(),
        CurveError::SelfReferral
    );
    let s = sell_keys(&mut curve, &curve_key(), &mut holder, &ban_list, &seller, 4, Some(addr(7)), NOW).unwrap();
    assert_eq!(s.instant_fee_recipient, addr(7));
    assert_eq!(holder.amount, 0);
    assert_eq!(curve.supply, 10);
}

#[test]
fn per_wallet_cap_is_clamped_percent_of_supply() {
    let (_, _, mut curve) = setup();
    curve.supply = 1000;
    assert_eq!(curve.get_max_keys_per_wallet(), 20);
    curve.supply = 500;
    assert_eq!(curve.get_max_keys_per_wallet(), 20);
    curve.supply = 5_000;
    assert_eq!(curve.get_max_keys_per_wallet(), 50);
    curve.supply = 10_000;
    assert_eq!(curve.get_max_keys_per_wallet(), 100);
    curve.supply = u128::MAX;
    assert_eq!(curve.get_max_keys_per_wallet(), 100);
    assert_eq!(curve.validate_key_cap(95, 5), Ok(()));
    assert_eq!(curve.validate_key_cap(95, 6), Err(CurveError::ExceedsMaxKeysPerWallet));
    assert_eq!(curve.validate_key_cap(u64::MAX, 1), Err(CurveError::ArithmeticOverflow));
}

#[test]
fn create_curve_rejections() {
    let config = initialize(addr(9), addr(10), addr(11), addr(12));
    let mut ban_list = initialize_ban_list(addr(9));
    let empty = create_curve(&config, &ban_list, &creator(), String::new(), CurveType::Project, None, NOW);
    assert_eq!(empty.err(), Some(CurveError::InvalidAmount));
    let long = create_curve(&config, &ban_list, &creator(), "x".repeat(33), CurveType::Project, None, NOW);
    assert_eq!(long.err(), Some(CurveError::InvalidAmount));
    assert!(create_curve(&config, &ban_list, &creator(), "x".repeat(32), CurveType::Project, None, NOW).is_ok());
    ban_account(&mut ban_list, &addr(9), &creator()).unwrap();
    let banned = create_curve(&config, &ban_list, &creator(), "name".to_string(), CurveType::Project, None, NOW);
    assert_eq!(banned.err(), Some(CurveError::AccountBanned));
}

#[test]
fn ban_list_authority_and_idempotence() {
    let mut ban_list = initialize_ban_list(addr(9));
    assert_eq!(ban_account(&mut ban_list, &addr(5), &addr(6)), Err(CurveError::Unauthorized));
    ban_account(&mut ban_list, &addr(9), &addr(6)).unwrap();
    ban_account(&mut ban_list, &addr(9), &addr(6)).unwrap();
    assert_eq!(ban_list.banned_accounts.len(), 1);
    assert!(ban_list.is_banned(&addr(6)));
    assert!(!ban_list.is_banned(&addr(7)));
    let report = report_bot(&addr(3), &addr(6));
    assert_eq!(report.reported_account, addr(6));
}

#[test]
fn pause_requires_authority() {
    let mut config = initialize(addr(9), addr(10), addr(11), addr(12));
    assert_eq!(pause(&mut config, &addr(1)), Err(CurveError::Unauthorized));
    assert!(!config.paused);
    pause(&mut config, &addr(9)).unwrap();
    assert!(config.paused);
    assert_eq!(unpause(&mut config, &addr(1)), Err(CurveError::Unauthorized));
    unpause(&mut config, &addr(9)).unwrap();
    assert!(!config.paused);
}

#[test]
fn freeze_triggers() {
    let (_, _, mut pending) = setup();
    assert_eq!(freeze_manual(&mut pending, &curve_key(), &creator(), NOW).unwrap_err(), CurveError::CurveNotActive);

    let (_, _, mut curve, _) = active_curve(10);
    assert_eq!(freeze_if_reserve(&mut curve, &curve_key(), NOW).unwrap_err(), CurveError::ReserveThresholdNotMet);
    assert_eq!(freeze_if_time(&mut curve, &curve_key(), NOW).unwrap_err(), CurveError::LaunchTimeNotSet);
    curve.launch_ts = Some(NOW + 100);
    assert_eq!(freeze_if_time(&mut curve, &curve_key(), NOW + 99).unwrap_err(), CurveError::LaunchTimeNotReached);
    assert_eq!(freeze_manual(&mut curve, &curve_key(), &addr(5), NOW).unwrap_err(), CurveError::Unauthorized);

    let event = freeze_if_time(&mut curve, &curve_key(), NOW + 100).unwrap();
    assert_eq!(event.trigger, FreezeTrigger::TimeBased);
    assert_eq!(event.supply, 10);
    assert_eq!(curve.status, CurveStatus::Frozen);
    assert_eq!(curve.supply_at_freeze, Some(10));
    assert_eq!(curve.reserve_at_freeze, Some(curve.reserve_balance));
    assert_eq!(freeze_manual(&mut curve, &curve_key(), &creator(), NOW + 200).unwrap_err(), CurveError::AlreadyFrozen);

    let (_, _, mut rich, _) = active_curve(10);
    rich.target_reserve = 1;
    let event = freeze_if_reserve(&mut rich, &curve_key(), NOW).unwrap();
    assert_eq!(event.trigger, FreezeTrigger::ReserveThreshold);
    assert_eq!(event.reserve, rich.reserve_balance);
}

#[test]
fn trading_disabled_after_freeze() {
    let (config, ban_list, mut curve, mut creator_holder) = active_curve(10);
    freeze_manual(&mut curve, &curve_key(), &creator(), NOW).unwrap();
    let mut holder = empty_holder();
    assert_eq!(
        buy_keys(&mut curve, &curve_key(), &mut holder, &config, &ban_list, &addr(5), 1, None, NOW).unwrap_err(),
        CurveError::TradingDisabled
    );
    assert_eq!(
        sell_keys(&mut curve, &curve_key(), &mut creator_holder, &ban_list, &creator(), 1, None, NOW + WEEK).unwrap_err(),
        CurveError::TradingDisabled
    );
}

#[test]
fn snapshot_only_once() {
    let (_, _, mut curve, _) = active_curve(10);
    let root = [7u8; 32];
    assert_eq!(
        create_snapshot(&mut curve, &curve_key(), &addr(3), &creator(), root, 1, NOW).unwrap_err(),
        CurveError::CurveNotFrozen
    );
    freeze_manual(&mut curve, &curve_key(), &creator(), NOW).unwrap();
    assert_eq!(
        create_snapshot(&mut curve, &curve_key(), &addr(3), &addr(5), root, 1, NOW).unwrap_err(),
        CurveError::Unauthorized
    );
    let (snapshot, event) = create_snapshot(&mut curve, &curve_key(), &addr(3), &creator(), root, 1, NOW).unwrap();
    assert_eq!(snapshot.merkle_root, root);
    assert_eq!(snapshot.total_supply, 10);
    assert_eq!(snapshot.total_token_pool, 0);
    assert_eq!(event.snapshot, addr(3));
    assert_eq!(curve.snapshot_root, Some(root));
    assert_eq!(
        create_snapshot(&mut curve, &curve_key(), &addr(3), &creator(), [8u8; 32], 1, NOW).unwrap_err(),
        CurveError::SnapshotAlreadyExists
    );
    assert_eq!(curve.snapshot_root, Some(root));
}

#[test]
fn launch_splits_frozen_reserve_once() {
    let (_, _, mut curve, _) = active_curve(10);
    curve.reserve_balance = 1_000_000_001;
    freeze_manual(&mut curve, &curve_key(), &creator(), NOW).unwrap();
    let (lp, marketing, utility) = (addr(20), addr(21), addr(22));
    assert_eq!(
        launch(&mut curve, &curve_key(), &creator(), 25, &lp, &marketing, &utility, NOW).unwrap_err(),
        CurveError::SnapshotNotCreated
    );
    create_snapshot(&mut curve, &curve_key(), &addr(3), &creator(), [7u8; 32], 1, NOW).unwrap();
    assert_eq!(
        launch(&mut curve, &curve_key(), &creator(), 19, &lp, &marketing, &utility, NOW).unwrap_err(),
        CurveError::InvalidAmount
    );
    assert_eq!(
        launch(&mut curve, &curve_key(), &creator(), 31, &lp, &marketing, &utility, NOW).unwrap_err(),
        CurveError::InvalidAmount
    );
    assert_eq!(
        launch(&mut curve, &curve_key(), &addr(5), 25, &lp, &marketing, &utility, NOW).unwrap_err(),
        CurveError::Unauthorized
    );
    curve.reserve_balance += 5;
    let event = launch(&mut curve, &curve_key(), &creator(), 25, &lp, &marketing, &utility, NOW + 1).unwrap();
    assert_eq!(event.initial_buy_sol, 250_000_000);
    assert_eq!(event.marketing_sol, 500_000_000);
    assert_eq!(event.utility_sol, 250_000_001);
    assert_eq!(event.supply_at_launch, 10);
    assert_eq!(event.snapshot_root, [7u8; 32]);
    assert_eq!(curve.reserve_balance, 5);
    assert_eq!(curve.status, CurveStatus::Launched);
    assert_eq!(curve.launched_at, Some(NOW + 1));
    assert_eq!(curve.lp_vault, Some(lp));
    assert!(curve.is_launching);
    assert_eq!(
        launch(&mut curve, &curve_key(), &creator(), 25, &lp, &marketing, &utility, NOW + 2).unwrap_err(),
        CurveError::AlreadyLaunched
    );
}

#[test]
fn launch_needs_reserve() {
    let (_, _, mut curve, _) = active_curve(10);
    freeze_manual(&mut curve, &curve_key(), &creator(), NOW).unwrap();
    create_snapshot(&mut curve, &curve_key(), &addr(3), &creator(), [7u8; 32], 1, NOW).unwrap();
    curve.reserve_balance -= 1;
    assert_eq!(
        launch(&mut curve, &curve_key(), &creator(), 20, &addr(20), &addr(21), &addr(22), NOW).unwrap_err(),
        CurveError::InsufficientReserve
    );
    assert_eq!(curve.status, CurveStatus::Frozen);
}

#[test]
fn claim_only_once() {
    let holder = KeyHolder { owner: addr(5), curve: curve_key(), amount: 4, acquired_at: NOW, is_creator: false };
    let leaf = claim_leaf(&holder.owner, holder.amount);
    let mut snapshot = launchos::state::Snapshot {
        curve: curve_key(),
        merkle_root: leaf,
        total_supply: 10,
        total_holders: 1,
        total_token_pool: 0,
        created_at: NOW,
    };
    let mut record = None;
    assert_eq!(
        claim_tokens(&snapshot, &addr(3), &holder, &mut record, &vec![], NOW).unwrap_err(),
        CurveError::TokenPoolNotFunded
    );
    snapshot.total_token_pool = 1_000_001;
    assert_eq!(
        claim_tokens(&snapshot, &addr(3), &holder, &mut record, &vec![[1u8; 32]], NOW).unwrap_err(),
        CurveError::InvalidMerkleProof
    );
    assert!(record.is_none());
    let event = claim_tokens(&snapshot, &addr(3), &holder, &mut record, &vec![], NOW + 1).unwrap();
    assert_eq!(event.tokens_claimed, 400_000);
    assert_eq!(event.keys_held, 4);
    let stored = record.unwrap();
    assert_eq!(stored.amount_claimed, 400_000);
    assert_eq!(stored.holder, addr(5));
    assert_eq!(stored.claimed_at, NOW + 1);
    assert_eq!(
        claim_tokens(&snapshot, &addr(3), &holder, &mut record, &vec![], NOW + 2).unwrap_err(),
        CurveError::AlreadyClaimed
    );
}

#[test]
fn well_formedness_check_at_run_time() {
    let (_, _, mut curve) = setup();
    assert!(curve.is_well_formed());
    curve.freeze_ts = Some(NOW);
    assert!(!curve.is_well_formed());
    let (_, _, mut active, _) = active_curve(10);
    freeze_manual(&mut active, &curve_key(), &creator(), NOW).unwrap();
    assert!(active.is_well_formed());
    active.snapshot_root = None;
    active.status = CurveStatus::Launched;
    assert!(!active.is_well_formed());
}
