use launchos::errors::CurveError;
use launchos::math_v6::{calculate_v6_buy_fees, calculate_v6_sell_fees, ReferrerType};

#[test]
fn test_v6_buy_fees_user_referral() {
    let total_cost = 1_000_000_000u128;
    let fees = calculate_v6_buy_fees(total_cost, ReferrerType::User).unwrap();

    assert_eq!(fees.reserve, 940_000_000);
    assert_eq!(fees.referral, 30_000_000);
    assert_eq!(fees.project, 10_000_000);
    assert_eq!(fees.buyback_burn, 10_000_000);
    assert_eq!(fees.community_rewards, 10_000_000);

    let sum = fees.reserve + fees.referral + fees.project +
              fees.buyback_burn + fees.community_rewards;
    assert_eq!(sum, total_cost);
}

#[test]
fn test_v6_buy_fees_project_referral() {
    let total_cost = 1_000_000_000u128;
    let fees = calculate_v6_buy_fees(total_cost, ReferrerType::Project).unwrap();

    assert_eq!(fees.reserve, 940_000_000);
    assert_eq!(fees.referral, 0);
    assert_eq!(fees.project, 40_000_000);
    assert_eq!(fees.buyback_burn, 10_000_000);
    assert_eq!(fees.community_rewards, 10_000_000);

    let sum = fees.reserve + fees.referral + fees.project +
              fees.buyback_burn + fees.community_rewards;
    assert_eq!(sum, total_cost);
}

#[test]
fn test_v6_buy_fees_no_referral() {
    let total_cost = 1_000_000_000u128;
    let fees = calculate_v6_buy_fees(total_cost, ReferrerType::NoReferral).unwrap();

    assert_eq!(fees.reserve, 940_000_000);
    assert_eq!(fees.referral, 0);
    assert_eq!(fees.project, 20_000_000);
    assert_eq!(fees.buyback_burn, 10_000_000);
    assert_eq!(fees.community_rewards, 30_000_000);

    let sum = fees.reserve + fees.referral + fees.project +
              fees.buyback_burn + fees.community_rewards;
    assert_eq!(sum, total_cost);
}

#[test]
fn test_v6_sell_fees_user_referral() {
    let gross = 1_000_000_000u128;
    let fees = calculate_v6_sell_fees(gross, ReferrerType::User).unwrap();

    assert_eq!(fees.to_seller, 940_000_000);
    assert_eq!(fees.referral, 30_000_000);
    assert_eq!(fees.project, 10_000_000);
    assert_eq!(fees.buyback_burn, 10_000_000);
    assert_eq!(fees.community_rewards, 10_000_000);

    let total = fees.to_seller + fees.referral + fees.project +
                fees.buyback_burn + fees.community_rewards;
    assert_eq!(total, gross);
}

#[test]
fn v6_rounding_goes_to_community() {
    let f = calculate_v6_buy_fees(101, ReferrerType::User).unwrap();
    assert_eq!(
        (f.reserve, f.referral, f.project, f.buyback_burn, f.community_rewards),
        (94, 3, 1, 1, 2)
    );
    let s = calculate_v6_sell_fees(101, ReferrerType::NoReferral).unwrap();
    assert_eq!(
        (s.to_seller, s.referral, s.project, s.buyback_burn, s.community_rewards),
        (94, 0, 2, 1, 4)
    );
}

#[test]
fn v6_every_mode_conserves_total() {
    let modes = [ReferrerType::User, ReferrerType::Project, ReferrerType::NoReferral];
    for mode in modes {
        for t in [0u128, 1, 33, 10_001, 987_654_321_987] {
            let b = calculate_v6_buy_fees(t, mode).unwrap();
            assert_eq!(b.reserve + b.referral + b.project + b.buyback_burn + b.community_rewards, t);
            let s = calculate_v6_sell_fees(t, mode).unwrap();
            assert_eq!(s.to_seller + s.referral + s.project + s.buyback_burn + s.community_rewards, t);
        }
    }
}

#[test]
fn v6_sell_project_referral_and_overflow() {
    let s = calculate_v6_sell_fees(1_000_000_000, ReferrerType::Project).unwrap();
    assert_eq!((s.referral, s.project, s.community_rewards), (0, 40_000_000, 10_000_000));
    assert_eq!(
        calculate_v6_buy_fees(u128::MAX, ReferrerType::User).unwrap_err(),
        CurveError::ArithmeticOverflow
    );
    assert_eq!(
        calculate_v6_sell_fees(u128::MAX, ReferrerType::NoReferral).unwrap_err(),
        CurveError::ArithmeticOverflow
    );
}
