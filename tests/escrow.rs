use launchos::errors::EscrowError;
use launchos::escrow::{
    close_pool, create_pool, deposit, initialize, pause, unpause, PoolStatus, PoolType,
};

const AUTHORITY: [u8; 32] = [9; 32];

#[test]
fn pool_lifecycle() {
    let mut escrow = initialize(AUTHORITY);
    let mut pool = create_pool(&mut escrow, "boost_pool".to_string(), PoolType::Boost, None, [4; 32], 100)
        .unwrap();
    assert_eq!(escrow.total_pools, 1);
    assert_eq!(pool.status, PoolStatus::Active);
    assert_eq!(format!("{:?}", pool.pool_type), "Boost");

    deposit(&mut escrow, &mut pool, 500).unwrap();
    deposit(&mut escrow, &mut pool, 250).unwrap();
    assert_eq!(pool.balance, 750);
    assert_eq!(pool.total_deposited, 750);
    assert_eq!(escrow.total_value_locked, 750);

    assert_eq!(launchos::escrow::withdraw(&mut escrow, &mut pool, &[1; 32], 10), Err(EscrowError::Unauthorized));
    assert_eq!(launchos::escrow::withdraw(&mut escrow, &mut pool, &AUTHORITY, 751), Err(EscrowError::InsufficientBalance));
    launchos::escrow::withdraw(&mut escrow, &mut pool, &AUTHORITY, 700).unwrap();
    assert_eq!(pool.balance, 50);
    assert_eq!(pool.total_withdrawn, 700);
    assert_eq!(escrow.total_value_locked, 50);

    assert_eq!(close_pool(&escrow, &mut pool, &AUTHORITY), Err(EscrowError::PoolNotEmpty));
    launchos::escrow::withdraw(&mut escrow, &mut pool, &AUTHORITY, 50).unwrap();
    close_pool(&escrow, &mut pool, &AUTHORITY).unwrap();
    assert_eq!(pool.status, PoolStatus::Closed);
    assert_eq!(deposit(&mut escrow, &mut pool, 1), Err(EscrowError::PoolNotActive));
}

#[test]
fn escrow_rejections() {
    let mut escrow = initialize(AUTHORITY);
    let long_id = "p".repeat(65);
    assert_eq!(
        create_pool(&mut escrow, long_id, PoolType::Quest, None, [4; 32], 0).err(),
        Some(EscrowError::InvalidPoolId)
    );
    let mut pool = create_pool(&mut escrow, "p".repeat(64), PoolType::Campaign, Some("c1".to_string()), [4; 32], 0)
        .unwrap();
    assert_eq!(deposit(&mut escrow, &mut pool, 0), Err(EscrowError::InvalidAmount));
    assert_eq!(pause(&mut escrow, &[1; 32]), Err(EscrowError::Unauthorized));
    pause(&mut escrow, &AUTHORITY).unwrap();
    assert_eq!(deposit(&mut escrow, &mut pool, 5), Err(EscrowError::SystemPaused));
    assert_eq!(
        create_pool(&mut escrow, "x".to_string(), PoolType::Payout, None, [4; 32], 0).err(),
        Some(EscrowError::SystemPaused)
    );
    unpause(&mut escrow, &AUTHORITY).unwrap();
    pool.balance = u64::MAX;
    assert_eq!(deposit(&mut escrow, &mut pool, 1), Err(EscrowError::MathOverflow));
}
