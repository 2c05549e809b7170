//! The escrow pool ledger: balances per pool and the total value locked.
//! Token movements are the caller's; this ledger decides and records them.
use vstd::prelude::*;
use crate::errors::EscrowError;
use crate::merkle::bytes32_eq;
use crate::state::Address;
use vstd::utf8::encode_utf8;

verus! {

/// Longest pool identifier, in bytes.
pub const MAX_POOL_ID_LEN: usize = 64;

/// The master record of the escrow system.
#[derive(Debug, Clone, Copy)]
pub struct EscrowAccount {
    pub authority: Address,
    pub total_pools: u64,
    /// Sum of the balances of all pools.
    pub total_value_locked: u64,
    pub paused: bool,
}

/// Purpose of a pool.
#[derive(Debug, Clone, Copy, PartialEq, Eq, Structural)]
pub enum PoolType {
    Boost,
    Campaign,
    Quest,
    Contribution,
    Revenue,
    Payout,
}

/// Whether a pool still takes deposits and withdrawals.
#[derive(Debug, Clone, Copy, PartialEq, Eq, Structural)]
pub enum PoolStatus {
    Active,
    Closed,
}

/// One escrow pool.
#[derive(Debug, Clone)]
pub struct Pool {
    pub pool_id: String,
    pub pool_type: PoolType,
    pub owner_id: Option<String>,
    pub balance: u64,
    pub total_deposited: u64,
    pub total_withdrawn: u64,
    pub status: PoolStatus,
    pub created_at: i64,
    /// Token account holding the pool's funds.
    pub pool_token_account: Address,
}

/// Creates the escrow system's master record.
pub fn initialize(authority: Address) -> (r: EscrowAccount)
    ensures
        r == (EscrowAccount { authority, total_pools: 0, total_value_locked: 0, paused: false }),
{
    EscrowAccount { authority, total_pools: 0, total_value_locked: 0, paused: false }
}

/// Opens an empty, active pool.
pub fn create_pool(
    escrow: &mut EscrowAccount,
    pool_id: String,
    pool_type: PoolType,
    owner_id: Option<String>,
    pool_token_account: Address,
    now: i64,
) -> (r: Result<Pool, EscrowError>)
    ensures
        r is Err ==> *final(escrow) == *old(escrow),
        r is Err ==> r->Err_0 == if old(escrow).paused {
            EscrowError::SystemPaused
        } else if encode_utf8(pool_id@).len() as usize > MAX_POOL_ID_LEN {
            EscrowError::InvalidPoolId
        } else {
            EscrowError::MathOverflow
        },
        r is Ok <==> !old(escrow).paused && encode_utf8(pool_id@).len() as usize <= MAX_POOL_ID_LEN
            && old(escrow).total_pools < u64::MAX,
        r is Ok ==> *final(escrow) == (EscrowAccount {
            total_pools: (old(escrow).total_pools + 1) as u64,
            ..*old(escrow)
        }) && r->Ok_0 == (Pool {
            pool_id,
            pool_type,
            owner_id,
            balance: 0,
            total_deposited: 0,
            total_withdrawn: 0,
            status: PoolStatus::Active,
            created_at: now,
            pool_token_account,
        }),
{
    if escrow.paused {
        return Err(EscrowError::SystemPaused);
    }
    if pool_id.as_str().len() > MAX_POOL_ID_LEN {
        return Err(EscrowError::InvalidPoolId);
    }
    let total_pools = match escrow.total_pools.checked_add(1) {
        Some(v) => v,
        None => return Err(EscrowError::MathOverflow),
    };
    escrow.total_pools = total_pools;
    Ok(
        Pool {
            pool_id,
            pool_type,
            owner_id,
            balance: 0,
            total_deposited: 0,
            total_withdrawn: 0,
            status: PoolStatus::Active,
            created_at: now,
            pool_token_account,
        },
    )
}

/// Why `deposit` refuses, checked in this order; `None` when it succeeds.
pub open spec fn deposit_error(escrow: EscrowAccount, pool: Pool, amount: u64) -> Option<EscrowError> {
    if escrow.paused {
        Some(EscrowError::SystemPaused)
    } else if amount == 0 {
        Some(EscrowError::InvalidAmount)
    } else if pool.status != PoolStatus::Active {
        Some(EscrowError::PoolNotActive)
    } else if pool.balance + amount > u64::MAX || pool.total_deposited + amount > u64::MAX
        || escrow.total_value_locked + amount > u64::MAX {
        Some(EscrowError::MathOverflow)
    } else {
        None
    }
}

/// Credits `amount` to an active pool and to the total value locked.
pub fn deposit(escrow: &mut EscrowAccount, pool: &mut Pool, amount: u64) -> (r: Result<
    (),
    EscrowError,
>)
    ensures
        r is Ok <==> deposit_error(*old(escrow), *old(pool), amount) is None,
        r is Err ==> deposit_error(*old(escrow), *old(pool), amount) == Some(r->Err_0)
            && *final(escrow) == *old(escrow) && *final(pool) == *old(pool),
        r is Ok ==> *final(pool) == (Pool {
            balance: (old(pool).balance + amount) as u64,
            total_deposited: (old(pool).total_deposited + amount) as u64,
            ..*old(pool)
        }) && *final(escrow) == (EscrowAccount {
            total_value_locked: (old(escrow).total_value_locked + amount) as u64,
            ..*old(escrow)
        }),
{
    if escrow.paused {
        return Err(EscrowError::SystemPaused);
    }
    if amount == 0 {
        return Err(EscrowError::InvalidAmount);
    }
    if pool.status != PoolStatus::Active {
        return Err(EscrowError::PoolNotActive);
    }
    let balance = match pool.balance.checked_add(amount) {
        Some(v) => v,
        None => return Err(EscrowError::MathOverflow),
    };
    let total_deposited = match pool.total_deposited.checked_add(amount) {
        Some(v) => v,
        None => return Err(EscrowError::MathOverflow),
    };
    let total_value_locked = match escrow.total_value_locked.checked_add(amount) {
        Some(v) => v,
        None => return Err(EscrowError::MathOverflow),
    };
    pool.balance = balance;
    pool.total_deposited = total_deposited;
    escrow.total_value_locked = total_value_locked;
    Ok(())
}

/// Why `withdraw` refuses, checked in this order; `None` when it succeeds.
pub open spec fn withdraw_error(escrow: EscrowAccount, pool: Pool, signer: Address, amount: u64) -> Option<
    EscrowError,
> {
    if escrow.authority@ != signer@ {
        Some(EscrowError::Unauthorized)
    } else if escrow.paused {
        Some(EscrowError::SystemPaused)
    } else if amount == 0 {
        Some(EscrowError::InvalidAmount)
    } else if pool.status != PoolStatus::Active {
        Some(EscrowError::PoolNotActive)
    } else if pool.balance < amount {
        Some(EscrowError::InsufficientBalance)
    } else if pool.total_withdrawn + amount > u64::MAX || escrow.total_value_locked < amount {
        Some(EscrowError::MathOverflow)
    } else {
        None
    }
}

/// The authority debits `amount` from an active pool that holds it.
pub fn withdraw(escrow: &mut EscrowAccount, pool: &mut Pool, signer: &Address, amount: u64) -> (r:
    Result<(), EscrowError>)
    ensures
        r is Ok <==> withdraw_error(*old(escrow), *old(pool), *signer, amount) is None,
        r is Err ==> withdraw_error(*old(escrow), *old(pool), *signer, amount) == Some(r->Err_0)
            && *final(escrow) == *old(escrow) && *final(pool) == *old(pool),
        r is Ok ==> *final(pool) == (Pool {
            balance: (old(pool).balance - amount) as u64,
            total_withdrawn: (old(pool).total_withdrawn + amount) as u64,
            ..*old(pool)
        }) && *final(escrow) == (EscrowAccount {
            total_value_locked: (old(escrow).total_value_locked - amount) as u64,
            ..*old(escrow)
        }),
{
    if !bytes32_eq(&escrow.authority, signer) {
        return Err(EscrowError::Unauthorized);
    }
    if escrow.paused {
        return Err(EscrowError::SystemPaused);
    }
    if amount == 0 {
        return Err(EscrowError::InvalidAmount);
    }
    if pool.status != PoolStatus::Active {
        return Err(EscrowError::PoolNotActive);
    }
    if pool.balance < amount {
        return Err(EscrowError::InsufficientBalance);
    }
    let total_withdrawn = match pool.total_withdrawn.checked_add(amount) {
        Some(v) => v,
        None => return Err(EscrowError::MathOverflow),
    };
    if escrow.total_value_locked < amount {
        return Err(EscrowError::MathOverflow);
    }
    pool.balance = pool.balance - amount;
    pool.total_withdrawn = total_withdrawn;
    escrow.total_value_locked = escrow.total_value_locked - amount;
    Ok(())
}

/// The authority closes an empty pool.
pub fn close_pool(escrow: &EscrowAccount, pool: &mut Pool, signer: &Address) -> (r: Result<
    (),
    EscrowError,
>)
    ensures
        r == if escrow.authority@ != signer@ {
            Err::<(), EscrowError>(EscrowError::Unauthorized)
        } else if old(pool).balance != 0 {
            Err::<(), EscrowError>(EscrowError::PoolNotEmpty)
        } else {
            Ok::<(), EscrowError>(())
        },
        *final(pool) == if r is Ok {
            Pool { status: PoolStatus::Closed, ..*old(pool) }
        } else {
            *old(pool)
        },
{
    if !bytes32_eq(&escrow.authority, signer) {
        return Err(EscrowError::Unauthorized);
    }
    if pool.balance != 0 {
        return Err(EscrowError::PoolNotEmpty);
    }
    pool.status = PoolStatus::Closed;
    Ok(())
}

/// The authority stops all escrow operations.
pub fn pause(escrow: &mut EscrowAccount, signer: &Address) -> (r: Result<(), EscrowError>)
    ensures
        r is Ok <==> old(escrow).authority@ == signer@,
        r is Err ==> r->Err_0 == EscrowError::Unauthorized && *final(escrow) == *old(escrow),
        r is Ok ==> *final(escrow) == (EscrowAccount { paused: true, ..*old(escrow) }),
{
    if !bytes32_eq(&escrow.authority, signer) {
        return Err(EscrowError::Unauthorized);
    }
    escrow.paused = true;
    Ok(())
}

/// The authority resumes escrow operations.
pub fn unpause(escrow: &mut EscrowAccount, signer: &Address) -> (r: Result<(), EscrowError>)
    ensures
        r is Ok <==> old(escrow).authority@ == signer@,
        r is Err ==> r->Err_0 == EscrowError::Unauthorized && *final(escrow) == *old(escrow),
        r is Ok ==> *final(escrow) == (EscrowAccount { paused: false, ..*old(escrow) }),
{
    if !bytes32_eq(&escrow.authority, signer) {
        return Err(EscrowError::Unauthorized);
    }
    escrow.paused = false;
    Ok(())
}

} // verus!
