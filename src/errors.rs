use vstd::prelude::*;

verus! {

/// Failure reasons of the bonding-curve operations.
#[derive(Debug, Clone, Copy, PartialEq, Eq, Structural)]
pub enum CurveError {
    /// The curve is not yet active (pending creator buy).
    CurveNotActive,
    /// Only the creator (or the authority) may perform this action.
    Unauthorized,
    /// Amount is zero or otherwise out of range.
    InvalidAmount,
    /// Amount exceeds the configured per-transaction maximum.
    ExceedsMaxPurchase,
    /// Not enough reserve, supply or held keys for the request.
    InsufficientReserve,
    /// The creator's purchase is below the configured minimum.
    CreatorMinNotMet,
    /// Creator keys are still inside their lock period.
    KeysLocked,
    /// A checked arithmetic step would leave the integer range.
    ArithmeticOverflow,
    /// The curve's reentrancy guard is already set.
    ReentrancyDetected,
    /// The account is on the ban list.
    AccountBanned,
    /// The curve is not in the status this transition starts from.
    InvalidStatusTransition,
    /// Price impact exceeds the allowed maximum.
    PriceImpactTooHigh,
    /// Selling is not allowed during the lock period.
    SellLockActive,
    /// The curve has already been frozen.
    AlreadyFrozen,
    /// The curve is not frozen yet.
    CurveNotFrozen,
    /// Reserve threshold for the automatic freeze is not met.
    ReserveThresholdNotMet,
    /// No launch time is configured for the time-based freeze.
    LaunchTimeNotSet,
    /// The configured launch time has not been reached.
    LaunchTimeNotReached,
    /// No snapshot has been taken yet.
    SnapshotNotCreated,
    /// A snapshot already exists for this curve.
    SnapshotAlreadyExists,
    /// The curve has already been launched.
    AlreadyLaunched,
    /// The Merkle proof does not lead to the snapshot root.
    InvalidMerkleProof,
    /// The holder has already claimed.
    AlreadyClaimed,
    /// The referrer address is not acceptable.
    InvalidReferrer,
    /// A wallet cannot refer itself.
    SelfReferral,
    /// The purchase would exceed the per-wallet key cap.
    ExceedsMaxKeysPerWallet,
    /// Trading is disabled in the curve's current status.
    TradingDisabled,
    /// The program is paused by its authority.
    ProgramPaused,
    /// The snapshot's token pool has not been funded.
    TokenPoolNotFunded,
    /// The ban list is at capacity.
    BanListFull,
}

/// Failure reasons of the escrow pool ledger.
#[derive(Debug, Clone, Copy, PartialEq, Eq, Structural)]
pub enum EscrowError {
    /// The escrow system is paused.
    SystemPaused,
    /// The pool holds less than requested.
    InsufficientBalance,
    /// Amount must be greater than zero.
    InvalidAmount,
    /// The pool is not active.
    PoolNotActive,
    /// The pool identifier is too long.
    InvalidPoolId,
    /// The pool still holds funds.
    PoolNotEmpty,
    /// Only the escrow authority may perform this action.
    Unauthorized,
    /// No such pool.
    PoolNotFound,
    /// A checked arithmetic step would leave the integer range.
    MathOverflow,
}

} // verus!
