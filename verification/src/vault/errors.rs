//! Errors of the vault program.

use vstd::prelude::*;

verus! {

/// Why the vault refuses a request.
#[derive(Clone, Copy, Debug, PartialEq, Eq, Structural)]
pub enum VaultError {
    /// The vault is halted.
    Paused,
    /// The signer may not do this.
    Unauthorized,
    /// The weights do not sum to 10_000 bps.
    WeightsSumInvalid,
    /// There is not one weight per asset.
    WeightsLengthMismatch,
    /// The asset is not in the basket.
    AssetNotWhitelisted,
    /// Less comes out than the caller accepts.
    SlippageExceeded,
    /// An amount that must be positive is zero.
    ZeroAmount,
    /// The NAV snapshot is too old.
    OracleStale,
    /// The mint's multiplier differs from the snapshot's.
    MultiplierMismatch,
    /// A rebalance would move the NAV too far.
    NavDriftExceeded,
    /// The balances or instructions do not show the swap that a rebalance claims.
    RebalanceSettlementInvalid,
    /// The basket does not hold between 1 and 20 assets.
    BasketSizeInvalid,
    /// The accounts of the token transfer legs are not the expected ones.
    InvalidRemainingAccounts,
    /// A number is too large to be held.
    MathOverflow,
    /// No time has passed since the last management fee.
    NoFeeAccrued,
    /// The NAV per share has not passed the high-water mark.
    BelowHighWaterMark,
    /// The share mint is not the one that the vault expects.
    ShareMintAlreadyInitialized,
}

/// Why a request that hands over unparsed accounts is refused.
#[derive(Clone, Copy, Debug, PartialEq, Eq, Structural)]
pub enum InstructionError {
    /// The vault refuses it.
    Vault(VaultError),
    /// An account or instruction cannot be read; the program error code says why.
    Program(u64),
}

} // verus!
