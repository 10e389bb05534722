//! Staking rewards: stake VLT, receive epochal distributions.
//!
//! A staker locks VLT for a tier (30, 90 or 180 days). No tier is boosted: every stake earns
//! pro rata from the reward pool of an epoch. Claims are paid against the Merkle root that the
//! admin publishes for the epoch.

pub mod claim;
pub mod merkle;
pub mod staking;
pub mod state;

pub use claim::EpochDistributedEvent;
pub use claim::{claim, distribute_epoch, settle_claim, Claim, ClaimEvent, DistributeEpoch};
pub use merkle::{compute_leaf, verify_proof};
pub use staking::{check_stake_request, close_stake_account, init_pool, stake, unstake};
pub use staking::{CloseStakeAccount, InitPool, InitPoolArgs, Stake, Unstake};
pub use state::{ClaimedBitmap, LockTier, Pool, RewardsError, StakeAccount};
