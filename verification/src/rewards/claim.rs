//! Epoch distributions and claims.

use vstd::prelude::*;

use crate::pubkey::Pubkey;
use crate::rewards::merkle::{compute_leaf, verify_proof};
use crate::rewards::state::{ClaimedBitmap, Pool, RewardsError, StakeAccount};

verus! {

/// Who publishes an epoch.
pub struct DistributeEpoch {
    pub admin: Pubkey,
}

/// Who claims, and when.
pub struct Claim {
    pub owner: Pubkey,
    pub now: i64,
}

/// An epoch was published.
#[derive(Clone, Copy, Debug)]
pub struct EpochDistributedEvent {
    pub epoch: u64,
    pub root: [u8; 32],
    pub total_reward_amount: u64,
}

/// A claim was paid.
#[derive(Clone, Copy, Debug)]
pub struct ClaimEvent {
    pub owner: Pubkey,
    pub epoch: u64,
    pub amount: u64,
}

/// Why an epoch is not published, if it is not.
pub open spec fn distribute_error(pool: Pool, ctx: DistributeEpoch) -> Option<RewardsError> {
    if pool.admin != ctx.admin {
        Some(RewardsError::Unauthorized)
    } else if pool.current_epoch == u64::MAX {
        Some(RewardsError::MathOverflow)
    } else {
        None
    }
}

/// Starts the next epoch with the root of its claims. Only the pool's admin may.
pub fn distribute_epoch(
    pool: &mut Pool,
    ctx: &DistributeEpoch,
    root: [u8; 32],
    total_reward_amount: u64,
) -> (res: Result<EpochDistributedEvent, RewardsError>)
    ensures
        match distribute_error(*old(pool), *ctx) {
            Some(e) => {
                &&& res == Err::<EpochDistributedEvent, RewardsError>(e)
                &&& *final(pool) == *old(pool)
            },
            None => {
                &&& *final(pool) == (Pool {
                    current_epoch: (old(pool).current_epoch + 1) as u64,
                    current_root: root,
                    ..*old(pool)
                })
                &&& res == Ok::<EpochDistributedEvent, RewardsError>(
                    EpochDistributedEvent {
                        epoch: final(pool).current_epoch,
                        root,
                        total_reward_amount,
                    },
                )
            },
        },
{
    if pool.admin != ctx.admin {
        return Err(RewardsError::Unauthorized);
    }
    pool.current_epoch = pool.current_epoch.checked_add(1).ok_or(RewardsError::MathOverflow)?;
    pool.current_root = root;
    Ok(EpochDistributedEvent { epoch: pool.current_epoch, root, total_reward_amount })
}

/// Why a claim is refused, if it is. `proof_valid` tells whether the claim's proof leads to the
/// pool's root.
pub open spec fn claim_error(
    pool: Pool,
    account: StakeAccount,
    bitmap: ClaimedBitmap,
    ctx: Claim,
    amount: u64,
    proof_valid: bool,
) -> Option<RewardsError> {
    if account.owner != ctx.owner {
        Some(RewardsError::Unauthorized)
    } else if amount == 0 {
        Some(RewardsError::ZeroAmount)
    } else if account.last_claim_epoch >= pool.current_epoch {
        Some(RewardsError::AlreadyClaimed)
    } else if !(i64::MIN <= ctx.now - account.stake_started_at <= i64::MAX) {
        Some(RewardsError::MathOverflow)
    } else if ctx.now - account.stake_started_at < pool.min_stake_age_secs {
        Some(RewardsError::StakeNotOldEnough)
    } else if bitmap.claimed {
        Some(RewardsError::AlreadyClaimed)
    } else if !proof_valid {
        Some(RewardsError::InvalidMerkleProof)
    } else {
        None
    }
}

/// Whether `proof` shows that the pool's root commits to the claim of `amount` by the account's
/// owner in the current epoch.
pub open spec fn claim_proved(
    pool: Pool,
    account: StakeAccount,
    amount: u64,
    proof: Seq<[u8; 32]>,
) -> bool {
    crate::rewards::merkle::root_from(
        crate::rewards::merkle::leaf_of(account.owner, pool.current_epoch, amount),
        proof,
    ) == pool.current_root
}

/// Decides a claim whose proof was found valid or not, and marks it as paid where it is granted.
/// A refused claim changes nothing.
pub fn settle_claim(
    pool: &Pool,
    account: &mut StakeAccount,
    bitmap: &mut ClaimedBitmap,
    ctx: &Claim,
    amount: u64,
    proof_valid: bool,
) -> (res: Result<ClaimEvent, RewardsError>)
    ensures
        match claim_error(*pool, *old(account), *old(bitmap), *ctx, amount, proof_valid) {
            Some(e) => {
                &&& res == Err::<ClaimEvent, RewardsError>(e)
                &&& *final(account) == *old(account)
                &&& *final(bitmap) == *old(bitmap)
            },
            None => {
                &&& res == Ok::<ClaimEvent, RewardsError>(
                    ClaimEvent { owner: ctx.owner, epoch: pool.current_epoch, amount },
                )
                &&& *final(account) == (StakeAccount {
                    last_claim_epoch: pool.current_epoch,
                    ..*old(account)
                })
                &&& final(bitmap).claimed
            },
        },
{
    if account.owner != ctx.owner {
        return Err(RewardsError::Unauthorized);
    }
    if amount == 0 {
        return Err(RewardsError::ZeroAmount);
    }
    let epoch: u64 = pool.current_epoch;
    if account.last_claim_epoch >= epoch {
        return Err(RewardsError::AlreadyClaimed);
    }
    let stake_age: i64 = ctx.now.checked_sub(account.stake_started_at).ok_or(
        RewardsError::MathOverflow,
    )?;
    if stake_age < pool.min_stake_age_secs {
        return Err(RewardsError::StakeNotOldEnough);
    }
    if bitmap.claimed {
        return Err(RewardsError::AlreadyClaimed);
    }
    if !proof_valid {
        return Err(RewardsError::InvalidMerkleProof);
    }
    bitmap.claimed = true;
    account.last_claim_epoch = epoch;
    Ok(ClaimEvent { owner: account.owner, epoch, amount })
}

/// Claims `amount` from the current epoch. The claim is granted once per epoch, to a stake that
/// is old enough, against a proof that leads from the claim's leaf to the pool's root; the
/// event's amount is then paid to the owner. A refused claim changes nothing.
pub fn claim(
    pool: &Pool,
    account: &mut StakeAccount,
    bitmap: &mut ClaimedBitmap,
    ctx: &Claim,
    amount: u64,
    proof: &Vec<[u8; 32]>,
) -> (res: Result<ClaimEvent, RewardsError>)
    ensures
        match claim_error(
            *pool,
            *old(account),
            *old(bitmap),
            *ctx,
            amount,
            claim_proved(*pool, *old(account), amount, proof@),
        ) {
            Some(e) => {
                &&& res == Err::<ClaimEvent, RewardsError>(e)
                &&& *final(account) == *old(account)
                &&& *final(bitmap) == *old(bitmap)
            },
            None => {
                &&& res == Ok::<ClaimEvent, RewardsError>(
                    ClaimEvent { owner: ctx.owner, epoch: pool.current_epoch, amount },
                )
                &&& *final(account) == (StakeAccount {
                    last_claim_epoch: pool.current_epoch,
                    ..*old(account)
                })
                &&& final(bitmap).claimed
            },
        },
{
    let leaf: [u8; 32] = compute_leaf(&account.owner, pool.current_epoch, amount);
    let proof_valid: bool = verify_proof(proof.as_slice(), &pool.current_root, &leaf);
    settle_claim(pool, account, bitmap, ctx, amount, proof_valid)
}

} // verus!
