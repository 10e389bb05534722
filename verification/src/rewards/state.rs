//! Accounts of the rewards program.

use vstd::prelude::*;

use crate::pubkey::Pubkey;

verus! {

/// Seconds in a day.
pub const SECS_PER_DAY: i64 = 86_400;

/// Basis points in a whole.
pub const WEIGHT_DENOM: u64 = 10_000;

/// Why the rewards program refuses a request.
#[derive(Clone, Copy, Debug, PartialEq, Eq, Structural)]
pub enum RewardsError {
    Unauthorized,
    ZeroAmount,
    TokenProgramMismatch,
    MathOverflow,
    AlreadyClaimed,
    StillLocked,
    InvalidMint,
    StakeNotOldEnough,
    InvalidMerkleProof,
}

/// How long a stake is locked.
#[derive(Clone, Copy, Debug, PartialEq, Eq, Structural)]
pub enum LockTier {
    Days30,
    Days90,
    Days180,
}

impl LockTier {
    /// The days of the tier.
    pub open spec fn days(self) -> int {
        match self {
            LockTier::Days30 => 30,
            LockTier::Days90 => 90,
            LockTier::Days180 => 180,
        }
    }

    /// Weight of a stake in basis points: 1.0x for every tier.
    pub fn weight_bps(&self) -> (bps: u16)
        ensures
            bps == 10_000,
    {
        10_000
    }

    /// Length of the lock in seconds.
    pub fn duration_secs(&self) -> (secs: i64)
        ensures
            secs == self.days() * SECS_PER_DAY,
    {
        match self {
            LockTier::Days30 => 30 * 86_400,
            LockTier::Days90 => 90 * 86_400,
            LockTier::Days180 => 180 * 86_400,
        }
    }
}

/// The reward pool.
#[derive(Clone, Copy, Debug)]
pub struct Pool {
    pub admin: Pubkey,
    pub vlt_mint: Pubkey,
    pub reward_mint: Pubkey,
    /// Sum of the weighted stakes.
    pub total_weighted_stake: u64,
    pub current_epoch: u64,
    /// Merkle root of the current epoch's claims.
    pub current_root: [u8; 32],
    /// Age that a stake must have before it can claim.
    pub min_stake_age_secs: i64,
    pub bump: u8,
}

/// The stake of one owner.
#[derive(Clone, Copy, Debug)]
pub struct StakeAccount {
    pub owner: Pubkey,
    pub amount: u64,
    pub tier: LockTier,
    pub locked_until: i64,
    pub last_claim_epoch: u64,
    /// Sum over time of amount × slots held.
    pub cumulative_weighted_balance: u128,
    pub last_update_slot: u64,
    pub stake_started_at: i64,
}

/// One flag per epoch and recipient that prevents a claim from being replayed.
#[derive(Clone, Copy, Debug)]
pub struct ClaimedBitmap {
    pub claimed: bool,
}

/// Slots from `since` to `slot`; zero where `slot` is the earlier one.
pub open spec fn slots_between(since: u64, slot: u64) -> int {
    if slot >= since {
        slot - since
    } else {
        0
    }
}

impl StakeAccount {
    /// The time-weighted balance at `slot`: what was accumulated up to the last update, and the
    /// present amount for every slot since. An account that was never updated accrues nothing.
    pub open spec fn accrued_at(self, slot: u64) -> int {
        if self.amount > 0 && self.last_update_slot > 0 {
            self.cumulative_weighted_balance + self.amount * slots_between(
                self.last_update_slot,
                slot,
            )
        } else {
            self.cumulative_weighted_balance as int
        }
    }

    /// The time-weighted balance at `slot`, unless it is too large to be held.
    pub fn accrue(&self, slot: u64) -> (res: Result<u128, RewardsError>)
        ensures
            match res {
                Ok(balance) => balance == self.accrued_at(slot),
                Err(e) => e == RewardsError::MathOverflow && self.accrued_at(slot) > u128::MAX,
            },
    {
        if self.amount > 0 && self.last_update_slot > 0 {
            let slots_elapsed: u64 = slot.saturating_sub(self.last_update_slot);
            assert(self.amount * slots_elapsed <= u64::MAX * u64::MAX) by (nonlinear_arith)
                requires
                    self.amount <= u64::MAX,
                    slots_elapsed <= u64::MAX,
            ;
            let accrual: u128 = (self.amount as u128).checked_mul(slots_elapsed as u128).ok_or(
                RewardsError::MathOverflow,
            )?;
            self.cumulative_weighted_balance.checked_add(accrual).ok_or(RewardsError::MathOverflow)
        } else {
            Ok(self.cumulative_weighted_balance)
        }
    }
}

/// The weight of a stake of `amount` in `tier`, unless the product with the basis points is too
/// large to be held. No tier is boosted, so the weight is the amount itself.
pub fn weighted_stake(tier: &LockTier, amount: u64) -> (res: Result<u64, RewardsError>)
    ensures
        match res {
            Ok(weight) => weight == amount && weight_fits(amount),
            Err(e) => e == RewardsError::MathOverflow && !weight_fits(amount),
        },
{
    let bps: u64 = tier.weight_bps() as u64;
    assert(bps * amount == amount * WEIGHT_DENOM) by (nonlinear_arith)
        requires
            bps == WEIGHT_DENOM,
    ;
    bps.checked_mul(amount).ok_or(RewardsError::MathOverflow)?.checked_div(WEIGHT_DENOM).ok_or(
        RewardsError::MathOverflow,
    )
}

/// Whether `amount` in basis points can be held.
pub open spec fn weight_fits(amount: u64) -> bool {
    amount * WEIGHT_DENOM <= u64::MAX
}

} // verus!
