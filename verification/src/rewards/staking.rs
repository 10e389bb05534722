//! Staking and unstaking.

use vstd::prelude::*;

use crate::pubkey::Pubkey;
use crate::rewards::state::{weighted_stake, LockTier, Pool, RewardsError, StakeAccount};

verus! {

/// Age in seconds that a stake must have to claim from a fresh pool: seven days.
pub const DEFAULT_MIN_STAKE_AGE_SECS: i64 = 604_800;

/// What the admin chooses for a pool.
#[derive(Clone, Debug)]
pub struct InitPoolArgs {
    pub vlt_mint: Pubkey,
    pub reward_mint: Pubkey,
}

/// Who creates the pool, and the bump of its address.
pub struct InitPool {
    pub admin: Pubkey,
    pub bump: u8,
}

/// Who stakes, the mint that the stake is paid in, and the clock.
pub struct Stake {
    pub owner: Pubkey,
    pub vlt_mint: Pubkey,
    pub now: i64,
    pub slot: u64,
}

/// Who unstakes, the mint that the stake is paid back in, and the clock.
pub struct Unstake {
    pub owner: Pubkey,
    pub vlt_mint: Pubkey,
    pub now: i64,
    pub slot: u64,
}

/// Who closes a stake account, and when.
pub struct CloseStakeAccount {
    pub owner: Pubkey,
    pub now: i64,
}

/// A fresh pool: nothing staked, epoch zero, no root.
pub fn init_pool(ctx: &InitPool, args: &InitPoolArgs) -> (pool: Pool)
    ensures
        pool.admin == ctx.admin,
        pool.vlt_mint == args.vlt_mint,
        pool.reward_mint == args.reward_mint,
        pool.total_weighted_stake == 0,
        pool.current_epoch == 0,
        pool.current_root@ == Seq::new(32, |i: int| 0u8),
        pool.min_stake_age_secs == DEFAULT_MIN_STAKE_AGE_SECS,
        pool.bump == ctx.bump,
{
    let current_root: [u8; 32] = [0u8; 32];
    assert(current_root@ =~= Seq::new(32, |i: int| 0u8));
    Pool {
        admin: ctx.admin,
        vlt_mint: args.vlt_mint,
        reward_mint: args.reward_mint,
        total_weighted_stake: 0,
        current_epoch: 0,
        current_root,
        min_stake_age_secs: DEFAULT_MIN_STAKE_AGE_SECS,
        bump: ctx.bump,
    }
}

/// Why a stake of `amount` is not even collected, if it is not: it must be positive and paid in
/// the pool's mint.
pub open spec fn stake_request_error(pool: Pool, ctx: Stake, amount: u64) -> Option<
    RewardsError,
> {
    if amount == 0 {
        Some(RewardsError::ZeroAmount)
    } else if pool.vlt_mint != ctx.vlt_mint {
        Some(RewardsError::InvalidMint)
    } else {
        None
    }
}

/// Whether every number that a stake of `amount` leads to can be held.
pub open spec fn stake_fits(
    pool: Pool,
    account: StakeAccount,
    ctx: Stake,
    amount: u64,
    tier: LockTier,
) -> bool {
    &&& account.accrued_at(ctx.slot) <= u128::MAX
    &&& account.amount + amount <= u64::MAX
    &&& ctx.now + tier.days() * crate::rewards::state::SECS_PER_DAY <= i64::MAX
    &&& crate::rewards::state::weight_fits(amount)
    &&& pool.total_weighted_stake + amount <= u64::MAX
}

/// Why a stake is refused, if it is.
pub open spec fn stake_error(
    pool: Pool,
    account: StakeAccount,
    ctx: Stake,
    amount: u64,
    tier: LockTier,
) -> Option<RewardsError> {
    match stake_request_error(pool, ctx, amount) {
        Some(e) => Some(e),
        None => if stake_fits(pool, account, ctx, amount, tier) {
            None
        } else {
            Some(RewardsError::MathOverflow)
        },
    }
}

/// The account after a stake: the balance accrued so far is noted, the amount is added, the
/// whole stake is locked anew for `tier`, and the first stake starts the account's age.
pub open spec fn account_after_stake(
    account: StakeAccount,
    pool: Pool,
    ctx: Stake,
    amount: u64,
    tier: LockTier,
) -> StakeAccount {
    StakeAccount {
        owner: ctx.owner,
        amount: (account.amount + amount) as u64,
        tier,
        locked_until: (ctx.now + tier.days() * crate::rewards::state::SECS_PER_DAY) as i64,
        last_claim_epoch: pool.current_epoch,
        cumulative_weighted_balance: account.accrued_at(ctx.slot) as u128,
        last_update_slot: ctx.slot,
        stake_started_at: if account.stake_started_at == 0 {
            ctx.now
        } else {
            account.stake_started_at
        },
    }
}

/// The pool after a stake of `amount`.
pub open spec fn pool_after_stake(pool: Pool, amount: u64) -> Pool {
    Pool { total_weighted_stake: (pool.total_weighted_stake + amount) as u64, ..pool }
}

/// Whether `amount` may be collected for a stake.
pub fn check_stake_request(pool: &Pool, ctx: &Stake, amount: u64) -> (res: Result<(), RewardsError>)
    ensures
        match stake_request_error(*pool, *ctx, amount) {
            Some(e) => res == Err::<(), RewardsError>(e),
            None => res == Ok::<(), RewardsError>(()),
        },
{
    if amount == 0 {
        return Err(RewardsError::ZeroAmount);
    }
    if pool.vlt_mint != ctx.vlt_mint {
        return Err(RewardsError::InvalidMint);
    }
    Ok(())
}

/// Adds `amount`, which the owner pays, to the owner's stake and locks it for `tier`.
/// A refused stake changes nothing.
pub fn stake(
    pool: &mut Pool,
    account: &mut StakeAccount,
    ctx: &Stake,
    amount: u64,
    tier: LockTier,
) -> (res: Result<(), RewardsError>)
    ensures
        match stake_error(*old(pool), *old(account), *ctx, amount, tier) {
            Some(e) => {
                &&& res == Err::<(), RewardsError>(e)
                &&& *final(pool) == *old(pool)
                &&& *final(account) == *old(account)
            },
            None => {
                &&& res == Ok::<(), RewardsError>(())
                &&& *final(pool) == pool_after_stake(*old(pool), amount)
                &&& *final(account) == account_after_stake(
                    *old(account),
                    *old(pool),
                    *ctx,
                    amount,
                    tier,
                )
            },
        },
{
    check_stake_request(pool, ctx, amount)?;
    let cumulative_weighted_balance: u128 = account.accrue(ctx.slot)?;
    let total: u64 = account.amount.checked_add(amount).ok_or(RewardsError::MathOverflow)?;
    let locked_until: i64 = ctx.now.checked_add(tier.duration_secs()).ok_or(
        RewardsError::MathOverflow,
    )?;
    let weighted: u64 = weighted_stake(&tier, amount)?;
    let total_weighted_stake: u64 = pool.total_weighted_stake.checked_add(weighted).ok_or(
        RewardsError::MathOverflow,
    )?;

    account.owner = ctx.owner;
    account.amount = total;
    account.tier = tier;
    account.locked_until = locked_until;
    account.last_claim_epoch = pool.current_epoch;
    account.cumulative_weighted_balance = cumulative_weighted_balance;
    if account.stake_started_at == 0 {
        account.stake_started_at = ctx.now;
    }
    account.last_update_slot = ctx.slot;
    pool.total_weighted_stake = total_weighted_stake;
    Ok(())
}

/// Why an unstake is refused, if it is.
pub open spec fn unstake_error(pool: Pool, account: StakeAccount, ctx: Unstake) -> Option<
    RewardsError,
> {
    if account.owner != ctx.owner {
        Some(RewardsError::Unauthorized)
    } else if ctx.now < account.locked_until {
        Some(RewardsError::StillLocked)
    } else if pool.vlt_mint != ctx.vlt_mint {
        Some(RewardsError::InvalidMint)
    } else if account.accrued_at(ctx.slot) > u128::MAX || !crate::rewards::state::weight_fits(
        account.amount,
    ) || account.amount > pool.total_weighted_stake {
        Some(RewardsError::MathOverflow)
    } else {
        None
    }
}

/// The pool after the whole stake of `account` was taken out.
pub open spec fn pool_after_unstake(pool: Pool, account: StakeAccount) -> Pool {
    Pool { total_weighted_stake: (pool.total_weighted_stake - account.amount) as u64, ..pool }
}

/// The account after its whole stake was taken out at `slot`: the balance accrued so far is noted.
pub open spec fn account_after_unstake(account: StakeAccount, slot: u64) -> StakeAccount {
    StakeAccount {
        amount: 0,
        cumulative_weighted_balance: account.accrued_at(slot) as u128,
        last_update_slot: slot,
        ..account
    }
}

/// Takes the whole stake out once its lock has run out, and returns the amount that the pool
/// pays back to the owner. A refused unstake changes nothing.
pub fn unstake(pool: &mut Pool, account: &mut StakeAccount, ctx: &Unstake) -> (res: Result<
    u64,
    RewardsError,
>)
    ensures
        match unstake_error(*old(pool), *old(account), *ctx) {
            Some(e) => {
                &&& res == Err::<u64, RewardsError>(e)
                &&& *final(pool) == *old(pool)
                &&& *final(account) == *old(account)
            },
            None => {
                &&& res == Ok::<u64, RewardsError>(old(account).amount)
                &&& *final(pool) == pool_after_unstake(*old(pool), *old(account))
                &&& *final(account) == account_after_unstake(*old(account), ctx.slot)
            },
        },
{
    if account.owner != ctx.owner {
        return Err(RewardsError::Unauthorized);
    }
    if ctx.now < account.locked_until {
        return Err(RewardsError::StillLocked);
    }
    if pool.vlt_mint != ctx.vlt_mint {
        return Err(RewardsError::InvalidMint);
    }
    let cumulative_weighted_balance: u128 = account.accrue(ctx.slot)?;
    let amount: u64 = account.amount;
    let weighted: u64 = weighted_stake(&account.tier, amount)?;
    let total_weighted_stake: u64 = pool.total_weighted_stake.checked_sub(weighted).ok_or(
        RewardsError::MathOverflow,
    )?;

    account.cumulative_weighted_balance = cumulative_weighted_balance;
    account.last_update_slot = ctx.slot;
    account.amount = 0;
    pool.total_weighted_stake = total_weighted_stake;
    Ok(amount)
}

/// Why a stake account may not be closed, if it may not.
pub open spec fn close_error(account: StakeAccount, ctx: CloseStakeAccount) -> Option<
    RewardsError,
> {
    if account.owner != ctx.owner {
        Some(RewardsError::Unauthorized)
    } else if account.amount != 0 || ctx.now < account.locked_until {
        Some(RewardsError::StillLocked)
    } else {
        None
    }
}

/// Whether the owner may close the account and reclaim its rent: nothing is staked any more, and
/// the lock has run out.
pub fn close_stake_account(account: &StakeAccount, ctx: &CloseStakeAccount) -> (res: Result<
    (),
    RewardsError,
>)
    ensures
        match close_error(*account, *ctx) {
            Some(e) => res == Err::<(), RewardsError>(e),
            None => res == Ok::<(), RewardsError>(()),
        },
{
    if account.owner != ctx.owner {
        return Err(RewardsError::Unauthorized);
    }
    if account.amount != 0 {
        return Err(RewardsError::StillLocked);
    }
    if ctx.now < account.locked_until {
        return Err(RewardsError::StillLocked);
    }
    Ok(())
}

} // verus!
