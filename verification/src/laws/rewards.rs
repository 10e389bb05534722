//! Stakes, locks and claims.

use vstd::prelude::*;

use crate::rewards::claim::{Claim, DistributeEpoch};
use crate::rewards::staking::{CloseStakeAccount, Stake, Unstake};
use crate::rewards::state::{ClaimedBitmap, LockTier, Pool, RewardsError, StakeAccount};

verus! {

/// Sum of what is staked in `accounts`.
pub open spec fn staked_sum(accounts: Seq<StakeAccount>) -> int
    decreases accounts.len(),
{
    if accounts.len() == 0 {
        0
    } else {
        staked_sum(accounts.drop_last()) + accounts.last().amount
    }
}

/// The pool's total is the sum of all stakes: where it was before a stake or an unstake of one of
/// the accounts, it is after.
pub proof fn law_total_is_sum_of_stakes(
    pool: Pool,
    accounts: Seq<StakeAccount>,
    i: int,
    staked: Stake,
    amount: u64,
    tier: LockTier,
    unstaked: Unstake,
)
    requires
        0 <= i < accounts.len(),
        pool.total_weighted_stake == staked_sum(accounts),
    ensures
        crate::rewards::staking::stake_error(pool, accounts[i], staked, amount, tier) is None ==> {
            let a = crate::rewards::staking::account_after_stake(
                accounts[i],
                pool,
                staked,
                amount,
                tier,
            );
            crate::rewards::staking::pool_after_stake(pool, amount).total_weighted_stake
                == staked_sum(accounts.update(i, a))
        },
        crate::rewards::staking::unstake_error(pool, accounts[i], unstaked) is None ==> {
            let a = crate::rewards::staking::account_after_unstake(accounts[i], unstaked.slot);
            crate::rewards::staking::pool_after_unstake(pool, accounts[i]).total_weighted_stake
                == staked_sum(accounts.update(i, a))
        },
{
    lemma_staked_sum_update(
        accounts,
        i,
        crate::rewards::staking::account_after_stake(accounts[i], pool, staked, amount, tier),
    );
    lemma_staked_sum_update(
        accounts,
        i,
        crate::rewards::staking::account_after_unstake(accounts[i], unstaked.slot),
    );
}

/// Replacing an account changes the sum by the difference of the amounts.
proof fn lemma_staked_sum_update(accounts: Seq<StakeAccount>, i: int, account: StakeAccount)
    requires
        0 <= i < accounts.len(),
    ensures
        staked_sum(accounts.update(i, account)) == staked_sum(accounts) - accounts[i].amount
            + account.amount,
    decreases accounts.len(),
{
    let after = accounts.update(i, account);
    if i == accounts.len() - 1 {
        assert(after.drop_last() =~= accounts.drop_last());
    } else {
        lemma_staked_sum_update(accounts.drop_last(), i, account);
        assert(after.drop_last() =~= accounts.drop_last().update(i, account));
    }
}

/// No tier is boosted: a stake adds the same weight to the pool and the same amount to its account
/// whichever tier it is locked for.
pub proof fn law_no_tier_is_boosted(
    pool: Pool,
    account: StakeAccount,
    ctx: Stake,
    amount: u64,
    tier1: LockTier,
    tier2: LockTier,
)
    requires
        crate::rewards::staking::stake_error(pool, account, ctx, amount, tier1) is None,
    ensures
        crate::rewards::staking::pool_after_stake(pool, amount).total_weighted_stake
            == pool.total_weighted_stake + amount,
        crate::rewards::staking::account_after_stake(account, pool, ctx, amount, tier1).amount
            == crate::rewards::staking::account_after_stake(
            account,
            pool,
            ctx,
            amount,
            tier2,
        ).amount,
{
}

/// A stake is locked for its tier: until the days of the tier have gone by it cannot be taken out,
/// and its account cannot be closed while it is there.
pub proof fn law_stake_is_locked(
    pool: Pool,
    account: StakeAccount,
    ctx: Stake,
    amount: u64,
    tier: LockTier,
    later: Unstake,
    closing: CloseStakeAccount,
)
    requires
        crate::rewards::staking::stake_error(pool, account, ctx, amount, tier) is None,
        later.now < ctx.now + tier.days() * crate::rewards::state::SECS_PER_DAY,
    ensures
        ({
            let p = crate::rewards::staking::pool_after_stake(pool, amount);
            let a = crate::rewards::staking::account_after_stake(account, pool, ctx, amount, tier);
            &&& crate::rewards::staking::unstake_error(p, a, later) == Some(
                if later.owner == ctx.owner {
                    RewardsError::StillLocked
                } else {
                    RewardsError::Unauthorized
                },
            )
            &&& crate::rewards::staking::close_error(a, closing) == Some(
                if closing.owner == ctx.owner {
                    RewardsError::StillLocked
                } else {
                    RewardsError::Unauthorized
                },
            )
        }),
{
}

/// What was staked can be taken out once the lock has run out: the whole amount of the account
/// comes back, and the pool's total no longer holds any of it. The first stake of an account thus
/// leaves the pool as it was. The amount in basis points and the time-weighted balance must be
/// small enough to be held.
pub proof fn law_unstake_returns_stake(
    pool: Pool,
    account: StakeAccount,
    ctx: Stake,
    amount: u64,
    tier: LockTier,
    later: Unstake,
)
    requires
        crate::rewards::staking::stake_error(pool, account, ctx, amount, tier) is None,
        account.amount <= pool.total_weighted_stake,
        crate::rewards::state::weight_fits((account.amount + amount) as u64),
        crate::rewards::staking::account_after_stake(
            account,
            pool,
            ctx,
            amount,
            tier,
        ).accrued_at(later.slot) <= u128::MAX,
        later.owner == ctx.owner,
        later.vlt_mint == pool.vlt_mint,
        later.now >= ctx.now + tier.days() * crate::rewards::state::SECS_PER_DAY,
    ensures
        ({
            let p = crate::rewards::staking::pool_after_stake(pool, amount);
            let a = crate::rewards::staking::account_after_stake(account, pool, ctx, amount, tier);
            &&& crate::rewards::staking::unstake_error(p, a, later) is None
            &&& a.amount == account.amount + amount
            &&& crate::rewards::staking::pool_after_unstake(p, a).total_weighted_stake
                == pool.total_weighted_stake - account.amount
            &&& account.amount == 0 ==> crate::rewards::staking::pool_after_unstake(p, a) == pool
        }),
{
}

/// An account whose stake was taken out can be closed.
pub proof fn law_unstaked_account_closes(
    pool: Pool,
    account: StakeAccount,
    ctx: Unstake,
    closing: CloseStakeAccount,
)
    requires
        crate::rewards::staking::unstake_error(pool, account, ctx) is None,
        closing.owner == ctx.owner,
        closing.now >= ctx.now,
    ensures
        crate::rewards::staking::close_error(
            crate::rewards::staking::account_after_unstake(account, ctx.slot),
            closing,
        ) is None,
{
}

/// A claim is granted once per epoch: after it was, every further claim from the account in the
/// same epoch is refused, whatever its amount and proof.
pub proof fn law_one_claim_per_epoch(
    pool: Pool,
    account: StakeAccount,
    bitmap: ClaimedBitmap,
    again: Claim,
    amount: u64,
    proof_valid: bool,
)
    ensures
        ({
            let paid = StakeAccount { last_claim_epoch: pool.current_epoch, ..account };
            let error = crate::rewards::claim::claim_error(
                pool,
                paid,
                bitmap,
                again,
                amount,
                proof_valid,
            );
            &&& error is Some
            &&& again.owner == account.owner && amount > 0 ==> error == Some(
                RewardsError::AlreadyClaimed,
            )
        }),
{
}

/// A claim that is marked as paid is never granted again, even if the account forgets it.
pub proof fn law_paid_claim_is_not_replayed(
    pool: Pool,
    account: StakeAccount,
    ctx: Claim,
    amount: u64,
    proof_valid: bool,
)
    ensures
        crate::rewards::claim::claim_error(
            pool,
            account,
            (ClaimedBitmap { claimed: true }),
            ctx,
            amount,
            proof_valid,
        ) is Some,
{
}

/// A stake takes part from the next epoch on: whoever stakes cannot claim from the current epoch.
pub proof fn law_stake_waits_for_next_epoch(
    pool: Pool,
    account: StakeAccount,
    ctx: Stake,
    amount: u64,
    tier: LockTier,
    bitmap: ClaimedBitmap,
    claiming: Claim,
    claimed_amount: u64,
    proof_valid: bool,
)
    requires
        crate::rewards::staking::stake_error(pool, account, ctx, amount, tier) is None,
    ensures
        ({
            let error = crate::rewards::claim::claim_error(
                crate::rewards::staking::pool_after_stake(pool, amount),
                crate::rewards::staking::account_after_stake(account, pool, ctx, amount, tier),
                bitmap,
                claiming,
                claimed_amount,
                proof_valid,
            );
            &&& error is Some
            &&& claiming.owner == ctx.owner && claimed_amount > 0 ==> error == Some(
                RewardsError::AlreadyClaimed,
            )
        }),
{
}

/// A claim of the tree whose root the admin published is granted to its owner, once the stake is
/// old enough and the claim is not paid yet.
pub proof fn law_published_claim_is_granted(
    tree: crate::laws::merkle::ClaimTree,
    pool: Pool,
    account: StakeAccount,
    bitmap: ClaimedBitmap,
    ctx: Claim,
    amount: u64,
)
    requires
        pool.current_root == tree.root(),
        tree.has_claim(account.owner, pool.current_epoch, amount),
        account.owner == ctx.owner,
        amount > 0,
        account.last_claim_epoch < pool.current_epoch,
        i64::MIN <= ctx.now - account.stake_started_at <= i64::MAX,
        ctx.now - account.stake_started_at >= pool.min_stake_age_secs,
        !bitmap.claimed,
    ensures
        ({
            let proof_nodes = tree.proof_of(account.owner, pool.current_epoch, amount);
            crate::rewards::claim::claim_error(
                pool,
                account,
                bitmap,
                ctx,
                amount,
                crate::rewards::claim::claim_proved(pool, account, amount, proof_nodes),
            ) is None
        }),
{
    crate::laws::merkle::law_every_claim_is_provable(
        tree,
        account.owner,
        pool.current_epoch,
        amount,
    );
}

/// A tier lasts 30, 90 or 180 days of 86_400 seconds.
pub proof fn law_tiers_last_as_named(tier: LockTier)
    ensures
        tier.days() * crate::rewards::state::SECS_PER_DAY == match tier {
            LockTier::Days30 => 2_592_000int,
            LockTier::Days90 => 7_776_000int,
            LockTier::Days180 => 15_552_000int,
        },
{
}

/// A stake accrues its whole amount for every slot since the last update; where nothing is staked,
/// the account was never updated, or no slot has gone by, nothing is added. It counts in the pool
/// wherever its basis points can be held.
pub proof fn law_stake_accrues_per_slot(account: StakeAccount, slot: u64)
    ensures
        account.amount > 0 && 0 < account.last_update_slot <= slot ==> account.accrued_at(slot)
            == account.cumulative_weighted_balance + account.amount * (slot
            - account.last_update_slot),
        account.amount == 0 || account.last_update_slot == 0 || slot <= account.last_update_slot
            ==> account.accrued_at(slot) == account.cumulative_weighted_balance,
        crate::rewards::state::weight_fits(account.amount) <==> account.amount * 10_000 <= u64::MAX,
{
    if slot <= account.last_update_slot {
        assert(account.amount * 0 == 0);
    }
}

/// Which stakes go through, and why others do not: something is staked, in the pool's mint, and
/// every number that comes of it can be held.
pub proof fn law_stake_goes_through(
    pool: Pool,
    account: StakeAccount,
    ctx: Stake,
    amount: u64,
    tier: LockTier,
)
    ensures
        ({
            let request = crate::rewards::staking::stake_request_error(pool, ctx, amount);
            let error = crate::rewards::staking::stake_error(pool, account, ctx, amount, tier);
            let lock = match tier {
                LockTier::Days30 => 2_592_000int,
                LockTier::Days90 => 7_776_000int,
                LockTier::Days180 => 15_552_000int,
            };
            let asked = amount > 0 && ctx.vlt_mint == pool.vlt_mint;
            let fits = account.accrued_at(ctx.slot) <= u128::MAX && account.amount + amount
                <= u64::MAX && ctx.now + lock <= i64::MAX && amount * 10_000 <= u64::MAX
                && pool.total_weighted_stake + amount <= u64::MAX;
            &&& request is None <==> asked
            &&& request == Some(RewardsError::ZeroAmount) <==> amount == 0
            &&& request == Some(RewardsError::InvalidMint) <==> amount > 0 && ctx.vlt_mint
                != pool.vlt_mint
            &&& error is None <==> asked && fits
            &&& error == Some(RewardsError::ZeroAmount) <==> amount == 0
            &&& error == Some(RewardsError::InvalidMint) <==> amount > 0 && ctx.vlt_mint
                != pool.vlt_mint
            &&& error == Some(RewardsError::MathOverflow) <==> asked && !fits
        }),
{
}

/// What a stake changes: the account holds more by the amount, belongs to the staker, is locked for
/// the tier from now on, may claim from the next epoch on, and has noted what it accrued; the pool's
/// total grows by the amount. An account keeps the time of its first stake.
pub proof fn law_stake_is_noted(
    pool: Pool,
    account: StakeAccount,
    ctx: Stake,
    amount: u64,
    tier: LockTier,
)
    requires
        crate::rewards::staking::stake_error(pool, account, ctx, amount, tier) is None,
    ensures
        ({
            let a = crate::rewards::staking::account_after_stake(account, pool, ctx, amount, tier);
            let p = crate::rewards::staking::pool_after_stake(pool, amount);
            &&& a.owner == ctx.owner
            &&& a.amount == account.amount + amount
            &&& a.tier == tier
            &&& a.locked_until - ctx.now == match tier {
                LockTier::Days30 => 2_592_000int,
                LockTier::Days90 => 7_776_000int,
                LockTier::Days180 => 15_552_000int,
            }
            &&& a.last_claim_epoch == pool.current_epoch
            &&& a.cumulative_weighted_balance == account.accrued_at(ctx.slot)
            &&& a.last_update_slot == ctx.slot
            &&& account.stake_started_at == 0 ==> a.stake_started_at == ctx.now
            &&& account.stake_started_at != 0 ==> a.stake_started_at == account.stake_started_at
            &&& p.total_weighted_stake == pool.total_weighted_stake + amount
            &&& p == (Pool { total_weighted_stake: p.total_weighted_stake, ..pool })
        }),
{
    assert(account.accrued_at(ctx.slot) >= 0) by {
        lemma_accrued_nonneg(account, ctx.slot);
    }
}

/// A time-weighted balance is not negative.
proof fn lemma_accrued_nonneg(account: StakeAccount, slot: u64)
    ensures
        0 <= account.accrued_at(slot),
{
    let n = crate::rewards::state::slots_between(account.last_update_slot, slot);
    assert(account.amount * n >= 0) by (nonlinear_arith)
        requires
            n >= 0,
    ;
}

/// Which stakes can be taken out, and why others cannot: the owner asks, the lock has run out, the
/// mint is the pool's, and every number can be held.
pub proof fn law_unstake_goes_through(pool: Pool, account: StakeAccount, ctx: Unstake)
    ensures
        ({
            let error = crate::rewards::staking::unstake_error(pool, account, ctx);
            let owner = ctx.owner == account.owner;
            let free = ctx.now >= account.locked_until;
            let mint = ctx.vlt_mint == pool.vlt_mint;
            let fits = account.accrued_at(ctx.slot) <= u128::MAX && account.amount * 10_000
                <= u64::MAX && account.amount <= pool.total_weighted_stake;
            &&& error is None <==> owner && free && mint && fits
            &&& error == Some(RewardsError::Unauthorized) <==> !owner
            &&& error == Some(RewardsError::StillLocked) <==> owner && !free
            &&& error == Some(RewardsError::InvalidMint) <==> owner && free && !mint
            &&& error == Some(RewardsError::MathOverflow) <==> owner && free && mint && !fits
        }),
{
}

/// What taking a stake out changes: the account is empty and has noted what it accrued, and the
/// pool's total falls by what the account held.
pub proof fn law_unstake_is_noted(pool: Pool, account: StakeAccount, ctx: Unstake)
    requires
        crate::rewards::staking::unstake_error(pool, account, ctx) is None,
    ensures
        ({
            let a = crate::rewards::staking::account_after_unstake(account, ctx.slot);
            let p = crate::rewards::staking::pool_after_unstake(pool, account);
            &&& a.amount == 0
            &&& a.cumulative_weighted_balance == account.accrued_at(ctx.slot)
            &&& a.last_update_slot == ctx.slot
            &&& a.owner == account.owner
            &&& a.tier == account.tier
            &&& a.locked_until == account.locked_until
            &&& a.last_claim_epoch == account.last_claim_epoch
            &&& a.stake_started_at == account.stake_started_at
            &&& p.total_weighted_stake == pool.total_weighted_stake - account.amount
            &&& p == (Pool { total_weighted_stake: p.total_weighted_stake, ..pool })
        }),
{
    lemma_accrued_nonneg(account, ctx.slot);
}

/// An account can be closed exactly by its owner, once it is empty and its lock has run out.
pub proof fn law_account_closes(account: StakeAccount, ctx: CloseStakeAccount)
    ensures
        ({
            let error = crate::rewards::staking::close_error(account, ctx);
            let owner = ctx.owner == account.owner;
            let done = account.amount == 0 && ctx.now >= account.locked_until;
            &&& error is None <==> owner && done
            &&& error == Some(RewardsError::Unauthorized) <==> !owner
            &&& error == Some(RewardsError::StillLocked) <==> owner && !done
        }),
{
}

/// An epoch is published exactly by the pool's admin, as long as epochs can be counted.
pub proof fn law_epoch_is_published(pool: Pool, ctx: DistributeEpoch)
    ensures
        ({
            let error = crate::rewards::claim::distribute_error(pool, ctx);
            let admin = ctx.admin == pool.admin;
            &&& error is None <==> admin && pool.current_epoch < u64::MAX
            &&& error == Some(RewardsError::Unauthorized) <==> !admin
            &&& error == Some(RewardsError::MathOverflow) <==> admin && pool.current_epoch
                == u64::MAX
        }),
{
}

/// Which claims are granted, and why others are not: the owner of the stake claims something, has
/// not claimed from this epoch, the stake is as old as the pool asks, the claim is not marked as
/// paid, and its proof is valid.
pub proof fn law_claim_is_granted(
    pool: Pool,
    account: StakeAccount,
    bitmap: ClaimedBitmap,
    ctx: Claim,
    amount: u64,
    proof_valid: bool,
)
    ensures
        ({
            let error = crate::rewards::claim::claim_error(
                pool,
                account,
                bitmap,
                ctx,
                amount,
                proof_valid,
            );
            let age = ctx.now - account.stake_started_at;
            let owner = ctx.owner == account.owner;
            let open = owner && amount > 0 && account.last_claim_epoch < pool.current_epoch;
            let aged = i64::MIN <= age <= i64::MAX;
            let old_enough = age >= pool.min_stake_age_secs;
            &&& error is None <==> open && aged && old_enough && !bitmap.claimed && proof_valid
            &&& error == Some(RewardsError::Unauthorized) <==> !owner
            &&& error == Some(RewardsError::ZeroAmount) <==> owner && amount == 0
            &&& error == Some(RewardsError::AlreadyClaimed) <==> owner && amount > 0 && (
            account.last_claim_epoch >= pool.current_epoch || (aged && old_enough
                && bitmap.claimed))
            &&& error == Some(RewardsError::MathOverflow) <==> open && !aged
            &&& error == Some(RewardsError::StakeNotOldEnough) <==> open && aged && !old_enough
            &&& error == Some(RewardsError::InvalidMerkleProof) <==> open && aged && old_enough
                && !bitmap.claimed && !proof_valid
        }),
{
}

/// No claim is granted to a young stake, whatever its tier, the amount and the proof.
pub proof fn law_young_stake_is_not_paid(
    pool: Pool,
    account: StakeAccount,
    bitmap: ClaimedBitmap,
    ctx: Claim,
    amount: u64,
    proof_valid: bool,
)
    requires
        ctx.now - account.stake_started_at < pool.min_stake_age_secs,
    ensures
        crate::rewards::claim::claim_error(pool, account, bitmap, ctx, amount, proof_valid) is Some,
{
}

/// A claim is decided by the owner, the time of the first stake and the last claim alone: neither
/// the tier nor the amount, lock or accrued balance of the stake plays a part.
pub proof fn law_claim_ignores_tier_and_amount(
    pool: Pool,
    first: StakeAccount,
    second: StakeAccount,
    bitmap: ClaimedBitmap,
    ctx: Claim,
    amount: u64,
    proof_nodes: Seq<[u8; 32]>,
    proof_valid: bool,
)
    requires
        first.owner == second.owner,
        first.stake_started_at == second.stake_started_at,
        first.last_claim_epoch == second.last_claim_epoch,
    ensures
        crate::rewards::claim::claim_error(pool, first, bitmap, ctx, amount, proof_valid)
            == crate::rewards::claim::claim_error(pool, second, bitmap, ctx, amount, proof_valid),
        crate::rewards::claim::claim_proved(pool, first, amount, proof_nodes)
            == crate::rewards::claim::claim_proved(pool, second, amount, proof_nodes),
{
}

/// A proof is valid exactly where it leads from the leaf of the owner, the current epoch and the
/// claimed amount to the pool's root.
pub proof fn law_proof_is_of_owner_epoch_and_amount(
    pool: Pool,
    account: StakeAccount,
    amount: u64,
    proof_nodes: Seq<[u8; 32]>,
    data: Seq<u8>,
)
    requires
        data.len() == 48,
        data.subrange(0, 32) == account.owner.bytes@,
        data.subrange(32, 40) == vstd::bytes::spec_u64_to_le_bytes(pool.current_epoch),
        data.subrange(40, 48) == vstd::bytes::spec_u64_to_le_bytes(amount),
    ensures
        crate::rewards::claim::claim_proved(pool, account, amount, proof_nodes)
            <==> crate::rewards::merkle::root_from(
            crate::rewards::merkle::sha256_digest(data),
            proof_nodes,
        ) == pool.current_root,
{
    vstd::bytes::lemma_auto_spec_u64_to_from_le_bytes();
    assert(data =~= data.subrange(0, 32) + data.subrange(32, 40) + data.subrange(40, 48));
    assert(crate::rewards::merkle::leaf_bytes(account.owner, pool.current_epoch, amount) =~= data);
}

/// Two accruals add up: what a stake accrues over two stretches of slots is what it accrues over
/// both at once.
pub proof fn law_accrual_is_additive(account: StakeAccount, middle: u64, end: u64)
    requires
        account.last_update_slot <= middle <= end,
        middle > 0,
        account.last_update_slot > 0,
        account.accrued_at(middle) <= u128::MAX,
    ensures
        ({
            let at_middle = StakeAccount {
                cumulative_weighted_balance: account.accrued_at(middle) as u128,
                last_update_slot: middle,
                ..account
            };
            at_middle.accrued_at(end) == account.accrued_at(end)
        }),
{
    let a = account.amount as int;
    let l = account.last_update_slot as int;
    assert(a * (middle - l) + a * (end - middle) == a * (end - l)) by (nonlinear_arith);
    assert(a * (middle - l) >= 0) by (nonlinear_arith)
        requires
            a >= 0,
            middle >= l,
    ;
}

} // verus!
