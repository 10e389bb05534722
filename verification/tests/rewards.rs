use sha2::{Digest, Sha256};
use xvault::rewards::merkle::{leaf_preimage, pair_preimage};
use xvault::rewards::{
    check_stake_request, claim, close_stake_account, compute_leaf, distribute_epoch, init_pool,
    settle_claim, stake, unstake, verify_proof, Claim, ClaimedBitmap, CloseStakeAccount,
    DistributeEpoch, InitPool, InitPoolArgs, LockTier, Pool, RewardsError, Stake, StakeAccount,
    Unstake,
};
use xvault::Pubkey;

const DAY: i64 = 86_400;

fn key(n: u8) -> Pubkey {
    Pubkey::new([n; 32])
}

fn pool() -> Pool {
    init_pool(
        &InitPool { admin: key(1), bump: 250 },
        &InitPoolArgs { vlt_mint: key(10), reward_mint: key(11) },
    )
}

/// A stake account as it is when it has just been created.
fn account() -> StakeAccount {
    StakeAccount {
        owner: key(0),
        amount: 0,
        tier: LockTier::Days30,
        locked_until: 0,
        last_claim_epoch: 0,
        cumulative_weighted_balance: 0,
        last_update_slot: 0,
        stake_started_at: 0,
    }
}

fn staking(now: i64, slot: u64) -> Stake {
    Stake { owner: key(2), vlt_mint: key(10), now, slot }
}

fn unstaking(now: i64, slot: u64) -> Unstake {
    Unstake { owner: key(2), vlt_mint: key(10), now, slot }
}

fn sha(data: &[u8]) -> [u8; 32] {
    Sha256::digest(data).into()
}

fn node(a: &[u8; 32], b: &[u8; 32]) -> [u8; 32] {
    let mut data = Vec::new();
    if a <= b {
        data.extend_from_slice(a);
        data.extend_from_slice(b);
    } else {
        data.extend_from_slice(b);
        data.extend_from_slice(a);
    }
    sha(&data)
}

#[test]
fn fresh_pool_is_empty() {
    let p = pool();
    assert_eq!(p.admin, key(1));
    assert_eq!(p.vlt_mint, key(10));
    assert_eq!(p.reward_mint, key(11));
    assert_eq!(p.total_weighted_stake, 0);
    assert_eq!(p.current_epoch, 0);
    assert_eq!(p.current_root, [0; 32]);
    assert_eq!(p.min_stake_age_secs, 7 * DAY);
    assert_eq!(p.bump, 250);
}

#[test]
fn tiers_differ_in_length_only() {
    assert_eq!(LockTier::Days30.duration_secs(), 2_592_000);
    assert_eq!(LockTier::Days90.duration_secs(), 7_776_000);
    assert_eq!(LockTier::Days180.duration_secs(), 15_552_000);
    assert_eq!(LockTier::Days30.weight_bps(), 10_000);
    assert_eq!(LockTier::Days90.weight_bps(), 10_000);
    assert_eq!(LockTier::Days180.weight_bps(), 10_000);
}

#[test]
fn stake_is_noted_and_locked() {
    let (mut p, mut a) = (pool(), account());
    p.current_epoch = 4;
    assert_eq!(stake(&mut p, &mut a, &staking(1_000, 50), 500, LockTier::Days90), Ok(()));
    assert_eq!(a.owner, key(2));
    assert_eq!(a.amount, 500);
    assert_eq!(a.tier, LockTier::Days90);
    assert_eq!(a.locked_until, 1_000 + 90 * DAY);
    assert_eq!(a.last_claim_epoch, 4);
    assert_eq!(a.cumulative_weighted_balance, 0);
    assert_eq!(a.last_update_slot, 50);
    assert_eq!(a.stake_started_at, 1_000);
    assert_eq!(p.total_weighted_stake, 500);
}

#[test]
fn second_stake_accrues_and_locks_anew() {
    let (mut p, mut a) = (pool(), account());
    assert_eq!(stake(&mut p, &mut a, &staking(1_000, 50), 500, LockTier::Days90), Ok(()));
    assert_eq!(stake(&mut p, &mut a, &staking(2_000, 60), 100, LockTier::Days30), Ok(()));
    assert_eq!(a.amount, 600);
    assert_eq!(a.tier, LockTier::Days30);
    assert_eq!(a.locked_until, 2_000 + 30 * DAY);
    assert_eq!(a.cumulative_weighted_balance, 500 * 10);
    assert_eq!(a.last_update_slot, 60);
    // The age of the stake is that of its first deposit.
    assert_eq!(a.stake_started_at, 1_000);
    assert_eq!(p.total_weighted_stake, 600);
}

#[test]
fn accrual_in_two_steps_is_accrual_in_one() {
    let mut a = account();
    a.amount = 7;
    a.last_update_slot = 100;
    assert_eq!(a.accrue(130), Ok(210));
    a.cumulative_weighted_balance = a.accrue(110).unwrap();
    a.last_update_slot = 110;
    assert_eq!(a.accrue(130), Ok(210));
    // The slot never runs backwards.
    assert_eq!(a.accrue(5), Ok(70));
    // An account that was never updated accrues nothing.
    a.last_update_slot = 0;
    assert_eq!(a.accrue(130), Ok(70));
}

#[test]
fn stake_requests_are_checked() {
    let p = pool();
    assert_eq!(check_stake_request(&p, &staking(1, 1), 5), Ok(()));
    assert_eq!(check_stake_request(&p, &staking(1, 1), 0), Err(RewardsError::ZeroAmount));
    let other = Stake { owner: key(2), vlt_mint: key(11), now: 1, slot: 1 };
    assert_eq!(check_stake_request(&p, &other, 5), Err(RewardsError::InvalidMint));
    assert_eq!(check_stake_request(&p, &other, 0), Err(RewardsError::ZeroAmount));
}

#[test]
fn refused_stake_changes_nothing() {
    let (mut p, mut a) = (pool(), account());
    let big = u64::MAX / 10_000;
    let tier = LockTier::Days30;
    let overflow = Err(RewardsError::MathOverflow);
    assert_eq!(stake(&mut p, &mut a, &staking(1, 1), 0, tier), Err(RewardsError::ZeroAmount));
    // The weight in basis points.
    assert_eq!(stake(&mut p, &mut a, &staking(1, 1), big + 1, tier), overflow);
    // The end of the lock.
    assert_eq!(stake(&mut p, &mut a, &staking(i64::MAX, 1), 5, tier), overflow);
    // The pool's total.
    p.total_weighted_stake = u64::MAX - 4;
    assert_eq!(stake(&mut p, &mut a, &staking(1, 1), 5, tier), overflow);
    assert_eq!(p.total_weighted_stake, u64::MAX - 4);
    assert_eq!((a.amount, a.locked_until, a.owner), (0, 0, key(0)));
    // The account's own amount, and its accrued balance.
    p.total_weighted_stake = 0;
    a.amount = u64::MAX;
    assert_eq!(stake(&mut p, &mut a, &staking(1, 1), 1, tier), overflow);
    a.last_update_slot = 1;
    a.amount = 2;
    a.cumulative_weighted_balance = u128::MAX - 1;
    assert_eq!(stake(&mut p, &mut a, &staking(1, 2), 1, tier), overflow);
    assert_eq!(a.amount, 2);
    assert_eq!(stake(&mut p, &mut a, &staking(1, 1), big, tier), Ok(()));
    assert_eq!(p.total_weighted_stake, big);
}

#[test]
fn unstake_returns_the_whole_stake() {
    let (mut p, mut a) = (pool(), account());
    p.total_weighted_stake = 1_000;
    assert_eq!(stake(&mut p, &mut a, &staking(1_000, 50), 500, LockTier::Days30), Ok(()));
    let end = 1_000 + 30 * DAY;
    assert_eq!(
        unstake(&mut p, &mut a, &unstaking(end - 1, 70)),
        Err(RewardsError::StillLocked)
    );
    assert_eq!(a.amount, 500);
    assert_eq!(unstake(&mut p, &mut a, &unstaking(end, 70)), Ok(500));
    assert_eq!(a.amount, 0);
    assert_eq!(a.cumulative_weighted_balance, 500 * 20);
    assert_eq!(a.last_update_slot, 70);
    assert_eq!(a.locked_until, end);
    assert_eq!(p.total_weighted_stake, 1_000);
    // Nothing is left to take out.
    assert_eq!(unstake(&mut p, &mut a, &unstaking(end, 80)), Ok(0));
    assert_eq!(a.cumulative_weighted_balance, 500 * 20);
}

#[test]
fn total_is_the_sum_of_the_stakes() {
    let (mut p, mut a, mut b) = (pool(), account(), account());
    stake(&mut p, &mut a, &staking(0, 1), 500, LockTier::Days30).unwrap();
    let other = Stake { owner: key(3), vlt_mint: key(10), now: 0, slot: 1 };
    stake(&mut p, &mut b, &other, 70, LockTier::Days180).unwrap();
    assert_eq!(p.total_weighted_stake, a.amount + b.amount);
    stake(&mut p, &mut a, &staking(5, 2), 30, LockTier::Days90).unwrap();
    assert_eq!(p.total_weighted_stake, a.amount + b.amount);
    unstake(&mut p, &mut a, &unstaking(91 * DAY, 3)).unwrap();
    assert_eq!(p.total_weighted_stake, a.amount + b.amount);
    assert_eq!(p.total_weighted_stake, 70);
}

#[test]
fn unstake_is_refused_to_others() {
    let (mut p, mut a) = (pool(), account());
    assert_eq!(stake(&mut p, &mut a, &staking(0, 1), 500, LockTier::Days30), Ok(()));
    let stranger = Unstake { owner: key(3), vlt_mint: key(10), now: i64::MAX, slot: 2 };
    assert_eq!(unstake(&mut p, &mut a, &stranger), Err(RewardsError::Unauthorized));
    let mint = Unstake { owner: key(2), vlt_mint: key(11), now: i64::MAX, slot: 2 };
    assert_eq!(unstake(&mut p, &mut a, &mint), Err(RewardsError::InvalidMint));
    p.total_weighted_stake = 499;
    assert_eq!(
        unstake(&mut p, &mut a, &unstaking(i64::MAX, 2)),
        Err(RewardsError::MathOverflow)
    );
    assert_eq!((a.amount, p.total_weighted_stake), (500, 499));
}

#[test]
fn account_closes_once_unstaked() {
    let (mut p, mut a) = (pool(), account());
    assert_eq!(stake(&mut p, &mut a, &staking(0, 1), 500, LockTier::Days30), Ok(()));
    let end = 30 * DAY;
    let closing = CloseStakeAccount { owner: key(2), now: end };
    assert_eq!(close_stake_account(&a, &closing), Err(RewardsError::StillLocked));
    assert_eq!(unstake(&mut p, &mut a, &unstaking(end, 2)), Ok(500));
    assert_eq!(close_stake_account(&a, &closing), Ok(()));
    let early = CloseStakeAccount { owner: key(2), now: end - 1 };
    assert_eq!(close_stake_account(&a, &early), Err(RewardsError::StillLocked));
    let stranger = CloseStakeAccount { owner: key(3), now: end };
    assert_eq!(close_stake_account(&a, &stranger), Err(RewardsError::Unauthorized));
}

#[test]
fn leaf_commits_to_owner_epoch_and_amount() {
    let data = leaf_preimage(&key(2), 0x0102, 3);
    let mut expected = vec![2u8; 32];
    expected.extend_from_slice(&[2, 1, 0, 0, 0, 0, 0, 0]);
    expected.extend_from_slice(&[3, 0, 0, 0, 0, 0, 0, 0]);
    assert_eq!(data, expected);
    assert_eq!(compute_leaf(&key(2), 0x0102, 3), sha(&expected));
    assert_ne!(compute_leaf(&key(2), 0x0102, 3), compute_leaf(&key(2), 0x0102, 4));
    assert_ne!(compute_leaf(&key(2), 0x0102, 3), compute_leaf(&key(2), 0x0103, 3));
    assert_ne!(compute_leaf(&key(2), 0x0102, 3), compute_leaf(&key(3), 0x0102, 3));
}

#[test]
fn pair_puts_the_smaller_child_first() {
    let (a, b) = ([1u8; 32], [2u8; 32]);
    let data = pair_preimage(&a, &b);
    assert_eq!(&data[..32], &a);
    assert_eq!(&data[32..], &b);
    assert_eq!(pair_preimage(&b, &a), data);
    // The last byte decides where the others are equal.
    let mut c = a;
    c[31] = 0;
    assert_eq!(&pair_preimage(&a, &c)[..32], &c);
}

#[test]
fn every_leaf_of_a_tree_has_a_proof() {
    let l: Vec<[u8; 32]> = (0..4).map(|i| compute_leaf(&key(i), 1, 100)).collect();
    let (left, right) = (node(&l[0], &l[1]), node(&l[2], &l[3]));
    let root = node(&left, &right);
    assert!(verify_proof(&[l[1], right], &root, &l[0]));
    assert!(verify_proof(&[l[0], right], &root, &l[1]));
    assert!(verify_proof(&[l[3], left], &root, &l[2]));
    assert!(verify_proof(&[l[2], left], &root, &l[3]));
    assert!(!verify_proof(&[right, l[1]], &root, &l[0]));
    assert!(!verify_proof(&[l[1]], &root, &l[0]));
    assert!(!verify_proof(&[], &root, &l[0]));
}

#[test]
fn epoch_is_published_by_the_admin() {
    let mut p = pool();
    let event = distribute_epoch(&mut p, &DistributeEpoch { admin: key(1) }, [7; 32], 900).unwrap();
    assert_eq!((event.epoch, event.root, event.total_reward_amount), (1, [7; 32], 900));
    assert_eq!((p.current_epoch, p.current_root), (1, [7; 32]));
    let refused = distribute_epoch(&mut p, &DistributeEpoch { admin: key(2) }, [8; 32], 1);
    assert_eq!(refused.unwrap_err(), RewardsError::Unauthorized);
    p.current_epoch = u64::MAX;
    let last = distribute_epoch(&mut p, &DistributeEpoch { admin: key(1) }, [8; 32], 1);
    assert_eq!(last.unwrap_err(), RewardsError::MathOverflow);
    assert_eq!((p.current_epoch, p.current_root), (u64::MAX, [7; 32]));
}

/// A pool, a stake of owner 2 and an epoch that grants the owner 40.
fn published() -> (Pool, StakeAccount, Vec<[u8; 32]>) {
    let (mut p, mut a) = (pool(), account());
    stake(&mut p, &mut a, &staking(1_000, 50), 500, LockTier::Days30).unwrap();
    let sibling = compute_leaf(&key(3), 1, 60);
    let root = node(&compute_leaf(&key(2), 1, 40), &sibling);
    distribute_epoch(&mut p, &DistributeEpoch { admin: key(1) }, root, 100).unwrap();
    (p, a, vec![sibling])
}

#[test]
fn published_claim_is_granted_once() {
    let (mut p, mut a, proof) = published();
    let mut bitmap = ClaimedBitmap { claimed: false };
    let ctx = Claim { owner: key(2), now: 1_000 + 7 * DAY };
    let event = claim(&p, &mut a, &mut bitmap, &ctx, 40, &proof).unwrap();
    assert_eq!((event.owner, event.epoch, event.amount), (key(2), 1, 40));
    assert!(bitmap.claimed);
    assert_eq!(a.last_claim_epoch, 1);
    let again = claim(&p, &mut a, &mut bitmap, &ctx, 40, &proof);
    assert_eq!(again.unwrap_err(), RewardsError::AlreadyClaimed);
    // The flag alone refuses it too.
    a.last_claim_epoch = 0;
    let replay = claim(&p, &mut a, &mut bitmap, &ctx, 40, &proof);
    assert_eq!(replay.unwrap_err(), RewardsError::AlreadyClaimed);
    // The leaf of an epoch proves nothing in the next one.
    let root = p.current_root;
    distribute_epoch(&mut p, &DistributeEpoch { admin: key(1) }, root, 100).unwrap();
    let mut next = ClaimedBitmap { claimed: false };
    let stale = claim(&p, &mut a, &mut next, &ctx, 40, &proof);
    assert_eq!(stale.unwrap_err(), RewardsError::InvalidMerkleProof);
}

#[test]
fn refused_claims_say_why() {
    let (p, mut a, proof) = published();
    let mut bitmap = ClaimedBitmap { claimed: false };
    let ctx = Claim { owner: key(2), now: 1_000 + 7 * DAY };
    let stranger = Claim { owner: key(3), now: ctx.now };
    let early = Claim { owner: key(2), now: ctx.now - 1 };
    let mut run = |c: &Claim, amount: u64| {
        claim(&p, &mut a, &mut bitmap, c, amount, &proof).unwrap_err()
    };
    assert_eq!(run(&stranger, 40), RewardsError::Unauthorized);
    assert_eq!(run(&ctx, 0), RewardsError::ZeroAmount);
    assert_eq!(run(&early, 40), RewardsError::StakeNotOldEnough);
    assert_eq!(run(&ctx, 41), RewardsError::InvalidMerkleProof);
    assert!(!bitmap.claimed);
    assert_eq!(a.last_claim_epoch, 0);
    a.stake_started_at = -10;
    let far = Claim { owner: key(2), now: i64::MAX };
    let overflow = claim(&p, &mut a, &mut bitmap, &far, 40, &proof);
    assert_eq!(overflow.unwrap_err(), RewardsError::MathOverflow);
}

#[test]
fn stake_waits_for_the_next_epoch() {
    let (mut p, mut a, proof) = published();
    stake(&mut p, &mut a, &staking(2_000, 60), 1, LockTier::Days30).unwrap();
    let mut bitmap = ClaimedBitmap { claimed: false };
    let ctx = Claim { owner: key(2), now: 1_000 + 7 * DAY };
    let refused = claim(&p, &mut a, &mut bitmap, &ctx, 40, &proof);
    assert_eq!(refused.unwrap_err(), RewardsError::AlreadyClaimed);
}

#[test]
fn settled_claim_follows_the_proof() {
    let (p, mut a, _) = published();
    let mut bitmap = ClaimedBitmap { claimed: false };
    let ctx = Claim { owner: key(2), now: 1_000 + 7 * DAY };
    let refused = settle_claim(&p, &mut a, &mut bitmap, &ctx, 9, false);
    assert_eq!(refused.unwrap_err(), RewardsError::InvalidMerkleProof);
    let granted = settle_claim(&p, &mut a, &mut bitmap, &ctx, 9, true).unwrap();
    assert_eq!((granted.epoch, granted.amount), (1, 9));
    assert!(bitmap.claimed);
}
