//! Withdrawals in kind: shares in, a pro-rata slice of every holding out. Nothing is swapped.

use vstd::prelude::*;

use crate::pubkey::Pubkey;
use crate::vault::accounts::{read_mint, read_token_account, RawAccount, TokenAccount};
use crate::vault::errors::{InstructionError, VaultError};
use crate::vault::state::{Holding, Vault, VaultView};

verus! {

/// The vault's address, and the supply of shares before the withdrawal.
pub struct WithdrawInKind {
    pub vault_key: Pubkey,
    pub total_shares: u64,
}

/// The accounts that one holding is paid out through.
pub struct WithdrawLeg {
    /// The vault's token account of the holding.
    pub vault_ata: TokenAccount,
    /// The user's token account of the holding.
    pub user_ata: TokenAccount,
    /// Mint of the holding.
    pub mint: Pubkey,
}

/// The part of a raw balance that `shares` of `total_shares` stand for, rounded down and cut to
/// the 64 bits of a token amount. Where `shares` are no more than `total_shares` nothing is cut.
pub open spec fn slice(raw_balance: u64, shares: u64, total_shares: u64) -> int {
    raw_balance * shares / (total_shares as int) % 0x1_0000_0000_0000_0000
}

/// Why a request is refused before any share is burnt, if it is.
pub open spec fn request_error(ctx: WithdrawInKind, shares: u64) -> Option<VaultError> {
    if shares == 0 {
        Some(VaultError::ZeroAmount)
    } else if ctx.total_shares == 0 {
        Some(VaultError::MathOverflow)
    } else {
        None
    }
}

/// Whether the accounts of a leg belong to the holding, and the paying one to the vault.
pub open spec fn leg_matches(holding: Holding, leg: WithdrawLeg, vault_key: Pubkey) -> bool {
    &&& leg.mint == holding.mint
    &&& leg.vault_ata.mint == holding.mint
    &&& leg.user_ata.mint == holding.mint
    &&& leg.vault_ata.owner == vault_key
}

/// Why one holding cannot be paid out, if it cannot: its accounts cannot be read (`Err` holds the
/// program error code) or are not the right ones, or the balance does not hold the slice.
pub open spec fn leg_error(
    holding: Holding,
    leg: Result<WithdrawLeg, u64>,
    ctx: WithdrawInKind,
    shares: u64,
) -> Option<InstructionError> {
    match leg {
        Err(code) => Some(InstructionError::Program(code)),
        Ok(accounts) => if !leg_matches(holding, accounts, ctx.vault_key) {
            Some(InstructionError::Vault(VaultError::InvalidRemainingAccounts))
        } else if slice(holding.raw_balance, shares, ctx.total_shares) > holding.raw_balance {
            Some(InstructionError::Vault(VaultError::MathOverflow))
        } else {
            None
        },
    }
}

/// Why the first `n` holdings cannot be paid out, if they cannot: the first of them that fails.
pub open spec fn first_leg_error(
    holdings: Seq<Holding>,
    legs: Seq<Result<WithdrawLeg, u64>>,
    ctx: WithdrawInKind,
    shares: u64,
    n: nat,
) -> Option<InstructionError>
    decreases n,
{
    if n == 0 {
        None
    } else {
        match first_leg_error(holdings, legs, ctx, shares, (n - 1) as nat) {
            Some(e) => Some(e),
            None => leg_error(holdings[n - 1], legs[n - 1], ctx, shares),
        }
    }
}

/// Why a withdrawal through `legs` is refused, if it is.
pub open spec fn settle_error(
    vault: VaultView,
    ctx: WithdrawInKind,
    shares: u64,
    legs: Seq<Result<WithdrawLeg, u64>>,
) -> Option<InstructionError> {
    match request_error(ctx, shares) {
        Some(e) => Some(InstructionError::Vault(e)),
        None => if legs.len() != vault.holdings.len() {
            Some(InstructionError::Vault(VaultError::InvalidRemainingAccounts))
        } else {
            first_leg_error(vault.holdings, legs, ctx, shares, vault.holdings.len())
        },
    }
}

/// What the three accounts of a leg hold, or the program error code of the first one that cannot
/// be read.
pub open spec fn leg_in(
    vault_ata: RawAccount,
    user_ata: RawAccount,
    mint: RawAccount,
) -> Result<WithdrawLeg, u64> {
    match (
        crate::vault::accounts::token_account_in(vault_ata),
        crate::vault::accounts::token_account_in(user_ata),
        crate::vault::accounts::mint_in(mint),
    ) {
        (Err(code), _, _) => Err(code),
        (Ok(_), Err(code), _) => Err(code),
        (Ok(_), Ok(_), Err(code)) => Err(code),
        (Ok(vault_token), Ok(user_token), Ok(mint_key)) => Ok(
            WithdrawLeg { vault_ata: vault_token, user_ata: user_token, mint: mint_key },
        ),
    }
}

/// What `accounts` hold, three accounts per leg.
pub open spec fn legs_in(accounts: Seq<RawAccount>) -> Seq<Result<WithdrawLeg, u64>> {
    Seq::new(
        accounts.len() / 3,
        |i: int| leg_in(accounts[3 * i], accounts[3 * i + 1], accounts[3 * i + 2]),
    )
}

/// Why a withdrawal through `accounts` is refused, if it is.
pub open spec fn withdraw_error(
    vault: VaultView,
    ctx: WithdrawInKind,
    shares: u64,
    accounts: Seq<RawAccount>,
) -> Option<InstructionError> {
    match request_error(ctx, shares) {
        Some(e) => Some(InstructionError::Vault(e)),
        None => if accounts.len() != 3 * vault.holdings.len() {
            Some(InstructionError::Vault(VaultError::InvalidRemainingAccounts))
        } else {
            settle_error(vault, ctx, shares, legs_in(accounts))
        },
    }
}

/// What is paid out of each holding.
pub open spec fn payouts(holdings: Seq<Holding>, shares: u64, total_shares: u64) -> Seq<u64> {
    Seq::new(
        holdings.len(),
        |i: int| slice(holdings[i].raw_balance, shares, total_shares) as u64,
    )
}

/// The holdings after they were paid out.
pub open spec fn paid_out(holdings: Seq<Holding>, shares: u64, total_shares: u64) -> Seq<Holding> {
    Seq::new(
        holdings.len(),
        |i: int|
            Holding {
                raw_balance: (holdings[i].raw_balance - slice(
                    holdings[i].raw_balance,
                    shares,
                    total_shares,
                )) as u64,
                ..holdings[i]
            },
    )
}

/// Whether `shares` may be burnt for a withdrawal.
pub fn check_request(ctx: &WithdrawInKind, shares: u64) -> (res: Result<(), VaultError>)
    ensures
        match request_error(*ctx, shares) {
            Some(e) => res == Err::<(), VaultError>(e),
            None => res == Ok::<(), VaultError>(()),
        },
{
    if shares == 0 {
        return Err(VaultError::ZeroAmount);
    }
    if ctx.total_shares == 0 {
        return Err(VaultError::MathOverflow);
    }
    Ok(())
}

/// Whether `count` accounts are three per holding: the vault's, the user's and the mint.
pub fn check_account_count(vault: &Vault, count: usize) -> (res: Result<(), VaultError>)
    ensures
        res == if count == 3 * vault@.holdings.len() {
            Ok::<(), VaultError>(())
        } else {
            Err(VaultError::InvalidRemainingAccounts)
        },
{
    if count % 3 != 0 || count / 3 != vault.holdings.len() {
        return Err(VaultError::InvalidRemainingAccounts);
    }
    Ok(())
}

/// What is paid out of one holding, if its accounts are the right ones.
fn leg_payout(
    holding: &Holding,
    leg: &Result<WithdrawLeg, u64>,
    ctx: &WithdrawInKind,
    shares: u64,
) -> (res: Result<u64, InstructionError>)
    requires
        ctx.total_shares > 0,
    ensures
        match leg_error(*holding, *leg, *ctx, shares) {
            Some(e) => res == Err::<u64, InstructionError>(e),
            None => res == Ok::<u64, InstructionError>(
                slice(holding.raw_balance, shares, ctx.total_shares) as u64,
            ),
        },
{
    let accounts: &WithdrawLeg = match leg {
        Ok(accounts) => accounts,
        Err(code) => return Err(InstructionError::Program(*code)),
    };
    if accounts.mint != holding.mint || accounts.vault_ata.mint != holding.mint
        || accounts.user_ata.mint != holding.mint || accounts.vault_ata.owner != ctx.vault_key {
        return Err(InstructionError::Vault(VaultError::InvalidRemainingAccounts));
    }
    proof {
        let b = holding.raw_balance as int;
        let s = shares as int;
        assert(0 <= b * s <= u64::MAX * u64::MAX) by (nonlinear_arith)
            requires
                0 <= b <= u64::MAX,
                0 <= s <= u64::MAX,
        ;
    }
    let quotient: u128 = (holding.raw_balance as u128) * (shares as u128) / (
    ctx.total_shares as u128);
    assert(quotient as u64 == quotient % 0x1_0000_0000_0000_0000u128) by (bit_vector);
    let raw_out: u64 = #[verifier::truncate] (quotient as u64);
    if raw_out > holding.raw_balance {
        return Err(InstructionError::Vault(VaultError::MathOverflow));
    }
    Ok(raw_out)
}

/// Takes the slice that the burnt `shares` stand for out of every holding, and returns what is
/// sent through each leg; a leg of zero is not sent. `legs` are the accounts of each holding as
/// they were read. A refused withdrawal changes nothing.
pub fn settle(
    vault: &mut Vault,
    ctx: &WithdrawInKind,
    shares: u64,
    legs: &Vec<Result<WithdrawLeg, u64>>,
) -> (res: Result<Vec<u64>, InstructionError>)
    ensures
        match settle_error(old(vault)@, *ctx, shares, legs@) {
            Some(e) => res == Err::<Vec<u64>, InstructionError>(e) && final(vault)@ == old(vault)@,
            None => {
                &&& res matches Ok(amounts) && amounts@ == payouts(
                    old(vault)@.holdings,
                    shares,
                    ctx.total_shares,
                )
                &&& final(vault)@ == (VaultView {
                    holdings: paid_out(old(vault)@.holdings, shares, ctx.total_shares),
                    ..old(vault)@
                })
            },
        },
        old(vault)@.well_formed() ==> final(vault)@.well_formed(),
{
    match check_request(ctx, shares) {
        Ok(_) => {},
        Err(e) => return Err(InstructionError::Vault(e)),
    }
    if legs.len() != vault.holdings.len() {
        return Err(InstructionError::Vault(VaultError::InvalidRemainingAccounts));
    }
    let ghost before = vault@;
    let mut amounts: Vec<u64> = Vec::new();
    let mut i: usize = 0;
    while i < legs.len()
        invariant
            i <= legs@.len(),
            legs@.len() == vault.holdings@.len(),
            ctx.total_shares > 0,
            shares > 0,
            before == vault@,
            before == old(vault)@,
            amounts@.len() == i,
            first_leg_error(before.holdings, legs@, *ctx, shares, i as nat) is None,
            forall|j: int|
                0 <= j < i ==> amounts@[j] == slice(
                    before.holdings[j].raw_balance,
                    shares,
                    ctx.total_shares,
                ) && amounts@[j] <= before.holdings[j].raw_balance,
        decreases legs.len() - i,
    {
        match leg_payout(&vault.holdings[i], &legs[i], ctx, shares) {
            Ok(raw_out) => amounts.push(raw_out),
            Err(e) => {
                proof {
                    lemma_first_leg_error_stands(
                        before.holdings,
                        legs@,
                        *ctx,
                        shares,
                        (i + 1) as nat,
                        legs@.len(),
                    );
                }
                return Err(e);
            },
        }
        i = i + 1;
    }
    let mut k: usize = 0;
    while k < amounts.len()
        invariant
            k <= amounts@.len(),
            amounts@.len() == vault.holdings@.len() == before.holdings.len(),
            vault@ == (VaultView { holdings: vault.holdings@, ..before }),
            forall|j: int|
                0 <= j < amounts@.len() ==> amounts@[j] == slice(
                    before.holdings[j].raw_balance,
                    shares,
                    ctx.total_shares,
                ) && amounts@[j] <= before.holdings[j].raw_balance,
            forall|j: int|
                0 <= j < k ==> vault.holdings@[j] == (Holding {
                    raw_balance: (before.holdings[j].raw_balance - amounts@[j]) as u64,
                    ..before.holdings[j]
                }),
            forall|j: int|
                k <= j < vault.holdings@.len() ==> vault.holdings@[j] == before.holdings[j],
        decreases amounts.len() - k,
    {
        vault.holdings[k].raw_balance = vault.holdings[k].raw_balance - amounts[k];
        k = k + 1;
    }
    proof {
        assert(vault@.holdings =~= paid_out(before.holdings, shares, ctx.total_shares));
        assert(amounts@ =~= payouts(before.holdings, shares, ctx.total_shares));
        assert(crate::vault::state::target_weights(vault@.holdings)
            =~= crate::vault::state::target_weights(before.holdings));
    }
    Ok(amounts)
}

/// What the three accounts of a leg hold.
fn read_leg(vault_ata: &RawAccount, user_ata: &RawAccount, mint: &RawAccount) -> (leg: Result<
    WithdrawLeg,
    u64,
>)
    ensures
        leg == leg_in(*vault_ata, *user_ata, *mint),
{
    let vault_token: TokenAccount = read_token_account(vault_ata)?;
    let user_token: TokenAccount = read_token_account(user_ata)?;
    let mint_key: Pubkey = read_mint(mint)?;
    Ok(WithdrawLeg { vault_ata: vault_token, user_ata: user_token, mint: mint_key })
}

/// Pays the slice that the burnt `shares` stand for out of every holding. `accounts` are three per
/// holding, in the order of the basket: the vault's token account, the user's, and the mint. The
/// accounts are read and the holdings settled as `settle` says. A refused withdrawal changes
/// nothing.
pub fn handler(
    vault: &mut Vault,
    ctx: &WithdrawInKind,
    shares: u64,
    accounts: &Vec<RawAccount>,
) -> (res: Result<Vec<u64>, InstructionError>)
    ensures
        match withdraw_error(old(vault)@, *ctx, shares, accounts@) {
            Some(e) => res == Err::<Vec<u64>, InstructionError>(e) && final(vault)@ == old(vault)@,
            None => {
                &&& res matches Ok(amounts) && amounts@ == payouts(
                    old(vault)@.holdings,
                    shares,
                    ctx.total_shares,
                )
                &&& final(vault)@ == (VaultView {
                    holdings: paid_out(old(vault)@.holdings, shares, ctx.total_shares),
                    ..old(vault)@
                })
            },
        },
        old(vault)@.well_formed() ==> final(vault)@.well_formed(),
{
    match check_request(ctx, shares) {
        Ok(_) => {},
        Err(e) => return Err(InstructionError::Vault(e)),
    }
    match check_account_count(vault, accounts.len()) {
        Ok(_) => {},
        Err(e) => return Err(InstructionError::Vault(e)),
    }
    let count: usize = accounts.len();
    let mut legs: Vec<Result<WithdrawLeg, u64>> = Vec::new();
    let mut i: usize = 0;
    while i < vault.holdings.len()
        invariant
            i <= vault.holdings@.len(),
            count == accounts@.len() == 3 * vault.holdings@.len(),
            legs@.len() == i,
            forall|j: int| 0 <= j < i ==> #[trigger] legs@[j] == legs_in(accounts@)[j],
        decreases vault.holdings.len() - i,
    {
        legs.push(read_leg(&accounts[3 * i], &accounts[3 * i + 1], &accounts[3 * i + 2]));
        i = i + 1;
    }
    assert(legs@ =~= legs_in(accounts@));
    settle(vault, ctx, shares, &legs)
}

/// The first failure among `m` holdings is the first failure among all `n` of them.
pub proof fn lemma_first_leg_error_stands(
    holdings: Seq<Holding>,
    legs: Seq<Result<WithdrawLeg, u64>>,
    ctx: WithdrawInKind,
    shares: u64,
    m: nat,
    n: nat,
)
    requires
        m <= n,
        first_leg_error(holdings, legs, ctx, shares, m) is Some,
    ensures
        first_leg_error(holdings, legs, ctx, shares, n) == first_leg_error(
            holdings,
            legs,
            ctx,
            shares,
            m,
        ),
    decreases n,
{
    if m < n {
        lemma_first_leg_error_stands(holdings, legs, ctx, shares, m, (n - 1) as nat);
    }
}

} // verus!
