//! One leg of a rebalance: the swap itself happens elsewhere in the transaction; here it is
//! checked, its NAV drift is bounded, and the balances are taken over.

use vstd::prelude::*;

use crate::oracle::{NavSnapshot, NavSnapshotView};
use crate::pubkey::Pubkey;
use crate::vault::accounts::{read_mint, read_token_account, RawAccount, TokenAccount};
use crate::vault::errors::{InstructionError, VaultError};
use crate::vault::introspection::find_transfer_to;
use crate::vault::nav::holding_value_1e8;
use crate::vault::state::{lemma_holding_index, Holding, Vault, VaultView, BPS_DENOM};

verus! {

/// What was swapped.
#[derive(Clone, Debug)]
pub struct RebalanceLegArgs {
    pub from_mint: Pubkey,
    pub to_mint: Pubkey,
    pub raw_in: u64,
    /// Raw amount that must come out at least.
    pub min_raw_out: u64,
}

/// Who rebalances, the vault's address, and the slot.
pub struct RebalanceLeg {
    pub keeper: Pubkey,
    pub vault_key: Pubkey,
    pub slot: u64,
}

/// The accounts of the two assets.
pub struct RebalanceAccounts {
    /// The vault's token account of the asset that was sold.
    pub from_vault_ata: TokenAccount,
    /// The vault's token account of the asset that was bought.
    pub to_vault_ata: TokenAccount,
    /// Mint of the asset that was sold.
    pub from_mint: Pubkey,
    /// Mint of the asset that was bought.
    pub to_mint: Pubkey,
}

/// Why a request is refused before its accounts are read, if it is.
pub open spec fn request_error(
    vault: VaultView,
    ctx: RebalanceLeg,
    args: RebalanceLegArgs,
) -> Option<VaultError> {
    if vault.keeper != ctx.keeper {
        Some(VaultError::Unauthorized)
    } else if vault.pause_flags.halted {
        Some(VaultError::Paused)
    } else if args.raw_in == 0 {
        Some(VaultError::ZeroAmount)
    } else if crate::vault::state::holding_index(vault.holdings, args.from_mint)
        >= vault.holdings.len() || crate::vault::state::holding_index(vault.holdings, args.to_mint)
        >= vault.holdings.len() {
        Some(VaultError::AssetNotWhitelisted)
    } else {
        None
    }
}

/// Whether the accounts are those of the two assets, and the token accounts the vault's.
pub open spec fn accounts_match(
    accounts: RebalanceAccounts,
    ctx: RebalanceLeg,
    args: RebalanceLegArgs,
) -> bool {
    &&& accounts.from_mint == args.from_mint
    &&& accounts.to_mint == args.to_mint
    &&& accounts.from_vault_ata.mint == args.from_mint
    &&& accounts.to_vault_ata.mint == args.to_mint
    &&& accounts.from_vault_ata.owner == ctx.vault_key
    &&& accounts.to_vault_ata.owner == ctx.vault_key
}

/// The balance that the vault has noted for `mint`.
pub open spec fn noted_balance(vault: VaultView, mint: Pubkey) -> u64 {
    vault.holdings[crate::vault::state::holding_index(vault.holdings, mint)].raw_balance
}

/// What the vault has received of the asset that was bought.
pub open spec fn received_raw(
    vault: VaultView,
    accounts: RebalanceAccounts,
    args: RebalanceLegArgs,
) -> int {
    accounts.to_vault_ata.amount - noted_balance(vault, args.to_mint)
}

/// Why the balances do not show the swap, if they do not: exactly `raw_in` must have been spent,
/// and at least `min_raw_out` received.
pub open spec fn balance_error(
    vault: VaultView,
    accounts: RebalanceAccounts,
    args: RebalanceLegArgs,
) -> Option<VaultError> {
    let spent = noted_balance(vault, args.from_mint) - accounts.from_vault_ata.amount;
    let received = received_raw(vault, accounts, args);
    if spent != args.raw_in || received < 0 {
        Some(VaultError::RebalanceSettlementInvalid)
    } else if received < args.min_raw_out {
        Some(VaultError::SlippageExceeded)
    } else {
        None
    }
}

/// The holding of `mint`, but with a raw balance of `raw_amount`.
pub open spec fn amount_of(vault: VaultView, mint: Pubkey, raw_amount: u64) -> Holding {
    Holding {
        raw_balance: raw_amount,
        ..vault.holdings[crate::vault::state::holding_index(vault.holdings, mint)]
    }
}

/// USD value, × 1e8, of what was sold.
pub open spec fn sold_value(vault: VaultView, nav: NavSnapshotView, args: RebalanceLegArgs) -> int {
    crate::vault::nav::holding_value(amount_of(vault, args.from_mint, args.raw_in), nav.entries)
}

/// USD value, × 1e8, of what was bought.
pub open spec fn bought_value(
    vault: VaultView,
    nav: NavSnapshotView,
    accounts: RebalanceAccounts,
    args: RebalanceLegArgs,
) -> int {
    crate::vault::nav::holding_value(
        amount_of(vault, args.to_mint, received_raw(vault, accounts, args) as u64),
        nav.entries,
    )
}

/// Whether both values, and what the drift bound compares, can be held in a `u128`.
pub open spec fn values_fit(
    vault: VaultView,
    nav: NavSnapshotView,
    accounts: RebalanceAccounts,
    args: RebalanceLegArgs,
) -> bool {
    &&& crate::vault::nav::holding_value_fits(
        amount_of(vault, args.from_mint, args.raw_in),
        nav.entries,
    )
    &&& crate::vault::nav::holding_value_fits(
        amount_of(vault, args.to_mint, received_raw(vault, accounts, args) as u64),
        nav.entries,
    )
    &&& sold_value(vault, nav, args) * (BPS_DENOM - vault.rebalance_slippage_bps) <= u128::MAX
    &&& bought_value(vault, nav, accounts, args) * BPS_DENOM <= u128::MAX
}

/// Why the swap moves the NAV too far, if it does: what was bought must be worth at least what was
/// sold less `rebalance_slippage_bps` of it, at prices that are not stale.
pub open spec fn drift_error(
    vault: VaultView,
    nav: NavSnapshotView,
    ctx: RebalanceLeg,
    args: RebalanceLegArgs,
    accounts: RebalanceAccounts,
) -> Option<VaultError> {
    if !nav.fresh_at(ctx.slot) {
        Some(VaultError::OracleStale)
    } else if !values_fit(vault, nav, accounts, args) {
        Some(VaultError::MathOverflow)
    } else if bought_value(vault, nav, accounts, args) * BPS_DENOM < sold_value(vault, nav, args)
        * (BPS_DENOM - vault.rebalance_slippage_bps) {
        Some(VaultError::NavDriftExceeded)
    } else {
        None
    }
}

/// Why a leg with these accounts is refused before the transaction is looked at, if it is.
pub open spec fn swap_error(
    vault: VaultView,
    ctx: RebalanceLeg,
    args: RebalanceLegArgs,
    accounts: RebalanceAccounts,
) -> Option<VaultError> {
    match request_error(vault, ctx, args) {
        Some(e) => Some(e),
        None => if !accounts_match(accounts, ctx, args) {
            Some(VaultError::InvalidRemainingAccounts)
        } else {
            balance_error(vault, accounts, args)
        },
    }
}

/// Why a leg with these accounts is refused, if it is. `transfer` tells whether the transaction
/// holds a transfer of at least `min_raw_out` to the vault (`Err` holds the program error code
/// with which the transaction could not be read).
pub open spec fn settle_error(
    vault: VaultView,
    nav: NavSnapshotView,
    ctx: RebalanceLeg,
    args: RebalanceLegArgs,
    accounts: RebalanceAccounts,
    transfer: Result<bool, u64>,
) -> Option<InstructionError> {
    match (swap_error(vault, ctx, args, accounts), transfer) {
        (Some(e), _) => Some(InstructionError::Vault(e)),
        (None, Err(code)) => Some(InstructionError::Program(code)),
        (None, Ok(false)) => Some(InstructionError::Vault(VaultError::RebalanceSettlementInvalid)),
        (None, Ok(true)) => match drift_error(vault, nav, ctx, args, accounts) {
            Some(e) => Some(InstructionError::Vault(e)),
            None => None,
        },
    }
}

/// The holdings once the balances of the two token accounts are taken over.
pub open spec fn rebalanced(
    holdings: Seq<Holding>,
    args: RebalanceLegArgs,
    accounts: RebalanceAccounts,
) -> Seq<Holding> {
    crate::vault::state::with_balance(
        crate::vault::state::with_balance(
            holdings,
            args.from_mint,
            accounts.from_vault_ata.amount,
        ),
        args.to_mint,
        accounts.to_vault_ata.amount,
    )
}

/// What four accounts hold: the vault's token accounts of the asset that was sold and of the one
/// that was bought, then their mints. `Err` holds the program error code of the first one that
/// cannot be read.
pub open spec fn accounts_in(accounts: Seq<RawAccount>) -> Result<RebalanceAccounts, u64> {
    match (
        crate::vault::accounts::token_account_in(accounts[0]),
        crate::vault::accounts::token_account_in(accounts[1]),
        crate::vault::accounts::mint_in(accounts[2]),
        crate::vault::accounts::mint_in(accounts[3]),
    ) {
        (Err(code), _, _, _) => Err(code),
        (Ok(_), Err(code), _, _) => Err(code),
        (Ok(_), Ok(_), Err(code), _) => Err(code),
        (Ok(_), Ok(_), Ok(_), Err(code)) => Err(code),
        (Ok(from_vault_ata), Ok(to_vault_ata), Ok(from_mint), Ok(to_mint)) => Ok(
            RebalanceAccounts { from_vault_ata, to_vault_ata, from_mint, to_mint },
        ),
    }
}

/// Whether the transaction that `sysvar` records holds a Token-2022 transfer of at least
/// `min_raw_out` to the vault's token account of the asset that was bought.
pub open spec fn transfer_in(
    sysvar: Seq<u8>,
    accounts: RebalanceAccounts,
    args: RebalanceLegArgs,
) -> Result<bool, u64> {
    crate::vault::introspection::transfer_among(
        crate::vault::introspection::instructions_so_far(sysvar),
        accounts.to_vault_ata.key,
        args.min_raw_out,
    )
}

/// Why a leg is refused before the transaction is looked at, if it is.
pub open spec fn accounts_error(
    vault: VaultView,
    ctx: RebalanceLeg,
    args: RebalanceLegArgs,
    accounts: Seq<RawAccount>,
) -> Option<InstructionError> {
    match request_error(vault, ctx, args) {
        Some(e) => Some(InstructionError::Vault(e)),
        None => if accounts.len() != 4 {
            Some(InstructionError::Vault(VaultError::InvalidRemainingAccounts))
        } else {
            match accounts_in(accounts) {
                Err(code) => Some(InstructionError::Program(code)),
                Ok(read) => match swap_error(vault, ctx, args, read) {
                    Some(e) => Some(InstructionError::Vault(e)),
                    None => None,
                },
            }
        },
    }
}

/// Why a leg is refused, if it is.
pub open spec fn rebalance_error(
    vault: VaultView,
    nav: NavSnapshotView,
    ctx: RebalanceLeg,
    args: RebalanceLegArgs,
    accounts: Seq<RawAccount>,
    sysvar: Seq<u8>,
) -> Option<InstructionError> {
    match (accounts_error(vault, ctx, args, accounts), accounts_in(accounts)) {
        (Some(e), _) => Some(e),
        (None, Err(code)) => Some(InstructionError::Program(code)),
        (None, Ok(read)) => settle_error(
            vault,
            nav,
            ctx,
            args,
            read,
            transfer_in(sysvar, read, args),
        ),
    }
}

/// Whether the transaction has to be looked at: nothing else refuses the leg.
pub open spec fn needs_transaction(
    vault: VaultView,
    ctx: RebalanceLeg,
    args: RebalanceLegArgs,
    accounts: Seq<RawAccount>,
) -> bool {
    accounts_error(vault, ctx, args, accounts) is None
}

/// Whether the accounts of a request are worth reading.
pub fn check_request(vault: &Vault, ctx: &RebalanceLeg, args: &RebalanceLegArgs) -> (res: Result<
    (),
    VaultError,
>)
    ensures
        match request_error(vault@, *ctx, *args) {
            Some(e) => res == Err::<(), VaultError>(e),
            None => res == Ok::<(), VaultError>(()),
        },
{
    if vault.keeper != ctx.keeper {
        return Err(VaultError::Unauthorized);
    }
    if vault.pause_flags.halted {
        return Err(VaultError::Paused);
    }
    if args.raw_in == 0 {
        return Err(VaultError::ZeroAmount);
    }
    if vault.holding(&args.from_mint).is_none() {
        return Err(VaultError::AssetNotWhitelisted);
    }
    if vault.holding(&args.to_mint).is_none() {
        return Err(VaultError::AssetNotWhitelisted);
    }
    Ok(())
}

/// Whether the balances of the two token accounts show the swap.
fn check_balances(vault: &Vault, args: &RebalanceLegArgs, accounts: &RebalanceAccounts) -> (res:
    Result<(), VaultError>)
    requires
        crate::vault::state::holding_index(vault@.holdings, args.from_mint)
            < vault@.holdings.len(),
        crate::vault::state::holding_index(vault@.holdings, args.to_mint) < vault@.holdings.len(),
    ensures
        match balance_error(vault@, *accounts, *args) {
            Some(e) => res == Err::<(), VaultError>(e),
            None => res == Ok::<(), VaultError>(()),
        },
{
    let prev_from_raw: u64 = vault.holding(&args.from_mint).ok_or(
        VaultError::AssetNotWhitelisted,
    )?.raw_balance;
    let prev_to_raw: u64 = vault.holding(&args.to_mint).ok_or(
        VaultError::AssetNotWhitelisted,
    )?.raw_balance;
    let spent_raw: u64 = prev_from_raw.checked_sub(accounts.from_vault_ata.amount).ok_or(
        VaultError::RebalanceSettlementInvalid,
    )?;
    if spent_raw != args.raw_in {
        return Err(VaultError::RebalanceSettlementInvalid);
    }
    let received_raw: u64 = accounts.to_vault_ata.amount.checked_sub(prev_to_raw).ok_or(
        VaultError::RebalanceSettlementInvalid,
    )?;
    if received_raw < args.min_raw_out {
        return Err(VaultError::SlippageExceeded);
    }
    Ok(())
}

/// Whether the accounts and balances of a leg show the swap.
fn check_swap(
    vault: &Vault,
    ctx: &RebalanceLeg,
    args: &RebalanceLegArgs,
    accounts: &RebalanceAccounts,
) -> (res: Result<(), VaultError>)
    ensures
        match swap_error(vault@, *ctx, *args, *accounts) {
            Some(e) => res == Err::<(), VaultError>(e),
            None => res == Ok::<(), VaultError>(()),
        },
{
    check_request(vault, ctx, args)?;
    if accounts.from_mint != args.from_mint || accounts.to_mint != args.to_mint
        || accounts.from_vault_ata.mint != args.from_mint || accounts.to_vault_ata.mint
        != args.to_mint || accounts.from_vault_ata.owner != ctx.vault_key
        || accounts.to_vault_ata.owner != ctx.vault_key {
        return Err(VaultError::InvalidRemainingAccounts);
    }
    check_balances(vault, args, accounts)
}

/// Whether the swap stays within the vault's bound on NAV drift.
fn check_drift(
    vault: &Vault,
    nav: &NavSnapshot,
    ctx: &RebalanceLeg,
    args: &RebalanceLegArgs,
    accounts: &RebalanceAccounts,
) -> (res: Result<(), VaultError>)
    requires
        swap_error(vault@, *ctx, *args, *accounts) is None,
    ensures
        match drift_error(vault@, nav@, *ctx, *args, *accounts) {
            Some(e) => res == Err::<(), VaultError>(e),
            None => res == Ok::<(), VaultError>(()),
        },
{
    if !nav.is_fresh(ctx.slot) {
        return Err(VaultError::OracleStale);
    }
    let from: Holding = *vault.holding(&args.from_mint).ok_or(VaultError::AssetNotWhitelisted)?;
    let to: Holding = *vault.holding(&args.to_mint).ok_or(VaultError::AssetNotWhitelisted)?;
    let received: u64 = accounts.to_vault_ata.amount - to.raw_balance;
    let sold: u128 = holding_value_1e8(&Holding { raw_balance: args.raw_in, ..from }, nav)?;
    let bought: u128 = holding_value_1e8(&Holding { raw_balance: received, ..to }, nav)?;
    let kept_bps: u128 = BPS_DENOM.saturating_sub(vault.rebalance_slippage_bps as u128);
    let ghost kept = BPS_DENOM - vault.rebalance_slippage_bps;
    assert(kept <= 0 ==> sold * kept <= 0) by (nonlinear_arith)
        requires
            0 <= sold,
    ;
    let least: u128 = sold.checked_mul(kept_bps).ok_or(VaultError::MathOverflow)?;
    let gained: u128 = bought.checked_mul(BPS_DENOM).ok_or(VaultError::MathOverflow)?;
    if gained < least {
        return Err(VaultError::NavDriftExceeded);
    }
    Ok(())
}

/// Checks a leg whose accounts and transaction were read, and takes the balances over. What was
/// bought must be worth what was sold, less the vault's `rebalance_slippage_bps` at most. A refused
/// leg changes nothing.
pub fn settle(
    vault: &mut Vault,
    nav: &NavSnapshot,
    ctx: &RebalanceLeg,
    args: &RebalanceLegArgs,
    accounts: &RebalanceAccounts,
    transfer: Result<bool, u64>,
) -> (res: Result<(), InstructionError>)
    ensures
        match settle_error(old(vault)@, nav@, *ctx, *args, *accounts, transfer) {
            Some(e) => res == Err::<(), InstructionError>(e) && final(vault)@ == old(vault)@,
            None => res == Ok::<(), InstructionError>(()) && final(vault)@ == (VaultView {
                holdings: rebalanced(old(vault)@.holdings, *args, *accounts),
                ..old(vault)@
            }),
        },
        old(vault)@.well_formed() ==> final(vault)@.well_formed(),
{
    match check_swap(vault, ctx, args, accounts) {
        Ok(_) => {},
        Err(e) => return Err(InstructionError::Vault(e)),
    }
    match transfer {
        Err(code) => return Err(InstructionError::Program(code)),
        Ok(found) => {
            if !found {
                return Err(InstructionError::Vault(VaultError::RebalanceSettlementInvalid));
            }
        },
    }
    match check_drift(vault, nav, ctx, args, accounts) {
        Ok(_) => {},
        Err(e) => return Err(InstructionError::Vault(e)),
    }
    let ghost before = vault@.holdings;
    proof {
        lemma_with_balance(before, args.from_mint, accounts.from_vault_ata.amount, args.to_mint);
        lemma_with_balance(
            crate::vault::state::with_balance(
                before,
                args.from_mint,
                accounts.from_vault_ata.amount,
            ),
            args.to_mint,
            accounts.to_vault_ata.amount,
            args.to_mint,
        );
    }
    match vault.holding_mut(&args.from_mint) {
        Some(holding) => holding.raw_balance = accounts.from_vault_ata.amount,
        None => return Err(InstructionError::Vault(VaultError::AssetNotWhitelisted)),
    }
    match vault.holding_mut(&args.to_mint) {
        Some(holding) => holding.raw_balance = accounts.to_vault_ata.amount,
        None => return Err(InstructionError::Vault(VaultError::AssetNotWhitelisted)),
    }
    Ok(())
}

/// What the four accounts of a leg hold.
fn read_accounts(accounts: &Vec<RawAccount>) -> (res: Result<RebalanceAccounts, u64>)
    requires
        accounts@.len() == 4,
    ensures
        res == accounts_in(accounts@),
{
    let from_vault_ata: TokenAccount = read_token_account(&accounts[0])?;
    let to_vault_ata: TokenAccount = read_token_account(&accounts[1])?;
    let from_mint: Pubkey = read_mint(&accounts[2])?;
    let to_mint: Pubkey = read_mint(&accounts[3])?;
    Ok(RebalanceAccounts { from_vault_ata, to_vault_ata, from_mint, to_mint })
}

/// Reads the accounts of a leg, and checks that they show the swap.
fn read_swap(
    vault: &Vault,
    ctx: &RebalanceLeg,
    args: &RebalanceLegArgs,
    accounts: &Vec<RawAccount>,
) -> (res: Result<RebalanceAccounts, InstructionError>)
    ensures
        match accounts_error(vault@, *ctx, *args, accounts@) {
            Some(e) => res == Err::<RebalanceAccounts, InstructionError>(e),
            None => res matches Ok(read) && accounts_in(accounts@) == Ok::<RebalanceAccounts, u64>(
                read,
            ),
        },
{
    match check_request(vault, ctx, args) {
        Ok(_) => {},
        Err(e) => return Err(InstructionError::Vault(e)),
    }
    if accounts.len() != 4 {
        return Err(InstructionError::Vault(VaultError::InvalidRemainingAccounts));
    }
    let read: RebalanceAccounts = match read_accounts(accounts) {
        Ok(read) => read,
        Err(code) => return Err(InstructionError::Program(code)),
    };
    match check_swap(vault, ctx, args, &read) {
        Ok(_) => Ok(read),
        Err(e) => Err(InstructionError::Vault(e)),
    }
}

/// Takes the balances of a swap over, once the accounts and the transaction show it and the prices
/// of `nav` bear it out. `accounts` are four: the vault's token accounts of the asset that was sold
/// and of the one that was bought, then their mints. `sysvar` is the data of the instructions
/// sysvar, which is read only once everything else shows the swap. Only the vault's keeper may.
/// A refused leg changes nothing.
pub fn handler(
    vault: &mut Vault,
    nav: &NavSnapshot,
    ctx: &RebalanceLeg,
    args: &RebalanceLegArgs,
    accounts: &Vec<RawAccount>,
    sysvar: &[u8],
) -> (res: Result<(), InstructionError>)
    requires
        needs_transaction(old(vault)@, *ctx, *args, accounts@) ==> sysvar@.len() >= 2,
    ensures
        match rebalance_error(old(vault)@, nav@, *ctx, *args, accounts@, sysvar@) {
            Some(e) => res == Err::<(), InstructionError>(e) && final(vault)@ == old(vault)@,
            None => {
                &&& res == Ok::<(), InstructionError>(())
                &&& accounts_in(accounts@) matches Ok(read) && final(vault)@ == (VaultView {
                    holdings: rebalanced(old(vault)@.holdings, *args, read),
                    ..old(vault)@
                })
            },
        },
        old(vault)@.well_formed() ==> final(vault)@.well_formed(),
{
    let read: RebalanceAccounts = read_swap(vault, ctx, args, accounts)?;
    let transfer: Result<bool, u64> = find_transfer_to(
        sysvar,
        &read.to_vault_ata.key,
        args.min_raw_out,
    );
    settle(vault, nav, ctx, args, &read, transfer)
}

/// As `handler`, for sysvar data of any length: `None`, with nothing changed, where the data has to
/// be read but is too short to record an index.
pub fn try_handler(
    vault: &mut Vault,
    nav: &NavSnapshot,
    ctx: &RebalanceLeg,
    args: &RebalanceLegArgs,
    accounts: &Vec<RawAccount>,
    sysvar: &[u8],
) -> (res: Option<Result<(), InstructionError>>)
    ensures
        res is None <==> needs_transaction(old(vault)@, *ctx, *args, accounts@) && sysvar@.len() < 2,
        res is None ==> final(vault)@ == old(vault)@,
        res matches Some(outcome) ==> match rebalance_error(
            old(vault)@,
            nav@,
            *ctx,
            *args,
            accounts@,
            sysvar@,
        ) {
            Some(e) => outcome == Err::<(), InstructionError>(e) && final(vault)@ == old(vault)@,
            None => {
                &&& outcome == Ok::<(), InstructionError>(())
                &&& accounts_in(accounts@) matches Ok(read) && final(vault)@ == (VaultView {
                    holdings: rebalanced(old(vault)@.holdings, *args, read),
                    ..old(vault)@
                })
            },
        },
        old(vault)@.well_formed() ==> final(vault)@.well_formed(),
{
    if sysvar.len() < 2 {
        match read_swap(vault, ctx, args, accounts) {
            Ok(_) => return None,
            Err(_) => {},
        }
    }
    Some(handler(vault, nav, ctx, args, accounts, sysvar))
}

/// Setting a balance moves no holding and changes no weight.
pub proof fn lemma_with_balance(holdings: Seq<Holding>, mint: Pubkey, raw_balance: u64, other: Pubkey)
    requires
        crate::vault::state::holding_index(holdings, mint) < holdings.len(),
    ensures
        crate::vault::state::with_balance(holdings, mint, raw_balance).len() == holdings.len(),
        crate::vault::state::holding_index(
            crate::vault::state::with_balance(holdings, mint, raw_balance),
            other,
        ) == crate::vault::state::holding_index(holdings, other),
        crate::vault::state::target_weights(
            crate::vault::state::with_balance(holdings, mint, raw_balance),
        ) == crate::vault::state::target_weights(holdings),
{
    let after = crate::vault::state::with_balance(holdings, mint, raw_balance);
    lemma_holding_index(holdings, mint);
    lemma_holding_index(holdings, other);
    lemma_holding_index(after, other);
    assert forall|j: int| 0 <= j < holdings.len() implies (#[trigger] after[j]).mint
        == holdings[j].mint by {}
    let i = crate::vault::state::holding_index(holdings, other);
    let k = crate::vault::state::holding_index(after, other);
    if i < k {
        assert(after[i].mint == holdings[i].mint);
    }
    if k < i {
        assert(after[k].mint == holdings[k].mint);
    }
    assert(crate::vault::state::target_weights(after) =~= crate::vault::state::target_weights(
        holdings,
    ));
}

} // verus!
