//! When a leg of a rebalance is accepted, and what it changes.

use vstd::prelude::*;

use crate::oracle::NavSnapshotView;
use crate::vault::accounts::{RawAccount, TokenAccount};
use crate::vault::errors::{InstructionError, VaultError};
use crate::vault::instructions::rebalance_leg::{RebalanceAccounts, RebalanceLeg, RebalanceLegArgs};
use crate::vault::state::{Holding, VaultView};

verus! {

/// A leg is accepted exactly where the vault's keeper asks, nothing is halted, something was sold,
/// the accounts are the vault's accounts of the two assets, exactly `raw_in` has left the one and at
/// least `min_raw_out` has come into the other, the transaction shows the transfer, and at fresh
/// prices what was bought is worth what was sold less the allowed slippage. `i` and `j` are where
/// the basket holds the two assets.
pub proof fn law_rebalance_is_accepted(
    vault: VaultView,
    nav: NavSnapshotView,
    ctx: RebalanceLeg,
    args: RebalanceLegArgs,
    accounts: RebalanceAccounts,
    transfer: Result<bool, u64>,
    i: int,
    j: int,
)
    requires
        0 <= i < vault.holdings.len(),
        vault.holdings[i].mint == args.from_mint,
        forall|k: int| 0 <= k < i ==> (#[trigger] vault.holdings[k]).mint != args.from_mint,
        0 <= j < vault.holdings.len(),
        vault.holdings[j].mint == args.to_mint,
        forall|k: int| 0 <= k < j ==> (#[trigger] vault.holdings[k]).mint != args.to_mint,
    ensures
        ({
            let received = accounts.to_vault_ata.amount - vault.holdings[j].raw_balance;
            let sold = Holding { raw_balance: args.raw_in, ..vault.holdings[i] };
            let bought = Holding { raw_balance: received as u64, ..vault.holdings[j] };
            let sold_usd = crate::vault::nav::holding_value(sold, nav.entries);
            let bought_usd = crate::vault::nav::holding_value(bought, nav.entries);
            let kept_bps = 10_000 - vault.rebalance_slippage_bps;
            crate::vault::instructions::rebalance_leg::settle_error(
                vault,
                nav,
                ctx,
                args,
                accounts,
                transfer,
            ) is None <==> {
                &&& ctx.keeper == vault.keeper
                &&& !vault.pause_flags.halted
                &&& args.raw_in > 0
                &&& accounts.from_mint == args.from_mint
                &&& accounts.to_mint == args.to_mint
                &&& accounts.from_vault_ata.mint == args.from_mint
                &&& accounts.to_vault_ata.mint == args.to_mint
                &&& accounts.from_vault_ata.owner == ctx.vault_key
                &&& accounts.to_vault_ata.owner == ctx.vault_key
                &&& vault.holdings[i].raw_balance - accounts.from_vault_ata.amount == args.raw_in
                &&& received >= args.min_raw_out
                &&& transfer == Ok::<bool, u64>(true)
                &&& ctx.slot - nav.last_update_slot <= nav.max_stale_slots
                &&& crate::vault::nav::holding_value_fits(sold, nav.entries)
                &&& crate::vault::nav::holding_value_fits(bought, nav.entries)
                &&& sold_usd * kept_bps <= u128::MAX
                &&& bought_usd * 10_000 <= u128::MAX
                &&& bought_usd * 10_000 >= sold_usd * kept_bps
            }
        }),
{
    crate::laws::basket::law_holding_is_found(vault.holdings, args.from_mint, i);
    crate::laws::basket::law_holding_is_found(vault.holdings, args.to_mint, j);
}

/// Each refusal of a leg, and exactly where it comes.
pub proof fn law_rebalance_refusals(
    vault: VaultView,
    nav: NavSnapshotView,
    ctx: RebalanceLeg,
    args: RebalanceLegArgs,
    accounts: RebalanceAccounts,
    transfer: Result<bool, u64>,
    i: int,
    j: int,
    code: u64,
)
    requires
        0 <= i < vault.holdings.len(),
        vault.holdings[i].mint == args.from_mint,
        forall|k: int| 0 <= k < i ==> (#[trigger] vault.holdings[k]).mint != args.from_mint,
        0 <= j < vault.holdings.len(),
        vault.holdings[j].mint == args.to_mint,
        forall|k: int| 0 <= k < j ==> (#[trigger] vault.holdings[k]).mint != args.to_mint,
    ensures
        ({
            let error = crate::vault::instructions::rebalance_leg::settle_error(
                vault,
                nav,
                ctx,
                args,
                accounts,
                transfer,
            );
            let received = accounts.to_vault_ata.amount - vault.holdings[j].raw_balance;
            let sold = Holding { raw_balance: args.raw_in, ..vault.holdings[i] };
            let bought = Holding { raw_balance: received as u64, ..vault.holdings[j] };
            let sold_usd = crate::vault::nav::holding_value(sold, nav.entries);
            let bought_usd = crate::vault::nav::holding_value(bought, nav.entries);
            let kept_bps = 10_000 - vault.rebalance_slippage_bps;
            let keeper = ctx.keeper == vault.keeper;
            let asked = keeper && !vault.pause_flags.halted && args.raw_in > 0;
            let belong = accounts.from_mint == args.from_mint && accounts.to_mint == args.to_mint
                && accounts.from_vault_ata.mint == args.from_mint && accounts.to_vault_ata.mint
                == args.to_mint && accounts.from_vault_ata.owner == ctx.vault_key
                && accounts.to_vault_ata.owner == ctx.vault_key;
            let spent = vault.holdings[i].raw_balance - accounts.from_vault_ata.amount
                == args.raw_in;
            let swapped = asked && belong && spent && received >= args.min_raw_out;
            let shown = swapped && transfer == Ok::<bool, u64>(true);
            let fresh = ctx.slot - nav.last_update_slot <= nav.max_stale_slots;
            let fits = crate::vault::nav::holding_value_fits(sold, nav.entries)
                && crate::vault::nav::holding_value_fits(bought, nav.entries) && sold_usd * kept_bps
                <= u128::MAX && bought_usd * 10_000 <= u128::MAX;
            &&& error == Some(InstructionError::Vault(VaultError::Unauthorized)) <==> !keeper
            &&& error == Some(InstructionError::Vault(VaultError::Paused)) <==> keeper
                && vault.pause_flags.halted
            &&& error == Some(InstructionError::Vault(VaultError::ZeroAmount)) <==> keeper
                && !vault.pause_flags.halted && args.raw_in == 0
            &&& error == Some(InstructionError::Vault(VaultError::InvalidRemainingAccounts)) <==> asked
                && !belong
            &&& error == Some(InstructionError::Vault(VaultError::SlippageExceeded)) <==> asked
                && belong && spent && 0 <= received < args.min_raw_out
            &&& error == Some(InstructionError::Vault(VaultError::RebalanceSettlementInvalid))
                <==> asked && belong && (!spent || received < 0) || swapped && transfer == Ok::<
                bool,
                u64,
            >(false)
            &&& error == Some(InstructionError::Program(code)) <==> swapped && transfer == Err::<
                bool,
                u64,
            >(code)
            &&& error == Some(InstructionError::Vault(VaultError::OracleStale)) <==> shown && !fresh
            &&& error == Some(InstructionError::Vault(VaultError::MathOverflow)) <==> shown && fresh
                && !fits
            &&& error == Some(InstructionError::Vault(VaultError::NavDriftExceeded)) <==> shown
                && fresh && fits && bought_usd * 10_000 < sold_usd * kept_bps
        }),
{
    crate::laws::basket::law_holding_is_found(vault.holdings, args.from_mint, i);
    crate::laws::basket::law_holding_is_found(vault.holdings, args.to_mint, j);
}

/// Before its accounts are read a leg is turned away only if it is not the keeper's, the vault is
/// halted, nothing was sold, or the basket does not hold one of the two assets.
pub proof fn law_rebalance_request(vault: VaultView, ctx: RebalanceLeg, args: RebalanceLegArgs)
    ensures
        ({
            let error = crate::vault::instructions::rebalance_leg::request_error(vault, ctx, args);
            let keeper = ctx.keeper == vault.keeper;
            let asked = keeper && !vault.pause_flags.halted && args.raw_in > 0;
            let held = (exists|i: int|
                0 <= i < vault.holdings.len() && (#[trigger] vault.holdings[i]).mint
                    == args.from_mint) && (exists|j: int|
                0 <= j < vault.holdings.len() && (#[trigger] vault.holdings[j]).mint
                    == args.to_mint);
            &&& error is None <==> asked && held
            &&& error == Some(VaultError::Unauthorized) <==> !keeper
            &&& error == Some(VaultError::Paused) <==> keeper && vault.pause_flags.halted
            &&& error == Some(VaultError::ZeroAmount) <==> keeper && !vault.pause_flags.halted
                && args.raw_in == 0
            &&& error == Some(VaultError::AssetNotWhitelisted) <==> asked && !held
        }),
{
    crate::vault::state::lemma_holding_index(vault.holdings, args.from_mint);
    crate::vault::state::lemma_holding_index(vault.holdings, args.to_mint);
    let i = crate::vault::state::holding_index(vault.holdings, args.from_mint);
    let j = crate::vault::state::holding_index(vault.holdings, args.to_mint);
    if i < vault.holdings.len() {
        assert(vault.holdings[i].mint == args.from_mint);
    }
    if j < vault.holdings.len() {
        assert(vault.holdings[j].mint == args.to_mint);
    }
}

/// A leg that is turned away before its accounts are read is refused for that reason whatever the
/// accounts, the prices and the transaction are.
pub proof fn law_turned_away_leg_is_refused(
    vault: VaultView,
    nav: NavSnapshotView,
    ctx: RebalanceLeg,
    args: RebalanceLegArgs,
    accounts: Seq<RawAccount>,
    sysvar: Seq<u8>,
    read: RebalanceAccounts,
    transfer: Result<bool, u64>,
)
    ensures
        crate::vault::instructions::rebalance_leg::request_error(vault, ctx, args) matches Some(e)
            ==> {
            &&& crate::vault::instructions::rebalance_leg::rebalance_error(
                vault,
                nav,
                ctx,
                args,
                accounts,
                sysvar,
            ) == Some(InstructionError::Vault(e))
            &&& crate::vault::instructions::rebalance_leg::settle_error(
                vault,
                nav,
                ctx,
                args,
                read,
                transfer,
            ) == Some(InstructionError::Vault(e))
            &&& !crate::vault::instructions::rebalance_leg::needs_transaction(
                vault,
                ctx,
                args,
                accounts,
            )
        },
{
}

/// A leg is decided by what its four accounts hold: the vault's token accounts of the asset sold
/// and of the asset bought, then the two mints; and by whether the transaction holds a transfer of
/// at least `min_raw_out` to the account of the asset bought.
pub proof fn law_leg_is_decided_by_its_accounts(
    vault: VaultView,
    nav: NavSnapshotView,
    ctx: RebalanceLeg,
    args: RebalanceLegArgs,
    accounts: Seq<RawAccount>,
    sysvar: Seq<u8>,
    from: TokenAccount,
    to: TokenAccount,
)
    requires
        accounts.len() == 4,
        crate::vault::accounts::token_account_fields(
            accounts[0].program,
            accounts[0].lamports,
            accounts[0].data@,
        ) == Ok::<(crate::Pubkey, crate::Pubkey, u64), u64>((from.mint, from.owner, from.amount)),
        crate::vault::accounts::token_account_fields(
            accounts[1].program,
            accounts[1].lamports,
            accounts[1].data@,
        ) == Ok::<(crate::Pubkey, crate::Pubkey, u64), u64>((to.mint, to.owner, to.amount)),
        crate::vault::accounts::mint_fault(
            accounts[2].program,
            accounts[2].lamports,
            accounts[2].data@,
        ) is None,
        crate::vault::accounts::mint_fault(
            accounts[3].program,
            accounts[3].lamports,
            accounts[3].data@,
        ) is None,
        from.key == accounts[0].key,
        to.key == accounts[1].key,
    ensures
        ({
            let read = RebalanceAccounts {
                from_vault_ata: from,
                to_vault_ata: to,
                from_mint: accounts[2].key,
                to_mint: accounts[3].key,
            };
            &&& crate::vault::instructions::rebalance_leg::accounts_in(accounts) == Ok::<
                RebalanceAccounts,
                u64,
            >(read)
            &&& crate::vault::instructions::rebalance_leg::rebalance_error(
                vault,
                nav,
                ctx,
                args,
                accounts,
                sysvar,
            ) == crate::vault::instructions::rebalance_leg::settle_error(
                vault,
                nav,
                ctx,
                args,
                read,
                crate::vault::introspection::transfer_among(
                    crate::vault::introspection::instructions_so_far(sysvar),
                    accounts[1].key,
                    args.min_raw_out,
                ),
            )
        }),
{
}

/// Four accounts of which one cannot be read refuse a leg that is not turned away with the code of
/// the first such account; any other number of accounts refuses it outright.
pub proof fn law_unreadable_leg_is_refused(
    vault: VaultView,
    nav: NavSnapshotView,
    ctx: RebalanceLeg,
    args: RebalanceLegArgs,
    accounts: Seq<RawAccount>,
    sysvar: Seq<u8>,
)
    requires
        crate::vault::instructions::rebalance_leg::request_error(vault, ctx, args) is None,
    ensures
        ({
            let error = crate::vault::instructions::rebalance_leg::rebalance_error(
                vault,
                nav,
                ctx,
                args,
                accounts,
                sysvar,
            );
            let first = crate::vault::accounts::token_account_fields(
                accounts[0].program,
                accounts[0].lamports,
                accounts[0].data@,
            );
            let second = crate::vault::accounts::token_account_fields(
                accounts[1].program,
                accounts[1].lamports,
                accounts[1].data@,
            );
            let third = crate::vault::accounts::mint_fault(
                accounts[2].program,
                accounts[2].lamports,
                accounts[2].data@,
            );
            let fourth = crate::vault::accounts::mint_fault(
                accounts[3].program,
                accounts[3].lamports,
                accounts[3].data@,
            );
            &&& accounts.len() != 4 ==> error == Some(
                InstructionError::Vault(VaultError::InvalidRemainingAccounts),
            )
            &&& accounts.len() == 4 ==> {
                &&& first matches Err(code) ==> error == Some(InstructionError::Program(code))
                &&& first is Ok ==> (second matches Err(code) ==> error == Some(
                    InstructionError::Program(code),
                ))
                &&& first is Ok && second is Ok ==> (third matches Some(code) ==> error == Some(
                    InstructionError::Program(code),
                ))
                &&& first is Ok && second is Ok && third is None ==> (fourth matches Some(code)
                    ==> error == Some(InstructionError::Program(code)))
            }
            &&& accounts.len() != 4 || first is Err || second is Err || third is Some
                || fourth is Some
                ==> !crate::vault::instructions::rebalance_leg::needs_transaction(
                vault,
                ctx,
                args,
                accounts,
            )
        }),
{
}

/// The transaction is looked at exactly where the four accounts show the swap.
pub proof fn law_transaction_is_read_last(
    vault: VaultView,
    ctx: RebalanceLeg,
    args: RebalanceLegArgs,
    accounts: Seq<RawAccount>,
    read: RebalanceAccounts,
    i: int,
    j: int,
)
    requires
        accounts.len() == 4,
        crate::vault::instructions::rebalance_leg::accounts_in(accounts) == Ok::<
            RebalanceAccounts,
            u64,
        >(read),
        0 <= i < vault.holdings.len(),
        vault.holdings[i].mint == args.from_mint,
        forall|k: int| 0 <= k < i ==> (#[trigger] vault.holdings[k]).mint != args.from_mint,
        0 <= j < vault.holdings.len(),
        vault.holdings[j].mint == args.to_mint,
        forall|k: int| 0 <= k < j ==> (#[trigger] vault.holdings[k]).mint != args.to_mint,
    ensures
        crate::vault::instructions::rebalance_leg::needs_transaction(vault, ctx, args, accounts)
            <==> {
            &&& ctx.keeper == vault.keeper
            &&& !vault.pause_flags.halted
            &&& args.raw_in > 0
            &&& read.from_mint == args.from_mint
            &&& read.to_mint == args.to_mint
            &&& read.from_vault_ata.mint == args.from_mint
            &&& read.to_vault_ata.mint == args.to_mint
            &&& read.from_vault_ata.owner == ctx.vault_key
            &&& read.to_vault_ata.owner == ctx.vault_key
            &&& vault.holdings[i].raw_balance - read.from_vault_ata.amount == args.raw_in
            &&& read.to_vault_ata.amount - vault.holdings[j].raw_balance >= args.min_raw_out
        },
{
    crate::laws::basket::law_holding_is_found(vault.holdings, args.from_mint, i);
    crate::laws::basket::law_holding_is_found(vault.holdings, args.to_mint, j);
}

/// A rebalance takes over the balances of the two token accounts, whatever they are, and changes
/// nothing else of the basket.
pub proof fn law_rebalance_takes_the_balances_over(
    holdings: Seq<Holding>,
    args: RebalanceLegArgs,
    accounts: RebalanceAccounts,
    i: int,
    j: int,
)
    requires
        0 <= i < holdings.len(),
        holdings[i].mint == args.from_mint,
        forall|k: int| 0 <= k < i ==> (#[trigger] holdings[k]).mint != args.from_mint,
        0 <= j < holdings.len(),
        holdings[j].mint == args.to_mint,
        forall|k: int| 0 <= k < j ==> (#[trigger] holdings[k]).mint != args.to_mint,
    ensures
        ({
            let after = crate::vault::instructions::rebalance_leg::rebalanced(
                holdings,
                args,
                accounts,
            );
            &&& after.len() == holdings.len()
            &&& after[j] == (Holding {
                raw_balance: accounts.to_vault_ata.amount,
                ..holdings[j]
            })
            &&& i != j ==> after[i] == (Holding {
                raw_balance: accounts.from_vault_ata.amount,
                ..holdings[i]
            })
            &&& forall|k: int|
                0 <= k < holdings.len() && k != i && k != j ==> #[trigger] after[k] == holdings[k]
        }),
{
    crate::laws::basket::law_holding_is_found(holdings, args.from_mint, i);
    crate::laws::basket::law_holding_is_found(holdings, args.to_mint, j);
    crate::vault::instructions::rebalance_leg::lemma_with_balance(
        holdings,
        args.from_mint,
        accounts.from_vault_ata.amount,
        args.to_mint,
    );
}

} // verus!
