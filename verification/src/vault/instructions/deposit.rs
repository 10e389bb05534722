//! Deposits: USDC in, shares out at the NAV.

use vstd::prelude::*;

use crate::oracle::{NavSnapshot, NavSnapshotView};
use crate::pubkey::Pubkey;
use crate::vault::errors::VaultError;
use crate::vault::nav::{total_nav_1e8, usdc_value_1e8};
use crate::vault::state::{Vault, VaultView};

verus! {

/// Who deposits, the supply of shares before the deposit, and the slot.
pub struct Deposit {
    pub user: Pubkey,
    pub share_supply: u64,
    pub slot: u64,
}

/// A deposit was made.
#[derive(Clone, Copy, Debug)]
pub struct DepositEvent {
    pub user: Pubkey,
    pub usdc_raw: u64,
    pub shares_minted: u64,
    pub cash_buffer_after: u64,
}

/// Shares for a deposit: its share of the NAV, in shares. The first deposit, and one into a vault
/// that is worth nothing, gets one share unit per 1e-8 USD.
pub open spec fn shares_out(deposit_usd_1e8: int, share_supply: int, total_nav_1e8: int) -> int {
    if share_supply == 0 || total_nav_1e8 == 0 {
        deposit_usd_1e8
    } else {
        deposit_usd_1e8 * share_supply / total_nav_1e8
    }
}

/// Whether the product in `shares_out` can be held in a `u128`.
pub open spec fn shares_out_fits(
    deposit_usd_1e8: int,
    share_supply: int,
    total_nav_1e8: int,
) -> bool {
    share_supply == 0 || total_nav_1e8 == 0 || deposit_usd_1e8 * share_supply <= u128::MAX
}

/// Shares for a deposit worth `deposit_usd_1e8` into a vault worth `total_nav_1e8`.
pub fn shares_out_from_nav(
    deposit_usd_1e8: u128,
    share_supply: u128,
    total_nav_1e8: u128,
) -> (res: Result<u128, VaultError>)
    ensures
        match res {
            Ok(shares) => {
                &&& shares_out_fits(
                    deposit_usd_1e8 as int,
                    share_supply as int,
                    total_nav_1e8 as int,
                )
                &&& shares == shares_out(
                    deposit_usd_1e8 as int,
                    share_supply as int,
                    total_nav_1e8 as int,
                )
            },
            Err(e) => {
                &&& e == VaultError::MathOverflow
                &&& !shares_out_fits(
                    deposit_usd_1e8 as int,
                    share_supply as int,
                    total_nav_1e8 as int,
                )
            },
        },
{
    if share_supply == 0 || total_nav_1e8 == 0 {
        return Ok(deposit_usd_1e8);
    }
    deposit_usd_1e8.checked_mul(share_supply).ok_or(VaultError::MathOverflow)?.checked_div(
        total_nav_1e8,
    ).ok_or(VaultError::MathOverflow)
}

/// Why a deposit is not even collected, if it is not.
pub open spec fn request_error(vault: VaultView, usdc_raw: u64) -> Option<VaultError> {
    if vault.pause_flags.halted {
        Some(VaultError::Paused)
    } else if usdc_raw == 0 {
        Some(VaultError::ZeroAmount)
    } else {
        None
    }
}

/// Shares that a deposit of `usdc_raw` gets at the prices of `nav`.
pub open spec fn deposit_shares(
    vault: VaultView,
    nav: NavSnapshotView,
    share_supply: u64,
    usdc_raw: u64,
) -> int {
    shares_out(
        crate::vault::nav::usdc_value(usdc_raw as int),
        share_supply as int,
        crate::vault::nav::total_nav(vault.holdings, vault.cash_raw, nav.entries),
    )
}

/// Whether the shares for a deposit of `usdc_raw` can be computed and held.
pub open spec fn deposit_shares_fit(
    vault: VaultView,
    nav: NavSnapshotView,
    share_supply: u64,
    usdc_raw: u64,
) -> bool {
    &&& crate::vault::nav::nav_fits(vault.holdings, vault.cash_raw, nav.entries)
    &&& shares_out_fits(
        crate::vault::nav::usdc_value(usdc_raw as int),
        share_supply as int,
        crate::vault::nav::total_nav(vault.holdings, vault.cash_raw, nav.entries),
    )
    &&& deposit_shares(vault, nav, share_supply, usdc_raw) <= u64::MAX
}

/// Why a deposit is refused, if it is.
pub open spec fn deposit_error(
    vault: VaultView,
    nav: NavSnapshotView,
    ctx: Deposit,
    usdc_raw: u64,
    min_shares_out: u64,
) -> Option<VaultError> {
    match request_error(vault, usdc_raw) {
        Some(e) => Some(e),
        None => if !nav.fresh_at(ctx.slot) {
            Some(VaultError::OracleStale)
        } else if !deposit_shares_fit(vault, nav, ctx.share_supply, usdc_raw) {
            Some(VaultError::MathOverflow)
        } else if deposit_shares(vault, nav, ctx.share_supply, usdc_raw) < min_shares_out {
            Some(VaultError::SlippageExceeded)
        } else if vault.cash_raw + usdc_raw > u64::MAX {
            Some(VaultError::MathOverflow)
        } else {
            None
        },
    }
}

/// Whether `usdc_raw` may be collected for a deposit.
pub fn check_request(vault: &Vault, usdc_raw: u64) -> (res: Result<(), VaultError>)
    ensures
        match request_error(vault@, usdc_raw) {
            Some(e) => res == Err::<(), VaultError>(e),
            None => res == Ok::<(), VaultError>(()),
        },
{
    if vault.pause_flags.halted {
        return Err(VaultError::Paused);
    }
    if usdc_raw == 0 {
        return Err(VaultError::ZeroAmount);
    }
    Ok(())
}

/// Adds `usdc_raw`, which the user pays, to the USDC buffer. The event's `shares_minted` are then
/// minted to the user. A refused deposit changes nothing.
pub fn handler(
    vault: &mut Vault,
    nav: &NavSnapshot,
    ctx: &Deposit,
    usdc_raw: u64,
    min_shares_out: u64,
) -> (res: Result<DepositEvent, VaultError>)
    ensures
        match deposit_error(old(vault)@, nav@, *ctx, usdc_raw, min_shares_out) {
            Some(e) => {
                &&& res == Err::<DepositEvent, VaultError>(e)
                &&& final(vault)@ == old(vault)@
            },
            None => {
                &&& final(vault)@ == (VaultView {
                    cash_raw: (old(vault)@.cash_raw + usdc_raw) as u64,
                    ..old(vault)@
                })
                &&& res == Ok::<DepositEvent, VaultError>(
                    DepositEvent {
                        user: ctx.user,
                        usdc_raw,
                        shares_minted: deposit_shares(
                            old(vault)@,
                            nav@,
                            ctx.share_supply,
                            usdc_raw,
                        ) as u64,
                        cash_buffer_after: final(vault)@.cash_raw,
                    },
                )
            },
        },
        old(vault)@.well_formed() ==> final(vault)@.well_formed(),
{
    check_request(vault, usdc_raw)?;
    if !nav.is_fresh(ctx.slot) {
        return Err(VaultError::OracleStale);
    }
    let total_nav: u128 = total_nav_1e8(vault, nav)?;
    let deposit_usd: u128 = usdc_value_1e8(usdc_raw);
    let shares: u128 = shares_out_from_nav(deposit_usd, ctx.share_supply as u128, total_nav)?;
    if shares > u64::MAX as u128 {
        return Err(VaultError::MathOverflow);
    }
    let shares_minted: u64 = shares as u64;
    if shares_minted < min_shares_out {
        return Err(VaultError::SlippageExceeded);
    }
    vault.cash_raw = vault.cash_raw.checked_add(usdc_raw).ok_or(VaultError::MathOverflow)?;
    Ok(DepositEvent { user: ctx.user, usdc_raw, shares_minted, cash_buffer_after: vault.cash_raw })
}

} // verus!
