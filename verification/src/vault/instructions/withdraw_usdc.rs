//! Withdrawals in USDC: shares in, USDC from the buffer out, less the protocol fee.

use vstd::prelude::*;

use crate::oracle::{NavSnapshot, NavSnapshotView};
use crate::pubkey::Pubkey;
use crate::vault::errors::VaultError;
use crate::vault::nav::{total_nav_1e8, PRICE_SCALE_1E8, USDC_UNIT};
use crate::vault::state::{Vault, VaultView, BPS_DENOM, WITHDRAW_FEE_BPS};

verus! {

/// Largest slippage that a user may accept.
pub const MAX_WITHDRAW_SLIPPAGE_BPS: u16 = 500;

/// Who withdraws, the supply of shares before the withdrawal, the balance of the vault's USDC
/// account, and the slot.
pub struct WithdrawUsdc {
    pub user: Pubkey,
    pub total_shares: u64,
    pub vault_usdc_amount: u64,
    pub slot: u64,
}

/// A withdrawal was made.
#[derive(Clone, Copy, Debug)]
pub struct WithdrawUsdcEvent {
    pub user: Pubkey,
    pub shares_burned: u64,
    pub usdc_raw_out: u64,
    pub fee_raw: u64,
    pub max_slip_bps: u16,
}

/// Raw USDC that `shares` of `total_shares` are worth at a NAV of `total_nav_1e8`.
pub open spec fn expected_usdc(total_nav_1e8: int, shares: u64, total_shares: u64) -> int {
    total_nav_1e8 * shares / (total_shares as int) * (USDC_UNIT as int) / (PRICE_SCALE_1E8 as int)
}

/// Raw USDC that the user accepts at least, before the fee.
pub open spec fn least_usdc(expected: int, max_slip_bps: u16) -> int {
    expected * (BPS_DENOM - max_slip_bps) / (BPS_DENOM as int)
}

/// Whether every product that leads to the two amounts above can be held in a `u128`.
pub open spec fn amounts_fit(
    total_nav_1e8: int,
    shares: u64,
    total_shares: u64,
    max_slip_bps: u16,
) -> bool {
    &&& total_nav_1e8 * shares <= u128::MAX
    &&& total_nav_1e8 * shares / (total_shares as int) * (USDC_UNIT as int) <= u128::MAX
    &&& expected_usdc(total_nav_1e8, shares, total_shares) * (BPS_DENOM - max_slip_bps) <= u128::MAX
}

/// The smaller of two numbers.
pub open spec fn lesser(a: int, b: int) -> int {
    if a <= b {
        a
    } else {
        b
    }
}

/// Raw USDC that is taken from the buffer: what the shares are worth, as far as the buffer and
/// the vault's USDC account hold it.
pub open spec fn available_usdc(expected: int, cash_raw: u64, vault_usdc_amount: u64) -> int {
    lesser(expected, lesser(cash_raw as int, vault_usdc_amount as int))
}

/// The protocol fee on a raw USDC amount: 0.05%, rounded down.
pub open spec fn withdraw_fee(amount: int) -> int {
    amount * (WITHDRAW_FEE_BPS as int) / (BPS_DENOM as int)
}

/// NAV of the vault, × 1e8 USD, at the prices of `nav`.
pub open spec fn vault_nav(vault: VaultView, nav: NavSnapshotView) -> int {
    crate::vault::nav::total_nav(vault.holdings, vault.cash_raw, nav.entries)
}

/// Raw USDC that a withdrawal takes from the buffer.
pub open spec fn withdrawn_usdc(
    vault: VaultView,
    nav: NavSnapshotView,
    ctx: WithdrawUsdc,
    shares: u64,
) -> int {
    available_usdc(
        expected_usdc(vault_nav(vault, nav), shares, ctx.total_shares),
        vault.cash_raw,
        ctx.vault_usdc_amount,
    )
}

/// Why a request is refused before any share is burnt, if it is.
pub open spec fn request_error(ctx: WithdrawUsdc, shares: u64, max_slip_bps: u16) -> Option<
    VaultError,
> {
    if shares == 0 {
        Some(VaultError::ZeroAmount)
    } else if max_slip_bps > MAX_WITHDRAW_SLIPPAGE_BPS {
        Some(VaultError::SlippageExceeded)
    } else if ctx.total_shares == 0 {
        Some(VaultError::MathOverflow)
    } else {
        None
    }
}

/// Why a withdrawal is refused, if it is.
pub open spec fn withdraw_error(
    vault: VaultView,
    nav: NavSnapshotView,
    ctx: WithdrawUsdc,
    shares: u64,
    max_slip_bps: u16,
) -> Option<VaultError> {
    let total_nav = vault_nav(vault, nav);
    let expected = expected_usdc(total_nav, shares, ctx.total_shares);
    let available = withdrawn_usdc(vault, nav, ctx, shares);
    match request_error(ctx, shares, max_slip_bps) {
        Some(e) => Some(e),
        None => if !nav.fresh_at(ctx.slot) {
            Some(VaultError::OracleStale)
        } else if !crate::vault::nav::nav_fits(vault.holdings, vault.cash_raw, nav.entries)
            || !amounts_fit(total_nav, shares, ctx.total_shares, max_slip_bps) {
            Some(VaultError::MathOverflow)
        } else if available < least_usdc(expected, max_slip_bps) {
            Some(VaultError::SlippageExceeded)
        } else if vault.accrued_protocol_fees_raw + withdraw_fee(available) > u64::MAX {
            Some(VaultError::MathOverflow)
        } else {
            None
        },
    }
}

/// Whether `shares` may be burnt for a withdrawal.
pub fn check_request(ctx: &WithdrawUsdc, shares: u64, max_slip_bps: u16) -> (res: Result<
    (),
    VaultError,
>)
    ensures
        match request_error(*ctx, shares, max_slip_bps) {
            Some(e) => res == Err::<(), VaultError>(e),
            None => res == Ok::<(), VaultError>(()),
        },
{
    if shares == 0 {
        return Err(VaultError::ZeroAmount);
    }
    if max_slip_bps > MAX_WITHDRAW_SLIPPAGE_BPS {
        return Err(VaultError::SlippageExceeded);
    }
    if ctx.total_shares == 0 {
        return Err(VaultError::MathOverflow);
    }
    Ok(())
}

/// The smaller of two numbers.
fn least(a: u128, b: u128) -> (m: u128)
    ensures
        m == lesser(a as int, b as int),
{
    if a <= b {
        a
    } else {
        b
    }
}

/// Takes what the burnt `shares` are worth out of the USDC buffer. The event's `usdc_raw_out` is
/// then sent to the user, and its `fee_raw` is added to the protocol's fees. A refused withdrawal
/// changes nothing.
pub fn handler(
    vault: &mut Vault,
    nav: &NavSnapshot,
    ctx: &WithdrawUsdc,
    shares: u64,
    max_slip_bps: u16,
) -> (res: Result<WithdrawUsdcEvent, VaultError>)
    ensures
        match withdraw_error(old(vault)@, nav@, *ctx, shares, max_slip_bps) {
            Some(e) => {
                &&& res == Err::<WithdrawUsdcEvent, VaultError>(e)
                &&& final(vault)@ == old(vault)@
            },
            None => {
                let available = withdrawn_usdc(old(vault)@, nav@, *ctx, shares);
                let fee = withdraw_fee(available);
                &&& res == Ok::<WithdrawUsdcEvent, VaultError>(
                    WithdrawUsdcEvent {
                        user: ctx.user,
                        shares_burned: shares,
                        usdc_raw_out: (available - fee) as u64,
                        fee_raw: fee as u64,
                        max_slip_bps,
                    },
                )
                &&& final(vault)@ == (VaultView {
                    accrued_protocol_fees_raw: (old(vault)@.accrued_protocol_fees_raw
                        + fee) as u64,
                    cash_raw: (old(vault)@.cash_raw - available) as u64,
                    ..old(vault)@
                })
            },
        },
        old(vault)@.well_formed() ==> final(vault)@.well_formed(),
{
    check_request(ctx, shares, max_slip_bps)?;
    if !nav.is_fresh(ctx.slot) {
        return Err(VaultError::OracleStale);
    }
    let total_nav: u128 = total_nav_1e8(vault, nav)?;
    let expected: u128 = total_nav.checked_mul(shares as u128).ok_or(
        VaultError::MathOverflow,
    )?.checked_div(ctx.total_shares as u128).ok_or(VaultError::MathOverflow)?.checked_mul(
        USDC_UNIT,
    ).ok_or(VaultError::MathOverflow)?.checked_div(PRICE_SCALE_1E8).ok_or(
        VaultError::MathOverflow,
    )?;
    let available: u128 = least(
        expected,
        least(vault.cash_raw as u128, ctx.vault_usdc_amount as u128),
    );
    let kept_bps: u128 = BPS_DENOM - max_slip_bps as u128;
    let min_out: u128 = expected.checked_mul(kept_bps).ok_or(
        VaultError::MathOverflow,
    )?.checked_div(BPS_DENOM).ok_or(VaultError::MathOverflow)?;
    if available < min_out {
        return Err(VaultError::SlippageExceeded);
    }
    let fee: u128 = available * WITHDRAW_FEE_BPS / BPS_DENOM;
    let user_out: u64 = (available - fee) as u64;
    let fee_raw: u64 = fee as u64;
    let fees: u64 = vault.accrued_protocol_fees_raw.checked_add(fee_raw).ok_or(
        VaultError::MathOverflow,
    )?;
    vault.accrued_protocol_fees_raw = fees;
    vault.cash_raw = vault.cash_raw - (user_out + fee_raw);
    Ok(
        WithdrawUsdcEvent {
            user: ctx.user,
            shares_burned: shares,
            usdc_raw_out: user_out,
            fee_raw,
            max_slip_bps,
        },
    )
}

} // verus!
