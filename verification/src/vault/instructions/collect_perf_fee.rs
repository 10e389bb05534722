//! Collection of the performance fee.

use vstd::prelude::*;

use crate::oracle::{NavSnapshot, NavSnapshotView};
use crate::pubkey::Pubkey;
use crate::vault::errors::VaultError;
use crate::vault::nav::{total_nav_1e8, PRICE_SCALE_1E8};
use crate::vault::state::{Vault, VaultView, BPS_DENOM};

verus! {

/// The vault's address, the supply of shares, and the slot. Anyone may collect.
pub struct CollectPerfFee {
    pub vault_key: Pubkey,
    pub share_supply: u64,
    pub slot: u64,
}

/// The performance fee was collected.
#[derive(Clone, Copy, Debug)]
pub struct PerfFeeCollectedEvent {
    pub vault: Pubkey,
    pub fee_shares: u64,
    pub nav_per_share_1e8: u128,
    pub previous_hwm_1e8: u128,
}

/// NAV per share unit, × 1e8, rounded down.
pub open spec fn nav_per_share(total_nav_1e8: int, share_supply: int) -> int {
    total_nav_1e8 * (PRICE_SCALE_1E8 as int) / share_supply
}

/// Shares that the treasury gets for the gain over the high-water mark: fee rate × gain × supply,
/// divided by the NAV per share, rounded down.
pub open spec fn perf_fee_shares(fee_bps: int, share_supply: int, per_share: int, hwm: int) -> int {
    fee_bps * (per_share - hwm) * share_supply / (BPS_DENOM * per_share)
}

/// Whether the fee can be computed and held.
pub open spec fn perf_fee_fits(fee_bps: int, share_supply: int, per_share: int, hwm: int) -> bool {
    &&& fee_bps * (per_share - hwm) <= u128::MAX
    &&& fee_bps * (per_share - hwm) * share_supply <= u128::MAX
    &&& BPS_DENOM * per_share <= u128::MAX
    &&& perf_fee_shares(fee_bps, share_supply, per_share, hwm) <= u64::MAX
}

/// NAV per share unit, × 1e8, of the vault at the prices of `nav`.
pub open spec fn vault_nav_per_share(
    vault: VaultView,
    nav: NavSnapshotView,
    share_supply: u64,
) -> int {
    nav_per_share(
        crate::vault::nav::total_nav(vault.holdings, vault.cash_raw, nav.entries),
        share_supply as int,
    )
}

/// Whether the NAV per share can be computed.
pub open spec fn nav_per_share_fits(vault: VaultView, nav: NavSnapshotView) -> bool {
    &&& crate::vault::nav::nav_fits(vault.holdings, vault.cash_raw, nav.entries)
    &&& crate::vault::nav::total_nav(vault.holdings, vault.cash_raw, nav.entries) * (
    PRICE_SCALE_1E8 as int) <= u128::MAX
}

/// Why the fee is not collected, if it is not.
pub open spec fn collect_error(
    vault: VaultView,
    nav: NavSnapshotView,
    ctx: CollectPerfFee,
) -> Option<VaultError> {
    let per_share = vault_nav_per_share(vault, nav, ctx.share_supply);
    let hwm = vault.hwm_nav_per_share_1e8 as int;
    if vault.pause_flags.halted {
        Some(VaultError::Paused)
    } else if !nav.fresh_at(ctx.slot) {
        Some(VaultError::OracleStale)
    } else if ctx.share_supply == 0 {
        None
    } else if !nav_per_share_fits(vault, nav) {
        Some(VaultError::MathOverflow)
    } else if hwm == 0 {
        None
    } else if per_share <= hwm {
        Some(VaultError::BelowHighWaterMark)
    } else if !perf_fee_fits(
        vault.performance_fee_bps as int,
        ctx.share_supply as int,
        per_share,
        hwm,
    ) {
        Some(VaultError::MathOverflow)
    } else {
        None
    }
}

/// Collects the fee on the gain over the high-water mark, and raises the mark. The event's
/// `fee_shares` are then minted to the treasury. Where there are no shares nothing happens; the
/// first collection only sets the mark. Neither has an event. A refused collection changes nothing.
pub fn handler(vault: &mut Vault, nav: &NavSnapshot, ctx: &CollectPerfFee) -> (res: Result<
    Option<PerfFeeCollectedEvent>,
    VaultError,
>)
    ensures
        match collect_error(old(vault)@, nav@, *ctx) {
            Some(e) => {
                &&& res == Err::<Option<PerfFeeCollectedEvent>, VaultError>(e)
                &&& final(vault)@ == old(vault)@
            },
            None => {
                let per_share = vault_nav_per_share(old(vault)@, nav@, ctx.share_supply);
                let hwm = old(vault)@.hwm_nav_per_share_1e8;
                &&& final(vault)@ == if ctx.share_supply == 0 {
                    old(vault)@
                } else {
                    VaultView { hwm_nav_per_share_1e8: per_share as u128, ..old(vault)@ }
                }
                &&& res == Ok::<Option<PerfFeeCollectedEvent>, VaultError>(
                    if ctx.share_supply == 0 || hwm == 0 {
                        None
                    } else {
                        Some(
                            PerfFeeCollectedEvent {
                                vault: ctx.vault_key,
                                fee_shares: perf_fee_shares(
                                    old(vault)@.performance_fee_bps as int,
                                    ctx.share_supply as int,
                                    per_share,
                                    hwm as int,
                                ) as u64,
                                nav_per_share_1e8: per_share as u128,
                                previous_hwm_1e8: hwm,
                            },
                        )
                    },
                )
            },
        },
        old(vault)@.well_formed() ==> final(vault)@.well_formed(),
{
    if vault.pause_flags.halted {
        return Err(VaultError::Paused);
    }
    if !nav.is_fresh(ctx.slot) {
        return Err(VaultError::OracleStale);
    }
    if ctx.share_supply == 0 {
        return Ok(None);
    }
    let total_nav: u128 = total_nav_1e8(vault, nav)?;
    let per_share: u128 = total_nav.checked_mul(PRICE_SCALE_1E8).ok_or(
        VaultError::MathOverflow,
    )?.checked_div(ctx.share_supply as u128).ok_or(VaultError::MathOverflow)?;
    let hwm: u128 = vault.hwm_nav_per_share_1e8;
    if hwm == 0 {
        vault.hwm_nav_per_share_1e8 = per_share;
        return Ok(None);
    }
    if per_share <= hwm {
        return Err(VaultError::BelowHighWaterMark);
    }
    let gain: u128 = per_share - hwm;
    let weighted_gain: u128 = (vault.performance_fee_bps as u128).checked_mul(gain).ok_or(
        VaultError::MathOverflow,
    )?.checked_mul(ctx.share_supply as u128).ok_or(VaultError::MathOverflow)?;
    let divisor: u128 = BPS_DENOM.checked_mul(per_share).ok_or(VaultError::MathOverflow)?;
    let fee_shares: u128 = weighted_gain.checked_div(divisor).ok_or(VaultError::MathOverflow)?;
    if fee_shares > u64::MAX as u128 {
        return Err(VaultError::MathOverflow);
    }
    vault.hwm_nav_per_share_1e8 = per_share;
    Ok(
        Some(
            PerfFeeCollectedEvent {
                vault: ctx.vault_key,
                fee_shares: fee_shares as u64,
                nav_per_share_1e8: per_share,
                previous_hwm_1e8: hwm,
            },
        ),
    )
}

} // verus!
