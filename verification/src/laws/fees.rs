//! When a fee is collected, and how much.

use vstd::prelude::*;

use crate::laws::pricing::lemma_rounded_down;
use crate::oracle::NavSnapshotView;
use crate::vault::errors::VaultError;
use crate::vault::instructions::collect_mgmt_fee::CollectMgmtFee;
use crate::vault::instructions::collect_perf_fee::CollectPerfFee;
use crate::vault::state::VaultView;

verus! {

/// The management fee is the supply, times the rate per year, times the part of a year of 365 days
/// that has gone by, rounded down: 315_360_000_000 is 10_000 bps times the seconds of a year.
pub proof fn law_mgmt_fee_is_pro_rata(share_supply: int, fee_bps: int, elapsed: int)
    ensures
        ({
            let fee = crate::vault::instructions::collect_mgmt_fee::mgmt_fee_shares(
                share_supply,
                fee_bps,
                elapsed,
            );
            &&& fee * 315_360_000_000 <= share_supply * fee_bps * elapsed < (fee + 1)
                * 315_360_000_000
            &&& crate::vault::instructions::collect_mgmt_fee::mgmt_fee_fits(
                share_supply,
                fee_bps,
                elapsed,
            ) <==> share_supply * fee_bps * elapsed <= u128::MAX && fee <= u64::MAX
        }),
{
}

/// When the management fee is collected, and why not at other times: the vault is not halted, time
/// has gone by since the last collection, and the fee of the shares there are can be held.
pub proof fn law_mgmt_fee_is_collected(vault: VaultView, ctx: CollectMgmtFee)
    ensures
        ({
            let error = crate::vault::instructions::collect_mgmt_fee::collect_error(vault, ctx);
            let elapsed = ctx.now - vault.last_fee_collection_ts;
            let owed = ctx.share_supply * vault.management_fee_bps * elapsed;
            let fee = crate::vault::instructions::collect_mgmt_fee::mgmt_fee_shares(
                ctx.share_supply as int,
                vault.management_fee_bps as int,
                elapsed,
            );
            let halted = vault.pause_flags.halted;
            let timed = i64::MIN <= elapsed <= i64::MAX;
            let fits = ctx.share_supply == 0 || (owed <= u128::MAX && fee <= u64::MAX);
            &&& error is None <==> !halted && 0 < elapsed <= i64::MAX && fits
            &&& error == Some(VaultError::Paused) <==> halted
            &&& error == Some(VaultError::NoFeeAccrued) <==> !halted && timed && elapsed <= 0
            &&& error == Some(VaultError::MathOverflow) <==> !halted && (!timed || (elapsed > 0
                && !fits))
        }),
{
}

/// The NAV per share is the NAV of the whole vault by the supply, × 1e8, rounded down.
pub proof fn law_nav_per_share_is_nav_by_supply(
    vault: VaultView,
    nav: NavSnapshotView,
    share_supply: u64,
)
    requires
        0 < share_supply,
    ensures
        ({
            let total = crate::vault::nav::total_nav(vault.holdings, vault.cash_raw, nav.entries);
            let per_share = crate::vault::instructions::collect_perf_fee::vault_nav_per_share(
                vault,
                nav,
                share_supply,
            );
            &&& 0 <= per_share
            &&& per_share * share_supply <= total * 100_000_000 < (per_share + 1) * share_supply
            &&& crate::vault::instructions::collect_perf_fee::nav_per_share_fits(vault, nav)
                <==> crate::vault::nav::nav_fits(vault.holdings, vault.cash_raw, nav.entries)
                && total * 100_000_000 <= u128::MAX
        }),
{
    let total = crate::vault::nav::total_nav(vault.holdings, vault.cash_raw, nav.entries);
    crate::vault::nav::lemma_basket_value_grows(vault.holdings, nav.entries, 0);
    lemma_rounded_down(total * 100_000_000, share_supply as int);
}

/// The performance fee is its rate of what all shares have gained over the mark, in shares at the
/// NAV per share, rounded down.
pub proof fn law_perf_fee_is_rate_of_gain(
    fee_bps: int,
    share_supply: int,
    per_share: int,
    hwm: int,
)
    requires
        0 < per_share,
    ensures
        ({
            let fee = crate::vault::instructions::collect_perf_fee::perf_fee_shares(
                fee_bps,
                share_supply,
                per_share,
                hwm,
            );
            let gained = fee_bps * (per_share - hwm) * share_supply;
            &&& fee * (10_000 * per_share) <= gained < (fee + 1) * (10_000 * per_share)
            &&& crate::vault::instructions::collect_perf_fee::perf_fee_fits(
                fee_bps,
                share_supply,
                per_share,
                hwm,
            ) <==> fee_bps * (per_share - hwm) <= u128::MAX && gained <= u128::MAX && 10_000
                * per_share <= u128::MAX && fee <= u64::MAX
        }),
{
    lemma_rounded_down(fee_bps * (per_share - hwm) * share_supply, 10_000 * per_share);
}

/// When the performance fee is collected, and why not at other times: the vault is not halted and
/// the prices are not stale; and where there are shares, the NAV per share can be computed and,
/// unless there is no mark yet, is above the mark with a fee that can be held.
pub proof fn law_perf_fee_is_collected(vault: VaultView, nav: NavSnapshotView, ctx: CollectPerfFee)
    ensures
        ({
            let error = crate::vault::instructions::collect_perf_fee::collect_error(
                vault,
                nav,
                ctx,
            );
            let total = crate::vault::nav::total_nav(vault.holdings, vault.cash_raw, nav.entries);
            let per_share = crate::vault::instructions::collect_perf_fee::vault_nav_per_share(
                vault,
                nav,
                ctx.share_supply,
            );
            let hwm = vault.hwm_nav_per_share_1e8;
            let bps = vault.performance_fee_bps;
            let fee = crate::vault::instructions::collect_perf_fee::perf_fee_shares(
                bps as int,
                ctx.share_supply as int,
                per_share,
                hwm as int,
            );
            let usable = !vault.pause_flags.halted && ctx.slot - nav.last_update_slot
                <= nav.max_stale_slots;
            let valued = crate::vault::nav::nav_fits(vault.holdings, vault.cash_raw, nav.entries)
                && total * 100_000_000 <= u128::MAX;
            let fits = bps * (per_share - hwm) <= u128::MAX && bps * (per_share - hwm)
                * ctx.share_supply <= u128::MAX && 10_000 * per_share <= u128::MAX && fee
                <= u64::MAX;
            &&& error is None <==> usable && (ctx.share_supply == 0 || (valued && (hwm == 0 || (
            per_share > hwm && fits))))
            &&& error == Some(VaultError::Paused) <==> vault.pause_flags.halted
            &&& error == Some(VaultError::OracleStale) <==> !vault.pause_flags.halted && !usable
            &&& error == Some(VaultError::BelowHighWaterMark) <==> usable && ctx.share_supply > 0
                && valued && hwm > 0 && per_share <= hwm
            &&& error == Some(VaultError::MathOverflow) <==> usable && ctx.share_supply > 0 && (
            !valued || (hwm > 0 && per_share > hwm && !fits))
        }),
{
}

} // verus!
