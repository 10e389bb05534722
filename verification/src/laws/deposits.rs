//! When a deposit is taken, and how many shares it gets.

use vstd::prelude::*;

use crate::laws::pricing::lemma_rounded_down;
use crate::oracle::NavSnapshotView;
use crate::vault::errors::VaultError;
use crate::vault::instructions::deposit::Deposit;
use crate::vault::state::VaultView;

verus! {

/// Shares for a value are its share of the NAV, rounded down:
/// `minted / supply <= value / nav < (minted + 1) / supply`. Where there are no shares or no NAV
/// yet, there is one share unit per 1e-8 USD.
pub proof fn law_shares_are_share_of_nav(
    deposit_usd_1e8: int,
    share_supply: int,
    total_nav_1e8: int,
)
    requires
        0 <= share_supply,
        0 <= total_nav_1e8,
    ensures
        ({
            let minted = crate::vault::instructions::deposit::shares_out(
                deposit_usd_1e8,
                share_supply,
                total_nav_1e8,
            );
            &&& 0 < share_supply && 0 < total_nav_1e8 ==> minted * total_nav_1e8
                <= deposit_usd_1e8 * share_supply < (minted + 1) * total_nav_1e8
            &&& share_supply == 0 || total_nav_1e8 == 0 ==> minted == deposit_usd_1e8
            &&& crate::vault::instructions::deposit::shares_out_fits(
                deposit_usd_1e8,
                share_supply,
                total_nav_1e8,
            ) <==> share_supply == 0 || total_nav_1e8 == 0 || deposit_usd_1e8 * share_supply
                <= u128::MAX
        }),
{
    if 0 < share_supply && 0 < total_nav_1e8 {
        lemma_rounded_down(deposit_usd_1e8 * share_supply, total_nav_1e8);
    }
}

/// A deposit gets its share of the NAV of the whole vault before the deposit, at 100 units of
/// 1e-8 USD per raw USDC, rounded down.
pub proof fn law_deposit_mints_at_nav(
    vault: VaultView,
    nav: NavSnapshotView,
    share_supply: u64,
    usdc_raw: u64,
)
    ensures
        ({
            let total = crate::vault::nav::total_nav(vault.holdings, vault.cash_raw, nav.entries);
            let minted = crate::vault::instructions::deposit::deposit_shares(
                vault,
                nav,
                share_supply,
                usdc_raw,
            );
            &&& 0 <= minted
            &&& 0 < share_supply && 0 < total ==> minted * total <= 100 * usdc_raw * share_supply
                < (minted + 1) * total
            &&& share_supply == 0 || total == 0 ==> minted == 100 * usdc_raw
        }),
{
    let total = crate::vault::nav::total_nav(vault.holdings, vault.cash_raw, nav.entries);
    crate::vault::nav::lemma_basket_value_grows(vault.holdings, nav.entries, 0);
    law_shares_are_share_of_nav(100 * usdc_raw, share_supply as int, total);
    if 0 < share_supply && 0 < total {
        assert(100 * usdc_raw * share_supply >= 0) by (nonlinear_arith);
        lemma_rounded_down(100 * usdc_raw * share_supply, total);
    }
}

/// Which deposits go through, and why the others do not. USDC is collected unless the vault is
/// halted or the amount is zero. The deposit then goes through exactly where the prices are not
/// stale, every number fits, the shares are no fewer than asked for, and the buffer can hold it.
pub proof fn law_deposit_goes_through(
    vault: VaultView,
    nav: NavSnapshotView,
    ctx: Deposit,
    usdc_raw: u64,
    min_shares_out: u64,
)
    ensures
        ({
            let error = crate::vault::instructions::deposit::deposit_error(
                vault,
                nav,
                ctx,
                usdc_raw,
                min_shares_out,
            );
            let request = crate::vault::instructions::deposit::request_error(vault, usdc_raw);
            let total = crate::vault::nav::total_nav(vault.holdings, vault.cash_raw, nav.entries);
            let minted = crate::vault::instructions::deposit::deposit_shares(
                vault,
                nav,
                ctx.share_supply,
                usdc_raw,
            );
            let halted = vault.pause_flags.halted;
            let fresh = ctx.slot - nav.last_update_slot <= nav.max_stale_slots;
            let fits = crate::vault::nav::nav_fits(vault.holdings, vault.cash_raw, nav.entries) && (
            ctx.share_supply == 0 || total == 0 || 100 * usdc_raw * ctx.share_supply <= u128::MAX)
                && minted <= u64::MAX;
            &&& request is None <==> !halted && usdc_raw > 0
            &&& request == Some(VaultError::Paused) <==> halted
            &&& request == Some(VaultError::ZeroAmount) <==> !halted && usdc_raw == 0
            &&& error is None <==> !halted && usdc_raw > 0 && fresh && fits && minted
                >= min_shares_out && vault.cash_raw + usdc_raw <= u64::MAX
            &&& error == Some(VaultError::Paused) <==> halted
            &&& error == Some(VaultError::ZeroAmount) <==> !halted && usdc_raw == 0
            &&& error == Some(VaultError::OracleStale) <==> !halted && usdc_raw > 0 && !fresh
            &&& error == Some(VaultError::SlippageExceeded) <==> !halted && usdc_raw > 0 && fresh
                && fits && minted < min_shares_out
            &&& error == Some(VaultError::MathOverflow) <==> !halted && usdc_raw > 0 && fresh && (
            !fits || (minted >= min_shares_out && vault.cash_raw + usdc_raw > u64::MAX))
        }),
{
}

/// Two deposits at the same NAV get what one of their sum gets, but for at most one share unit that
/// rounding down takes.
pub proof fn law_deposit_shares_are_linear(
    vault: VaultView,
    nav: NavSnapshotView,
    share_supply: u64,
    first: u64,
    second: u64,
)
    requires
        first + second <= u64::MAX,
    ensures
        ({
            let a = crate::vault::instructions::deposit::deposit_shares(
                vault,
                nav,
                share_supply,
                first,
            );
            let b = crate::vault::instructions::deposit::deposit_shares(
                vault,
                nav,
                share_supply,
                second,
            );
            a + b <= crate::vault::instructions::deposit::deposit_shares(
                vault,
                nav,
                share_supply,
                (first + second) as u64,
            ) <= a + b + 1
        }),
{
    let total = crate::vault::nav::total_nav(vault.holdings, vault.cash_raw, nav.entries);
    let s = share_supply as int;
    law_deposit_mints_at_nav(vault, nav, share_supply, first);
    law_deposit_mints_at_nav(vault, nav, share_supply, second);
    law_deposit_mints_at_nav(vault, nav, share_supply, (first + second) as u64);
    crate::vault::nav::lemma_basket_value_grows(vault.holdings, nav.entries, 0);
    if 0 < s && 0 < total {
        let a = crate::vault::instructions::deposit::deposit_shares(
            vault,
            nav,
            share_supply,
            first,
        );
        let b = crate::vault::instructions::deposit::deposit_shares(
            vault,
            nav,
            share_supply,
            second,
        );
        let c = crate::vault::instructions::deposit::deposit_shares(
            vault,
            nav,
            share_supply,
            (first + second) as u64,
        );
        let x = 100 * first * s;
        let y = 100 * second * s;
        assert(100 * (first + second) * s == x + y) by (nonlinear_arith)
            requires
                x == 100 * first * s,
                y == 100 * second * s,
        ;
        assert(a + b <= c <= a + b + 1) by (nonlinear_arith)
            requires
                a * total <= x < (a + 1) * total,
                b * total <= y < (b + 1) * total,
                c * total <= x + y < (c + 1) * total,
                0 < total,
        ;
    }
}

} // verus!
