//! What holdings, baskets and cash are worth.

use vstd::prelude::*;

use crate::laws::oracle::law_entry_at;
use crate::oracle::NavEntry;
use crate::vault::state::Holding;

verus! {

/// A quotient that is rounded down is the one number whose multiple is the last one not above.
pub proof fn lemma_rounded_down(x: int, d: int)
    requires
        0 < d,
    ensures
        x / d * d <= x < (x / d + 1) * d,
        0 <= x ==> 0 <= x / d,
{
    vstd::arithmetic::div_mod::lemma_fundamental_div_mod(x, d);
    let q = x / d;
    assert(q * d == d * q && (q + 1) * d == d * q + d) by (nonlinear_arith);
    if 0 <= x {
        vstd::arithmetic::div_mod::lemma_div_pos_is_pos(x, d);
    }
}

/// A raw amount is scaled by the whole multiplier, rounded down, and only then priced, rounded down
/// once more: `scaled <= raw * multiplier / 1e18 < scaled + 1` and
/// `value <= scaled * price / 10^decimals < value + 1`.
pub proof fn law_amount_is_scaled_then_priced(
    raw_amount: int,
    multiplier_num: int,
    price_usd_1e8: int,
    decimals: nat,
)
    ensures
        ({
            let scaled = raw_amount * multiplier_num / 1_000_000_000_000_000_000;
            let value = crate::vault::nav::usd_value(
                raw_amount,
                multiplier_num,
                price_usd_1e8,
                decimals,
            );
            let unit = vstd::arithmetic::power::pow(10, decimals);
            &&& scaled * 1_000_000_000_000_000_000 <= raw_amount * multiplier_num < (scaled + 1)
                * 1_000_000_000_000_000_000
            &&& value * unit <= scaled * price_usd_1e8 < (value + 1) * unit
            &&& crate::vault::nav::usd_value_fits(
                raw_amount,
                multiplier_num,
                price_usd_1e8,
                decimals,
            ) <==> raw_amount * multiplier_num <= u128::MAX && unit <= u128::MAX && scaled
                * price_usd_1e8 <= u128::MAX
        }),
{
    vstd::arithmetic::power::lemma_pow_positive(10, decimals);
    let scaled = raw_amount * multiplier_num / 1_000_000_000_000_000_000;
    lemma_rounded_down(
        scaled * price_usd_1e8,
        vstd::arithmetic::power::pow(10, decimals),
    );
}

/// A holding is priced by the first entry of its mint: its whole raw balance, times the whole
/// multiplier of that entry, times its price.
pub proof fn law_priced_holding_is_worth(holding: Holding, entries: Seq<NavEntry>, k: int)
    requires
        0 <= k < entries.len(),
        entries[k].mint == holding.mint,
        forall|j: int| 0 <= j < k ==> (#[trigger] entries[j]).mint != holding.mint,
    ensures
        ({
            let scaled = holding.raw_balance * entries[k].multiplier_num
                / 1_000_000_000_000_000_000;
            let value = crate::vault::nav::holding_value(holding, entries);
            let unit = vstd::arithmetic::power::pow(10, holding.decimals as nat);
            &&& 0 <= value
            &&& value * unit <= scaled * entries[k].price_usd_1e8 < (value + 1) * unit
            &&& crate::vault::nav::holding_value_fits(holding, entries) <==> holding.raw_balance
                * entries[k].multiplier_num <= u128::MAX && unit <= u128::MAX && scaled
                * entries[k].price_usd_1e8 <= u128::MAX
        }),
{
    law_entry_at(entries, holding.mint, k);
    law_amount_is_scaled_then_priced(
        holding.raw_balance as int,
        entries[k].multiplier_num as int,
        entries[k].price_usd_1e8 as int,
        holding.decimals as nat,
    );
    crate::vault::nav::lemma_holding_value_nonneg(holding, entries);
}

/// A holding that no entry prices is worth nothing, and never too much to be held.
pub proof fn law_unpriced_holding_is_worth_nothing(holding: Holding, entries: Seq<NavEntry>)
    requires
        forall|j: int| 0 <= j < entries.len() ==> (#[trigger] entries[j]).mint != holding.mint,
    ensures
        crate::vault::nav::holding_value(holding, entries) == 0,
        crate::vault::nav::holding_value_fits(holding, entries),
{
    crate::laws::oracle::law_first_entry_counts(entries, holding.mint);
}

/// The NAV is the sum of all holdings and the cash: an empty basket is worth its cash, at 100 units
/// of 1e-8 USD per raw USDC, and every further holding adds its own value. It can be computed
/// exactly where each holding can be valued and the sum can be held.
pub proof fn law_nav_is_sum_of_holdings_and_cash(
    holdings: Seq<Holding>,
    last: Holding,
    cash_raw: u64,
    entries: Seq<NavEntry>,
)
    ensures
        crate::vault::nav::total_nav(Seq::empty(), cash_raw, entries) == 100 * cash_raw,
        crate::vault::nav::total_nav(holdings.push(last), cash_raw, entries)
            == crate::vault::nav::total_nav(holdings, cash_raw, entries)
            + crate::vault::nav::holding_value(last, entries),
        0 <= crate::vault::nav::total_nav(holdings, cash_raw, entries),
        crate::vault::nav::nav_fits(holdings, cash_raw, entries) <==> (forall|i: int|
            0 <= i < holdings.len() ==> crate::vault::nav::holding_value_fits(
                #[trigger] holdings[i],
                entries,
            )) && crate::vault::nav::total_nav(holdings, cash_raw, entries) <= u128::MAX,
{
    assert(holdings.push(last).drop_last() =~= holdings);
    crate::vault::nav::lemma_basket_value_grows(holdings, entries, 0);
}

/// A raw USDC unit is worth 100 units of 1e-8 USD.
pub proof fn law_usdc_is_a_dollar(usdc_raw: int)
    ensures
        crate::vault::nav::usdc_value(usdc_raw) == 100 * usdc_raw,
{
}

} // verus!
