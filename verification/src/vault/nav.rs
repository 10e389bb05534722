//! Valuation of the basket.

use vstd::arithmetic::power::pow;
use vstd::prelude::*;

use crate::oracle::{NavEntry, NavSnapshot};
use crate::vault::errors::VaultError;
use crate::vault::state::{Holding, Vault};

verus! {

/// Denominator of a multiplier.
pub const MULTIPLIER_DENOM_1E18: u128 = 1_000_000_000_000_000_000;

/// Scale of USD values and prices.
pub const PRICE_SCALE_1E8: u128 = 100_000_000;

/// Raw USDC units in one USDC.
pub const USDC_UNIT: u128 = 1_000_000;

/// `raw_amount` times the multiplier, rounded down: the amount that a holder sees.
pub open spec fn scaled_amount(raw_amount: int, multiplier_num: int) -> int {
    raw_amount * multiplier_num / (MULTIPLIER_DENOM_1E18 as int)
}

/// USD value, × 1e8, of a raw amount: the amount is scaled by the multiplier first, then priced.
pub open spec fn usd_value(
    raw_amount: int,
    multiplier_num: int,
    price_usd_1e8: int,
    decimals: nat,
) -> int {
    scaled_amount(raw_amount, multiplier_num) * price_usd_1e8 / pow(10, decimals)
}

/// Whether every product in `usd_value` can be held in a `u128`.
pub open spec fn usd_value_fits(
    raw_amount: int,
    multiplier_num: int,
    price_usd_1e8: int,
    decimals: nat,
) -> bool {
    &&& raw_amount * multiplier_num <= u128::MAX
    &&& pow(10, decimals) <= u128::MAX
    &&& scaled_amount(raw_amount, multiplier_num) * price_usd_1e8 <= u128::MAX
}

/// USD value, × 1e8, of a holding; zero where the snapshot does not price it.
pub open spec fn holding_value(holding: Holding, entries: Seq<NavEntry>) -> int {
    match crate::oracle::entry_for(entries, holding.mint) {
        Some(e) => usd_value(
            holding.raw_balance as int,
            e.multiplier_num as int,
            e.price_usd_1e8 as int,
            holding.decimals as nat,
        ),
        None => 0,
    }
}

/// Whether a holding can be valued.
pub open spec fn holding_value_fits(holding: Holding, entries: Seq<NavEntry>) -> bool {
    match crate::oracle::entry_for(entries, holding.mint) {
        Some(e) => usd_value_fits(
            holding.raw_balance as int,
            e.multiplier_num as int,
            e.price_usd_1e8 as int,
            holding.decimals as nat,
        ),
        None => true,
    }
}

/// USD value, × 1e8, of all holdings.
pub open spec fn basket_value(holdings: Seq<Holding>, entries: Seq<NavEntry>) -> int
    decreases holdings.len(),
{
    if holdings.len() == 0 {
        0
    } else {
        basket_value(holdings.drop_last(), entries) + holding_value(holdings.last(), entries)
    }
}

/// USD value, × 1e8, of a raw USDC amount.
pub open spec fn usdc_value(usdc_raw: int) -> int {
    usdc_raw * 100
}

/// NAV, × 1e8 USD, of a basket and a USDC buffer.
pub open spec fn total_nav(
    holdings: Seq<Holding>,
    cash_raw: u64,
    entries: Seq<NavEntry>,
) -> int {
    basket_value(holdings, entries) + usdc_value(cash_raw as int)
}

/// Whether the NAV can be computed: every holding can be valued, and the sum can be held.
pub open spec fn nav_fits(holdings: Seq<Holding>, cash_raw: u64, entries: Seq<NavEntry>) -> bool {
    &&& forall|i: int|
        0 <= i < holdings.len() ==> holding_value_fits(#[trigger] holdings[i], entries)
    &&& total_nav(holdings, cash_raw, entries) <= u128::MAX
}

/// Ten to the power of `exponent`, unless it is too large to be held.
fn pow10(exponent: u8) -> (power: Option<u128>)
    ensures
        match power {
            Some(p) => p == pow(10, exponent as nat),
            None => pow(10, exponent as nat) > u128::MAX,
        },
{
    let mut power: u128 = 1;
    let mut i: u8 = 0;
    proof {
        vstd::arithmetic::power::lemma_pow0(10);
    }
    while i < exponent
        invariant
            i <= exponent,
            power == pow(10, i as nat),
        decreases exponent - i,
    {
        proof {
            reveal(pow);
            assert(pow(10, (i + 1) as nat) == 10 * pow(10, i as nat));
            vstd::arithmetic::power::lemma_pow_increases(10, (i + 1) as nat, exponent as nat);
        }
        match power.checked_mul(10) {
            Some(next) => power = next,
            None => return None,
        }
        i = i + 1;
    }
    Some(power)
}

/// USD value, × 1e8, of a raw amount of an asset.
pub fn usd_value_1e8(
    raw_amount: u64,
    multiplier_num: u128,
    price_usd_1e8: u64,
    decimals: u8,
) -> (res: Result<u128, VaultError>)
    ensures
        match res {
            Ok(usd) => {
                &&& usd_value_fits(
                    raw_amount as int,
                    multiplier_num as int,
                    price_usd_1e8 as int,
                    decimals as nat,
                )
                &&& usd == usd_value(
                    raw_amount as int,
                    multiplier_num as int,
                    price_usd_1e8 as int,
                    decimals as nat,
                )
            },
            Err(e) => {
                &&& e == VaultError::MathOverflow
                &&& !usd_value_fits(
                    raw_amount as int,
                    multiplier_num as int,
                    price_usd_1e8 as int,
                    decimals as nat,
                )
            },
        },
{
    let scaled_raw: u128 = (raw_amount as u128).checked_mul(multiplier_num).ok_or(
        VaultError::MathOverflow,
    )?.checked_div(MULTIPLIER_DENOM_1E18).ok_or(VaultError::MathOverflow)?;
    let divisor: u128 = pow10(decimals).ok_or(VaultError::MathOverflow)?;
    proof {
        vstd::arithmetic::power::lemma_pow_positive(10, decimals as nat);
    }
    scaled_raw.checked_mul(price_usd_1e8 as u128).ok_or(VaultError::MathOverflow)?.checked_div(
        divisor,
    ).ok_or(VaultError::MathOverflow)
}

/// USD value, × 1e8, of a holding at the prices of `nav`; zero where `nav` does not price it.
pub fn holding_value_1e8(holding: &Holding, nav: &NavSnapshot) -> (res: Result<u128, VaultError>)
    ensures
        match res {
            Ok(usd) => {
                &&& holding_value_fits(*holding, nav@.entries)
                &&& usd == holding_value(*holding, nav@.entries)
            },
            Err(e) => {
                &&& e == VaultError::MathOverflow
                &&& !holding_value_fits(*holding, nav@.entries)
            },
        },
{
    match nav.entry(&holding.mint) {
        Some(e) => usd_value_1e8(
            holding.raw_balance,
            e.multiplier_num,
            e.price_usd_1e8,
            holding.decimals,
        ),
        None => Ok(0),
    }
}

/// USD value, × 1e8, of a raw USDC amount.
pub fn usdc_value_1e8(usdc_raw: u64) -> (usd: u128)
    ensures
        usd == usdc_value(usdc_raw as int),
{
    (usdc_raw as u128) * PRICE_SCALE_1E8 / USDC_UNIT
}

/// NAV, × 1e8 USD, of the vault's basket and USDC buffer at the prices of `nav`.
pub fn total_nav_1e8(vault: &Vault, nav: &NavSnapshot) -> (res: Result<u128, VaultError>)
    ensures
        match res {
            Ok(total) => {
                &&& nav_fits(vault@.holdings, vault@.cash_raw, nav@.entries)
                &&& total == total_nav(vault@.holdings, vault@.cash_raw, nav@.entries)
            },
            Err(e) => {
                &&& e == VaultError::MathOverflow
                &&& !nav_fits(vault@.holdings, vault@.cash_raw, nav@.entries)
            },
        },
{
    let ghost holdings = vault@.holdings;
    let ghost entries = nav@.entries;
    let mut total: u128 = 0;
    let mut i: usize = 0;
    while i < vault.holdings.len()
        invariant
            i <= vault.holdings.len(),
            holdings == vault@.holdings,
            entries == nav@.entries,
            total == basket_value(holdings.take(i as int), entries),
            forall|j: int| 0 <= j < i ==> holding_value_fits(#[trigger] holdings[j], entries),
        decreases vault.holdings.len() - i,
    {
        proof {
            assert(holdings.take(i + 1).drop_last() =~= holdings.take(i as int));
            lemma_basket_value_grows(holdings, entries, i + 1);
        }
        let usd: u128 = holding_value_1e8(&vault.holdings[i], nav)?;
        total = total.checked_add(usd).ok_or(VaultError::MathOverflow)?;
        i = i + 1;
    }
    assert(holdings.take(i as int) =~= holdings);
    total.checked_add(usdc_value_1e8(vault.cash_raw)).ok_or(VaultError::MathOverflow)
}

/// The value of a holding is not negative.
pub proof fn lemma_holding_value_nonneg(holding: Holding, entries: Seq<NavEntry>)
    ensures
        holding_value(holding, entries) >= 0,
{
    match crate::oracle::entry_for(entries, holding.mint) {
        Some(e) => {
            let raw = holding.raw_balance as int;
            let num = e.multiplier_num as int;
            let price = e.price_usd_1e8 as int;
            let divisor = pow(10, holding.decimals as nat);
            vstd::arithmetic::power::lemma_pow_positive(10, holding.decimals as nat);
            assert(raw * num >= 0) by (nonlinear_arith)
                requires
                    raw >= 0,
                    num >= 0,
            ;
            let scaled = scaled_amount(raw, num);
            assert(scaled * price >= 0) by (nonlinear_arith)
                requires
                    scaled >= 0,
                    price >= 0,
            ;
            vstd::arithmetic::div_mod::lemma_div_pos_is_pos(scaled * price, divisor);
        },
        None => {},
    }
}

/// The first `n` holdings are worth no more than all of them.
pub proof fn lemma_basket_value_grows(holdings: Seq<Holding>, entries: Seq<NavEntry>, n: int)
    requires
        0 <= n <= holdings.len(),
    ensures
        0 <= basket_value(holdings.take(n), entries) <= basket_value(holdings, entries),
    decreases holdings.len(),
{
    if n == holdings.len() {
        assert(holdings.take(n) =~= holdings);
        if n > 0 {
            lemma_basket_value_grows(holdings.drop_last(), entries, n - 1);
            assert(holdings.drop_last().take(n - 1) =~= holdings.drop_last());
            lemma_holding_value_nonneg(holdings.last(), entries);
        }
    } else {
        lemma_basket_value_grows(holdings.drop_last(), entries, n);
        assert(holdings.drop_last().take(n) =~= holdings.take(n));
        lemma_holding_value_nonneg(holdings.last(), entries);
    }
}

} // verus!
