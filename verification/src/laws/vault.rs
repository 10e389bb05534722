//! Shares, balances, fees and pauses of a vault.

use vstd::prelude::*;

use crate::oracle::{NavEntry, NavSnapshotView};
use crate::pubkey::Pubkey;
use crate::vault::accounts::RawAccount;
use crate::vault::errors::{InstructionError, VaultError};
use crate::vault::instructions::collect_mgmt_fee::CollectMgmtFee;
use crate::vault::instructions::collect_perf_fee::CollectPerfFee;
use crate::vault::instructions::deposit::Deposit;
use crate::vault::instructions::rebalance_leg::{RebalanceAccounts, RebalanceLeg, RebalanceLegArgs};
use crate::vault::instructions::withdraw_in_kind::WithdrawInKind;
use crate::vault::instructions::withdraw_usdc::WithdrawUsdc;
use crate::vault::state::{Holding, PauseFlags, VaultView};

verus! {

/// A halt blocks deposits, rebalances and the collection of both fees. A stranger's rebalance is
/// refused as such.
pub proof fn law_halt_blocks(
    vault: VaultView,
    nav: NavSnapshotView,
    deposit: Deposit,
    usdc_raw: u64,
    min_shares_out: u64,
    leg: RebalanceLeg,
    args: RebalanceLegArgs,
    accounts: Seq<RawAccount>,
    sysvar: Seq<u8>,
    mgmt: CollectMgmtFee,
    perf: CollectPerfFee,
)
    requires
        vault.pause_flags.halted,
    ensures
        crate::vault::instructions::deposit::deposit_error(
            vault,
            nav,
            deposit,
            usdc_raw,
            min_shares_out,
        ) == Some(VaultError::Paused),
        crate::vault::instructions::rebalance_leg::rebalance_error(
            vault,
            nav,
            leg,
            args,
            accounts,
            sysvar,
        ) == Some(
            InstructionError::Vault(
                if leg.keeper == vault.keeper {
                    VaultError::Paused
                } else {
                    VaultError::Unauthorized
                },
            ),
        ),
        crate::vault::instructions::collect_mgmt_fee::collect_error(vault, mgmt) == Some(
            VaultError::Paused,
        ),
        crate::vault::instructions::collect_perf_fee::collect_error(vault, nav, perf) == Some(
            VaultError::Paused,
        ),
{
}

/// Withdrawals stay open: whether one is refused, and what it takes from the buffer or the basket,
/// is the same whatever the pause flags are.
pub proof fn law_withdrawals_ignore_pauses(
    vault: VaultView,
    flags: PauseFlags,
    nav: NavSnapshotView,
    usdc: WithdrawUsdc,
    max_slip_bps: u16,
    in_kind: WithdrawInKind,
    accounts: Seq<RawAccount>,
    shares: u64,
)
    ensures
        ({
            let paused = VaultView { pause_flags: flags, ..vault };
            &&& crate::vault::instructions::withdraw_usdc::withdraw_error(
                paused,
                nav,
                usdc,
                shares,
                max_slip_bps,
            ) == crate::vault::instructions::withdraw_usdc::withdraw_error(
                vault,
                nav,
                usdc,
                shares,
                max_slip_bps,
            )
            &&& crate::vault::instructions::withdraw_usdc::withdrawn_usdc(paused, nav, usdc, shares)
                == crate::vault::instructions::withdraw_usdc::withdrawn_usdc(
                vault,
                nav,
                usdc,
                shares,
            )
            &&& crate::vault::instructions::withdraw_in_kind::withdraw_error(
                paused,
                in_kind,
                shares,
                accounts,
            ) == crate::vault::instructions::withdraw_in_kind::withdraw_error(
                vault,
                in_kind,
                shares,
                accounts,
            )
        }),
{
}

/// No target weight of a well-formed vault is more than the whole.
pub proof fn law_weight_is_at_most_whole(vault: VaultView, i: int)
    requires
        vault.well_formed(),
        0 <= i < vault.holdings.len(),
    ensures
        vault.holdings[i].target_weight_bps <= crate::vault::state::BPS_DENOMINATOR,
{
    let weights = crate::vault::state::target_weights(vault.holdings);
    lemma_weight_at_most_sum(weights, i);
    assert(weights[i] == vault.holdings[i].target_weight_bps);
}

/// A weight is at most the sum of all.
proof fn lemma_weight_at_most_sum(weights: Seq<u16>, i: int)
    requires
        0 <= i < weights.len(),
    ensures
        weights[i] <= crate::vault::state::weight_sum(weights),
    decreases weights.len(),
{
    if i < weights.len() - 1 {
        lemma_weight_at_most_sum(weights.drop_last(), i);
    } else {
        lemma_weight_sum_nonneg(weights.drop_last());
    }
}

/// A sum of weights is not negative.
proof fn lemma_weight_sum_nonneg(weights: Seq<u16>)
    ensures
        crate::vault::state::weight_sum(weights) >= 0,
    decreases weights.len(),
{
    if weights.len() > 0 {
        lemma_weight_sum_nonneg(weights.drop_last());
    }
}

/// At a multiplier of one, a raw amount is worth its price.
pub proof fn law_unit_multiplier(raw_amount: int, price_usd_1e8: int, decimals: nat)
    ensures
        crate::vault::nav::usd_value(
            raw_amount,
            crate::vault::nav::MULTIPLIER_DENOM_1E18 as int,
            price_usd_1e8,
            decimals,
        ) == raw_amount * price_usd_1e8 / vstd::arithmetic::power::pow(10, decimals),
{
    let d = crate::vault::nav::MULTIPLIER_DENOM_1E18 as int;
    assert(raw_amount * d / d == raw_amount);
}

/// A higher multiplier never lowers the value of an amount.
pub proof fn law_value_follows_multiplier(
    raw_amount: int,
    low: int,
    high: int,
    price_usd_1e8: int,
    decimals: nat,
)
    requires
        0 <= raw_amount,
        0 <= low <= high,
        0 <= price_usd_1e8,
    ensures
        crate::vault::nav::usd_value(raw_amount, low, price_usd_1e8, decimals)
            <= crate::vault::nav::usd_value(raw_amount, high, price_usd_1e8, decimals),
{
    let d = crate::vault::nav::MULTIPLIER_DENOM_1E18 as int;
    let p = vstd::arithmetic::power::pow(10, decimals);
    vstd::arithmetic::power::lemma_pow_positive(10, decimals);
    assert(raw_amount * low <= raw_amount * high) by (nonlinear_arith)
        requires
            0 <= raw_amount,
            low <= high,
    ;
    let a = crate::vault::nav::scaled_amount(raw_amount, low);
    let b = crate::vault::nav::scaled_amount(raw_amount, high);
    assert(a <= b);
    assert(a * price_usd_1e8 <= b * price_usd_1e8) by (nonlinear_arith)
        requires
            a <= b,
            0 <= price_usd_1e8,
    ;
    vstd::arithmetic::div_mod::lemma_div_is_ordered(a * price_usd_1e8, b * price_usd_1e8, p);
}

/// Where nothing is rounded, value and shares grow in proportion to the multiplier: if `high` is
/// `num / den` times `low`, so is the value, and so are the shares at an unchanged price and NAV.
pub proof fn law_shares_are_proportional_to_multiplier(
    raw_amount: int,
    low: int,
    high: int,
    num: int,
    den: int,
    price_usd_1e8: int,
    decimals: nat,
    share_supply: int,
    total_nav_1e8: int,
)
    requires
        den * high == num * low,
        0 < share_supply,
        0 < total_nav_1e8,
        raw_amount * low % (crate::vault::nav::MULTIPLIER_DENOM_1E18 as int) == 0,
        raw_amount * high % (crate::vault::nav::MULTIPLIER_DENOM_1E18 as int) == 0,
        crate::vault::nav::scaled_amount(raw_amount, low) * price_usd_1e8
            % vstd::arithmetic::power::pow(10, decimals) == 0,
        crate::vault::nav::scaled_amount(raw_amount, high) * price_usd_1e8
            % vstd::arithmetic::power::pow(10, decimals) == 0,
        crate::vault::nav::usd_value(raw_amount, low, price_usd_1e8, decimals) * share_supply
            % total_nav_1e8 == 0,
        crate::vault::nav::usd_value(raw_amount, high, price_usd_1e8, decimals) * share_supply
            % total_nav_1e8 == 0,
    ensures
        den * crate::vault::nav::usd_value(raw_amount, high, price_usd_1e8, decimals) == num
            * crate::vault::nav::usd_value(raw_amount, low, price_usd_1e8, decimals),
        den * crate::vault::instructions::deposit::shares_out(
            crate::vault::nav::usd_value(raw_amount, high, price_usd_1e8, decimals),
            share_supply,
            total_nav_1e8,
        ) == num * crate::vault::instructions::deposit::shares_out(
            crate::vault::nav::usd_value(raw_amount, low, price_usd_1e8, decimals),
            share_supply,
            total_nav_1e8,
        ),
{
    let d = crate::vault::nav::MULTIPLIER_DENOM_1E18 as int;
    let p = vstd::arithmetic::power::pow(10, decimals);
    vstd::arithmetic::power::lemma_pow_positive(10, decimals);
    lemma_product_keeps_ratio(low, high, num, den, raw_amount);
    assert(raw_amount * low == low * raw_amount && raw_amount * high == high * raw_amount)
        by (nonlinear_arith);
    lemma_quotient_keeps_ratio(low * raw_amount, high * raw_amount, num, den, d);
    let a = crate::vault::nav::scaled_amount(raw_amount, low);
    let b = crate::vault::nav::scaled_amount(raw_amount, high);
    lemma_product_keeps_ratio(a, b, num, den, price_usd_1e8);
    lemma_quotient_keeps_ratio(a * price_usd_1e8, b * price_usd_1e8, num, den, p);
    let u = crate::vault::nav::usd_value(raw_amount, low, price_usd_1e8, decimals);
    let v = crate::vault::nav::usd_value(raw_amount, high, price_usd_1e8, decimals);
    lemma_product_keeps_ratio(u, v, num, den, share_supply);
    lemma_quotient_keeps_ratio(u * share_supply, v * share_supply, num, den, total_nav_1e8);
}

/// If `y` is `num / den` times `x`, the same holds of their products with `f`.
proof fn lemma_product_keeps_ratio(x: int, y: int, num: int, den: int, f: int)
    by (nonlinear_arith)
    requires
        den * y == num * x,
    ensures
        den * (y * f) == num * (x * f),
{
}

/// If `y` is `num / den` times `x`, the same holds of their quotients by `d` where nothing is
/// rounded.
proof fn lemma_quotient_keeps_ratio(x: int, y: int, num: int, den: int, d: int)
    requires
        den * y == num * x,
        d > 0,
        x % d == 0,
        y % d == 0,
    ensures
        den * (y / d) == num * (x / d),
{
    vstd::arithmetic::div_mod::lemma_fundamental_div_mod(x, d);
    vstd::arithmetic::div_mod::lemma_fundamental_div_mod(y, d);
    let q = x / d;
    let r = y / d;
    assert(den * r == num * q) by (nonlinear_arith)
        requires
            den * (d * r) == num * (d * q),
            d > 0,
    ;
}

/// A deposit that is worth more gets no fewer shares.
pub proof fn law_shares_follow_value(low: int, high: int, share_supply: int, total_nav_1e8: int)
    requires
        0 <= low <= high,
        0 <= share_supply,
        0 <= total_nav_1e8,
    ensures
        crate::vault::instructions::deposit::shares_out(low, share_supply, total_nav_1e8)
            <= crate::vault::instructions::deposit::shares_out(high, share_supply, total_nav_1e8),
{
    if share_supply > 0 && total_nav_1e8 > 0 {
        assert(low * share_supply <= high * share_supply) by (nonlinear_arith)
            requires
                low <= high,
                0 <= share_supply,
        ;
        vstd::arithmetic::div_mod::lemma_div_is_ordered(
            low * share_supply,
            high * share_supply,
            total_nav_1e8,
        );
    }
}

/// A deposit raises the NAV by exactly what is paid in.
pub proof fn law_deposit_raises_nav(
    holdings: Seq<Holding>,
    cash_raw: u64,
    usdc_raw: u64,
    entries: Seq<NavEntry>,
)
    requires
        cash_raw + usdc_raw <= u64::MAX,
    ensures
        crate::vault::nav::total_nav(holdings, (cash_raw + usdc_raw) as u64, entries)
            == crate::vault::nav::total_nav(holdings, cash_raw, entries)
            + crate::vault::nav::usdc_value(usdc_raw as int),
{
}

/// A deposit does not dilute: the NAV per share of those who hold shares already never falls
/// (`nav / supply <= nav_after / supply_after`, written without division).
pub proof fn law_deposit_does_not_dilute(
    deposit_usd_1e8: int,
    share_supply: int,
    total_nav_1e8: int,
)
    requires
        0 <= deposit_usd_1e8,
        0 <= share_supply,
        0 <= total_nav_1e8,
    ensures
        ({
            let minted = crate::vault::instructions::deposit::shares_out(
                deposit_usd_1e8,
                share_supply,
                total_nav_1e8,
            );
            share_supply > 0 ==> total_nav_1e8 * (share_supply + minted) <= (total_nav_1e8
                + deposit_usd_1e8) * share_supply
        }),
{
    let d = deposit_usd_1e8;
    let s = share_supply;
    let n = total_nav_1e8;
    let minted = crate::vault::instructions::deposit::shares_out(d, s, n);
    if s > 0 && n > 0 {
        vstd::arithmetic::div_mod::lemma_fundamental_div_mod(d * s, n);
        assert(n * minted <= d * s);
    }
    assert(n * (s + minted) == n * s + n * minted) by (nonlinear_arith);
    assert((n + d) * s == n * s + d * s) by (nonlinear_arith);
    assert(d * s >= 0) by (nonlinear_arith)
        requires
            d >= 0,
            s >= 0,
    ;
    if n == 0 {
        assert(n * minted == 0) by (nonlinear_arith)
            requires
                n == 0,
        ;
    }
}

/// A deposit that is withdrawn at once never pays: the shares it got are then worth no more USD
/// than was paid in. The one exception is a vault that has a NAV but no shares, whose NAV falls to
/// the first depositor.
pub proof fn law_round_trip_does_not_pay(
    deposit_usd_1e8: int,
    share_supply: int,
    total_nav_1e8: int,
)
    requires
        0 < deposit_usd_1e8,
        0 <= share_supply,
        0 <= total_nav_1e8,
        share_supply == 0 ==> total_nav_1e8 == 0,
    ensures
        ({
            let minted = crate::vault::instructions::deposit::shares_out(
                deposit_usd_1e8,
                share_supply,
                total_nav_1e8,
            );
            minted > 0 ==> (total_nav_1e8 + deposit_usd_1e8) * minted / (share_supply + minted)
                <= deposit_usd_1e8
        }),
{
    let d = deposit_usd_1e8;
    let s = share_supply;
    let n = total_nav_1e8;
    let minted = crate::vault::instructions::deposit::shares_out(d, s, n);
    if minted > 0 {
        if s > 0 && n > 0 {
            vstd::arithmetic::div_mod::lemma_fundamental_div_mod(d * s, n);
            assert(n * minted <= d * s);
        } else {
            assert(n == 0);
            assert(n * minted == 0) by (nonlinear_arith)
                requires
                    n == 0,
            ;
            assert(d * s >= 0) by (nonlinear_arith)
                requires
                    d >= 0,
                    s >= 0,
            ;
        }
        assert((n + d) * minted == n * minted + d * minted) by (nonlinear_arith);
        assert(d * (s + minted) == d * s + d * minted) by (nonlinear_arith);
        vstd::arithmetic::div_mod::lemma_div_is_ordered(
            (n + d) * minted,
            d * (s + minted),
            s + minted,
        );
        vstd::arithmetic::div_mod::lemma_div_by_multiple(d, s + minted);
    }
}

/// A depositor who withdraws at once gets no more USDC than was paid in, the fee not even counted.
/// The one exception is a vault that has a NAV but no shares.
pub proof fn law_deposit_then_withdrawal_does_not_pay(
    vault: VaultView,
    nav: NavSnapshotView,
    ctx: Deposit,
    usdc_raw: u64,
    min_shares_out: u64,
    withdrawal: WithdrawUsdc,
)
    requires
        crate::vault::instructions::deposit::deposit_error(
            vault,
            nav,
            ctx,
            usdc_raw,
            min_shares_out,
        ) is None,
        ctx.share_supply == 0 ==> crate::vault::nav::total_nav(
            vault.holdings,
            vault.cash_raw,
            nav.entries,
        ) == 0,
        withdrawal.total_shares == ctx.share_supply
            + crate::vault::instructions::deposit::deposit_shares(
            vault,
            nav,
            ctx.share_supply,
            usdc_raw,
        ),
    ensures
        ({
            let minted = crate::vault::instructions::deposit::deposit_shares(
                vault,
                nav,
                ctx.share_supply,
                usdc_raw,
            ) as u64;
            let after = VaultView { cash_raw: (vault.cash_raw + usdc_raw) as u64, ..vault };
            minted > 0 ==> crate::vault::instructions::withdraw_usdc::withdrawn_usdc(
                after,
                nav,
                withdrawal,
                minted,
            ) <= usdc_raw
        }),
{
    let n = crate::vault::nav::total_nav(vault.holdings, vault.cash_raw, nav.entries);
    let d = crate::vault::nav::usdc_value(usdc_raw as int);
    let s = ctx.share_supply as int;
    crate::vault::nav::lemma_basket_value_grows(vault.holdings, nav.entries, 0);
    let minted = crate::vault::instructions::deposit::shares_out(d, s, n);
    law_deposit_raises_nav(vault.holdings, vault.cash_raw, usdc_raw, nav.entries);
    law_round_trip_does_not_pay(d, s, n);
    if s > 0 && n > 0 {
        assert(d * s >= 0) by (nonlinear_arith)
            requires
                d >= 0,
                s >= 0,
        ;
        vstd::arithmetic::div_mod::lemma_div_pos_is_pos(d * s, n);
    }
    assert(minted == minted as u64);
}

/// A withdrawal in kind pays each holding out pro rata, rounded down, and never more than there is:
/// `slice <= balance * shares / total < slice + 1`. It takes a whole balance for all shares.
pub proof fn law_slice_is_pro_rata(raw_balance: u64, shares: u64, total_shares: u64)
    requires
        0 < total_shares,
        shares <= total_shares,
    ensures
        ({
            let out = crate::vault::instructions::withdraw_in_kind::slice(
                raw_balance,
                shares,
                total_shares,
            );
            &&& 0 <= out <= raw_balance
            &&& out * total_shares <= raw_balance * shares < (out + 1) * total_shares
            &&& shares == total_shares ==> out == raw_balance
        }),
{
    let b = raw_balance as int;
    let s = shares as int;
    let t = total_shares as int;
    let q = b * s / t;
    vstd::arithmetic::div_mod::lemma_fundamental_div_mod(b * s, t);
    assert(0 <= b * s <= b * t) by (nonlinear_arith)
        requires
            0 <= b,
            0 <= s <= t,
    ;
    vstd::arithmetic::div_mod::lemma_div_is_ordered(b * s, b * t, t);
    vstd::arithmetic::div_mod::lemma_div_by_multiple(b, t);
    vstd::arithmetic::div_mod::lemma_div_pos_is_pos(b * s, t);
    assert(0 <= q <= b);
    vstd::arithmetic::div_mod::lemma_small_mod(q as nat, 0x1_0000_0000_0000_0000);
    assert((q + 1) * t == q * t + t) by (nonlinear_arith);
    assert(q * t == t * q) by (nonlinear_arith);
}

/// A withdrawal in kind does not dilute: what is left of a holding, per share that is left, never
/// falls.
pub proof fn law_withdrawal_in_kind_does_not_dilute(
    raw_balance: u64,
    shares: u64,
    total_shares: u64,
)
    requires
        0 < total_shares,
        shares <= total_shares,
    ensures
        ({
            let left = raw_balance - crate::vault::instructions::withdraw_in_kind::slice(
                raw_balance,
                shares,
                total_shares,
            );
            raw_balance * (total_shares - shares) <= left * total_shares
        }),
{
    law_slice_is_pro_rata(raw_balance, shares, total_shares);
    let b = raw_balance as int;
    let s = shares as int;
    let t = total_shares as int;
    let out = crate::vault::instructions::withdraw_in_kind::slice(
        raw_balance,
        shares,
        total_shares,
    );
    assert(b * (t - s) == b * t - b * s) by (nonlinear_arith);
    assert((b - out) * t == b * t - out * t) by (nonlinear_arith);
}

/// A withdrawal in kind through the right accounts is owed: where no more shares are burnt than
/// there are and every leg was read and matches its holding, nothing is refused.
pub proof fn law_withdrawal_in_kind_is_owed(
    vault: VaultView,
    ctx: WithdrawInKind,
    shares: u64,
    legs: Seq<Result<crate::vault::instructions::withdraw_in_kind::WithdrawLeg, u64>>,
)
    requires
        0 < shares <= ctx.total_shares,
        legs.len() == vault.holdings.len(),
        forall|i: int|
            0 <= i < legs.len() ==> (#[trigger] legs[i]) is Ok
                && crate::vault::instructions::withdraw_in_kind::leg_matches(
                vault.holdings[i],
                legs[i]->Ok_0,
                ctx.vault_key,
            ),
    ensures
        crate::vault::instructions::withdraw_in_kind::settle_error(vault, ctx, shares, legs)
            is None,
{
    lemma_no_leg_fails(vault, ctx, shares, legs, legs.len());
}

proof fn lemma_no_leg_fails(
    vault: VaultView,
    ctx: WithdrawInKind,
    shares: u64,
    legs: Seq<Result<crate::vault::instructions::withdraw_in_kind::WithdrawLeg, u64>>,
    n: nat,
)
    requires
        0 < shares <= ctx.total_shares,
        legs.len() == vault.holdings.len(),
        n <= legs.len(),
        forall|i: int|
            0 <= i < legs.len() ==> (#[trigger] legs[i]) is Ok
                && crate::vault::instructions::withdraw_in_kind::leg_matches(
                vault.holdings[i],
                legs[i]->Ok_0,
                ctx.vault_key,
            ),
    ensures
        crate::vault::instructions::withdraw_in_kind::first_leg_error(
            vault.holdings,
            legs,
            ctx,
            shares,
            n,
        ) is None,
    decreases n,
{
    if n > 0 {
        lemma_no_leg_fails(vault, ctx, shares, legs, (n - 1) as nat);
        assert(legs[n - 1] is Ok);
        law_slice_is_pro_rata(vault.holdings[n - 1].raw_balance, shares, ctx.total_shares);
    }
}

/// A withdrawal in USDC accounts for every unit that leaves the buffer: it goes to the user or to
/// the protocol's fees, and the fee is at most 0.05% of it.
pub proof fn law_usdc_is_conserved(
    vault: VaultView,
    nav: NavSnapshotView,
    ctx: WithdrawUsdc,
    shares: u64,
    max_slip_bps: u16,
)
    requires
        crate::vault::instructions::withdraw_usdc::withdraw_error(
            vault,
            nav,
            ctx,
            shares,
            max_slip_bps,
        ) is None,
    ensures
        ({
            let taken = crate::vault::instructions::withdraw_usdc::withdrawn_usdc(
                vault,
                nav,
                ctx,
                shares,
            );
            let fee = crate::vault::instructions::withdraw_usdc::withdraw_fee(taken);
            let out = taken - fee;
            &&& 0 <= fee <= taken <= vault.cash_raw
            &&& 0 <= out
            &&& (vault.cash_raw - taken) + out + fee == vault.cash_raw
            &&& fee * 10_000 <= taken * 5
            &&& taken <= crate::vault::instructions::withdraw_usdc::expected_usdc(
                crate::vault::instructions::withdraw_usdc::vault_nav(vault, nav),
                shares,
                ctx.total_shares,
            )
        }),
{
    lemma_vault_nav_nonneg(vault, nav);
    lemma_expected_usdc(
        crate::vault::instructions::withdraw_usdc::vault_nav(vault, nav),
        shares,
        ctx.total_shares,
    );
}

proof fn lemma_vault_nav_nonneg(vault: VaultView, nav: NavSnapshotView)
    ensures
        crate::vault::instructions::withdraw_usdc::vault_nav(vault, nav) >= 0,
{
    crate::vault::nav::lemma_basket_value_grows(vault.holdings, nav.entries, 0);
}

/// What shares are worth in raw USDC is not negative, and its USD value is at most their part of
/// the NAV.
proof fn lemma_expected_usdc(total_nav_1e8: int, shares: u64, total_shares: u64)
    requires
        0 <= total_nav_1e8,
        0 < total_shares,
    ensures
        ({
            let expected = crate::vault::instructions::withdraw_usdc::expected_usdc(
                total_nav_1e8,
                shares,
                total_shares,
            );
            &&& 0 <= expected
            &&& crate::vault::nav::usdc_value(expected) * total_shares <= total_nav_1e8 * shares
        }),
{
    let t = total_shares as int;
    let ns = total_nav_1e8 * shares;
    assert(ns >= 0) by (nonlinear_arith)
        requires
            ns == total_nav_1e8 * shares,
            total_nav_1e8 >= 0,
    ;
    let q = ns / t;
    vstd::arithmetic::div_mod::lemma_div_pos_is_pos(ns, t);
    vstd::arithmetic::div_mod::lemma_fundamental_div_mod(ns, t);
    let expected = crate::vault::instructions::withdraw_usdc::expected_usdc(
        total_nav_1e8,
        shares,
        total_shares,
    );
    assert(expected == q * 1_000_000 / 100_000_000);
    assert(expected * 100 <= q);
    assert((expected * 100) * t <= q * t) by (nonlinear_arith)
        requires
            expected * 100 <= q,
            t > 0,
    ;
    assert(q * t == t * q) by (nonlinear_arith);
}

/// A withdrawal in USDC does not dilute: the NAV per share of those who stay never falls.
pub proof fn law_usdc_withdrawal_does_not_dilute(
    vault: VaultView,
    nav: NavSnapshotView,
    ctx: WithdrawUsdc,
    shares: u64,
)
    requires
        0 < ctx.total_shares,
    ensures
        ({
            let before = crate::vault::instructions::withdraw_usdc::vault_nav(vault, nav);
            let taken = crate::vault::instructions::withdraw_usdc::withdrawn_usdc(
                vault,
                nav,
                ctx,
                shares,
            );
            let after = crate::vault::instructions::withdraw_usdc::vault_nav(
                VaultView { cash_raw: (vault.cash_raw - taken) as u64, ..vault },
                nav,
            );
            before * (ctx.total_shares - shares) <= after * ctx.total_shares
        }),
{
    let before = crate::vault::instructions::withdraw_usdc::vault_nav(vault, nav);
    let t = ctx.total_shares as int;
    lemma_vault_nav_nonneg(vault, nav);
    lemma_expected_usdc(before, shares, ctx.total_shares);
    let expected = crate::vault::instructions::withdraw_usdc::expected_usdc(
        before,
        shares,
        ctx.total_shares,
    );
    let taken = crate::vault::instructions::withdraw_usdc::withdrawn_usdc(vault, nav, ctx, shares);
    assert(0 <= taken <= vault.cash_raw);
    assert(crate::vault::nav::usdc_value(taken) * t <= crate::vault::nav::usdc_value(expected) * t)
        by (nonlinear_arith)
        requires
            crate::vault::nav::usdc_value(taken) <= crate::vault::nav::usdc_value(expected),
            t > 0,
    ;
    let v = crate::vault::nav::usdc_value(taken);
    assert((before - v) * t == before * t - v * t) by (nonlinear_arith);
    assert(before * (t - shares) == before * t - before * shares) by (nonlinear_arith);
}

/// The vault's USDC account covers the buffer and the protocol's fees: what it holds beyond them
/// is the same before and after a deposit, and before and after a withdrawal.
pub proof fn law_usdc_account_covers_buffer_and_fees(
    vault: VaultView,
    nav: NavSnapshotView,
    deposit: Deposit,
    usdc_raw: u64,
    min_shares_out: u64,
    withdrawal: WithdrawUsdc,
    shares: u64,
    max_slip_bps: u16,
    account: int,
)
    ensures
        crate::vault::instructions::deposit::deposit_error(
            vault,
            nav,
            deposit,
            usdc_raw,
            min_shares_out,
        ) is None ==> {
            let cash = (vault.cash_raw + usdc_raw) as u64;
            (account + usdc_raw) - (cash + vault.accrued_protocol_fees_raw) == account - (
            vault.cash_raw + vault.accrued_protocol_fees_raw)
        },
        crate::vault::instructions::withdraw_usdc::withdraw_error(
            vault,
            nav,
            withdrawal,
            shares,
            max_slip_bps,
        ) is None ==> {
            let taken = crate::vault::instructions::withdraw_usdc::withdrawn_usdc(
                vault,
                nav,
                withdrawal,
                shares,
            );
            let fee = crate::vault::instructions::withdraw_usdc::withdraw_fee(taken);
            let out = (taken - fee) as u64;
            let cash = (vault.cash_raw - taken) as u64;
            let fees = (vault.accrued_protocol_fees_raw + fee) as u64;
            (account - out) - (cash + fees) == account - (vault.cash_raw
                + vault.accrued_protocol_fees_raw)
        },
{
    if crate::vault::instructions::withdraw_usdc::withdraw_error(
        vault,
        nav,
        withdrawal,
        shares,
        max_slip_bps,
    ) is None {
        law_usdc_is_conserved(vault, nav, withdrawal, shares, max_slip_bps);
    }
}

/// A transaction shows a transfer exactly where one of its instructions is one and every
/// instruction before it can be read.
pub proof fn law_transfer_is_found(
    instructions: Seq<Result<crate::vault::introspection::SiblingInstructionView, u64>>,
    destination: Pubkey,
    min_amount: u64,
)
    ensures
        crate::vault::introspection::transfer_among(instructions, destination, min_amount) == Ok::<
            bool,
            u64,
        >(true) <==> exists|i: int|
            #![trigger instructions[i]]
            0 <= i < instructions.len() && instructions[i] is Ok
                && crate::vault::introspection::transfers_to(
                instructions[i]->Ok_0,
                destination,
                min_amount,
            ) && forall|j: int| 0 <= j < i ==> (#[trigger] instructions[j]) is Ok,
    decreases instructions.len(),
{
    let found = crate::vault::introspection::transfer_among(
        instructions,
        destination,
        min_amount,
    );
    if instructions.len() > 0 {
        let rest = instructions.skip(1);
        law_transfer_is_found(rest, destination, min_amount);
        let first_is = instructions[0] is Ok && crate::vault::introspection::transfers_to(
            instructions[0]->Ok_0,
            destination,
            min_amount,
        );
        if found == Ok::<bool, u64>(true) && !first_is {
            let i = choose|i: int|
                #![trigger rest[i]]
                0 <= i < rest.len() && rest[i] is Ok && crate::vault::introspection::transfers_to(
                    rest[i]->Ok_0,
                    destination,
                    min_amount,
                ) && forall|j: int| 0 <= j < i ==> (#[trigger] rest[j]) is Ok;
            assert(instructions[i + 1] == rest[i]);
            assert forall|j: int| 0 <= j < i + 1 implies (#[trigger] instructions[j]) is Ok by {
                if j > 0 {
                    assert(rest[j - 1] == instructions[j]);
                }
            }
        }
        if found != Ok::<bool, u64>(true) {
            assert forall|i: int|
                #![trigger instructions[i]]
                0 <= i < instructions.len() && instructions[i] is Ok
                    && crate::vault::introspection::transfers_to(
                    instructions[i]->Ok_0,
                    destination,
                    min_amount,
                ) && (forall|j: int| 0 <= j < i ==> (#[trigger] instructions[j]) is Ok) implies false by {
                if i > 0 {
                    assert(instructions[0] is Ok);
                    assert(rest[i - 1] == instructions[i]);
                    assert forall|j: int| 0 <= j < i - 1 implies (#[trigger] rest[j]) is Ok by {
                        assert(rest[j] == instructions[j + 1]);
                    }
                }
            }
        }
    }
}

/// A leg of a rebalance that is accepted spends exactly `raw_in` of one asset, gains at least
/// `min_raw_out` of the other, and touches no other holding.
pub proof fn law_rebalance_moves_what_was_swapped(
    vault: VaultView,
    nav: NavSnapshotView,
    ctx: RebalanceLeg,
    args: RebalanceLegArgs,
    accounts: RebalanceAccounts,
    transfer: Result<bool, u64>,
)
    requires
        crate::vault::instructions::rebalance_leg::settle_error(
            vault,
            nav,
            ctx,
            args,
            accounts,
            transfer,
        ) is None,
        args.from_mint != args.to_mint,
    ensures
        ({
            let i = crate::vault::state::holding_index(vault.holdings, args.from_mint);
            let j = crate::vault::state::holding_index(vault.holdings, args.to_mint);
            let after = crate::vault::instructions::rebalance_leg::rebalanced(
                vault.holdings,
                args,
                accounts,
            );
            &&& i != j
            &&& after.len() == vault.holdings.len()
            &&& after[i].raw_balance == vault.holdings[i].raw_balance - args.raw_in
            &&& after[j].raw_balance >= vault.holdings[j].raw_balance + args.min_raw_out
            &&& forall|k: int|
                0 <= k < after.len() && k != i && k != j ==> after[k] == vault.holdings[k]
            &&& transfer == Ok::<bool, u64>(true)
        }),
{
    let holdings = vault.holdings;
    let from = args.from_mint;
    let to = args.to_mint;
    let raw = accounts.from_vault_ata.amount;
    crate::vault::state::lemma_holding_index(holdings, from);
    crate::vault::state::lemma_holding_index(holdings, to);
    crate::vault::instructions::rebalance_leg::lemma_with_balance(holdings, from, raw, to);
}

/// A leg of a rebalance that is accepted keeps its value: at fresh prices, what was bought is worth
/// at least what was sold less the vault's `rebalance_slippage_bps` of it, whatever `min_raw_out`
/// the keeper passes. One that shows its swap but falls below that is refused for its drift.
pub proof fn law_rebalance_keeps_value(
    vault: VaultView,
    nav: NavSnapshotView,
    ctx: RebalanceLeg,
    args: RebalanceLegArgs,
    accounts: RebalanceAccounts,
    transfer: Result<bool, u64>,
)
    ensures
        ({
            let error = crate::vault::instructions::rebalance_leg::settle_error(
                vault,
                nav,
                ctx,
                args,
                accounts,
                transfer,
            );
            let sold = crate::vault::instructions::rebalance_leg::sold_value(vault, nav, args);
            let bought = crate::vault::instructions::rebalance_leg::bought_value(
                vault,
                nav,
                accounts,
                args,
            );
            let kept = bought * 10_000 >= sold * (10_000 - vault.rebalance_slippage_bps);
            let shown = crate::vault::instructions::rebalance_leg::swap_error(
                vault,
                ctx,
                args,
                accounts,
            ) is None && transfer == Ok::<bool, u64>(true);
            &&& error is None ==> kept && nav.fresh_at(ctx.slot)
            &&& shown && nav.fresh_at(ctx.slot)
                && crate::vault::instructions::rebalance_leg::values_fit(
                vault,
                nav,
                accounts,
                args,
            ) && !kept ==> error == Some(InstructionError::Vault(VaultError::NavDriftExceeded))
        }),
{
}

/// A leg of a rebalance that is accepted preserves the NAV: the NAV falls by no more than the
/// vault's `rebalance_slippage_bps` of what was sold, but for what rounding down can take: the
/// price of one unit of the asset that was sold, and two units of 1e-8 USD.
pub proof fn law_rebalance_preserves_nav(
    vault: VaultView,
    nav: NavSnapshotView,
    ctx: RebalanceLeg,
    args: RebalanceLegArgs,
    accounts: RebalanceAccounts,
    transfer: Result<bool, u64>,
)
    requires
        crate::vault::instructions::rebalance_leg::settle_error(
            vault,
            nav,
            ctx,
            args,
            accounts,
            transfer,
        ) is None,
        args.from_mint != args.to_mint,
    ensures
        ({
            let i = crate::vault::state::holding_index(vault.holdings, args.from_mint);
            let after = crate::vault::instructions::rebalance_leg::rebalanced(
                vault.holdings,
                args,
                accounts,
            );
            let fall = crate::vault::nav::total_nav(vault.holdings, vault.cash_raw, nav.entries)
                - crate::vault::nav::total_nav(after, vault.cash_raw, nav.entries);
            let sold = crate::vault::instructions::rebalance_leg::sold_value(vault, nav, args);
            fall * 10_000 <= sold * vault.rebalance_slippage_bps + (unit_value(
                vault.holdings[i],
                nav.entries,
            ) + 2) * 10_000
        }),
{
    let holdings = vault.holdings;
    let entries = nav.entries;
    let i = crate::vault::state::holding_index(holdings, args.from_mint);
    let j = crate::vault::state::holding_index(holdings, args.to_mint);
    law_rebalance_moves_what_was_swapped(vault, nav, ctx, args, accounts, transfer);
    crate::vault::state::lemma_holding_index(holdings, args.from_mint);
    crate::vault::state::lemma_holding_index(holdings, args.to_mint);
    let after = crate::vault::instructions::rebalance_leg::rebalanced(holdings, args, accounts);
    crate::vault::instructions::rebalance_leg::lemma_with_balance(
        holdings,
        args.from_mint,
        accounts.from_vault_ata.amount,
        args.to_mint,
    );
    let half = holdings.update(
        i,
        Holding { raw_balance: accounts.from_vault_ata.amount, ..holdings[i] },
    );
    let last = Holding { raw_balance: accounts.to_vault_ata.amount, ..holdings[j] };
    assert(after =~= half.update(j, last));
    lemma_basket_value_update(holdings, entries, i, half[i]);
    lemma_basket_value_update(half, entries, j, last);
    lemma_holding_value_splits(holdings[i], entries, args.raw_in);
    lemma_holding_value_splits(
        last,
        entries,
        (accounts.to_vault_ata.amount - holdings[j].raw_balance) as u64,
    );
    let sold = crate::vault::instructions::rebalance_leg::sold_value(vault, nav, args);
    let bps = vault.rebalance_slippage_bps as int;
    assert(sold * (10_000 - bps) == sold * 10_000 - sold * bps) by (nonlinear_arith);
}

/// USD value, × 1e8, of one unit of the holding's asset as a holder sees it, rounded down.
pub open spec fn unit_value(holding: Holding, entries: Seq<NavEntry>) -> int {
    match crate::oracle::entry_for(entries, holding.mint) {
        Some(e) => e.price_usd_1e8 as int / vstd::arithmetic::power::pow(
            10,
            holding.decimals as nat,
        ),
        None => 0,
    }
}

/// Replacing a holding changes the value of the basket by the difference of their values.
proof fn lemma_basket_value_update(
    holdings: Seq<Holding>,
    entries: Seq<NavEntry>,
    i: int,
    holding: Holding,
)
    requires
        0 <= i < holdings.len(),
    ensures
        crate::vault::nav::basket_value(holdings.update(i, holding), entries)
            == crate::vault::nav::basket_value(holdings, entries) - crate::vault::nav::holding_value(
            holdings[i],
            entries,
        ) + crate::vault::nav::holding_value(holding, entries),
    decreases holdings.len(),
{
    let after = holdings.update(i, holding);
    if i == holdings.len() - 1 {
        assert(after.drop_last() =~= holdings.drop_last());
    } else {
        lemma_basket_value_update(holdings.drop_last(), entries, i, holding);
        assert(after.drop_last() =~= holdings.drop_last().update(i, holding));
    }
}

/// A holding is worth no less than its two parts, and more only by what rounding down takes.
proof fn lemma_holding_value_splits(holding: Holding, entries: Seq<NavEntry>, part: u64)
    requires
        part <= holding.raw_balance,
    ensures
        ({
            let rest = Holding { raw_balance: (holding.raw_balance - part) as u64, ..holding };
            let parts = crate::vault::nav::holding_value(rest, entries)
                + crate::vault::nav::holding_value(
                Holding { raw_balance: part, ..holding },
                entries,
            );
            parts <= crate::vault::nav::holding_value(holding, entries) <= parts + unit_value(
                holding,
                entries,
            ) + 2
        }),
{
    match crate::oracle::entry_for(entries, holding.mint) {
        Some(e) => {
            let a = holding.raw_balance - part;
            let b = part as int;
            let m = e.multiplier_num as int;
            let p = e.price_usd_1e8 as int;
            let t = vstd::arithmetic::power::pow(10, holding.decimals as nat);
            vstd::arithmetic::power::lemma_pow_positive(10, holding.decimals as nat);
            assert((a + b) * m == a * m + b * m) by (nonlinear_arith);
            let sa = crate::vault::nav::scaled_amount(a, m);
            let sb = crate::vault::nav::scaled_amount(b, m);
            let s = crate::vault::nav::scaled_amount(a + b, m);
            assert(sa + sb <= s <= sa + sb + 1);
            assert(sa * p + sb * p <= s * p <= sa * p + sb * p + p) by (nonlinear_arith)
                requires
                    sa + sb <= s <= sa + sb + 1,
                    0 <= p,
            ;
            lemma_quotients_add(sa * p, sb * p, 0, t);
            lemma_quotients_add(sa * p, sb * p, p, t);
            vstd::arithmetic::div_mod::lemma_div_is_ordered(sa * p + sb * p, s * p, t);
            vstd::arithmetic::div_mod::lemma_div_is_ordered(s * p, sa * p + sb * p + p, t);
        },
        None => {},
    }
}

/// The quotient of a sum of three is that of its parts, but for what rounding down takes.
proof fn lemma_quotients_add(x: int, y: int, z: int, d: int)
    requires
        0 < d,
    ensures
        x / d + y / d + z / d <= (x + y + z) / d <= x / d + y / d + z / d + 2,
{
    vstd::arithmetic::div_mod::lemma_fundamental_div_mod(x, d);
    vstd::arithmetic::div_mod::lemma_fundamental_div_mod(y, d);
    vstd::arithmetic::div_mod::lemma_fundamental_div_mod(z, d);
    vstd::arithmetic::div_mod::lemma_fundamental_div_mod(x + y + z, d);
    let q = x / d + y / d + z / d;
    let k = (x + y + z) / d;
    assert(d * q == d * (x / d) + d * (y / d) + d * (z / d)) by (nonlinear_arith)
        requires
            q == x / d + y / d + z / d,
    ;
    assert(q <= k <= q + 2) by (nonlinear_arith)
        requires
            d * q <= d * k + (d - 1),
            d * k <= d * q + 3 * (d - 1),
            0 < d,
    ;
}

/// The management fee of a whole year is its rate of the supply.
pub proof fn law_mgmt_fee_is_annual(share_supply: int, fee_bps: int)
    requires
        0 <= share_supply,
        0 <= fee_bps,
    ensures
        crate::vault::instructions::collect_mgmt_fee::mgmt_fee_shares(
            share_supply,
            fee_bps,
            crate::vault::state::SECS_PER_YEAR as int,
        ) == share_supply * fee_bps / 10_000,
{
    let y = crate::vault::state::SECS_PER_YEAR as int;
    let sf = share_supply * fee_bps;
    assert(y == 31_536_000);
    assert(sf * y / (10_000 * y) == sf / 10_000);
}

/// The management fee is proportional to time: collected in two steps it is what it is in one, but
/// for at most one share unit that rounding leaves to the holders.
pub proof fn law_mgmt_fee_adds_up(share_supply: int, fee_bps: int, first: int, second: int)
    requires
        0 <= share_supply,
        0 <= fee_bps,
        0 <= first,
        0 <= second,
    ensures
        ({
            let a = crate::vault::instructions::collect_mgmt_fee::mgmt_fee_shares(
                share_supply,
                fee_bps,
                first,
            );
            let b = crate::vault::instructions::collect_mgmt_fee::mgmt_fee_shares(
                share_supply,
                fee_bps,
                second,
            );
            a + b <= crate::vault::instructions::collect_mgmt_fee::mgmt_fee_shares(
                share_supply,
                fee_bps,
                first + second,
            ) <= a + b + 1
        }),
{
    let sf = share_supply * fee_bps;
    assert(sf * (first + second) == sf * first + sf * second) by (nonlinear_arith);
}

/// A management fee is taken once for the same time: right after a collection there is none.
pub proof fn law_mgmt_fee_is_not_taken_twice(vault: VaultView, ctx: CollectMgmtFee)
    requires
        crate::vault::instructions::collect_mgmt_fee::collect_error(vault, ctx) is None,
    ensures
        crate::vault::instructions::collect_mgmt_fee::collect_error(
            VaultView { last_fee_collection_ts: ctx.now, ..vault },
            ctx,
        ) == Some(VaultError::NoFeeAccrued),
{
}

/// The high-water mark never falls.
pub proof fn law_high_water_mark_never_falls(
    vault: VaultView,
    nav: NavSnapshotView,
    ctx: CollectPerfFee,
)
    requires
        crate::vault::instructions::collect_perf_fee::collect_error(vault, nav, ctx) is None,
        ctx.share_supply > 0,
    ensures
        vault.hwm_nav_per_share_1e8
            <= crate::vault::instructions::collect_perf_fee::vault_nav_per_share(
            vault,
            nav,
            ctx.share_supply,
        ),
{
    lemma_vault_nav_nonneg(vault, nav);
    let n = crate::vault::nav::total_nav(vault.holdings, vault.cash_raw, nav.entries);
    vstd::arithmetic::div_mod::lemma_div_pos_is_pos(
        n * crate::vault::nav::PRICE_SCALE_1E8,
        ctx.share_supply as int,
    );
}

/// The performance fee is at most its rate of the gain: the fee shares, at the NAV per share, are
/// worth no more than that part of what all shares have gained over the mark. It is also at most
/// its rate of the supply.
pub proof fn law_perf_fee_is_bounded(fee_bps: int, share_supply: int, per_share: int, hwm: int)
    requires
        0 <= fee_bps,
        0 <= share_supply,
        0 <= hwm < per_share,
    ensures
        ({
            let fee = crate::vault::instructions::collect_perf_fee::perf_fee_shares(
                fee_bps,
                share_supply,
                per_share,
                hwm,
            );
            &&& 0 <= fee
            &&& fee * per_share * 10_000 <= fee_bps * (per_share - hwm) * share_supply
            &&& fee * 10_000 <= fee_bps * share_supply
        }),
{
    let gain = per_share - hwm;
    let top = fee_bps * gain * share_supply;
    let bottom = 10_000 * per_share;
    let fee = crate::vault::instructions::collect_perf_fee::perf_fee_shares(
        fee_bps,
        share_supply,
        per_share,
        hwm,
    );
    assert(0 <= top <= fee_bps * share_supply * per_share) by (nonlinear_arith)
        requires
            top == fee_bps * gain * share_supply,
            0 <= gain <= per_share,
            0 <= fee_bps,
            0 <= share_supply,
    ;
    vstd::arithmetic::div_mod::lemma_fundamental_div_mod(top, bottom);
    vstd::arithmetic::div_mod::lemma_div_pos_is_pos(top, bottom);
    assert(fee == top / bottom);
    assert(fee * per_share * 10_000 == bottom * fee) by (nonlinear_arith)
        requires
            bottom == 10_000 * per_share,
    ;
    assert(bottom * fee <= fee_bps * share_supply * per_share);
    assert(fee * 10_000 <= fee_bps * share_supply) by (nonlinear_arith)
        requires
            bottom * fee <= fee_bps * share_supply * per_share,
            bottom == 10_000 * per_share,
            per_share > 0,
    ;
}

/// A performance fee is taken once on the same gain: right after a collection, with the fee shares
/// minted, the NAV per share is not above the mark.
pub proof fn law_perf_fee_is_not_taken_twice(
    vault: VaultView,
    nav: NavSnapshotView,
    ctx: CollectPerfFee,
    fee_shares: u64,
    again: CollectPerfFee,
)
    requires
        crate::vault::instructions::collect_perf_fee::collect_error(vault, nav, ctx) is None,
        ctx.share_supply > 0,
        vault.hwm_nav_per_share_1e8 > 0,
        again.share_supply == ctx.share_supply + fee_shares,
        again.slot == ctx.slot,
    ensures
        ({
            let mark = crate::vault::instructions::collect_perf_fee::vault_nav_per_share(
                vault,
                nav,
                ctx.share_supply,
            );
            crate::vault::instructions::collect_perf_fee::collect_error(
                VaultView { hwm_nav_per_share_1e8: mark as u128, ..vault },
                nav,
                again,
            ) == Some(VaultError::BelowHighWaterMark)
        }),
{
    let n = crate::vault::nav::total_nav(vault.holdings, vault.cash_raw, nav.entries);
    let top = n * crate::vault::nav::PRICE_SCALE_1E8;
    lemma_vault_nav_nonneg(vault, nav);
    let s = ctx.share_supply as int;
    let t = again.share_supply as int;
    vstd::arithmetic::div_mod::lemma_div_is_ordered_by_denominator(top, s, t);
    vstd::arithmetic::div_mod::lemma_div_pos_is_pos(top, s);
    vstd::arithmetic::div_mod::lemma_div_nonincreasing(top, s);
}

} // verus!
