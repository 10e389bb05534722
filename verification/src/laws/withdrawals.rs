//! When a withdrawal is paid, and how much.

use vstd::prelude::*;

use crate::laws::pricing::lemma_rounded_down;
use crate::oracle::NavSnapshotView;
use crate::vault::accounts::{RawAccount, TokenAccount};
use crate::vault::errors::{InstructionError, VaultError};
use crate::vault::instructions::withdraw_in_kind::{WithdrawInKind, WithdrawLeg};
use crate::vault::instructions::withdraw_usdc::WithdrawUsdc;
use crate::vault::state::{Holding, VaultView};

verus! {

/// Every holding of the basket is paid out: at each index, what is paid is the pro-rata part of the
/// raw balance there, rounded down, the balance falls by exactly that, and nothing else of the
/// holding changes.
pub proof fn law_every_holding_is_paid_out(
    holdings: Seq<Holding>,
    shares: u64,
    total_shares: u64,
    i: int,
)
    requires
        0 < total_shares,
        shares <= total_shares,
        0 <= i < holdings.len(),
    ensures
        ({
            let paid = crate::vault::instructions::withdraw_in_kind::payouts(
                holdings,
                shares,
                total_shares,
            );
            let after = crate::vault::instructions::withdraw_in_kind::paid_out(
                holdings,
                shares,
                total_shares,
            );
            &&& paid.len() == holdings.len()
            &&& after.len() == holdings.len()
            &&& paid[i] * total_shares <= holdings[i].raw_balance * shares < (paid[i] + 1)
                * total_shares
            &&& after[i].raw_balance == holdings[i].raw_balance - paid[i]
            &&& after[i] == (Holding { raw_balance: after[i].raw_balance, ..holdings[i] })
        }),
{
    crate::laws::vault::law_slice_is_pro_rata(holdings[i].raw_balance, shares, total_shares);
}

/// Whatever number of shares is named, what is paid out of a holding is the pro-rata part in the
/// low 64 bits, and the balance falls by exactly that where it holds it.
pub proof fn law_payout_of_any_number_of_shares(
    holdings: Seq<Holding>,
    shares: u64,
    total_shares: u64,
    i: int,
)
    requires
        0 < total_shares,
        0 <= i < holdings.len(),
    ensures
        ({
            let part = holdings[i].raw_balance * shares / (total_shares as int);
            let paid = crate::vault::instructions::withdraw_in_kind::payouts(
                holdings,
                shares,
                total_shares,
            )[i];
            let after = crate::vault::instructions::withdraw_in_kind::paid_out(
                holdings,
                shares,
                total_shares,
            )[i];
            &&& paid == part % 0x1_0000_0000_0000_0000
            &&& paid <= holdings[i].raw_balance ==> after == (Holding {
                raw_balance: (holdings[i].raw_balance - paid) as u64,
                ..holdings[i]
            })
        }),
{
    let part = holdings[i].raw_balance * shares / (total_shares as int);
    assert(0 <= part % 0x1_0000_0000_0000_0000 <= u64::MAX);
}

/// Which withdrawals in kind go through: some shares are burnt of those there are, there is one leg
/// per holding, and every leg was read, belongs to its holding, is paid by the vault, and is covered
/// by the noted balance.
pub proof fn law_withdrawal_in_kind_goes_through(
    vault: VaultView,
    ctx: WithdrawInKind,
    shares: u64,
    legs: Seq<Result<WithdrawLeg, u64>>,
)
    ensures
        ({
            let request = crate::vault::instructions::withdraw_in_kind::request_error(ctx, shares);
            let error = crate::vault::instructions::withdraw_in_kind::settle_error(
                vault,
                ctx,
                shares,
                legs,
            );
            &&& request is None <==> shares > 0 && ctx.total_shares > 0
            &&& request == Some(VaultError::ZeroAmount) <==> shares == 0
            &&& request == Some(VaultError::MathOverflow) <==> shares > 0 && ctx.total_shares == 0
            &&& error is None <==> {
                &&& shares > 0
                &&& ctx.total_shares > 0
                &&& legs.len() == vault.holdings.len()
                &&& forall|i: int|
                    0 <= i < legs.len() ==> (#[trigger] legs[i]) is Ok
                        && legs[i]->Ok_0.mint == vault.holdings[i].mint
                        && legs[i]->Ok_0.vault_ata.mint == vault.holdings[i].mint
                        && legs[i]->Ok_0.user_ata.mint == vault.holdings[i].mint
                        && legs[i]->Ok_0.vault_ata.owner == ctx.vault_key
                        && vault.holdings[i].raw_balance * shares / (ctx.total_shares as int)
                        % 0x1_0000_0000_0000_0000 <= vault.holdings[i].raw_balance
            }
            &&& shares == 0 ==> error == Some(InstructionError::Vault(VaultError::ZeroAmount))
            &&& shares > 0 && ctx.total_shares == 0 ==> error == Some(
                InstructionError::Vault(VaultError::MathOverflow),
            )
            &&& shares > 0 && ctx.total_shares > 0 && legs.len() != vault.holdings.len() ==> error
                == Some(InstructionError::Vault(VaultError::InvalidRemainingAccounts))
        }),
{
    if shares > 0 && ctx.total_shares > 0 && legs.len() == vault.holdings.len() {
        lemma_no_leg_fails(vault.holdings, legs, ctx, shares, legs.len());
    }
}

/// No leg fails exactly where each of them is in order.
proof fn lemma_no_leg_fails(
    holdings: Seq<Holding>,
    legs: Seq<Result<WithdrawLeg, u64>>,
    ctx: WithdrawInKind,
    shares: u64,
    n: nat,
)
    requires
        n <= legs.len(),
    ensures
        crate::vault::instructions::withdraw_in_kind::first_leg_error(
            holdings,
            legs,
            ctx,
            shares,
            n,
        ) is None <==> forall|i: int|
            0 <= i < n ==> crate::vault::instructions::withdraw_in_kind::leg_error(
                holdings[i],
                #[trigger] legs[i],
                ctx,
                shares,
            ) is None,
    decreases n,
{
    if n > 0 {
        lemma_no_leg_fails(holdings, legs, ctx, shares, (n - 1) as nat);
        assert(legs[n - 1] == legs[n - 1]);
    }
}

/// The first leg that is not in order decides: one that was not read refuses with its code, one
/// whose accounts do not belong with `InvalidRemainingAccounts`, one that the noted balance does
/// not cover with `MathOverflow`.
pub proof fn law_first_bad_leg_decides(
    vault: VaultView,
    ctx: WithdrawInKind,
    shares: u64,
    legs: Seq<Result<WithdrawLeg, u64>>,
    k: int,
)
    requires
        shares > 0,
        ctx.total_shares > 0,
        legs.len() == vault.holdings.len(),
        0 <= k < legs.len(),
        forall|i: int|
            0 <= i < k ==> (#[trigger] legs[i]) is Ok && legs[i]->Ok_0.mint
                == vault.holdings[i].mint && legs[i]->Ok_0.vault_ata.mint == vault.holdings[i].mint
                && legs[i]->Ok_0.user_ata.mint == vault.holdings[i].mint
                && legs[i]->Ok_0.vault_ata.owner == ctx.vault_key && vault.holdings[i].raw_balance
                * shares / (ctx.total_shares as int) % 0x1_0000_0000_0000_0000
                <= vault.holdings[i].raw_balance,
    ensures
        ({
            let error = crate::vault::instructions::withdraw_in_kind::settle_error(
                vault,
                ctx,
                shares,
                legs,
            );
            let mint = vault.holdings[k].mint;
            match legs[k] {
                Err(code) => error == Some(InstructionError::Program(code)),
                Ok(leg) => {
                    let belongs = leg.mint == mint && leg.vault_ata.mint == mint
                        && leg.user_ata.mint == mint && leg.vault_ata.owner == ctx.vault_key;
                    &&& !belongs ==> error == Some(
                        InstructionError::Vault(VaultError::InvalidRemainingAccounts),
                    )
                    &&& belongs && vault.holdings[k].raw_balance * shares / (
                    ctx.total_shares as int) % 0x1_0000_0000_0000_0000
                        > vault.holdings[k].raw_balance ==> error == Some(
                        InstructionError::Vault(VaultError::MathOverflow),
                    )
                },
            }
        }),
{
    lemma_no_leg_fails(vault.holdings, legs, ctx, shares, k as nat);
    assert forall|i: int| 0 <= i < k implies crate::vault::instructions::withdraw_in_kind::leg_error(
        vault.holdings[i],
        #[trigger] legs[i],
        ctx,
        shares,
    ) is None by {
        assert(legs[i] is Ok);
    }
    let here = crate::vault::instructions::withdraw_in_kind::leg_error(
        vault.holdings[k],
        legs[k],
        ctx,
        shares,
    );
    if here is Some {
        crate::vault::instructions::withdraw_in_kind::lemma_first_leg_error_stands(
            vault.holdings,
            legs,
            ctx,
            shares,
            (k + 1) as nat,
            legs.len(),
        );
    }
}

/// A leg is what its three accounts hold: the vault's token account, the user's, and the mint, in
/// that order. The first of them that cannot be read decides.
pub proof fn law_leg_is_read_in_order(vault_ata: RawAccount, user_ata: RawAccount, mint: RawAccount)
    ensures
        ({
            let leg = crate::vault::instructions::withdraw_in_kind::leg_in(
                vault_ata,
                user_ata,
                mint,
            );
            match (
                crate::vault::accounts::token_account_fields(
                    vault_ata.program,
                    vault_ata.lamports,
                    vault_ata.data@,
                ),
                crate::vault::accounts::token_account_fields(
                    user_ata.program,
                    user_ata.lamports,
                    user_ata.data@,
                ),
                crate::vault::accounts::mint_fault(mint.program, mint.lamports, mint.data@),
            ) {
                (Err(code), _, _) => leg == Err::<WithdrawLeg, u64>(code),
                (Ok(_), Err(code), _) => leg == Err::<WithdrawLeg, u64>(code),
                (Ok(_), Ok(_), Some(code)) => leg == Err::<WithdrawLeg, u64>(code),
                (Ok(v), Ok(u), None) => leg == Ok::<WithdrawLeg, u64>(
                    WithdrawLeg {
                        vault_ata: TokenAccount {
                            key: vault_ata.key,
                            mint: v.0,
                            owner: v.1,
                            amount: v.2,
                        },
                        user_ata: TokenAccount {
                            key: user_ata.key,
                            mint: u.0,
                            owner: u.1,
                            amount: u.2,
                        },
                        mint: mint.key,
                    },
                ),
            }
        }),
{
}

/// The accounts of a withdrawal are three per holding, in the order of the basket: it is decided as
/// the legs are that stand at every third account. Any other number of accounts is refused.
pub proof fn law_accounts_are_three_per_holding(
    vault: VaultView,
    ctx: WithdrawInKind,
    shares: u64,
    accounts: Seq<RawAccount>,
    legs: Seq<Result<WithdrawLeg, u64>>,
)
    requires
        shares > 0,
        ctx.total_shares > 0,
        legs.len() == vault.holdings.len(),
        accounts.len() == 3 * vault.holdings.len() ==> forall|i: int|
            0 <= i < legs.len() ==> #[trigger] legs[i]
                == crate::vault::instructions::withdraw_in_kind::leg_in(
                accounts[3 * i],
                accounts[3 * i + 1],
                accounts[3 * i + 2],
            ),
    ensures
        crate::vault::instructions::withdraw_in_kind::withdraw_error(vault, ctx, shares, accounts)
            == if accounts.len() == 3 * vault.holdings.len() {
            crate::vault::instructions::withdraw_in_kind::settle_error(vault, ctx, shares, legs)
        } else {
            Some(InstructionError::Vault(VaultError::InvalidRemainingAccounts))
        },
{
    if accounts.len() == 3 * vault.holdings.len() {
        assert(crate::vault::instructions::withdraw_in_kind::legs_in(accounts) =~= legs);
    }
}

/// A withdrawal in kind without shares, or of none, is refused before any account is looked at.
pub proof fn law_empty_withdrawal_in_kind_is_refused(
    vault: VaultView,
    ctx: WithdrawInKind,
    shares: u64,
    accounts: Seq<RawAccount>,
)
    ensures
        ({
            let error = crate::vault::instructions::withdraw_in_kind::withdraw_error(
                vault,
                ctx,
                shares,
                accounts,
            );
            &&& shares == 0 ==> error == Some(InstructionError::Vault(VaultError::ZeroAmount))
            &&& shares > 0 && ctx.total_shares == 0 ==> error == Some(
                InstructionError::Vault(VaultError::MathOverflow),
            )
        }),
{
}

/// Shares are worth their part of the NAV in raw USDC, rounded down:
/// `worth * 100 <= nav * shares / total < (worth + 1) * 100`.
pub proof fn law_shares_are_worth_their_part(total_nav_1e8: int, shares: u64, total_shares: u64)
    requires
        0 <= total_nav_1e8,
        0 < total_shares,
    ensures
        ({
            let worth = crate::vault::instructions::withdraw_usdc::expected_usdc(
                total_nav_1e8,
                shares,
                total_shares,
            );
            &&& 0 <= worth
            &&& worth * 100 * total_shares <= total_nav_1e8 * shares < (worth + 1) * 100
                * total_shares
        }),
{
    let t = total_shares as int;
    let x = total_nav_1e8 * shares;
    assert(0 <= x) by (nonlinear_arith)
        requires
            x == total_nav_1e8 * shares,
            0 <= total_nav_1e8,
    ;
    lemma_rounded_down(x, t);
    let q = x / t;
    let worth = crate::vault::instructions::withdraw_usdc::expected_usdc(
        total_nav_1e8,
        shares,
        total_shares,
    );
    assert(worth * 100 <= q < (worth + 1) * 100);
    assert(worth * 100 * t <= x < (worth + 1) * 100 * t) by (nonlinear_arith)
        requires
            q * t <= x < (q + 1) * t,
            worth * 100 <= q,
            q + 1 <= (worth + 1) * 100,
            0 < t,
    ;
}

/// A withdrawal takes the pro-rata worth of the burnt shares, `taken * 100 <= nav * shares / total <
/// (taken + 1) * 100`, wherever the buffer and the vault's USDC account hold it; where they do not,
/// it takes all that both of them hold.
pub proof fn law_withdrawal_takes_the_worth(
    vault: VaultView,
    nav: NavSnapshotView,
    ctx: WithdrawUsdc,
    shares: u64,
)
    requires
        0 < ctx.total_shares,
    ensures
        ({
            let total = crate::vault::nav::total_nav(vault.holdings, vault.cash_raw, nav.entries);
            let part = total * shares;
            let taken = crate::vault::instructions::withdraw_usdc::withdrawn_usdc(
                vault,
                nav,
                ctx,
                shares,
            );
            let held = if vault.cash_raw <= ctx.vault_usdc_amount {
                vault.cash_raw
            } else {
                ctx.vault_usdc_amount
            };
            &&& 0 <= taken <= held
            &&& taken * 100 * ctx.total_shares <= part
            &&& part < (held + 1) * 100 * ctx.total_shares ==> part < (taken + 1) * 100
                * ctx.total_shares
            &&& held * 100 * ctx.total_shares <= part ==> taken == held
        }),
{
    let total = crate::vault::nav::total_nav(vault.holdings, vault.cash_raw, nav.entries);
    crate::vault::nav::lemma_basket_value_grows(vault.holdings, nav.entries, 0);
    law_shares_are_worth_their_part(total, shares, ctx.total_shares);
    let worth = crate::vault::instructions::withdraw_usdc::expected_usdc(
        total,
        shares,
        ctx.total_shares,
    );
    let taken = crate::vault::instructions::withdraw_usdc::withdrawn_usdc(vault, nav, ctx, shares);
    let held = if vault.cash_raw <= ctx.vault_usdc_amount {
        vault.cash_raw as int
    } else {
        ctx.vault_usdc_amount as int
    };
    let t = ctx.total_shares as int;
    let part = total * shares;
    assert(taken == if worth <= held { worth } else { held });
    assert(taken * 100 * t <= worth * 100 * t) by (nonlinear_arith)
        requires
            taken <= worth,
            0 < t,
    ;
    if held < worth {
        assert((held + 1) * 100 * t <= worth * 100 * t) by (nonlinear_arith)
            requires
                held + 1 <= worth,
                0 < t,
        ;
    }
    if worth < held {
        assert((worth + 1) * 100 * t <= held * 100 * t) by (nonlinear_arith)
            requires
                worth + 1 <= held,
                0 < t,
        ;
    }
}

/// An accepted withdrawal takes no less of the worth than the accepted slippage leaves, rounded
/// down: for the worth `w` of the shares, `(taken + 1) * 10_000 > w * (10_000 - max_slip_bps)`.
pub proof fn law_accepted_withdrawal_keeps_the_slippage(
    vault: VaultView,
    nav: NavSnapshotView,
    ctx: WithdrawUsdc,
    shares: u64,
    max_slip_bps: u16,
    worth: int,
)
    requires
        crate::vault::instructions::withdraw_usdc::withdraw_error(
            vault,
            nav,
            ctx,
            shares,
            max_slip_bps,
        ) is None,
        worth * 100 * ctx.total_shares <= crate::vault::nav::total_nav(
            vault.holdings,
            vault.cash_raw,
            nav.entries,
        ) * shares < (worth + 1) * 100 * ctx.total_shares,
    ensures
        ({
            let taken = crate::vault::instructions::withdraw_usdc::withdrawn_usdc(
                vault,
                nav,
                ctx,
                shares,
            );
            (taken + 1) * 10_000 > worth * (10_000 - max_slip_bps)
        }),
{
    lemma_worth_is_unique(vault, nav, ctx, shares, worth);
    lemma_rounded_down(worth * (10_000 - max_slip_bps), 10_000);
}

/// The worth of shares is the one number within the bounds of `law_shares_are_worth_their_part`.
proof fn lemma_worth_is_unique(
    vault: VaultView,
    nav: NavSnapshotView,
    ctx: WithdrawUsdc,
    shares: u64,
    worth: int,
)
    requires
        0 < ctx.total_shares,
        worth * 100 * ctx.total_shares <= crate::vault::nav::total_nav(
            vault.holdings,
            vault.cash_raw,
            nav.entries,
        ) * shares < (worth + 1) * 100 * ctx.total_shares,
    ensures
        crate::vault::instructions::withdraw_usdc::expected_usdc(
            crate::vault::instructions::withdraw_usdc::vault_nav(vault, nav),
            shares,
            ctx.total_shares,
        ) == worth,
        0 <= worth,
{
    let total = crate::vault::nav::total_nav(vault.holdings, vault.cash_raw, nav.entries);
    crate::vault::nav::lemma_basket_value_grows(vault.holdings, nav.entries, 0);
    law_shares_are_worth_their_part(total, shares, ctx.total_shares);
    let other = crate::vault::instructions::withdraw_usdc::expected_usdc(
        total,
        shares,
        ctx.total_shares,
    );
    let part = total * shares;
    let t = ctx.total_shares as int;
    assert(other == worth) by (nonlinear_arith)
        requires
            other * 100 * t <= part < (other + 1) * 100 * t,
            worth * 100 * t <= part < (worth + 1) * 100 * t,
            0 < t,
    ;
}

/// The protocol fee is 0.05% of what is taken, rounded down.
pub proof fn law_withdrawal_fee_is_five_bps(taken: int)
    ensures
        ({
            let fee = crate::vault::instructions::withdraw_usdc::withdraw_fee(taken);
            fee * 10_000 <= taken * 5 < (fee + 1) * 10_000
        }),
{
}

/// Which withdrawals in USDC go through, and why the others do not. Shares are burnt unless there
/// are none, none are named, or the slippage is over 5%. The withdrawal then goes through exactly
/// where the prices are not stale, every number fits, what is taken is within the slippage, and the
/// protocol's fees can be held. `worth` is the worth of the shares, `part` their part of the NAV.
pub proof fn law_withdrawal_in_usdc_goes_through(
    vault: VaultView,
    nav: NavSnapshotView,
    ctx: WithdrawUsdc,
    shares: u64,
    max_slip_bps: u16,
    part: int,
    worth: int,
    fee: int,
)
    requires
        0 < ctx.total_shares,
        part * ctx.total_shares <= crate::vault::nav::total_nav(
            vault.holdings,
            vault.cash_raw,
            nav.entries,
        ) * shares < (part + 1) * ctx.total_shares,
        worth * 100 <= part < (worth + 1) * 100,
        fee * 10_000 <= crate::vault::instructions::withdraw_usdc::withdrawn_usdc(
            vault,
            nav,
            ctx,
            shares,
        ) * 5 < (fee + 1) * 10_000,
    ensures
        ({
            let error = crate::vault::instructions::withdraw_usdc::withdraw_error(
                vault,
                nav,
                ctx,
                shares,
                max_slip_bps,
            );
            let total = crate::vault::nav::total_nav(vault.holdings, vault.cash_raw, nav.entries);
            let taken = crate::vault::instructions::withdraw_usdc::withdrawn_usdc(
                vault,
                nav,
                ctx,
                shares,
            );
            let asked = shares > 0 && max_slip_bps <= 500;
            let fresh = ctx.slot - nav.last_update_slot <= nav.max_stale_slots;
            let fits = crate::vault::nav::nav_fits(vault.holdings, vault.cash_raw, nav.entries)
                && total * shares <= u128::MAX && part * 1_000_000 <= u128::MAX && worth * (10_000
                - max_slip_bps) <= u128::MAX;
            let enough = (taken + 1) * 10_000 > worth * (10_000 - max_slip_bps);
            let room = vault.accrued_protocol_fees_raw + fee <= u64::MAX;
            &&& error is None <==> asked && fresh && fits && enough && room
            &&& error == Some(VaultError::ZeroAmount) <==> shares == 0
            &&& error == Some(VaultError::SlippageExceeded) <==> shares > 0 && (max_slip_bps > 500
                || (fresh && fits && !enough))
            &&& error == Some(VaultError::OracleStale) <==> asked && !fresh
            &&& error == Some(VaultError::MathOverflow) <==> asked && fresh && (!fits || (enough
                && !room))
        }),
{
    let total = crate::vault::nav::total_nav(vault.holdings, vault.cash_raw, nav.entries);
    let t = ctx.total_shares as int;
    let x = total * shares;
    lemma_rounded_down(x, t);
    let q = x / t;
    assert(q == part) by (nonlinear_arith)
        requires
            q * t <= x < (q + 1) * t,
            part * t <= x < (part + 1) * t,
            0 < t,
    ;
    assert(crate::vault::instructions::withdraw_usdc::expected_usdc(total, shares, ctx.total_shares)
        == worth);
    lemma_rounded_down(worth * (10_000 - max_slip_bps), 10_000);
    let taken = crate::vault::instructions::withdraw_usdc::withdrawn_usdc(vault, nav, ctx, shares);
    law_withdrawal_fee_is_five_bps(taken);
}

/// What is refused before any share is burnt for USDC.
pub proof fn law_usdc_request_is_refused(ctx: WithdrawUsdc, shares: u64, max_slip_bps: u16)
    ensures
        ({
            let error = crate::vault::instructions::withdraw_usdc::request_error(
                ctx,
                shares,
                max_slip_bps,
            );
            &&& error is None <==> shares > 0 && max_slip_bps <= 500 && ctx.total_shares > 0
            &&& error == Some(VaultError::ZeroAmount) <==> shares == 0
            &&& error == Some(VaultError::SlippageExceeded) <==> shares > 0 && max_slip_bps > 500
            &&& error == Some(VaultError::MathOverflow) <==> shares > 0 && max_slip_bps <= 500
                && ctx.total_shares == 0
        }),
{
}

/// What is refused before any share is burnt for USDC refuses the withdrawal in the same way.
pub proof fn law_refused_usdc_request_is_not_paid(
    vault: VaultView,
    nav: NavSnapshotView,
    ctx: WithdrawUsdc,
    shares: u64,
    max_slip_bps: u16,
)
    ensures
        ({
            let error = crate::vault::instructions::withdraw_usdc::withdraw_error(
                vault,
                nav,
                ctx,
                shares,
                max_slip_bps,
            );
            &&& shares == 0 ==> error == Some(VaultError::ZeroAmount)
            &&& shares > 0 && max_slip_bps > 500 ==> error == Some(VaultError::SlippageExceeded)
            &&& shares > 0 && max_slip_bps <= 500 && ctx.total_shares == 0 ==> error == Some(
                VaultError::MathOverflow,
            )
        }),
{
}

} // verus!
