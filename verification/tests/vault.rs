use xvault::oracle::{init_snapshot, push_nav, InitSnapshot, NavEntry, NavSnapshot, PushNav};
use xvault::vault::instructions::collect_mgmt_fee::{self, CollectMgmtFee};
use xvault::vault::instructions::collect_perf_fee::{self, CollectPerfFee};
use xvault::vault::instructions::deposit::{self, shares_out_from_nav, Deposit};
use xvault::vault::instructions::init_share_mint::{self, InitShareMint};
use xvault::vault::instructions::init_vault::{self, InitVault, InitVaultArgs};
use xvault::vault::instructions::set_paused::{self, set_pause_flags_handler, SetPaused};
use xvault::vault::instructions::update_weights::{self, sums_to_whole, UpdateWeights};
use xvault::vault::instructions::withdraw_usdc::{self, WithdrawUsdc};
use xvault::vault::nav::{total_nav_1e8, usd_value_1e8, usdc_value_1e8};
use xvault::vault::state::{BPS_DENOM, BPS_DENOMINATOR, MAX_ASSETS, SECS_PER_YEAR};
use xvault::vault::{Holding, PauseFlags, Vault, VaultError};
use xvault::Pubkey;

const ONE: u128 = 1_000_000_000_000_000_000;
const SUPPLY: u64 = 5_000_000_000;

fn key(n: u8) -> Pubkey {
    Pubkey::new([n; 32])
}

fn args() -> InitVaultArgs {
    InitVaultArgs {
        sku: *b"MAG7_V1\0\0\0\0\0\0\0\0\0",
        mints: vec![key(21), key(22)],
        weights_bps: vec![6_000, 4_000],
        decimals: vec![6, 8],
        management_fee_bps: 100,
        performance_fee_bps: 1_000,
        rebalance_slippage_bps: 50,
        keeper: key(2),
        nav_snapshot: key(3),
        treasury: key(4),
    }
}

fn creator() -> InitVault {
    InitVault { admin: key(1), share_mint: key(5), bump: 255, share_mint_bump: 254, now: 1_000 }
}

/// A vault worth 10 USD: 5 and 3 in the two assets, 2 in cash.
fn vault() -> Vault {
    let mut v = init_vault::handler(&creator(), &args()).unwrap();
    v.holdings[0].raw_balance = 2_000_000;
    v.holdings[1].raw_balance = 3_000_000;
    v.cash_raw = 2_000_000;
    v
}

fn entry(mint: u8, price_usd_1e8: u64, multiplier_num: u128) -> NavEntry {
    NavEntry { mint: key(mint), price_usd_1e8, multiplier_num, flags: 0, _padding: [0; 7] }
}

fn nav() -> NavSnapshot {
    let mut s = init_snapshot(&InitSnapshot { authority: key(1), bump: 1 }, [0; 16]);
    let entries = vec![entry(21, 125_000_000, 2 * ONE), entry(22, 10_000_000_000, ONE)];
    push_nav(&mut s, &PushNav { authority: key(1), slot: 1_000 }, entries).unwrap();
    s
}

fn depositor(share_supply: u64) -> Deposit {
    Deposit { user: key(9), share_supply, slot: 1_100 }
}

fn withdrawer(total_shares: u64, vault_usdc_amount: u64) -> WithdrawUsdc {
    WithdrawUsdc { user: key(9), total_shares, vault_usdc_amount, slot: 1_100 }
}

#[test]
fn vault_sizes() {
    assert_eq!(Holding::SIZE, 48);
    assert_eq!(Vault::BASE_SIZE, 232);
    assert_eq!(Vault::size(0), 240);
    assert_eq!(Vault::size(MAX_ASSETS), 1_200);
    assert_eq!(SECS_PER_YEAR, 31_536_000);
    assert_eq!((BPS_DENOM, BPS_DENOMINATOR), (10_000, 10_000));
}

#[test]
fn new_vault_has_the_chosen_basket() {
    let v = init_vault::handler(&creator(), &args()).unwrap();
    assert_eq!((v.admin, v.keeper, v.nav_snapshot), (key(1), key(2), key(3)));
    assert_eq!((v.share_mint, v.treasury), (key(5), key(4)));
    assert_eq!(v.sku, *b"MAG7_V1\0\0\0\0\0\0\0\0\0");
    let first = Holding {
        mint: key(21),
        target_weight_bps: 6_000,
        raw_balance: 0,
        decimals: 6,
        _padding: [0; 5],
    };
    let second = Holding {
        mint: key(22),
        target_weight_bps: 4_000,
        raw_balance: 0,
        decimals: 8,
        _padding: [0; 5],
    };
    assert_eq!(v.holdings, vec![first, second]);
    assert_eq!((v.management_fee_bps, v.performance_fee_bps), (100, 1_000));
    assert_eq!(v.rebalance_slippage_bps, 50);
    assert_eq!((v.cash_raw, v.accrued_protocol_fees_raw, v.hwm_nav_per_share_1e8), (0, 0, 0));
    assert_eq!(v.last_fee_collection_ts, 1_000);
    assert_eq!(v.pause_flags, PauseFlags::default());
    assert_eq!((v.bump, v.share_mint_bump, v._padding), (255, 254, [0; 2]));
}

#[test]
fn basket_size_is_bounded() {
    let with = |n: usize| {
        let mut a = args();
        a.mints = vec![key(1); n];
        a.decimals = vec![6; n];
        a.weights_bps = vec![10_000u16.checked_div(n as u16).unwrap_or(0); n];
        init_vault::handler(&creator(), &a).err()
    };
    assert_eq!(with(0), Some(VaultError::BasketSizeInvalid));
    assert_eq!(with(1), None);
    assert_eq!(with(20), None);
    assert_eq!(with(21), Some(VaultError::BasketSizeInvalid));
}

#[test]
fn basket_needs_a_weight_and_decimals_per_asset() {
    let mut a = args();
    a.weights_bps = vec![10_000];
    let e = init_vault::handler(&creator(), &a).err();
    assert_eq!(e, Some(VaultError::WeightsLengthMismatch));
    let mut a = args();
    a.decimals = vec![6, 8, 6];
    let e = init_vault::handler(&creator(), &a).err();
    assert_eq!(e, Some(VaultError::WeightsLengthMismatch));
}

#[test]
fn weights_sum_to_ten_thousand_exactly() {
    assert!(sums_to_whole(&vec![10_000]));
    assert!(sums_to_whole(&vec![1, 9_999]));
    assert!(!sums_to_whole(&vec![]));
    assert!(!sums_to_whole(&vec![9_999]));
    assert!(!sums_to_whole(&vec![10_001]));
    // 65_536 more than the whole.
    assert!(!sums_to_whole(&vec![65_535, 10_001]));
    let mut a = args();
    a.weights_bps = vec![65_535, 10_001];
    let e = init_vault::handler(&creator(), &a).err();
    assert_eq!(e, Some(VaultError::WeightsSumInvalid));
}

#[test]
fn weights_are_updated_by_the_admin() {
    let mut v = vault();
    let admin = UpdateWeights { admin: key(1) };
    assert_eq!(update_weights::handler(&mut v, &admin, &vec![1_000, 9_000]), Ok(()));
    assert_eq!(v.holdings[0].target_weight_bps, 1_000);
    assert_eq!(v.holdings[1].target_weight_bps, 9_000);
    assert_eq!((v.holdings[0].raw_balance, v.holdings[0].mint), (2_000_000, key(21)));
    let stranger = UpdateWeights { admin: key(2) };
    let refused = [
        (update_weights::handler(&mut v, &stranger, &vec![1, 9_999]), VaultError::Unauthorized),
        (update_weights::handler(&mut v, &admin, &vec![10_000]), VaultError::WeightsLengthMismatch),
        (update_weights::handler(&mut v, &admin, &vec![1, 2]), VaultError::WeightsSumInvalid),
        (
            update_weights::handler(&mut v, &admin, &vec![65_535, 10_001]),
            VaultError::WeightsSumInvalid,
        ),
    ];
    for (result, error) in refused {
        assert_eq!(result, Err(error));
    }
    assert_eq!(v.holdings[1].target_weight_bps, 9_000);
}

#[test]
fn share_mint_must_be_the_recorded_one() {
    let v = vault();
    let ctx = |admin: u8, mint: u8| InitShareMint {
        admin: key(admin),
        vault_key: key(7),
        share_mint: key(mint),
    };
    let event = init_share_mint::handler(&v, &ctx(1, 5)).unwrap();
    assert_eq!((event.vault, event.share_mint), (key(7), key(5)));
    let e = init_share_mint::handler(&v, &ctx(1, 6)).unwrap_err();
    assert_eq!(e, VaultError::ShareMintAlreadyInitialized);
    let e = init_share_mint::handler(&v, &ctx(2, 5)).unwrap_err();
    assert_eq!(e, VaultError::Unauthorized);
}

#[test]
fn pausing_keeps_the_finer_flags() {
    let mut v = vault();
    let admin = SetPaused { admin: key(1) };
    let flags = PauseFlags { halted: false, granular: 0b101 };
    assert_eq!(set_pause_flags_handler(&mut v, &admin, flags), Ok(()));
    assert_eq!(set_paused::handler(&mut v, &admin, true), Ok(()));
    assert_eq!(v.pause_flags, PauseFlags { halted: true, granular: 0b101 });
    assert_eq!(set_paused::handler(&mut v, &admin, false), Ok(()));
    assert_eq!(v.pause_flags, flags);
    let stranger = SetPaused { admin: key(2) };
    assert_eq!(set_paused::handler(&mut v, &stranger, true), Err(VaultError::Unauthorized));
    assert_eq!(
        set_pause_flags_handler(&mut v, &stranger, PauseFlags::default()),
        Err(VaultError::Unauthorized)
    );
    assert_eq!(v.pause_flags, flags);
}

#[test]
fn halt_blocks_deposits_and_fees_but_not_withdrawals() {
    let mut v = vault();
    v.hwm_nav_per_share_1e8 = 16_000_000;
    set_paused::handler(&mut v, &SetPaused { admin: key(1) }, true).unwrap();
    let e = deposit::handler(&mut v, &nav(), &depositor(SUPPLY), 1, 0).unwrap_err();
    assert_eq!(e, VaultError::Paused);
    let mgmt = CollectMgmtFee { vault_key: key(7), share_supply: SUPPLY, now: 5_000 };
    assert_eq!(collect_mgmt_fee::handler(&mut v, &mgmt).unwrap_err(), VaultError::Paused);
    let perf = CollectPerfFee { vault_key: key(7), share_supply: SUPPLY, slot: 1_100 };
    assert_eq!(collect_perf_fee::handler(&mut v, &nav(), &perf).unwrap_err(), VaultError::Paused);
    let ctx = withdrawer(SUPPLY, 2_000_000);
    assert!(withdraw_usdc::handler(&mut v, &nav(), &ctx, 500_000_000, 0).is_ok());
}

#[test]
fn unit_multiplier_is_the_plain_price() {
    assert_eq!(usd_value_1e8(2_000_000, ONE, 125_000_000, 6), Ok(250_000_000));
    assert_eq!(usd_value_1e8(0, ONE, 125_000_000, 6), Ok(0));
    assert_eq!(usd_value_1e8(7, ONE, 3, 0), Ok(21));
}

#[test]
fn value_is_scaled_before_it_is_priced() {
    // 3 x 0.5 rounds down to 1 before the price is applied.
    assert_eq!(usd_value_1e8(3, ONE / 2, 100, 0), Ok(100));
    assert_eq!(usd_value_1e8(1_999_999, ONE, 1, 6), Ok(1));
}

#[test]
fn value_that_does_not_fit_is_refused() {
    let overflow = Err(VaultError::MathOverflow);
    assert_eq!(usd_value_1e8(2, u128::MAX, 1, 0), overflow);
    assert_eq!(usd_value_1e8(1, u128::MAX, 1, 0), Ok(u128::MAX / ONE));
    assert_eq!(usd_value_1e8(1, u128::MAX, u64::MAX, 0), overflow);
    assert_eq!(usd_value_1e8(1, ONE, 1, 38), Ok(0));
    assert_eq!(usd_value_1e8(1, ONE, 1, 39), overflow);
    assert_eq!(usd_value_1e8(1, ONE, 1, 255), overflow);
}

#[test]
fn nav_counts_basket_and_cash() {
    assert_eq!(usdc_value_1e8(2_000_000), 200_000_000);
    assert_eq!(usdc_value_1e8(u64::MAX), u64::MAX as u128 * 100);
    assert_eq!(total_nav_1e8(&vault(), &nav()), Ok(1_000_000_000));
    // An asset that the snapshot does not price counts for nothing.
    let mut s = nav();
    s.entries.remove(0);
    assert_eq!(total_nav_1e8(&vault(), &s), Ok(500_000_000));
    s.entries[0].multiplier_num = u128::MAX;
    assert_eq!(total_nav_1e8(&vault(), &s), Err(VaultError::MathOverflow));
}

#[test]
fn shares_follow_the_nav() {
    assert_eq!(shares_out_from_nav(7, 0, 100), Ok(7));
    assert_eq!(shares_out_from_nav(7, 100, 0), Ok(7));
    assert_eq!(shares_out_from_nav(7, 3, 2), Ok(10));
    assert_eq!(shares_out_from_nav(u128::MAX, 1, 1), Ok(u128::MAX));
    assert_eq!(shares_out_from_nav(u128::MAX, 2, 4), Err(VaultError::MathOverflow));
}

#[test]
fn deposit_mints_at_the_nav() {
    let mut v = vault();
    let ctx = depositor(SUPPLY);
    let event = deposit::handler(&mut v, &nav(), &ctx, 1_000_000, 500_000_000).unwrap();
    assert_eq!((event.user, event.usdc_raw), (key(9), 1_000_000));
    assert_eq!((event.shares_minted, event.cash_buffer_after), (500_000_000, 3_000_000));
    assert_eq!(v.cash_raw, 3_000_000);
    // The NAV grew by what was paid in: the NAV per share stays the same.
    assert_eq!(total_nav_1e8(&v, &nav()), Ok(1_100_000_000));
}

#[test]
fn first_deposit_gets_a_share_unit_per_1e_minus_8_usd() {
    let mut v = init_vault::handler(&creator(), &args()).unwrap();
    let event = deposit::handler(&mut v, &nav(), &depositor(0), 1_000_000, 0).unwrap();
    assert_eq!(event.shares_minted, 100_000_000);
}

#[test]
fn deposit_and_withdrawal_do_not_pay() {
    let mut v = vault();
    let event = deposit::handler(&mut v, &nav(), &depositor(SUPPLY), 1_000_000, 0).unwrap();
    let ctx = withdrawer(SUPPLY + event.shares_minted, v.cash_raw);
    let out = withdraw_usdc::handler(&mut v, &nav(), &ctx, event.shares_minted, 0).unwrap();
    assert_eq!((out.usdc_raw_out, out.fee_raw), (999_500, 500));
    assert_eq!(v.cash_raw, 2_000_000);
}

#[test]
fn usdc_account_covers_buffer_and_fees() {
    let mut v = vault();
    v.accrued_protocol_fees_raw = 40;
    let mut account = v.cash_raw + v.accrued_protocol_fees_raw;
    let paid = deposit::handler(&mut v, &nav(), &depositor(SUPPLY), 1_234_567, 0).unwrap();
    account += paid.usdc_raw;
    assert_eq!(account, v.cash_raw + v.accrued_protocol_fees_raw);
    let ctx = withdrawer(SUPPLY + paid.shares_minted, account);
    let out = withdraw_usdc::handler(&mut v, &nav(), &ctx, 777_777_777, 100).unwrap();
    account -= out.usdc_raw_out;
    assert_eq!(account, v.cash_raw + v.accrued_protocol_fees_raw);
}

#[test]
fn refused_deposits_say_why() {
    let mut v = vault();
    let run = |v: &mut Vault, ctx: &Deposit, usdc: u64, min: u64| {
        deposit::handler(v, &nav(), ctx, usdc, min).unwrap_err()
    };
    assert_eq!(deposit::check_request(&v, 0), Err(VaultError::ZeroAmount));
    assert_eq!(deposit::check_request(&v, 1), Ok(()));
    assert_eq!(run(&mut v, &depositor(SUPPLY), 0, 0), VaultError::ZeroAmount);
    let late = Deposit { user: key(9), share_supply: SUPPLY, slot: 1_151 };
    assert_eq!(run(&mut v, &late, 1, 0), VaultError::OracleStale);
    assert_eq!(
        run(&mut v, &depositor(SUPPLY), 1_000_000, 500_000_001),
        VaultError::SlippageExceeded
    );
    assert_eq!(v.cash_raw, 2_000_000);
    // More shares than a token amount holds.
    let mut empty = init_vault::handler(&creator(), &args()).unwrap();
    empty.cash_raw = 1;
    let e = run(&mut empty, &depositor(u64::MAX), 1_000_000_000_000, 0);
    assert_eq!(e, VaultError::MathOverflow);
    empty.cash_raw = u64::MAX;
    assert_eq!(run(&mut empty, &depositor(0), 1, 0), VaultError::MathOverflow);
    assert_eq!(empty.cash_raw, u64::MAX);
}

#[test]
fn usdc_withdrawal_pays_the_worth_less_the_fee() {
    let mut v = vault();
    let ctx = withdrawer(SUPPLY, 2_000_000);
    let event = withdraw_usdc::handler(&mut v, &nav(), &ctx, 500_000_000, 100).unwrap();
    assert_eq!((event.user, event.shares_burned, event.max_slip_bps), (key(9), 500_000_000, 100));
    assert_eq!((event.usdc_raw_out, event.fee_raw), (999_500, 500));
    assert_eq!((v.cash_raw, v.accrued_protocol_fees_raw), (1_000_000, 500));
}

#[test]
fn usdc_withdrawal_is_capped_by_the_buffer() {
    let mut v = vault();
    let ctx = withdrawer(SUPPLY, 2_000_000);
    // Worth 2_050_000, of which the buffer holds 2_000_000: within 5%, not within 2%.
    let e = withdraw_usdc::handler(&mut v, &nav(), &ctx, 1_025_000_000, 200).unwrap_err();
    assert_eq!(e, VaultError::SlippageExceeded);
    assert_eq!(v.cash_raw, 2_000_000);
    let event = withdraw_usdc::handler(&mut v, &nav(), &ctx, 1_025_000_000, 500).unwrap();
    assert_eq!((event.usdc_raw_out, event.fee_raw), (1_999_000, 1_000));
    assert_eq!((v.cash_raw, v.accrued_protocol_fees_raw), (0, 1_000));
    // The vault's token account may hold less than the buffer says.
    let mut v = vault();
    let short = withdrawer(SUPPLY, 990_000);
    let event = withdraw_usdc::handler(&mut v, &nav(), &short, 500_000_000, 100).unwrap();
    assert_eq!(event.usdc_raw_out + event.fee_raw, 990_000);
    assert_eq!(v.cash_raw, 1_010_000);
}

#[test]
fn refused_usdc_withdrawals_say_why() {
    let mut v = vault();
    let ctx = withdrawer(SUPPLY, 2_000_000);
    assert_eq!(withdraw_usdc::check_request(&ctx, 0, 0), Err(VaultError::ZeroAmount));
    assert_eq!(withdraw_usdc::check_request(&ctx, 1, 501), Err(VaultError::SlippageExceeded));
    assert_eq!(withdraw_usdc::check_request(&ctx, 1, 500), Ok(()));
    let none = withdrawer(0, 2_000_000);
    assert_eq!(withdraw_usdc::check_request(&none, 1, 0), Err(VaultError::MathOverflow));
    let e = withdraw_usdc::handler(&mut v, &nav(), &none, 1, 0).unwrap_err();
    assert_eq!(e, VaultError::MathOverflow);
    let late = WithdrawUsdc { slot: 1_151, ..withdrawer(SUPPLY, 2_000_000) };
    let e = withdraw_usdc::handler(&mut v, &nav(), &late, 1, 0).unwrap_err();
    assert_eq!(e, VaultError::OracleStale);
    v.accrued_protocol_fees_raw = u64::MAX - 499;
    let e = withdraw_usdc::handler(&mut v, &nav(), &ctx, 500_000_000, 0).unwrap_err();
    assert_eq!(e, VaultError::MathOverflow);
    assert_eq!((v.cash_raw, v.accrued_protocol_fees_raw), (2_000_000, u64::MAX - 499));
}

#[test]
fn management_fee_is_annual() {
    let mut v = vault();
    let year = CollectMgmtFee {
        vault_key: key(7),
        share_supply: SUPPLY,
        now: 1_000 + 365 * 86_400,
    };
    let event = collect_mgmt_fee::handler(&mut v, &year).unwrap().unwrap();
    // One percent of the supply.
    assert_eq!((event.vault, event.fee_shares), (key(7), 50_000_000));
    assert_eq!(event.elapsed_secs, 31_536_000);
    assert_eq!(v.last_fee_collection_ts, year.now);
    // Not twice for the same time.
    assert_eq!(collect_mgmt_fee::handler(&mut v, &year).unwrap_err(), VaultError::NoFeeAccrued);
}

#[test]
fn management_fee_adds_up() {
    let fee = |from: i64, to: i64| {
        let mut v = vault();
        v.last_fee_collection_ts = from;
        let ctx = CollectMgmtFee { vault_key: key(7), share_supply: SUPPLY, now: to };
        collect_mgmt_fee::handler(&mut v, &ctx).unwrap().unwrap().fee_shares
    };
    // 5_000_000_000 x 100 / 315_360_000_000 per second.
    assert_eq!(fee(0, 100), 158);
    assert_eq!(fee(100, 300), 317);
    assert_eq!(fee(0, 300), 475);
    assert_eq!((fee(0, 1), fee(1, 2), fee(0, 2)), (1, 1, 3));
}

#[test]
fn management_fee_edges() {
    let mut v = vault();
    let none = CollectMgmtFee { vault_key: key(7), share_supply: 0, now: 1_001 };
    assert!(collect_mgmt_fee::handler(&mut v, &none).unwrap().is_none());
    assert_eq!(v.last_fee_collection_ts, 1_001);
    let back = CollectMgmtFee { vault_key: key(7), share_supply: SUPPLY, now: 1_000 };
    assert_eq!(collect_mgmt_fee::handler(&mut v, &back).unwrap_err(), VaultError::NoFeeAccrued);
    // A fee that rounds down to nothing is still noted.
    let soon = CollectMgmtFee { vault_key: key(7), share_supply: 1, now: 1_002 };
    assert_eq!(collect_mgmt_fee::handler(&mut v, &soon).unwrap().unwrap().fee_shares, 0);
    v.last_fee_collection_ts = i64::MIN;
    assert_eq!(collect_mgmt_fee::handler(&mut v, &soon).unwrap_err(), VaultError::MathOverflow);
    v.last_fee_collection_ts = 0;
    v.management_fee_bps = u16::MAX;
    let far = CollectMgmtFee { vault_key: key(7), share_supply: u64::MAX, now: i64::MAX };
    assert_eq!(collect_mgmt_fee::handler(&mut v, &far).unwrap_err(), VaultError::MathOverflow);
    assert_eq!(v.last_fee_collection_ts, 0);
}

#[test]
fn performance_fee_is_taken_on_the_gain() {
    let mut v = vault();
    v.hwm_nav_per_share_1e8 = 16_000_000;
    let ctx = CollectPerfFee { vault_key: key(7), share_supply: SUPPLY, slot: 1_100 };
    let event = collect_perf_fee::handler(&mut v, &nav(), &ctx).unwrap().unwrap();
    // A tenth of the gain of 4 / 20 on 5_000_000_000 shares.
    assert_eq!((event.vault, event.fee_shares), (key(7), 100_000_000));
    assert_eq!((event.nav_per_share_1e8, event.previous_hwm_1e8), (20_000_000, 16_000_000));
    assert_eq!(v.hwm_nav_per_share_1e8, 20_000_000);
    let e = collect_perf_fee::handler(&mut v, &nav(), &ctx).unwrap_err();
    assert_eq!(e, VaultError::BelowHighWaterMark);
    assert_eq!(v.hwm_nav_per_share_1e8, 20_000_000);
}

#[test]
fn performance_fee_edges() {
    let mut v = vault();
    let ctx = CollectPerfFee { vault_key: key(7), share_supply: SUPPLY, slot: 1_100 };
    let none = CollectPerfFee { vault_key: key(7), share_supply: 0, slot: 1_100 };
    assert!(collect_perf_fee::handler(&mut v, &nav(), &none).unwrap().is_none());
    assert_eq!(v.hwm_nav_per_share_1e8, 0);
    // The first collection only sets the mark.
    assert!(collect_perf_fee::handler(&mut v, &nav(), &ctx).unwrap().is_none());
    assert_eq!(v.hwm_nav_per_share_1e8, 20_000_000);
    let late = CollectPerfFee { vault_key: key(7), share_supply: SUPPLY, slot: 1_151 };
    let e = collect_perf_fee::handler(&mut v, &nav(), &late).unwrap_err();
    assert_eq!(e, VaultError::OracleStale);
    let mut s = nav();
    s.entries[0].multiplier_num = u128::MAX;
    let e = collect_perf_fee::handler(&mut v, &s, &ctx).unwrap_err();
    assert_eq!(e, VaultError::MathOverflow);
}

#[test]
fn holdings_are_found_by_mint() {
    let mut v = vault();
    assert_eq!(v.holding(&key(22)).map(|h| h.raw_balance), Some(3_000_000));
    assert!(v.holding(&key(23)).is_none());
    assert!(v.holding_mut(&key(23)).is_none());
    v.holding_mut(&key(22)).unwrap().raw_balance = 5;
    assert_eq!(v.holdings[1].raw_balance, 5);
    assert_eq!(v.holdings[0].raw_balance, 2_000_000);
}
