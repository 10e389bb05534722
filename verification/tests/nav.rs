use xvault::vault::instructions::deposit::shares_out_from_nav;
use xvault::vault::nav::usd_value_1e8;

fn mul_num(multiplier: f64) -> u128 {
    (multiplier * 1_000_000_000_000_000_000f64) as u128
}

#[test]
fn usd_value_respects_scaled_ui_multiplier_set() {
    let raw_amount = 2_000_000u64; // 2 tokens @ 6 decimals
    let price_1e8 = 125_000_000u64; // $1.25
    let decimals = 6u8;

    let half = usd_value_1e8(raw_amount, mul_num(0.5), price_1e8, decimals).unwrap();
    let one = usd_value_1e8(raw_amount, mul_num(1.0), price_1e8, decimals).unwrap();
    let one_seventy_three =
        usd_value_1e8(raw_amount, mul_num(1.73), price_1e8, decimals).unwrap();

    assert_eq!(half, 125_000_000u128);
    assert_eq!(one, 250_000_000u128);
    assert_eq!(one_seventy_three, 432_500_000u128);
}

#[test]
fn shares_out_tracks_multiplier_change() {
    let raw_amount = 1_000_000u64; // 1 token @ 6 decimals
    let price_1e8 = 200_000_000u64; // $2.00
    let decimals = 6u8;
    let share_supply = 1_000_000_000u128;
    let total_nav = 10_000_000_000u128; // $100 nav

    let out_half = shares_out_from_nav(
        usd_value_1e8(raw_amount, mul_num(0.5), price_1e8, decimals).unwrap(),
        share_supply,
        total_nav,
    )
    .unwrap();
    let out_one = shares_out_from_nav(
        usd_value_1e8(raw_amount, mul_num(1.0), price_1e8, decimals).unwrap(),
        share_supply,
        total_nav,
    )
    .unwrap();
    let out_one_seventy_three = shares_out_from_nav(
        usd_value_1e8(raw_amount, mul_num(1.73), price_1e8, decimals).unwrap(),
        share_supply,
        total_nav,
    )
    .unwrap();

    assert_eq!(out_half, 10_000_000u128);
    assert_eq!(out_one, 20_000_000u128);
    assert_eq!(out_one_seventy_three, 34_600_000u128);
}

#[test]
fn multiplier_increase_mints_proportionally_more_shares() {
    let raw_amount = 3_000_000u64; // 3 tokens @ 6 decimals
    let price_1e8 = 150_000_000u64; // $1.50
    let decimals = 6u8;
    let share_supply = 2_000_000_000u128;
    let total_nav = 20_000_000_000u128;

    let out_one = shares_out_from_nav(
        usd_value_1e8(raw_amount, mul_num(1.0), price_1e8, decimals).unwrap(),
        share_supply,
        total_nav,
    )
    .unwrap();
    let out_one_seventy_three = shares_out_from_nav(
        usd_value_1e8(raw_amount, mul_num(1.73), price_1e8, decimals).unwrap(),
        share_supply,
        total_nav,
    )
    .unwrap();

    // 1.73x multiplier should mint exactly 1.73x shares under unchanged price/nav.
    assert_eq!(out_one, 45_000_000u128);
    assert_eq!(out_one_seventy_three, 77_850_000u128);
    assert_eq!(out_one_seventy_three, out_one * 173 / 100);
}
