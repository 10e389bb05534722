#![allow(deprecated)]

use anchor_lang::prelude::{ProgramError, Pubkey as Address};
use anchor_lang::solana_program::sysvar::instructions::{
    construct_instructions_data, store_current_index, BorrowedAccountMeta, BorrowedInstruction,
};
use xvault::oracle::{init_snapshot, push_nav, InitSnapshot, NavEntry, NavSnapshot, PushNav};
use xvault::vault::instructions::init_vault::{self, InitVault, InitVaultArgs};
use xvault::vault::instructions::rebalance_leg::{
    self, RebalanceAccounts, RebalanceLeg, RebalanceLegArgs,
};
use xvault::vault::instructions::withdraw_in_kind::{self, WithdrawInKind, WithdrawLeg};
use xvault::vault::introspection::{
    find_transfer_to, has_transfer_to, is_transfer_to, SiblingInstruction, TOKEN_2022_PROGRAM_ID,
};
use xvault::vault::{InstructionError, RawAccount, TokenAccount, Vault, VaultError};
use xvault::Pubkey;

fn key(n: u8) -> Pubkey {
    Pubkey::new([n; 32])
}

fn vault() -> Vault {
    let args = InitVaultArgs {
        sku: [0; 16],
        mints: vec![key(21), key(22)],
        weights_bps: vec![6_000, 4_000],
        decimals: vec![6, 8],
        management_fee_bps: 0,
        performance_fee_bps: 0,
        rebalance_slippage_bps: 50,
        keeper: key(2),
        nav_snapshot: key(3),
        treasury: key(4),
    };
    let ctx =
        InitVault { admin: key(1), share_mint: key(5), bump: 0, share_mint_bump: 0, now: 0 };
    let mut v = init_vault::handler(&ctx, &args).unwrap();
    v.holdings[0].raw_balance = 2_000_000;
    v.holdings[1].raw_balance = 3_000_001;
    v
}

/// A token account as the token program writes it.
fn token(address: u8, mint: u8, owner: u8, amount: u64) -> RawAccount {
    let mut data = vec![0u8; 165];
    data[..32].fill(mint);
    data[32..64].fill(owner);
    data[64..72].copy_from_slice(&amount.to_le_bytes());
    data[108] = 1;
    RawAccount { key: key(address), program: Pubkey::new(TOKEN_2022_PROGRAM_ID), lamports: 1, data }
}

/// A mint as the token program writes it, at its own address.
fn mint(address: u8) -> RawAccount {
    let mut data = vec![0u8; 82];
    data[44] = 6;
    data[45] = 1;
    RawAccount { key: key(address), program: Pubkey::new(TOKEN_2022_PROGRAM_ID), lamports: 1, data }
}

fn refused(e: VaultError) -> InstructionError {
    InstructionError::Vault(e)
}

fn failed(e: ProgramError) -> InstructionError {
    InstructionError::Program(u64::from(e))
}

#[test]
fn token_program_addresses() {
    assert_eq!(anchor_spl::token_2022::ID.to_bytes(), TOKEN_2022_PROGRAM_ID);
}

fn in_kind() -> WithdrawInKind {
    WithdrawInKind { vault_key: key(7), total_shares: 1_000 }
}

fn triplets() -> Vec<RawAccount> {
    vec![
        token(31, 21, 7, 2_000_000),
        token(41, 21, 9, 0),
        mint(21),
        token(32, 22, 7, 3_000_001),
        token(42, 22, 9, 0),
        mint(22),
    ]
}

#[test]
fn in_kind_withdrawal_pays_a_slice_of_everything() {
    let mut v = vault();
    let amounts = withdraw_in_kind::handler(&mut v, &in_kind(), 100, &triplets()).unwrap();
    assert_eq!(amounts, vec![200_000, 300_000]);
    assert_eq!(v.holdings[0].raw_balance, 1_800_000);
    assert_eq!(v.holdings[1].raw_balance, 2_700_001);
    // All shares get everything.
    let mut v = vault();
    let amounts = withdraw_in_kind::handler(&mut v, &in_kind(), 1_000, &triplets()).unwrap();
    assert_eq!(amounts, vec![2_000_000, 3_000_001]);
    assert_eq!(v.holdings[1].raw_balance, 0);
}

#[test]
fn in_kind_withdrawal_stays_open_in_a_halt() {
    let mut v = vault();
    v.pause_flags.halted = true;
    assert!(withdraw_in_kind::handler(&mut v, &in_kind(), 1, &triplets()).is_ok());
}

#[test]
fn in_kind_requests_are_checked() {
    let none = WithdrawInKind { vault_key: key(7), total_shares: 0 };
    assert_eq!(withdraw_in_kind::check_request(&in_kind(), 1), Ok(()));
    assert_eq!(withdraw_in_kind::check_request(&in_kind(), 0), Err(VaultError::ZeroAmount));
    assert_eq!(withdraw_in_kind::check_request(&none, 0), Err(VaultError::ZeroAmount));
    assert_eq!(withdraw_in_kind::check_request(&none, 1), Err(VaultError::MathOverflow));
    let v = vault();
    let invalid = Err(VaultError::InvalidRemainingAccounts);
    assert_eq!(withdraw_in_kind::check_account_count(&v, 6), Ok(()));
    assert_eq!(withdraw_in_kind::check_account_count(&v, 5), invalid);
    assert_eq!(withdraw_in_kind::check_account_count(&v, 7), invalid);
    assert_eq!(withdraw_in_kind::check_account_count(&v, 3), invalid);
}

#[test]
fn in_kind_accounts_must_fit_the_holding() {
    let run = |accounts: Vec<RawAccount>| {
        let mut v = vault();
        let e = withdraw_in_kind::handler(&mut v, &in_kind(), 100, &accounts).unwrap_err();
        assert_eq!(v.holdings[0].raw_balance, 2_000_000);
        e
    };
    let invalid = refused(VaultError::InvalidRemainingAccounts);
    assert_eq!(run(vec![]), invalid);
    assert_eq!(run(triplets()[..5].to_vec()), invalid);
    let with = |i: usize, account: RawAccount| {
        let mut accounts = triplets();
        accounts[i] = account;
        accounts
    };
    // Another owner, another mint of either account, another mint.
    assert_eq!(run(with(0, token(31, 21, 8, 0))), invalid);
    assert_eq!(run(with(3, token(32, 21, 7, 0))), invalid);
    assert_eq!(run(with(4, token(42, 21, 9, 0))), invalid);
    assert_eq!(run(with(5, mint(21))), invalid);
    // The user's account may belong to anyone.
    let mut v = vault();
    let accounts = with(1, token(41, 21, 8, 0));
    assert!(withdraw_in_kind::handler(&mut v, &in_kind(), 100, &accounts).is_ok());
}

#[test]
fn unreadable_accounts_give_the_program_error() {
    let run = |i: usize, account: RawAccount| {
        let mut v = vault();
        let mut accounts = triplets();
        accounts[i] = account;
        withdraw_in_kind::handler(&mut v, &in_kind(), 100, &accounts).unwrap_err()
    };
    // A mint is no token account, nor the other way round.
    assert_eq!(run(0, mint(21)), failed(ProgramError::InvalidAccountData));
    assert_eq!(run(2, token(21, 21, 7, 0)), failed(ProgramError::InvalidAccountData));
    let mut blank = token(31, 21, 7, 0);
    blank.data[108] = 0;
    assert_eq!(run(0, blank), failed(ProgramError::UninitializedAccount));
    let mut short = token(31, 21, 7, 0);
    short.data.truncate(164);
    assert_eq!(run(0, short), failed(ProgramError::InvalidAccountData));
    // Owned by a program that is no token program.
    let mut foreign = token(31, 21, 7, 0);
    foreign.program = key(77);
    assert_eq!(run(0, foreign), failed(ProgramError::Custom(3007)));
    // Not created yet.
    let mut absent = mint(22);
    absent.program = Pubkey::new([0; 32]);
    absent.lamports = 0;
    assert_eq!(run(5, absent), failed(ProgramError::Custom(3012)));
}

#[test]
fn classic_token_accounts_are_read_too() {
    let mut v = vault();
    let mut accounts = triplets();
    accounts[0].program = Pubkey::new(anchor_spl::token::ID.to_bytes());
    assert!(withdraw_in_kind::handler(&mut v, &in_kind(), 100, &accounts).is_ok());
}

#[test]
fn settled_slices_follow_the_legs() {
    let part = |address: u8, mint: u8, owner: u8| TokenAccount {
        key: key(address),
        mint: key(mint),
        owner: key(owner),
        amount: 0,
    };
    let leg = |mint: u8| {
        Ok(WithdrawLeg {
            vault_ata: part(31, mint, 7),
            user_ata: part(41, mint, 9),
            mint: key(mint),
        })
    };
    let mut v = vault();
    let legs = vec![leg(21), leg(22)];
    let amounts = withdraw_in_kind::settle(&mut v, &in_kind(), 1, &legs).unwrap();
    assert_eq!(amounts, vec![2_000, 3_000]);
    let swapped = vec![leg(22), leg(21)];
    let e = withdraw_in_kind::settle(&mut v, &in_kind(), 1, &swapped).unwrap_err();
    assert_eq!(e, refused(VaultError::InvalidRemainingAccounts));
    let unread = vec![leg(21), Err(5)];
    let e = withdraw_in_kind::settle(&mut v, &in_kind(), 1, &unread).unwrap_err();
    assert_eq!(e, InstructionError::Program(5));
    assert_eq!(v.holdings[0].raw_balance, 1_998_000);
    // More shares than there are would take more than the balance.
    let e = withdraw_in_kind::settle(&mut v, &in_kind(), 2_000, &legs).unwrap_err();
    assert_eq!(e, refused(VaultError::MathOverflow));
}

fn leg_args(raw_in: u64, min_raw_out: u64) -> RebalanceLegArgs {
    RebalanceLegArgs { from_mint: key(21), to_mint: key(22), raw_in, min_raw_out }
}

fn keeper() -> RebalanceLeg {
    RebalanceLeg { keeper: key(2), vault_key: key(7), slot: 1_100 }
}

/// Prices at which 500_000 of the first asset and 700_000 of the second are worth 0.70 USD each.
fn nav() -> NavSnapshot {
    let entry = |mint: u8, price_usd_1e8: u64| NavEntry {
        mint: key(mint),
        price_usd_1e8,
        multiplier_num: 1_000_000_000_000_000_000,
        flags: 0,
        _padding: [0; 7],
    };
    let mut s = init_snapshot(&InitSnapshot { authority: key(1), bump: 1 }, [0; 16]);
    let entries = vec![entry(21, 140_000_000), entry(22, 10_000_000_000)];
    push_nav(&mut s, &PushNav { authority: key(1), slot: 1_000 }, entries).unwrap();
    s
}

/// The accounts after 500_000 of the first asset were swapped for 700_000 of the second.
fn swapped() -> Vec<RawAccount> {
    vec![token(31, 21, 7, 1_500_000), token(32, 22, 7, 3_700_001), mint(21), mint(22)]
}

fn transfer_data(amount: u64) -> Vec<u8> {
    let mut data = vec![12u8];
    data.extend_from_slice(&amount.to_le_bytes());
    data.push(8);
    data
}

/// The data of the instructions sysvar: a foreign instruction, then a transfer to `destination`,
/// with `current` running.
fn sysvar(destination: u8, amount: u64, current: u16) -> Vec<u8> {
    let keys: Vec<Address> =
        [50, 22, destination, 60].iter().map(|n| Address::from([*n; 32])).collect();
    let metas = || {
        keys.iter()
            .map(|k| BorrowedAccountMeta { pubkey: k, is_signer: false, is_writable: true })
            .collect::<Vec<_>>()
    };
    let foreign = Address::from([77; 32]);
    let data = transfer_data(amount);
    let instructions = [
        BorrowedInstruction { program_id: &foreign, accounts: metas(), data: &data },
        BorrowedInstruction {
            program_id: &anchor_spl::token_2022::ID,
            accounts: metas(),
            data: &data,
        },
    ];
    let mut bytes = construct_instructions_data(&instructions);
    store_current_index(&mut bytes, current);
    bytes
}

#[test]
fn rebalance_takes_the_balances_over() {
    let mut v = vault();
    let args = leg_args(500_000, 690_000);
    let data = sysvar(32, 700_000, 1);
    assert_eq!(rebalance_leg::handler(&mut v, &nav(), &keeper(), &args, &swapped(), &data), Ok(()));
    assert_eq!(v.holdings[0].raw_balance, 1_500_000);
    assert_eq!(v.holdings[1].raw_balance, 3_700_001);
    // The same swap is not settled twice.
    let e = rebalance_leg::handler(&mut v, &nav(), &keeper(), &args, &swapped(), &data).unwrap_err();
    assert_eq!(e, refused(VaultError::RebalanceSettlementInvalid));
}

#[test]
fn rebalance_requests_are_checked() {
    let mut v = vault();
    let check = |v: &Vault, ctx: &RebalanceLeg, args: &RebalanceLegArgs| {
        rebalance_leg::check_request(v, ctx, args).err()
    };
    assert_eq!(check(&v, &keeper(), &leg_args(1, 0)), None);
    let stranger = RebalanceLeg { keeper: key(1), vault_key: key(7), slot: 1_100 };
    assert_eq!(check(&v, &stranger, &leg_args(0, 0)), Some(VaultError::Unauthorized));
    assert_eq!(check(&v, &keeper(), &leg_args(0, 0)), Some(VaultError::ZeroAmount));
    let mut args = leg_args(1, 0);
    args.from_mint = key(23);
    assert_eq!(check(&v, &keeper(), &args), Some(VaultError::AssetNotWhitelisted));
    let mut args = leg_args(1, 0);
    args.to_mint = key(23);
    assert_eq!(check(&v, &keeper(), &args), Some(VaultError::AssetNotWhitelisted));
    v.pause_flags.halted = true;
    assert_eq!(check(&v, &keeper(), &leg_args(0, 0)), Some(VaultError::Paused));
    assert_eq!(check(&v, &stranger, &leg_args(0, 0)), Some(VaultError::Unauthorized));
}

#[test]
fn rebalance_needs_the_right_accounts() {
    let run = |accounts: Vec<RawAccount>| {
        let mut v = vault();
        let data = sysvar(32, 700_000, 1);
        let args = leg_args(500_000, 690_000);
        rebalance_leg::handler(&mut v, &nav(), &keeper(), &args, &accounts, &data).unwrap_err()
    };
    let with = |i: usize, account: RawAccount| {
        let mut accounts = swapped();
        accounts[i] = account;
        accounts
    };
    let invalid = refused(VaultError::InvalidRemainingAccounts);
    assert_eq!(run(swapped()[..3].to_vec()), invalid);
    assert_eq!(run(with(0, token(31, 22, 7, 1_500_000))), invalid);
    assert_eq!(run(with(0, token(31, 21, 8, 1_500_000))), invalid);
    assert_eq!(run(with(1, token(32, 21, 7, 3_700_001))), invalid);
    assert_eq!(run(with(1, token(32, 22, 8, 3_700_001))), invalid);
    assert_eq!(run(with(2, mint(22))), invalid);
    assert_eq!(run(with(3, mint(21))), invalid);
    assert_eq!(run(with(3, token(22, 22, 7, 0))), failed(ProgramError::InvalidAccountData));
}

#[test]
fn rebalance_checks_what_was_spent_and_received() {
    let run = |raw_in: u64, min_raw_out: u64, from: u64, to: u64| {
        let mut v = vault();
        let data = sysvar(32, 700_000, 1);
        let mut accounts = swapped();
        accounts[0] = token(31, 21, 7, from);
        accounts[1] = token(32, 22, 7, to);
        let args = leg_args(raw_in, min_raw_out);
        let result = rebalance_leg::handler(&mut v, &nav(), &keeper(), &args, &accounts, &data);
        assert_eq!(result.is_err(), v.holdings[0].raw_balance == 2_000_000);
        result.err()
    };
    let invalid = Some(refused(VaultError::RebalanceSettlementInvalid));
    assert_eq!(run(500_000, 690_000, 1_500_000, 3_700_001), None);
    assert_eq!(run(500_001, 690_000, 1_500_000, 3_700_001), invalid);
    assert_eq!(run(500_000, 690_000, 2_000_001, 3_700_001), invalid);
    assert_eq!(run(500_000, 0, 1_500_000, 3_000_000), invalid);
    let slipped = Some(refused(VaultError::SlippageExceeded));
    assert_eq!(run(500_000, 700_001, 1_500_000, 3_700_001), slipped);
}

#[test]
fn rebalance_needs_a_transfer_in_the_transaction() {
    let run = |data: Vec<u8>| {
        let mut v = vault();
        let args = leg_args(500_000, 690_000);
        rebalance_leg::handler(&mut v, &nav(), &keeper(), &args, &swapped(), &data).err()
    };
    let invalid = Some(refused(VaultError::RebalanceSettlementInvalid));
    assert_eq!(run(sysvar(32, 690_000, 1)), None);
    // Too little, to another account, or only after the running instruction.
    assert_eq!(run(sysvar(32, 689_999, 1)), invalid);
    assert_eq!(run(sysvar(33, 700_000, 1)), invalid);
    assert_eq!(run(sysvar(32, 700_000, 0)), invalid);
    // The transfer is found before the instruction that is missing.
    assert_eq!(run(sysvar(32, 700_000, 2)), None);
    assert_eq!(run(sysvar(33, 700_000, 2)), Some(failed(ProgramError::InvalidArgument)));
}

#[test]
fn transfer_is_found_in_the_sysvar() {
    assert_eq!(find_transfer_to(&sysvar(32, 5, 1), &key(32), 5), Ok(true));
    assert_eq!(find_transfer_to(&sysvar(32, 5, 1), &key(32), 6), Ok(false));
    assert_eq!(find_transfer_to(&sysvar(32, 5, 0), &key(32), 5), Ok(false));
    let code = u64::from(ProgramError::InvalidArgument);
    assert_eq!(find_transfer_to(&[0, 0], &key(32), 5), Err(code));
    assert_eq!(find_transfer_to(&sysvar(32, 5, 300), &key(33), 5), Err(code));
}

#[test]
fn transfer_is_told_by_program_and_data() {
    let ix = || SiblingInstruction {
        program_id: Pubkey::new(TOKEN_2022_PROGRAM_ID),
        accounts: vec![key(50), key(22), key(32)],
        data: transfer_data(0x0102_0304_0506_0708),
    };
    let to = key(32);
    assert!(is_transfer_to(&ix(), &to, 0x0102_0304_0506_0708));
    assert!(!is_transfer_to(&ix(), &to, 0x0102_0304_0506_0709));
    assert!(!is_transfer_to(&ix(), &key(22), 0));
    let mut other = ix();
    other.program_id = key(77);
    assert!(!is_transfer_to(&other, &to, 0));
    let mut other = ix();
    other.accounts.pop();
    assert!(!is_transfer_to(&other, &to, 0));
    let mut other = ix();
    other.data[0] = 3;
    assert!(!is_transfer_to(&other, &to, 0));
    let mut other = ix();
    other.data.pop();
    assert!(!is_transfer_to(&other, &to, 0));
    assert_eq!(has_transfer_to(&vec![], &to, 0), Ok(false));
    assert_eq!(has_transfer_to(&vec![Ok(ix()), Err(3)], &to, 0), Ok(true));
    assert_eq!(has_transfer_to(&vec![Err(3), Ok(ix())], &to, 0), Err(3));
    assert_eq!(has_transfer_to(&vec![Ok(ix()), Err(3)], &key(1), 0), Err(3));
}

#[test]
fn settled_leg_follows_the_transfer() {
    let part = |address: u8, mint: u8, amount: u64| TokenAccount {
        key: key(address),
        mint: key(mint),
        owner: key(7),
        amount,
    };
    let accounts = RebalanceAccounts {
        from_vault_ata: part(31, 21, 1_500_000),
        to_vault_ata: part(32, 22, 3_700_001),
        from_mint: key(21),
        to_mint: key(22),
    };
    let args = leg_args(500_000, 690_000);
    let mut v = vault();
    let e = rebalance_leg::settle(&mut v, &nav(), &keeper(), &args, &accounts, Ok(false)).unwrap_err();
    assert_eq!(e, refused(VaultError::RebalanceSettlementInvalid));
    let e = rebalance_leg::settle(&mut v, &nav(), &keeper(), &args, &accounts, Err(9)).unwrap_err();
    assert_eq!(e, InstructionError::Program(9));
    assert_eq!(v.holdings[1].raw_balance, 3_000_001);
    assert_eq!(rebalance_leg::settle(&mut v, &nav(), &keeper(), &args, &accounts, Ok(true)), Ok(()));
    assert_eq!(v.holdings[1].raw_balance, 3_700_001);
}

/// A leg that sells 500_000 of the first asset and brings `received` of the second, with no least
/// amount asked for.
fn drift(v: &mut Vault, nav: &NavSnapshot, slot: u64, received: u64) -> Option<InstructionError> {
    let mut accounts = swapped();
    accounts[1] = token(32, 22, 7, 3_000_001 + received);
    let ctx = RebalanceLeg { slot, ..keeper() };
    let data = sysvar(32, received, 1);
    rebalance_leg::handler(v, nav, &ctx, &leg_args(500_000, 0), &accounts, &data).err()
}

#[test]
fn rebalance_keeps_the_nav() {
    let exceeded = Some(refused(VaultError::NavDriftExceeded));
    // The vault allows 50 bps: 0.6965 USD for 0.70 USD.
    let mut v = vault();
    assert_eq!(drift(&mut v, &nav(), 1_100, 696_499), exceeded);
    assert_eq!(drift(&mut v, &nav(), 1_100, 0), exceeded);
    assert_eq!(v.holdings[0].raw_balance, 2_000_000);
    assert_eq!(v.holdings[1].raw_balance, 3_000_001);
    assert_eq!(drift(&mut v, &nav(), 1_100, 696_500), None);
    assert_eq!(v.holdings[0].raw_balance, 1_500_000);
    assert_eq!(v.holdings[1].raw_balance, 3_696_501);
}

#[test]
fn rebalance_bound_follows_the_slippage() {
    let run = |bps: u16, received: u64| {
        let mut v = vault();
        v.rebalance_slippage_bps = bps;
        drift(&mut v, &nav(), 1_100, received)
    };
    let exceeded = Some(refused(VaultError::NavDriftExceeded));
    assert_eq!(run(0, 699_999), exceeded);
    assert_eq!(run(0, 700_000), None);
    assert_eq!(run(5_000, 349_999), exceeded);
    assert_eq!(run(5_000, 350_000), None);
    assert_eq!(run(9_999, 0), exceeded);
    assert_eq!(run(10_000, 0), None);
    assert_eq!(run(u16::MAX, 0), None);
}

#[test]
fn rebalance_needs_usable_prices() {
    assert_eq!(drift(&mut vault(), &nav(), 1_150, 700_000), None);
    let stale = Some(refused(VaultError::OracleStale));
    assert_eq!(drift(&mut vault(), &nav(), 1_151, 700_000), stale);
    let overflow = Some(refused(VaultError::MathOverflow));
    let mut s = nav();
    s.entries[0].multiplier_num = u128::MAX;
    assert_eq!(drift(&mut vault(), &s, 1_100, 700_000), overflow);
    let mut s = nav();
    s.entries[1].multiplier_num = u128::MAX;
    assert_eq!(drift(&mut vault(), &s, 1_100, 700_000), overflow);
    // Both values fit, but not their products with the basis points.
    let mut s = nav();
    s.entries[0].multiplier_num = u128::MAX / 500_000;
    s.entries[0].price_usd_1e8 = 900_000_000_000_000_000;
    let mut v = vault();
    v.holdings[0].decimals = 0;
    assert_eq!(drift(&mut v, &s, 1_100, 700_000), overflow);
    // An asset that the snapshot does not price is worth nothing.
    let mut s = nav();
    s.entries.pop();
    let exceeded = Some(refused(VaultError::NavDriftExceeded));
    assert_eq!(drift(&mut vault(), &s, 1_100, 700_000), exceeded);
    let mut s = nav();
    s.entries.remove(0);
    assert_eq!(drift(&mut vault(), &s, 1_100, 0), None);
}

#[test]
fn rebalance_reads_the_transaction_last() {
    let args = leg_args(500_000, 690_000);
    let mut v = vault();
    // Everything else shows the swap, so the sysvar would have to be read.
    let outcome =
        rebalance_leg::try_handler(&mut v, &nav(), &keeper(), &args, &swapped(), &[1]);
    assert_eq!(outcome, None);
    assert_eq!(v.holdings[0].raw_balance, 2_000_000);
    // Refused before that, whatever the sysvar holds.
    let e = rebalance_leg::handler(&mut v, &nav(), &keeper(), &args, &vec![], &[]).unwrap_err();
    assert_eq!(e, refused(VaultError::InvalidRemainingAccounts));
    let wrong = leg_args(500_001, 690_000);
    let outcome =
        rebalance_leg::try_handler(&mut v, &nav(), &keeper(), &wrong, &swapped(), &[]);
    assert_eq!(outcome, Some(Err(refused(VaultError::RebalanceSettlementInvalid))));
    let data = sysvar(32, 700_000, 1);
    let outcome =
        rebalance_leg::try_handler(&mut v, &nav(), &keeper(), &args, &swapped(), &data);
    assert_eq!(outcome, Some(Ok(())));
    assert_eq!(v.holdings[0].raw_balance, 1_500_000);
}
