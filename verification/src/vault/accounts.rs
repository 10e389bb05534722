//! Accounts that a request hands over unparsed.

use anchor_lang::prelude::{AccountInfo, InterfaceAccount, ProgramError};
use anchor_lang::solana_program::pubkey::Pubkey as Address;
use vstd::prelude::*;

use crate::pubkey::Pubkey;

verus! {

/// An account as the runtime hands it over.
#[derive(Clone, Debug)]
pub struct RawAccount {
    /// Its address.
    pub key: Pubkey,
    /// The program that owns it.
    pub program: Pubkey,
    pub lamports: u64,
    pub data: Vec<u8>,
}

/// A token account: its address, the mint of its tokens, its owner and its balance.
#[derive(Clone, Copy, Debug)]
pub struct TokenAccount {
    pub key: Pubkey,
    pub mint: Pubkey,
    pub owner: Pubkey,
    pub amount: u64,
}

/// Mint, owner and amount of the token account that `program` owns and that holds `data`, or the
/// program error code with which it fails to be one.
pub uninterp spec fn token_account_fields(
    program: Pubkey,
    lamports: u64,
    data: Seq<u8>,
) -> Result<(Pubkey, Pubkey, u64), u64>;

/// The program error code with which an account that `program` owns and that holds `data` fails
/// to be a mint, if it fails.
pub uninterp spec fn mint_fault(program: Pubkey, lamports: u64, data: Seq<u8>) -> Option<u64>;

/// The token account that `account` holds, or the program error code with which it cannot be read.
pub open spec fn token_account_in(account: RawAccount) -> Result<TokenAccount, u64> {
    match token_account_fields(account.program, account.lamports, account.data@) {
        Ok((mint, owner, amount)) => Ok(TokenAccount { key: account.key, mint, owner, amount }),
        Err(code) => Err(code),
    }
}

/// The address of the mint that `account` holds, or the program error code with which it cannot
/// be read.
pub open spec fn mint_in(account: RawAccount) -> Result<Pubkey, u64> {
    match mint_fault(account.program, account.lamports, account.data@) {
        None => Ok(account.key),
        Some(code) => Err(code),
    }
}

/// Calls `anchor_lang::prelude::InterfaceAccount::try_from` for
/// `anchor_spl::token_interface::TokenAccount`. Its outcome (mint, owner and amount, or a program
/// error code) depends on the owning program, the lamports and the data alone. Where it succeeds,
/// the data has at least 165 bytes; mint, owner and amount are its first 72, the amount in
/// little-endian order.
#[verifier::external_body]
pub(crate) fn read_token_account(account: &RawAccount) -> (res: Result<TokenAccount, u64>)
    ensures
        match res {
            Ok(token) => token_account_fields(account.program, account.lamports, account.data@)
                == Ok::<(Pubkey, Pubkey, u64), u64>((token.mint, token.owner, token.amount)),
            Err(code) => token_account_fields(account.program, account.lamports, account.data@)
                == Err::<(Pubkey, Pubkey, u64), u64>(code),
        },
        res matches Ok(token) ==> {
            &&& token.key == account.key
            &&& account.data@.len() >= 165
            &&& token.mint@ == account.data@.subrange(0, 32)
            &&& token.owner@ == account.data@.subrange(32, 64)
            &&& token.amount == vstd::bytes::spec_u64_from_le_bytes(account.data@.subrange(64, 72))
        },
{
    let (key, program) = (Address::from(account.key.bytes), Address::from(account.program.bytes));
    let (mut lamports, mut data) = (account.lamports, account.data.clone());
    let info = AccountInfo::new(&key, false, false, &mut lamports, &mut data, &program, false, 0);
    match InterfaceAccount::<anchor_spl::token_interface::TokenAccount>::try_from(&info) {
        Ok(token) => Ok(TokenAccount {
            key: account.key,
            mint: Pubkey { bytes: token.mint.to_bytes() },
            owner: Pubkey { bytes: token.owner.to_bytes() },
            amount: token.amount,
        }),
        Err(error) => Err(u64::from(ProgramError::from(error))),
    }
}

/// Calls `anchor_lang::prelude::InterfaceAccount::try_from` for
/// `anchor_spl::token_interface::Mint`. Whether it succeeds, and the program error code where it
/// does not, depends on the owning program, the lamports and the data alone.
#[verifier::external_body]
pub(crate) fn read_mint(account: &RawAccount) -> (res: Result<Pubkey, u64>)
    ensures
        match mint_fault(account.program, account.lamports, account.data@) {
            None => res == Ok::<Pubkey, u64>(account.key),
            Some(code) => res == Err::<Pubkey, u64>(code),
        },
{
    let (key, program) = (Address::from(account.key.bytes), Address::from(account.program.bytes));
    let (mut lamports, mut data) = (account.lamports, account.data.clone());
    let info = AccountInfo::new(&key, false, false, &mut lamports, &mut data, &program, false, 0);
    match InterfaceAccount::<anchor_spl::token_interface::Mint>::try_from(&info) {
        Ok(_) => Ok(account.key),
        Err(error) => Err(u64::from(ProgramError::from(error))),
    }
}

} // verus!
