//! Reading the other instructions of a transaction out of the instructions sysvar.

use anchor_lang::prelude::AccountInfo;
use anchor_lang::solana_program::sysvar::instructions::load_current_index_checked;
use anchor_lang::solana_program::sysvar::instructions::load_instruction_at_checked;
use anchor_lang::solana_program::sysvar::instructions::ID as SYSVAR_ID;
use vstd::bytes::u64_from_le_bytes;
use vstd::prelude::*;
use vstd::slice::slice_subrange;

use crate::pubkey::{same_bytes, Pubkey};

verus! {

/// Address of the Token-2022 program.
pub const TOKEN_2022_PROGRAM_ID: [u8; 32] = [
    6, 221, 246, 225, 238, 117, 143, 222, 24, 66, 93, 188, 228, 108, 205, 218, 182, 26, 252, 77, 131,
    185, 13, 39, 254, 189, 249, 40, 216, 161, 139, 252,
];

/// First byte of the data of a `TransferChecked` instruction.
pub const TRANSFER_CHECKED: u8 = 12;

/// An instruction of the transaction: its program, the addresses of its accounts, and its data.
#[derive(Debug)]
pub struct SiblingInstruction {
    pub program_id: Pubkey,
    pub accounts: Vec<Pubkey>,
    pub data: Vec<u8>,
}

/// What a [`SiblingInstruction`] holds, with sequences for its vectors.
#[verifier::ext_equal]
pub struct SiblingInstructionView {
    pub program_id: Pubkey,
    pub accounts: Seq<Pubkey>,
    pub data: Seq<u8>,
}

impl View for SiblingInstruction {
    type V = SiblingInstructionView;

    open spec fn view(&self) -> SiblingInstructionView {
        SiblingInstructionView {
            program_id: self.program_id,
            accounts: self.accounts@,
            data: self.data@,
        }
    }
}

/// The instruction that the sysvar data records at `index`, or the program error code with which
/// it cannot be read.
pub uninterp spec fn sysvar_instruction(index: usize, sysvar: Seq<u8>) -> Result<
    SiblingInstructionView,
    u64,
>;

/// The index that the sysvar data records for the running instruction: its last two bytes, in
/// little-endian order.
pub open spec fn sysvar_current_index(sysvar: Seq<u8>) -> int {
    sysvar[sysvar.len() - 2] + 256 * sysvar[sysvar.len() - 1]
}

/// Calls `solana_program::sysvar::instructions::load_current_index_checked` on an account at the
/// sysvar's address that holds `sysvar`. It reads the last two bytes, and panics where there are
/// fewer.
#[verifier::external_body]
fn load_current_index(sysvar: &[u8]) -> (res: Result<u16, u64>)
    requires
        sysvar@.len() >= 2,
    ensures
        match res {
            Ok(index) => index == sysvar_current_index(sysvar@),
            Err(_) => false,
        },
{
    let (mut lamports, mut data) = (0u64, sysvar.to_vec());
    let info = AccountInfo::new(
        &SYSVAR_ID, false, false, &mut lamports, &mut data, &SYSVAR_ID, false, 0,
    );
    match load_current_index_checked(&info) {
        Ok(index) => Ok(index),
        Err(error) => Err(u64::from(error)),
    }
}

/// Calls `solana_program::sysvar::instructions::load_instruction_at_checked` on an account at the
/// sysvar's address that holds `sysvar`. Its outcome (an instruction, or a program error code)
/// depends on the index and the data alone.
#[verifier::external_body]
fn load_instruction(index: usize, sysvar: &[u8]) -> (res: Result<SiblingInstruction, u64>)
    ensures
        match res {
            Ok(ix) => sysvar_instruction(index, sysvar@) == Ok::<SiblingInstructionView, u64>(ix@),
            Err(code) => sysvar_instruction(index, sysvar@) == Err::<SiblingInstructionView, u64>(
                code,
            ),
        },
{
    let (mut lamports, mut data) = (0u64, sysvar.to_vec());
    let info = AccountInfo::new(
        &SYSVAR_ID, false, false, &mut lamports, &mut data, &SYSVAR_ID, false, 0,
    );
    match load_instruction_at_checked(index, &info) {
        Ok(ix) => Ok(SiblingInstruction {
            program_id: Pubkey { bytes: ix.program_id.to_bytes() },
            accounts: ix.accounts.iter().map(|m| Pubkey { bytes: m.pubkey.to_bytes() }).collect(),
            data: ix.data,
        }),
        Err(error) => Err(u64::from(error)),
    }
}

/// Whether an instruction is a Token-2022 `TransferChecked` of at least `min_amount` to
/// `destination`. The destination is the third account; the amount follows the first data byte in
/// little-endian order.
pub open spec fn transfers_to(
    ix: SiblingInstructionView,
    destination: Pubkey,
    min_amount: u64,
) -> bool {
    &&& ix.accounts.len() >= 3
    &&& ix.program_id.bytes == TOKEN_2022_PROGRAM_ID
    &&& ix.data.len() >= 10
    &&& ix.data[0] == TRANSFER_CHECKED
    &&& ix.accounts[2] == destination
    &&& vstd::bytes::spec_u64_from_le_bytes(ix.data.subrange(1, 9)) >= min_amount
}

/// Whether one of `instructions` is such a transfer. The first transfer, or the first instruction
/// that cannot be read, decides.
pub open spec fn transfer_among(
    instructions: Seq<Result<SiblingInstructionView, u64>>,
    destination: Pubkey,
    min_amount: u64,
) -> Result<bool, u64>
    decreases instructions.len(),
{
    if instructions.len() == 0 {
        Ok(false)
    } else {
        match instructions[0] {
            Err(code) => Err(code),
            Ok(ix) => if transfers_to(ix, destination, min_amount) {
                Ok(true)
            } else {
                transfer_among(instructions.skip(1), destination, min_amount)
            },
        }
    }
}

/// The instructions of the transaction up to and including the running one.
pub open spec fn instructions_so_far(sysvar: Seq<u8>) -> Seq<Result<SiblingInstructionView, u64>> {
    Seq::new(
        (sysvar_current_index(sysvar) + 1) as nat,
        |i: int| sysvar_instruction(i as usize, sysvar),
    )
}

/// What was read of one instruction, with the instruction by its view.
pub open spec fn outcome_view(outcome: Result<SiblingInstruction, u64>) -> Result<
    SiblingInstructionView,
    u64,
> {
    match outcome {
        Ok(ix) => Ok(ix@),
        Err(code) => Err(code),
    }
}

/// Whether an instruction is a Token-2022 `TransferChecked` of at least `min_amount` to
/// `destination`.
pub fn is_transfer_to(ix: &SiblingInstruction, destination: &Pubkey, min_amount: u64) -> (found:
    bool)
    ensures
        found == transfers_to(ix@, *destination, min_amount),
{
    if ix.accounts.len() < 3 {
        return false;
    }
    if !same_bytes(&ix.program_id.bytes, &TOKEN_2022_PROGRAM_ID) {
        return false;
    }
    if ix.data.len() < 10 || ix.data[0] != TRANSFER_CHECKED {
        return false;
    }
    if ix.accounts[2] != *destination {
        return false;
    }
    let amount: u64 = u64_from_le_bytes(slice_subrange(ix.data.as_slice(), 1, 9));
    amount >= min_amount
}

/// Whether one of `instructions` is a Token-2022 `TransferChecked` of at least `min_amount` to
/// `destination`. The first such transfer, or the first instruction that could not be read,
/// decides.
pub fn has_transfer_to(
    instructions: &Vec<Result<SiblingInstruction, u64>>,
    destination: &Pubkey,
    min_amount: u64,
) -> (res: Result<bool, u64>)
    ensures
        res == transfer_among(
            instructions@.map_values(|o: Result<SiblingInstruction, u64>| outcome_view(o)),
            *destination,
            min_amount,
        ),
{
    let ghost views = instructions@.map_values(
        |o: Result<SiblingInstruction, u64>| outcome_view(o),
    );
    let mut i: usize = 0;
    assert(views.skip(0) =~= views);
    while i < instructions.len()
        invariant
            i <= instructions@.len(),
            views == instructions@.map_values(
                |o: Result<SiblingInstruction, u64>| outcome_view(o),
            ),
            transfer_among(views, *destination, min_amount) == transfer_among(
                views.skip(i as int),
                *destination,
                min_amount,
            ),
        decreases instructions.len() - i,
    {
        assert(views.skip(i as int).skip(1) =~= views.skip(i + 1));
        assert(views.skip(i as int)[0] == outcome_view(instructions@[i as int]));
        match &instructions[i] {
            Err(code) => return Err(*code),
            Ok(ix) => {
                if is_transfer_to(ix, destination, min_amount) {
                    return Ok(true);
                }
            },
        }
        i = i + 1;
    }
    Ok(false)
}

/// Whether the transaction, up to and including the running instruction, holds a Token-2022
/// `TransferChecked` of at least `min_amount` to `destination`. `sysvar` is the data of the
/// instructions sysvar.
pub fn find_transfer_to(sysvar: &[u8], destination: &Pubkey, min_amount: u64) -> (res: Result<
    bool,
    u64,
>)
    requires
        sysvar@.len() >= 2,
    ensures
        res == transfer_among(instructions_so_far(sysvar@), *destination, min_amount),
{
    let last: u16 = load_current_index(sysvar)?;
    let count: usize = last as usize + 1;
    let mut instructions: Vec<Result<SiblingInstruction, u64>> = Vec::new();
    let mut i: usize = 0;
    while i < count
        invariant
            i <= count,
            count == sysvar_current_index(sysvar@) + 1,
            instructions@.len() == i,
            forall|j: int|
                0 <= j < i ==> outcome_view(#[trigger] instructions@[j]) == sysvar_instruction(
                    j as usize,
                    sysvar@,
                ),
        decreases count - i,
    {
        instructions.push(load_instruction(i, sysvar));
        i = i + 1;
    }
    assert(instructions@.map_values(|o: Result<SiblingInstruction, u64>| outcome_view(o))
        =~= instructions_so_far(sysvar@));
    has_transfer_to(&instructions, destination, min_amount)
}

} // verus!
