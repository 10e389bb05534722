//! Reading accounts, and the other instructions of a transaction.

use vstd::prelude::*;

use crate::pubkey::Pubkey;
use crate::vault::accounts::{RawAccount, TokenAccount};
use crate::vault::introspection::{SiblingInstruction, SiblingInstructionView};

verus! {

/// A token account is read under its own address, with the mint, owner and amount that its bytes
/// give; a mint is read as its own address. What cannot be read gives its code.
pub proof fn law_accounts_are_read_as_they_are(account: RawAccount)
    ensures
        match crate::vault::accounts::token_account_fields(
            account.program,
            account.lamports,
            account.data@,
        ) {
            Ok(fields) => crate::vault::accounts::token_account_in(account) == Ok::<
                TokenAccount,
                u64,
            >(
                TokenAccount {
                    key: account.key,
                    mint: fields.0,
                    owner: fields.1,
                    amount: fields.2,
                },
            ),
            Err(code) => crate::vault::accounts::token_account_in(account) == Err::<
                TokenAccount,
                u64,
            >(code),
        },
        match crate::vault::accounts::mint_fault(
            account.program,
            account.lamports,
            account.data@,
        ) {
            None => crate::vault::accounts::mint_in(account) == Ok::<Pubkey, u64>(account.key),
            Some(code) => crate::vault::accounts::mint_in(account) == Err::<Pubkey, u64>(code),
        },
{
}

/// An instruction is a transfer to `destination` exactly where it calls the Token-2022 program with
/// at least three accounts, the third being the destination, and at least ten bytes, the first
/// being 12 and the next eight an amount of at least `min_amount`, lowest byte first.
pub proof fn law_transfer_is_recognised(
    ix: SiblingInstructionView,
    destination: Pubkey,
    min_amount: u64,
)
    ensures
        crate::vault::introspection::transfers_to(ix, destination, min_amount) <==> {
            &&& ix.program_id.bytes == crate::vault::introspection::TOKEN_2022_PROGRAM_ID
            &&& ix.accounts.len() >= 3
            &&& ix.accounts[2] == destination
            &&& ix.data.len() >= 10
            &&& ix.data[0] == 12
            &&& vstd::bytes::spec_u64_from_le_bytes(
                seq![
                    ix.data[1],
                    ix.data[2],
                    ix.data[3],
                    ix.data[4],
                    ix.data[5],
                    ix.data[6],
                    ix.data[7],
                    ix.data[8],
                ],
            ) >= min_amount
        },
{
    if ix.data.len() >= 10 {
        assert(ix.data.subrange(1, 9) =~= seq![
            ix.data[1],
            ix.data[2],
            ix.data[3],
            ix.data[4],
            ix.data[5],
            ix.data[6],
            ix.data[7],
            ix.data[8],
        ]);
    }
}

/// The instructions that count are those from the first to the running one, whose index is in the
/// last two bytes of the sysvar data, lowest byte first.
pub proof fn law_instructions_up_to_the_running_one_count(sysvar: Seq<u8>, i: int)
    requires
        sysvar.len() >= 2,
    ensures
        ({
            let last = sysvar[sysvar.len() - 2] + 256 * sysvar[sysvar.len() - 1];
            let seen = crate::vault::introspection::instructions_so_far(sysvar);
            &&& crate::vault::introspection::sysvar_current_index(sysvar) == last
            &&& seen.len() == last + 1
            &&& 0 <= i <= last ==> seen[i] == crate::vault::introspection::sysvar_instruction(
                i as usize,
                sysvar,
            )
        }),
{
}

/// An instruction that cannot be read decides with its code exactly where every instruction before
/// it can be read and none of them is the transfer.
pub proof fn law_unreadable_instruction_decides(
    instructions: Seq<Result<SiblingInstructionView, u64>>,
    destination: Pubkey,
    min_amount: u64,
    code: u64,
)
    ensures
        crate::vault::introspection::transfer_among(instructions, destination, min_amount) == Err::<
            bool,
            u64,
        >(code) <==> exists|i: int|
            #![trigger instructions[i]]
            0 <= i < instructions.len() && instructions[i] == Err::<SiblingInstructionView, u64>(
                code,
            ) && forall|j: int|
                0 <= j < i ==> (#[trigger] instructions[j]) is Ok
                    && !crate::vault::introspection::transfers_to(
                    instructions[j]->Ok_0,
                    destination,
                    min_amount,
                ),
    decreases instructions.len(),
{
    let found = crate::vault::introspection::transfer_among(
        instructions,
        destination,
        min_amount,
    );
    if instructions.len() > 0 {
        let rest = instructions.skip(1);
        law_unreadable_instruction_decides(rest, destination, min_amount, code);
        let passed = instructions[0] is Ok && !crate::vault::introspection::transfers_to(
            instructions[0]->Ok_0,
            destination,
            min_amount,
        );
        if found == Err::<bool, u64>(code) && passed {
            let i = choose|i: int|
                #![trigger rest[i]]
                0 <= i < rest.len() && rest[i] == Err::<SiblingInstructionView, u64>(code)
                    && forall|j: int|
                    0 <= j < i ==> (#[trigger] rest[j]) is Ok
                        && !crate::vault::introspection::transfers_to(
                        rest[j]->Ok_0,
                        destination,
                        min_amount,
                    );
            assert(instructions[i + 1] == rest[i]);
            assert forall|j: int| 0 <= j < i + 1 implies (#[trigger] instructions[j]) is Ok
                && !crate::vault::introspection::transfers_to(
                instructions[j]->Ok_0,
                destination,
                min_amount,
            ) by {
                if j > 0 {
                    assert(rest[j - 1] == instructions[j]);
                }
            }
        }
        if found != Err::<bool, u64>(code) {
            assert forall|i: int|
                #![trigger instructions[i]]
                0 <= i < instructions.len() && instructions[i] == Err::<
                    SiblingInstructionView,
                    u64,
                >(code) && (forall|j: int|
                    0 <= j < i ==> (#[trigger] instructions[j]) is Ok
                        && !crate::vault::introspection::transfers_to(
                        instructions[j]->Ok_0,
                        destination,
                        min_amount,
                    )) implies false by {
                if i > 0 {
                    assert(instructions[0] is Ok);
                    assert(rest[i - 1] == instructions[i]);
                    assert forall|j: int| 0 <= j < i - 1 implies (#[trigger] rest[j]) is Ok
                        && !crate::vault::introspection::transfers_to(
                        rest[j]->Ok_0,
                        destination,
                        min_amount,
                    ) by {
                        assert(rest[j] == instructions[j + 1]);
                    }
                }
            }
        }
    }
}

/// The view of an instruction carries every field, and so does that of an outcome of reading one.
pub proof fn law_instruction_view_carries_every_field(ix: SiblingInstruction, code: u64)
    ensures
        ix@.program_id == ix.program_id,
        ix@.accounts == ix.accounts@,
        ix@.data == ix.data@,
        crate::vault::introspection::outcome_view(Ok::<SiblingInstruction, u64>(ix)) == Ok::<
            SiblingInstructionView,
            u64,
        >(ix@),
        crate::vault::introspection::outcome_view(Err::<SiblingInstruction, u64>(code)) == Err::<
            SiblingInstructionView,
            u64,
        >(code),
{
}

} // verus!
