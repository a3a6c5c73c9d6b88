//! The call into the program that keeps compressed accounts.

use vstd::prelude::*;
use crate::instruction::{metas_view, writable, AccountMeta, AccountMetaView, Instruction, InstructionView};
use crate::pubkey::Pubkey;

verus! {

/// The address of the program that keeps compressed accounts.
pub open spec fn light_system_program_address() -> Seq<u8> {
    seq![
        6u8, 167, 85, 248, 33, 57, 5, 77, 68, 36, 177, 90, 240, 196, 48, 207,
        47, 75, 127, 152, 121, 58, 218, 18, 82, 212, 143, 54, 102, 198, 203, 206,
    ]
}

/// The tag of the instruction `invoke_cpi` of that program.
pub open spec fn invoke_cpi_tag() -> Seq<u8> {
    seq![49u8, 212, 191, 129, 39, 194, 43, 196]
}

/// The instruction that hands `instruction_data` to the program: the fee
/// payer first, writable and signing, then the remaining accounts as they
/// are; the data are the tag and the instruction data.
pub open spec fn light_system_instruction(
    fee_payer: Seq<u8>,
    remaining: Seq<AccountMetaView>,
    instruction_data: Seq<u8>,
) -> InstructionView {
    InstructionView {
        program_id: light_system_program_address(),
        accounts: seq![writable(fee_payer, true)] + remaining,
        data: invoke_cpi_tag() + instruction_data,
    }
}

/// The program that keeps compressed accounts.
pub fn light_system_program() -> (key: Pubkey)
    ensures
        key@ == light_system_program_address(),
{
    let key = Pubkey {
        bytes: [
            6u8, 167, 85, 248, 33, 57, 5, 77, 68, 36, 177, 90, 240, 196, 48, 207,
            47, 75, 127, 152, 121, 58, 218, 18, 82, 212, 143, 54, 102, 198, 203, 206,
        ],
    };
    assert(key@ =~= light_system_program_address());
    key
}

/// Builds the instruction that is invoked in the program that keeps
/// compressed accounts, from the serialised instruction data.
pub fn invoke_light_system_program(
    fee_payer: &Pubkey,
    remaining_accounts: &Vec<AccountMeta>,
    instruction_data: &[u8],
) -> (ix: Instruction)
    ensures
        ix@ == light_system_instruction(fee_payer@, metas_view(remaining_accounts@), instruction_data@),
{
    let tag: [u8; 8] = [49, 212, 191, 129, 39, 194, 43, 196];
    let mut data: Vec<u8> = Vec::new();
    data.extend_from_slice(tag.as_slice());
    data.extend_from_slice(instruction_data);
    assert(data@ =~= invoke_cpi_tag() + instruction_data@);
    let mut accounts: Vec<AccountMeta> = Vec::new();
    accounts.push(AccountMeta::new(*fee_payer, true));
    let mut i: usize = 0;
    while i < remaining_accounts.len()
        invariant
            i <= remaining_accounts@.len(),
            accounts@.len() == 1 + i,
            accounts@[0]@ == writable(fee_payer@, true),
            forall|j: int| 0 <= j < i ==> accounts@[1 + j] == remaining_accounts@[j],
        decreases remaining_accounts@.len() - i,
    {
        accounts.push(remaining_accounts[i]);
        i = i + 1;
    }
    assert(metas_view(accounts@) =~= seq![writable(fee_payer@, true)] + metas_view(remaining_accounts@));
    Instruction { program_id: light_system_program(), accounts, data }
}

} // verus!
