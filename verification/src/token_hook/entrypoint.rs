//! How the hook program reads its instruction bytes and which handler runs.
use vstd::prelude::*;
use crate::runtime::{AccountView, Key, ProgramFailure, Step, StepSpec, plan_view, steps_view};
use crate::outside::{declares_missing_metas, transfer_hook_instruction, unpack_transfer_hook_instruction};
use crate::token_hook::processor::{
    Instructions, extra_account_meta_list_result, initialize_token_mint_result, instruction_from_bytes,
    mint_tokens_result, process_execute, process_initialize_extra_account_meta_list,
    process_initialize_token_mint, process_mint_tokens,
};

verus! {

/// The instructions of the transfer-hook interface that the hook program
/// tells apart.
#[derive(Debug, Clone, Copy, PartialEq, Eq, Structural)]
pub enum HookInterfaceInstruction {
    Execute { amount: u64 },
    InitializeExtraAccountMetaList,
    UpdateExtraAccountMetaList,
}

/// Whether the first eight bytes, read as a big-endian code, make 0: the
/// code that marks the program's own instructions.
pub open spec fn own_instruction_code(data: Seq<u8>) -> bool {
    data.subrange(0, 8) == Seq::new(8, |i: int| 0u8)
}

/// The instruction that the hook program reads from `data` (at least 9
/// bytes): with code 0, its own instruction from the bytes after the code
/// (its tag, then its amount if it has one); otherwise an instruction of the
/// transfer-hook interface.
pub open spec fn entry_instruction(data: Seq<u8>) -> Result<Instructions, ProgramFailure> {
    if own_instruction_code(data) {
        match instruction_from_bytes(data.subrange(8, data.len() as int)) {
            Some(i) => Ok(i),
            None => Err(ProgramFailure::BorshIoError),
        }
    } else {
        match transfer_hook_instruction(data) {
            Err(e) => Err(e),
            Ok(HookInterfaceInstruction::Execute { amount }) => Ok(Instructions::Execute { amount }),
            Ok(HookInterfaceInstruction::InitializeExtraAccountMetaList) => Ok(
                Instructions::InitializeExtraAccountMetaList,
            ),
            Ok(HookInterfaceInstruction::UpdateExtraAccountMetaList) => Ok(
                Instructions::UpdateExtraAccountMetaList,
            ),
        }
    }
}

/// What the handler of `instruction` hands back; the update of the extra
/// account metas goes to `fallback`, which does nothing.
pub open spec fn handler_result(
    program_id: Key,
    a: Seq<AccountView>,
    instruction: Instructions,
    r: Result<Seq<StepSpec>, ProgramFailure>,
) -> bool {
    match instruction {
        Instructions::InitializeTokenMint => initialize_token_mint_result(program_id, a, r),
        Instructions::MintTokens { amount } => mint_tokens_result(a, amount, r),
        Instructions::InitializeExtraAccountMetaList => extra_account_meta_list_result(program_id, a, r),
        Instructions::Execute { amount } => r == Ok::<Seq<StepSpec>, ProgramFailure>(Seq::empty()),
        Instructions::UpdateExtraAccountMetaList => r == Ok::<Seq<StepSpec>, ProgramFailure>(Seq::empty()),
    }
}

/// Whether the first eight bytes are all zero.
fn has_own_instruction_code(data: &[u8]) -> (r: bool)
    requires
        data@.len() >= 8,
    ensures
        r == own_instruction_code(data@),
{
    let mut i: usize = 0;
    while i < 8
        invariant
            0 <= i <= 8,
            data@.len() >= 8,
            forall|j: int| 0 <= j < i ==> data@[j] == 0,
        decreases 8 - i,
    {
        if data[i] != 0 {
            assert(data@.subrange(0, 8)[i as int] != Seq::new(8, |k: int| 0u8)[i as int]);
            return false;
        }
        i = i + 1;
    }
    assert(data@.subrange(0, 8) =~= Seq::new(8, |k: int| 0u8));
    true
}

/// Reads the instruction from at least 9 bytes, by `entry_instruction`;
/// a list of extra account metas that declares more items than it holds makes
/// the program panic, so it is left out.
pub fn decode_instruction(instruction_data: &[u8]) -> (r: Result<Instructions, ProgramFailure>)
    requires
        instruction_data@.len() >= 9,
        !declares_missing_metas(instruction_data@),
    ensures
        r == entry_instruction(instruction_data@),
{
    if has_own_instruction_code(instruction_data) {
        Instructions::try_from_slice(vstd::slice::slice_subrange(instruction_data, 8, instruction_data.len()))
    } else {
        match unpack_transfer_hook_instruction(instruction_data)? {
            HookInterfaceInstruction::Execute { amount } => Ok(Instructions::Execute { amount }),
            HookInterfaceInstruction::InitializeExtraAccountMetaList => Ok(Instructions::InitializeExtraAccountMetaList),
            HookInterfaceInstruction::UpdateExtraAccountMetaList => Ok(Instructions::UpdateExtraAccountMetaList),
        }
    }
}

/// Reads the instruction (at least 9 bytes; fewer make the program panic, as
/// does a list of extra account metas that declares more items than it holds)
/// and runs its handler, by `entry_instruction` and `handler_result`.
pub fn process_instruction(
    program_id: &Key,
    accounts: &Vec<AccountView>,
    instruction_data: &[u8],
) -> (r: Result<Vec<Step>, ProgramFailure>)
    requires
        instruction_data@.len() >= 9,
        !declares_missing_metas(instruction_data@),
    ensures
        match entry_instruction(instruction_data@) {
            Err(e) => r == Err::<Vec<Step>, ProgramFailure>(e),
            Ok(instruction) => handler_result(*program_id, accounts@, instruction, plan_view(r)),
        },
{
    let instruction = decode_instruction(instruction_data)?;
    match instruction {
        Instructions::InitializeTokenMint => process_initialize_token_mint(program_id, accounts),
        Instructions::MintTokens { amount } => process_mint_tokens(program_id, accounts, amount),
        Instructions::InitializeExtraAccountMetaList => process_initialize_extra_account_meta_list(program_id, accounts),
        Instructions::Execute { amount } => process_execute(program_id, accounts, amount),
        _ => fallback(program_id, accounts),
    }
}

/// The handler of the instructions that the program does not act on: no
/// steps.
pub fn fallback(_program_id: &Key, _accounts: &Vec<AccountView>) -> (r: Result<Vec<Step>, ProgramFailure>)
    ensures
        plan_view(r) == Ok::<Seq<StepSpec>, ProgramFailure>(Seq::empty()),
{
    let steps: Vec<Step> = Vec::new();
    assert(steps_view(steps@) =~= Seq::<StepSpec>::empty());
    Ok(steps)
}

/// An instruction of the program's own, sent behind the eight zero bytes of
/// code 0, is read back as itself.
pub proof fn lemma_own_instruction_routing(i: Instructions)
    ensures
        entry_instruction(Seq::new(8, |j: int| 0u8) + crate::token_hook::processor::instruction_bytes(i)) == Ok::<
            Instructions,
            ProgramFailure,
        >(i),
{
    let data = Seq::new(8, |j: int| 0u8) + crate::token_hook::processor::instruction_bytes(i);
    assert(data.subrange(0, 8) =~= Seq::new(8, |j: int| 0u8));
    assert(data.subrange(8, data.len() as int) =~= crate::token_hook::processor::instruction_bytes(i));
    crate::token_hook::processor::lemma_instruction_bytes_roundtrip(i, crate::token_hook::processor::instruction_bytes(i));
}

/// A `MintTo` packed by the hook program's instruction module, handed to the
/// program's entry, is read as `MintTokens` of the same amount, so minting
/// through `mint_to` reaches `process_mint_tokens`.
pub proof fn lemma_packed_mint_to_is_read(amount: u64)
    ensures
        entry_instruction(
            crate::token_hook::instruction::token_instruction_bytes(
                crate::token_hook::instruction::TokenInstruction::MintTo { amount },
            ),
        ) == Ok::<Instructions, ProgramFailure>(Instructions::MintTokens { amount }),
{
    let i = Instructions::MintTokens { amount };
    assert(crate::token_hook::instruction::token_instruction_bytes(
        crate::token_hook::instruction::TokenInstruction::MintTo { amount },
    ) =~= Seq::new(8, |j: int| 0u8) + crate::token_hook::processor::instruction_bytes(i));
    lemma_own_instruction_routing(i);
}

} // verus!
