//! The two-program version: the claim program, whose claims mint through the
//! hook program and pay into escrow accounts.
use vstd::prelude::*;

pub mod state;
pub mod processor;

use crate::runtime::{AccountView, Key, ProgramFailure, Step, plan_view};
use processor::{Instructions, claim_result, initialize_result, instruction_from_bytes, process_claim, process_initialize};

verus! {

/// Reads the instruction and runs its handler: `Initialize` as
/// `process_initialize`, `Claim` as `process_claim`; bytes that are no
/// instruction are a `BorshIoError`.
pub fn process_instruction(
    program_id: &Key,
    accounts: &Vec<AccountView>,
    instruction_data: &[u8],
) -> (r: Result<Vec<Step>, ProgramFailure>)
    ensures
        match instruction_from_bytes(instruction_data@) {
            None => r == Err::<Vec<Step>, ProgramFailure>(ProgramFailure::BorshIoError),
            Some(Instructions::Initialize) => initialize_result(*program_id, accounts@, plan_view(r)),
            Some(Instructions::Claim) => claim_result(*program_id, accounts@, plan_view(r)),
        },
{
    let instruction = Instructions::try_from_slice(instruction_data)?;
    match instruction {
        Instructions::Initialize => process_initialize(program_id, accounts),
        Instructions::Claim => process_claim(program_id, accounts),
    }
}

} // verus!
