//! The hook program's own instruction for minting, and its builder.
use vstd::prelude::*;
use vstd::bytes::{spec_u64_to_le_bytes, u64_to_le_bytes};
use crate::runtime::{AccountMetaData, InstructionData, InstructionSpec, Key, ProgramFailure};
use crate::outside::meta;

verus! {

/// The instructions that other programs send to the hook program.
#[derive(Debug, Clone, Copy, PartialEq, Eq, Structural)]
pub enum TokenInstruction {
    MintTo {
        /// The amount of new tokens to mint.
        amount: u64,
    },
}

/// The bytes of an instruction: eight zero bytes (the code that the hook
/// program reserves for its own instructions), the tag 1, then the amount in
/// little-endian.
pub open spec fn token_instruction_bytes(i: TokenInstruction) -> Seq<u8> {
    match i {
        TokenInstruction::MintTo { amount } => seq![0u8, 0, 0, 0, 0, 0, 0, 0, 1] + spec_u64_to_le_bytes(amount),
    }
}

/// The `MintTo` instruction for the hook program: the destination and the
/// mint are writable, the mint authority signs, and the token program is
/// passed along read-only.
pub open spec fn mint_to_instruction(
    token_hook_program_id: Key,
    token_program_id: Key,
    token_mint_pubkey: Key,
    mint_authority_pubkey: Key,
    destination_pubkey: Key,
    amount: u64,
) -> InstructionSpec {
    InstructionSpec {
        program_id: token_hook_program_id,
        accounts: seq![
            meta(destination_pubkey, false, true),
            meta(token_mint_pubkey, false, true),
            meta(mint_authority_pubkey, true, false),
            meta(token_program_id, false, false),
        ],
        data: token_instruction_bytes(TokenInstruction::MintTo { amount }),
    }
}

impl TokenInstruction {
    /// The instruction's bytes, by `token_instruction_bytes`.
    pub fn pack(&self) -> (buf: Vec<u8>)
        ensures
            buf@ == token_instruction_bytes(*self),
    {
        proof {
            vstd::bytes::lemma_auto_spec_u64_to_from_le_bytes();
        }
        let mut buf: Vec<u8> = Vec::new();
        match *self {
            TokenInstruction::MintTo { amount } => {
                let mut i: usize = 0;
                while i < 8
                    invariant
                        0 <= i <= 8,
                        buf@ == Seq::new(i as nat, |j: int| 0u8),
                    decreases 8 - i,
                {
                    buf.push(0);
                    i = i + 1;
                }
                buf.push(1);
                let mut bytes = u64_to_le_bytes(amount);
                buf.append(&mut bytes);
            },
        }
        assert(buf@ =~= token_instruction_bytes(*self));
        buf
    }
}

/// Builds the hook program's `MintTo` instruction; building never fails.
pub fn mint_to(
    token_hook_program_id: &Key,
    token_program_id: &Key,
    token_mint_pubkey: &Key,
    mint_authority_pubkey: &Key,
    destination_pubkey: &Key,
    amount: u64,
) -> (r: Result<InstructionData, ProgramFailure>)
    ensures
        r is Ok,
        r matches Ok(i) ==> i@ == mint_to_instruction(
            *token_hook_program_id,
            *token_program_id,
            *token_mint_pubkey,
            *mint_authority_pubkey,
            *destination_pubkey,
            amount,
        ),
{
    let data = TokenInstruction::MintTo { amount }.pack();
    let mut accounts: Vec<AccountMetaData> = Vec::new();
    accounts.push(AccountMetaData { pubkey: *destination_pubkey, is_signer: false, is_writable: true });
    accounts.push(AccountMetaData { pubkey: *token_mint_pubkey, is_signer: false, is_writable: true });
    accounts.push(AccountMetaData { pubkey: *mint_authority_pubkey, is_signer: true, is_writable: false });
    accounts.push(AccountMetaData { pubkey: *token_program_id, is_signer: false, is_writable: false });
    let r = InstructionData { program_id: *token_hook_program_id, accounts, data };
    assert(r@.accounts =~= mint_to_instruction(
        *token_hook_program_id,
        *token_program_id,
        *token_mint_pubkey,
        *mint_authority_pubkey,
        *destination_pubkey,
        amount,
    ).accounts);
    Ok(r)
}

/// A packed instruction is 17 bytes long and starts with eight zero bytes,
/// so the hook program's entry reads it as one of its own instructions, with
/// the tag in byte 8.
pub proof fn lemma_packed_instruction_shape(i: TokenInstruction)
    ensures
        token_instruction_bytes(i).len() == 17,
        token_instruction_bytes(i).subrange(0, 8) == Seq::new(8, |j: int| 0u8),
        token_instruction_bytes(i)[8] == 1,
{
    vstd::bytes::lemma_auto_spec_u64_to_from_le_bytes();
    assert(token_instruction_bytes(i).subrange(0, 8) =~= Seq::new(8, |j: int| 0u8));
}

} // verus!
