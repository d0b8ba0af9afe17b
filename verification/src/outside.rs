//! Calls into the Solana runtime and the SPL libraries that the programs'
//! logic makes, each with the contract that the verified code relies on.
use vstd::prelude::*;
use solana_program::pubkey::Pubkey;
use spl_transfer_hook_interface::instruction::{ExecuteInstruction, TransferHookInstruction};
use vstd::bytes::{spec_u32_from_le_bytes, spec_u64_from_le_bytes, spec_u64_to_le_bytes, u32_from_le_bytes};
use crate::runtime::{AccountMetaData, InstructionData, InstructionSpec, Key, ProgramFailure};
use crate::token_hook::entrypoint::HookInterfaceInstruction;

verus! {

/// The key of the SPL Token program.
pub open spec fn spl_token_program_id() -> Seq<u8> {
    seq![
        6, 221, 246, 225, 215, 101, 161, 147, 217, 203, 225, 70, 206, 235, 121, 172, 28, 180, 133,
        237, 95, 91, 55, 145, 58, 140, 245, 133, 126, 255, 0, 169,
    ]
}

/// The key of the SPL Token-2022 program.
pub open spec fn token_2022_program_id() -> Seq<u8> {
    seq![
        6, 221, 246, 225, 238, 117, 143, 222, 24, 66, 93, 188, 228, 108, 205, 218, 182, 26, 252, 77,
        131, 185, 13, 39, 254, 189, 249, 40, 216, 161, 139, 252,
    ]
}

/// The numeric code of `ProgramError::IncorrectProgramId`.
pub open spec fn incorrect_program_id() -> u64 {
    30064771072
}

/// The numeric code of `ProgramError::InvalidInstructionData`.
pub open spec fn invalid_instruction_data() -> u64 {
    12884901888
}

/// An account of an instruction, as `AccountMeta::new` (writable) or
/// `AccountMeta::new_readonly` make it.
pub open spec fn meta(pubkey: Key, is_signer: bool, is_writable: bool) -> AccountMetaData {
    AccountMetaData { pubkey, is_signer, is_writable }
}

/// The program address and bump seed that `Pubkey::try_find_program_address`
/// derives from `seeds` and a program id (a SHA-256 search over bump seeds).
pub uninterp spec fn program_address(seeds: Seq<Seq<u8>>, program_id: Seq<u8>) -> Option<(Seq<u8>, u8)>;

/// The 8-byte code of the transfer-hook interface's `Execute`: the first
/// bytes of the SHA-256 of "spl-transfer-hook-interface:execute".
pub open spec fn execute_discriminator() -> Seq<u8> {
    seq![105, 37, 101, 197, 75, 251, 102, 26]
}

/// The 8-byte code of `InitializeExtraAccountMetaList`: the first bytes of
/// the SHA-256 of "spl-transfer-hook-interface:initialize-extra-account-metas".
pub open spec fn initialize_extra_account_metas_discriminator() -> Seq<u8> {
    seq![43, 34, 13, 49, 167, 88, 235, 235]
}

/// The 8-byte code of `UpdateExtraAccountMetaList`: the first bytes of the
/// SHA-256 of "spl-transfer-hook-interface:update-extra-account-metas".
pub open spec fn update_extra_account_metas_discriminator() -> Seq<u8> {
    seq![157, 105, 42, 146, 102, 85, 241, 174]
}

/// The data of a freshly created 16-byte account once an empty list of extra
/// account metas for `Execute` is written into it: the `Execute` code, the
/// entry's length 4, and the list's length 0.
pub open spec fn empty_extra_account_meta_list_bytes() -> Seq<u8> {
    execute_discriminator() + seq![4u8, 0, 0, 0, 0, 0, 0, 0]
}

/// Whether `data` starts with the code of one of the two list instructions.
pub open spec fn has_list_discriminator(data: Seq<u8>) -> bool {
    data.len() >= 8 && (data.subrange(0, 8) == initialize_extra_account_metas_discriminator()
        || data.subrange(0, 8) == update_extra_account_metas_discriminator())
}

/// How a list of 35-byte extra account metas, after its little-endian `u32`
/// length, is read: fewer than 4 bytes, or fewer than 35 bytes of items that
/// are not a whole number of items, are too small (`Custom(1)`); more that
/// are not a whole number are too large (`Custom(2)`).
pub open spec fn meta_list_result(rest: Seq<u8>) -> Result<(), ProgramFailure> {
    if rest.len() < 4 {
        Err(ProgramFailure::Runtime(1))
    } else if (rest.len() - 4) % 35 != 0 {
        if rest.len() - 4 < 35 {
            Err(ProgramFailure::Runtime(1))
        } else {
            Err(ProgramFailure::Runtime(2))
        }
    } else {
        Ok(())
    }
}

/// Whether `data` is a list instruction of whole 35-byte items whose
/// declared length is larger than the number of items sent: reading its list
/// panics.
pub open spec fn declares_missing_metas(data: Seq<u8>) -> bool {
    &&& has_list_discriminator(data)
    &&& data.len() >= 12
    &&& (data.len() - 12) % 35 == 0
    &&& spec_u32_from_le_bytes(data.subrange(8, 12)) > (data.len() - 12) / 35
}

/// What `TransferHookInstruction::unpack` reads from instruction bytes, as
/// its source does it: the 8-byte code, then for `Execute` the amount (in
/// little-endian, later bytes ignored) and for the two list instructions a
/// list of extra account metas; too short data or an unknown code is
/// `InvalidInstructionData`.
pub open spec fn transfer_hook_instruction(data: Seq<u8>) -> Result<HookInterfaceInstruction, ProgramFailure> {
    if data.len() < 8 {
        Err(ProgramFailure::Runtime(invalid_instruction_data()))
    } else if data.subrange(0, 8) == execute_discriminator() {
        if data.len() < 16 {
            Err(ProgramFailure::Runtime(invalid_instruction_data()))
        } else {
            Ok(HookInterfaceInstruction::Execute { amount: spec_u64_from_le_bytes(data.subrange(8, 16)) })
        }
    } else if data.subrange(0, 8) == initialize_extra_account_metas_discriminator() {
        match meta_list_result(data.subrange(8, data.len() as int)) {
            Err(e) => Err(e),
            Ok(_) => Ok(HookInterfaceInstruction::InitializeExtraAccountMetaList),
        }
    } else if data.subrange(0, 8) == update_extra_account_metas_discriminator() {
        match meta_list_result(data.subrange(8, data.len() as int)) {
            Err(e) => Err(e),
            Ok(_) => Ok(HookInterfaceInstruction::UpdateExtraAccountMetaList),
        }
    } else {
        Err(ProgramFailure::Runtime(invalid_instruction_data()))
    }
}

/// Whether a key is that of Token-2022 or of the Token program.
pub open spec fn is_token_program(key: Key) -> bool {
    key@ == token_2022_program_id() || key@ == spl_token_program_id()
}

/// Token-2022's `MintToChecked` as its library builds it without multisig
/// signers: refused (`IncorrectProgramId`) unless the token program is
/// Token-2022 or Token; the data is 14, the amount in little-endian and the
/// decimals; the mint and the destination are writable and the owner signs.
pub open spec fn mint_to_checked_result(
    token_program: Key,
    mint: Key,
    destination: Key,
    owner: Key,
    amount: u64,
    decimals: u8,
) -> Result<InstructionSpec, ProgramFailure> {
    if !is_token_program(token_program) {
        Err(ProgramFailure::Runtime(incorrect_program_id()))
    } else {
        Ok(InstructionSpec {
            program_id: token_program,
            accounts: seq![meta(mint, false, true), meta(destination, false, true), meta(owner, true, false)],
            data: seq![14u8] + spec_u64_to_le_bytes(amount) + seq![decimals],
        })
    }
}

/// Token-2022's `InitializeMint2` as its library builds it: refused
/// (`IncorrectProgramId`) unless the token program is Token-2022 or Token;
/// the data is 20, the decimals, the mint authority, then 1 and the freeze
/// authority or a single 0; the one account is the mint, writable.
pub open spec fn initialize_mint2_result(
    token_program: Key,
    mint: Key,
    mint_authority: Key,
    freeze_authority: Option<Key>,
    decimals: u8,
) -> Result<InstructionSpec, ProgramFailure> {
    if !is_token_program(token_program) {
        Err(ProgramFailure::Runtime(incorrect_program_id()))
    } else {
        Ok(InstructionSpec {
            program_id: token_program,
            accounts: seq![meta(mint, false, true)],
            data: seq![20u8, decimals] + mint_authority@ + match freeze_authority {
                Some(k) => seq![1u8] + k@,
                None => seq![0u8],
            },
        })
    }
}

/// Token's `TransferChecked` as its library builds it without multisig
/// signers: refused (`IncorrectProgramId`) unless the token program is
/// Token; the data is 12, the amount in little-endian and the decimals; the
/// source and the destination are writable, the mint is read and the
/// authority signs.
pub open spec fn transfer_checked_result(
    token_program: Key,
    source: Key,
    mint: Key,
    destination: Key,
    authority: Key,
    amount: u64,
    decimals: u8,
) -> Result<InstructionSpec, ProgramFailure> {
    if token_program@ != spl_token_program_id() {
        Err(ProgramFailure::Runtime(incorrect_program_id()))
    } else {
        Ok(InstructionSpec {
            program_id: token_program,
            accounts: seq![
                meta(source, false, true),
                meta(mint, false, false),
                meta(destination, false, true),
                meta(authority, true, false),
            ],
            data: seq![12u8] + spec_u64_to_le_bytes(amount) + seq![decimals],
        })
    }
}

/// The numeric code of `ProgramError::InvalidArgument`.
pub open spec fn invalid_argument() -> u64 {
    8589934592
}

/// An optional key as 32 bytes, all zero for none.
pub open spec fn optional_key_bytes(key: Option<Key>) -> Seq<u8> {
    match key {
        Some(k) => k@,
        None => Seq::new(32, |i: int| 0u8),
    }
}

/// Token-2022's transfer-hook `Initialize` as its library builds it:
/// refused (`IncorrectProgramId`) unless the token program is Token-2022,
/// then (`InvalidArgument`) where the authority or the hook program is the
/// all-zero key; the data is 36 (the extension), 0 (`Initialize`), the
/// authority and the hook program as optional keys; the one account is the
/// mint, writable.
pub open spec fn transfer_hook_initialize_result(
    token_program: Key,
    mint: Key,
    authority: Option<Key>,
    hook_program: Option<Key>,
) -> Result<InstructionSpec, ProgramFailure> {
    if token_program@ != token_2022_program_id() {
        Err(ProgramFailure::Runtime(incorrect_program_id()))
    } else if authority is Some && authority->Some_0@ == Seq::new(32, |i: int| 0u8) {
        Err(ProgramFailure::Runtime(invalid_argument()))
    } else if hook_program is Some && hook_program->Some_0@ == Seq::new(32, |i: int| 0u8) {
        Err(ProgramFailure::Runtime(invalid_argument()))
    } else {
        Ok(InstructionSpec {
            program_id: token_program,
            accounts: seq![meta(mint, false, true)],
            data: seq![36u8, 0u8] + optional_key_bytes(authority) + optional_key_bytes(hook_program),
        })
    }
}

/// The program address for `seeds`, or `NoProgramAddress` where no bump
/// seed gives one.
pub open spec fn address_of(seeds: Seq<Seq<u8>>, program_id: Key) -> Result<(Seq<u8>, u8), ProgramFailure> {
    match program_address(seeds, program_id@) {
        Some(found) => Ok(found),
        None => Err(ProgramFailure::NoProgramAddress),
    }
}

/// Derives the program address for `seeds`; `NoProgramAddress` where
/// `address_of` gives it.
pub fn find_address(seeds: &Vec<Vec<u8>>, program_id: &Key) -> (r: Result<(Key, u8), ProgramFailure>)
    ensures
        match address_of(seeds.deep_view(), *program_id) {
            Ok((key, bump)) => r is Ok && r->Ok_0.0@ == key && r->Ok_0.1 == bump,
            Err(e) => r == Err::<(Key, u8), ProgramFailure>(e),
        },
{
    match find_program_address(seeds, program_id) {
        Some(found) => Ok(found),
        None => Err(ProgramFailure::NoProgramAddress),
    }
}

/// Reads the `Clock` sysvar through `solana_program::sysvar::Sysvar::get`
/// and hands back its `slot`, or the numeric code (`u64::from`) of the
/// `ProgramError` it failed with. The value comes from the runtime, so
/// nothing is promised of it.
#[verifier::external_body]
pub(crate) fn current_slot() -> (r: Result<u64, u64>) {
    match <solana_program::clock::Clock as solana_program::sysvar::Sysvar>::get() {
        Ok(clock) => Ok(clock.slot),
        Err(e) => Err(u64::from(e)),
    }
}

/// Calls `Pubkey::try_find_program_address` (the
/// form of `find_program_address` that gives `None` where that one panics).
/// The result is `program_address` of the seeds and program id.
#[verifier::external_body]
pub(crate) fn find_program_address(seeds: &Vec<Vec<u8>>, program_id: &Key) -> (r: Option<(Key, u8)>)
    ensures
        match r {
            Some((key, bump)) => program_address(seeds.deep_view(), program_id@) == Some((key@, bump)),
            None => program_address(seeds.deep_view(), program_id@) is None,
        },
{
    let seeds: Vec<&[u8]> = seeds.iter().map(|s| s.as_slice()).collect();
    let id = Pubkey::new_from_array(*program_id);
    Pubkey::try_find_program_address(&seeds, &id).map(|(k, b)| (k.to_bytes(), b))
}

/// The `LEN` of `spl_token_2022::state::Mint` under `Pack`: a base mint
/// account takes 82 bytes (claimed, as the source declares it).
#[verifier::external_body]
pub(crate) fn mint_len() -> (r: usize)
    ensures
        r == 82,
{
    <spl_token_2022::state::Mint as solana_program::program_pack::Pack>::LEN
}

/// Calls `spl_tlv_account_resolution::state::ExtraAccountMetaList::size_of`.
/// The library computes it as 12 bytes of TLV header, 4 bytes of
/// length and 35 bytes per item, the last addition saturating; a failure
/// exactly where `35 * num_items + 4` leaves `usize`.
#[verifier::external_body]
pub(crate) fn extra_account_metas_size(num_items: usize) -> (r: Result<usize, ProgramFailure>)
    ensures
        r is Ok <==> 35 * num_items + 4 <= usize::MAX,
        r matches Ok(n) ==> n == (if 16 + 35 * num_items <= usize::MAX { 16 + 35 * num_items } else { usize::MAX as int }),
{
    spl_tlv_account_resolution::state::ExtraAccountMetaList::size_of(num_items)
        .map_err(|e| ProgramFailure::Runtime(u64::from(e)))
}

/// Calls `ExtraAccountMetaList::init::<ExecuteInstruction>` of
/// `spl_tlv_account_resolution` with no metas on `size` zero bytes (the data
/// of an account just created) and hands back those bytes. The library
/// writes, into 16 zero bytes, the TLV entry of `Execute` with an
/// empty list, `empty_extra_account_meta_list_bytes`.
#[verifier::external_body]
pub(crate) fn empty_extra_account_meta_list(size: usize) -> (r: Result<Vec<u8>, ProgramFailure>)
    requires
        size == 16,
    ensures
        r is Ok,
        r matches Ok(data) ==> data@ == empty_extra_account_meta_list_bytes(),
{
    let mut data = vec![0u8; size];
    spl_tlv_account_resolution::state::ExtraAccountMetaList::init::<ExecuteInstruction>(&mut data, &[])
        .map(|_| data)
        .map_err(|e| ProgramFailure::Runtime(u64::from(e)))
}

/// Calls `TransferHookInstruction::unpack` of `spl_transfer_hook_interface`
/// and keeps the variant and the `Execute` amount (the extra account metas
/// are dropped). The library reads the bytes as
/// `transfer_hook_instruction` of them. A list that declares more items than
/// it holds makes `unpack` panic, so such input is excluded.
#[verifier::external_body]
pub(crate) fn unpack_transfer_hook_instruction(data: &[u8]) -> (r: Result<HookInterfaceInstruction, ProgramFailure>)
    requires
        !declares_missing_metas(data@),
    ensures
        r == transfer_hook_instruction(data@),
{
    match TransferHookInstruction::unpack(data) {
        Ok(TransferHookInstruction::Execute { amount }) => Ok(HookInterfaceInstruction::Execute { amount }),
        Ok(TransferHookInstruction::InitializeExtraAccountMetaList { .. }) => Ok(HookInterfaceInstruction::InitializeExtraAccountMetaList),
        Ok(TransferHookInstruction::UpdateExtraAccountMetaList { .. }) => Ok(HookInterfaceInstruction::UpdateExtraAccountMetaList),
        Err(e) => Err(ProgramFailure::Runtime(u64::from(e))),
    }
}

/// Calls `spl_token_2022::extension::transfer_hook::instruction::initialize`.
/// The library builds it as
/// `transfer_hook_initialize_result` of the arguments.
#[verifier::external_body]
pub(crate) fn transfer_hook_initialize(
    token_program: &Key,
    mint: &Key,
    authority: Option<Key>,
    hook_program: Option<Key>,
) -> (r: Result<InstructionData, ProgramFailure>)
    ensures
        crate::runtime::built_view(r) == transfer_hook_initialize_result(*token_program, *mint, authority, hook_program),
{
    let k = |key: &Key| Pubkey::new_from_array(*key);
    spl_token_2022::extension::transfer_hook::instruction::initialize(
        &k(token_program), &k(mint), authority.map(Pubkey::new_from_array), hook_program.map(Pubkey::new_from_array),
    ).map(|ix| InstructionData {
        program_id: ix.program_id.to_bytes(),
        accounts: ix.accounts.iter().map(|m| AccountMetaData {
            pubkey: m.pubkey.to_bytes(), is_signer: m.is_signer, is_writable: m.is_writable,
        }).collect(),
        data: ix.data,
    }).map_err(|e| ProgramFailure::Runtime(u64::from(e)))
}

/// Calls `spl_token_2022::instruction::mint_to_checked` without multisig
/// signers. The library builds it for the Token-2022 and
/// the Token program only (else `IncorrectProgramId`); the data is 14, the
/// amount in little-endian and the decimals; the accounts are the mint and
/// the destination (writable) and the owner (signer).
#[verifier::external_body]
pub(crate) fn token_mint_to_checked(
    token_program: &Key,
    mint: &Key,
    destination: &Key,
    owner: &Key,
    amount: u64,
    decimals: u8,
) -> (r: Result<InstructionData, ProgramFailure>)
    ensures
        crate::runtime::built_view(r) == mint_to_checked_result(*token_program, *mint, *destination, *owner, amount, decimals),
{
    let k = |key: &Key| Pubkey::new_from_array(*key);
    spl_token_2022::instruction::mint_to_checked(
        &k(token_program), &k(mint), &k(destination), &k(owner), &[], amount, decimals,
    ).map(|ix| InstructionData {
        program_id: ix.program_id.to_bytes(),
        accounts: ix.accounts.iter().map(|m| AccountMetaData {
            pubkey: m.pubkey.to_bytes(), is_signer: m.is_signer, is_writable: m.is_writable,
        }).collect(),
        data: ix.data,
    }).map_err(|e| ProgramFailure::Runtime(u64::from(e)))
}

/// Calls `spl_token_2022::instruction::initialize_mint2`. The library
/// builds it for the Token-2022 and the Token program only
/// (else `IncorrectProgramId`); the data is 20, the decimals, the mint
/// authority, then 1 and the freeze authority or a single 0; the one account
/// is the mint (writable).
#[verifier::external_body]
pub(crate) fn token_initialize_mint2(
    token_program: &Key,
    mint: &Key,
    mint_authority: &Key,
    freeze_authority: Option<Key>,
    decimals: u8,
) -> (r: Result<InstructionData, ProgramFailure>)
    ensures
        crate::runtime::built_view(r) == initialize_mint2_result(*token_program, *mint, *mint_authority, freeze_authority, decimals),
{
    let k = |key: &Key| Pubkey::new_from_array(*key);
    let freeze = freeze_authority.map(Pubkey::new_from_array);
    spl_token_2022::instruction::initialize_mint2(
        &k(token_program), &k(mint), &k(mint_authority), freeze.as_ref(), decimals,
    ).map(|ix| InstructionData {
        program_id: ix.program_id.to_bytes(),
        accounts: ix.accounts.iter().map(|m| AccountMetaData {
            pubkey: m.pubkey.to_bytes(), is_signer: m.is_signer, is_writable: m.is_writable,
        }).collect(),
        data: ix.data,
    }).map_err(|e| ProgramFailure::Runtime(u64::from(e)))
}

/// Calls `spl_token::instruction::transfer_checked` without multisig
/// signers. The library builds it for the Token program
/// only (else `IncorrectProgramId`); the data is 12, the amount in
/// little-endian and the decimals; the accounts are the source (writable),
/// the mint, the destination (writable) and the authority (signer).
#[verifier::external_body]
pub(crate) fn token_transfer_checked(
    token_program: &Key,
    source: &Key,
    mint: &Key,
    destination: &Key,
    authority: &Key,
    amount: u64,
    decimals: u8,
) -> (r: Result<InstructionData, ProgramFailure>)
    ensures
        crate::runtime::built_view(r) == transfer_checked_result(*token_program, *source, *mint, *destination, *authority, amount, decimals),
{
    let k = |key: &Key| Pubkey::new_from_array(*key);
    spl_token::instruction::transfer_checked(
        &k(token_program), &k(source), &k(mint), &k(destination), &k(authority), &[], amount, decimals,
    ).map(|ix| InstructionData {
        program_id: ix.program_id.to_bytes(),
        accounts: ix.accounts.iter().map(|m| AccountMetaData {
            pubkey: m.pubkey.to_bytes(), is_signer: m.is_signer, is_writable: m.is_writable,
        }).collect(),
        data: ix.data,
    }).map_err(|e| ProgramFailure::Runtime(u64::from(e)))
}

/// Whether the first bytes of `data` are `prefix`.
fn has_prefix(data: &[u8], prefix: &Vec<u8>) -> (r: bool)
    requires
        prefix@.len() <= data@.len(),
    ensures
        r == (data@.subrange(0, prefix@.len() as int) == prefix@),
{
    let mut i: usize = 0;
    while i < prefix.len()
        invariant
            0 <= i <= prefix@.len() <= data@.len(),
            forall|j: int| 0 <= j < i ==> data@[j] == prefix@[j],
        decreases prefix@.len() - i,
    {
        if data[i] != prefix[i] {
            assert(data@.subrange(0, prefix@.len() as int)[i as int] != prefix@[i as int]);
            return false;
        }
        i = i + 1;
    }
    assert(data@.subrange(0, prefix@.len() as int) =~= prefix@);
    true
}

/// Whether reading the list of extra account metas in `data` would panic, by
/// `declares_missing_metas`.
pub fn declares_missing_account_metas(data: &[u8]) -> (r: bool)
    ensures
        r == declares_missing_metas(data@),
{
    if data.len() < 12 || (data.len() - 12) % 35 != 0 {
        return false;
    }
    let initialize: Vec<u8> = vec![43, 34, 13, 49, 167, 88, 235, 235];
    let update: Vec<u8> = vec![157, 105, 42, 146, 102, 85, 241, 174];
    assert(initialize@ =~= initialize_extra_account_metas_discriminator());
    assert(update@ =~= update_extra_account_metas_discriminator());
    if !has_prefix(data, &initialize) && !has_prefix(data, &update) {
        return false;
    }
    let length = u32_from_le_bytes(vstd::slice::slice_subrange(data, 8, 12));
    length as usize > (data.len() - 12) / 35
}

} // verus!
