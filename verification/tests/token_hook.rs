use claim_curve::runtime::{AccountView, ProgramFailure, Step};
use claim_curve::token_hook::entrypoint::{decode_instruction, fallback, process_instruction};
use claim_curve::token_hook::instruction::{mint_to, TokenInstruction};
use claim_curve::token_hook::processor::{
    process_execute, process_initialize_extra_account_meta_list, process_initialize_token_mint,
    process_mint_tokens, Instructions,
};
use solana_program::pubkey::Pubkey;
use spl_transfer_hook_interface::instruction::TransferHookInstruction;

fn program_id() -> Pubkey {
    Pubkey::new_from_array([9u8; 32])
}

fn account(key: [u8; 32]) -> AccountView {
    AccountView { key, is_signer: false, is_writable: true, executable: false, data: vec![] }
}

#[test]
fn pack_mint_to() {
    let bytes = TokenInstruction::MintTo { amount: 0x0102 }.pack();
    assert_eq!(bytes, vec![0, 0, 0, 0, 0, 0, 0, 0, 1, 2, 1, 0, 0, 0, 0, 0, 0]);
}

#[test]
fn mint_to_builds_the_hook_instruction() {
    let ix = mint_to(&[1; 32], &[2; 32], &[3; 32], &[4; 32], &[5; 32], 77).unwrap();
    assert_eq!(ix.program_id, [1; 32]);
    assert_eq!(ix.data, TokenInstruction::MintTo { amount: 77 }.pack());
    let keys: Vec<[u8; 32]> = ix.accounts.iter().map(|m| m.pubkey).collect();
    assert_eq!(keys, vec![[5; 32], [3; 32], [4; 32], [2; 32]]);
    let flags: Vec<(bool, bool)> = ix.accounts.iter().map(|m| (m.is_signer, m.is_writable)).collect();
    assert_eq!(flags, vec![(false, true), (false, true), (true, false), (false, false)]);
}

#[test]
fn hook_instruction_bytes() {
    let all = [
        Instructions::InitializeTokenMint,
        Instructions::MintTokens { amount: 5 },
        Instructions::Execute { amount: u64::MAX },
        Instructions::InitializeExtraAccountMetaList,
        Instructions::UpdateExtraAccountMetaList,
    ];
    for i in all {
        assert_eq!(Instructions::try_from_slice(&i.serialize()), Ok(i));
    }
    assert_eq!(Instructions::MintTokens { amount: 5 }.serialize(), vec![1, 5, 0, 0, 0, 0, 0, 0, 0]);
    assert_eq!(Instructions::try_from_slice(&[1]), Err(ProgramFailure::BorshIoError));
    assert_eq!(Instructions::try_from_slice(&[5]), Err(ProgramFailure::BorshIoError));
    assert_eq!(Instructions::try_from_slice(&[0, 1]), Err(ProgramFailure::BorshIoError));
}

#[test]
fn entry_reads_own_instructions_from_byte_8() {
    let mut data = vec![0u8; 8];
    data.push(0);
    assert_eq!(decode_instruction(&data), Ok(Instructions::InitializeTokenMint));
    data[8] = 3;
    assert_eq!(decode_instruction(&data), Ok(Instructions::InitializeExtraAccountMetaList));
    data[8] = 4;
    assert_eq!(decode_instruction(&data), Ok(Instructions::UpdateExtraAccountMetaList));
    data[8] = 2;
    assert_eq!(decode_instruction(&data), Err(ProgramFailure::BorshIoError));
}

#[test]
fn entry_reads_a_packed_mint_to() {
    let data = TokenInstruction::MintTo { amount: 1_000 }.pack();
    assert_eq!(decode_instruction(&data), Ok(Instructions::MintTokens { amount: 1_000 }));
    let accounts = vec![account([1; 32]), account([2; 32]), account([3; 32]), account(spl_token_2022::ID.to_bytes())];
    let steps = process_instruction(&program_id().to_bytes(), &accounts, &data).unwrap();
    match &steps[0] {
        Step::Invoke { instruction: Ok(ix), .. } => {
            let mut expected = vec![14u8];
            expected.extend_from_slice(&1_000u64.to_le_bytes());
            expected.push(9);
            assert_eq!(ix.data, expected);
        }
        other => panic!("unexpected {:?}", other),
    }
    let mut longer = data.clone();
    longer.push(0);
    assert_eq!(decode_instruction(&longer), Err(ProgramFailure::BorshIoError));
}

#[test]
fn entry_reads_the_transfer_hook_interface() {
    let data = TransferHookInstruction::Execute { amount: 123 }.pack();
    assert_eq!(decode_instruction(&data), Ok(Instructions::Execute { amount: 123 }));
    let data = TransferHookInstruction::InitializeExtraAccountMetaList { extra_account_metas: vec![] }.pack();
    assert_eq!(decode_instruction(&data), Ok(Instructions::InitializeExtraAccountMetaList));
    let data = TransferHookInstruction::UpdateExtraAccountMetaList { extra_account_metas: vec![] }.pack();
    assert_eq!(decode_instruction(&data), Ok(Instructions::UpdateExtraAccountMetaList));
    let data = vec![1u8; 16];
    assert_eq!(decode_instruction(&data), Err(ProgramFailure::Runtime(3u64 << 32)));
}

#[test]
fn entry_dispatches() {
    let pid = program_id().to_bytes();
    let data = TransferHookInstruction::Execute { amount: 1 }.pack();
    assert_eq!(process_instruction(&pid, &vec![], &data).map(|s| s.len()), Ok(0));
    let data = TransferHookInstruction::UpdateExtraAccountMetaList { extra_account_metas: vec![] }.pack();
    assert_eq!(process_instruction(&pid, &vec![], &data).map(|s| s.len()), Ok(0));
    let data = TransferHookInstruction::InitializeExtraAccountMetaList { extra_account_metas: vec![] }.pack();
    assert_eq!(process_instruction(&pid, &vec![], &data).err(), Some(ProgramFailure::NotEnoughAccountKeys));
    let mut own = vec![0u8; 9];
    own[8] = 0;
    assert_eq!(process_instruction(&pid, &vec![account([1; 32])], &own).err(), Some(ProgramFailure::NotEnoughAccountKeys));
    assert_eq!(fallback(&pid, &vec![]).map(|s| s.len()), Ok(0));
    assert_eq!(process_execute(&pid, &vec![], 5).map(|s| s.len()), Ok(0));
}

#[test]
fn initialize_token_mint_steps() {
    let pid = program_id();
    let (mint, bump) = Pubkey::find_program_address(&[b"token-mint"], &pid);
    let accounts = vec![
        account([1; 32]),
        account(spl_token_2022::ID.to_bytes()),
        account(mint.to_bytes()),
        account([4; 32]),
    ];
    let steps = process_initialize_token_mint(&pid.to_bytes(), &accounts).unwrap();
    assert_eq!(steps.len(), 3);
    match &steps[0] {
        Step::CreateAccount { payer, new_account, space, owner, signer_seeds } => {
            assert_eq!(*payer, [1; 32]);
            assert_eq!(*new_account, mint.to_bytes());
            assert_eq!(*space, 234);
            assert_eq!(*owner, spl_token_2022::ID.to_bytes());
            assert_eq!(signer_seeds, &vec![b"token-mint".to_vec(), vec![bump]]);
        }
        other => panic!("unexpected {:?}", other),
    }
    match &steps[1] {
        Step::Invoke { instruction: Ok(ix), .. } => {
            let expected = spl_token_2022::extension::transfer_hook::instruction::initialize(
                &spl_token_2022::ID,
                &mint,
                Some(Pubkey::new_from_array([4; 32])),
                Some(pid),
            )
            .unwrap();
            assert_eq!(ix.data, expected.data);
        }
        other => panic!("unexpected {:?}", other),
    }
    match &steps[2] {
        Step::Invoke { instruction: Ok(ix), accounts, .. } => {
            assert_eq!(ix.data[0], 20);
            assert_eq!(ix.data[1], 9);
            assert_eq!(ix.data.len(), 2 + 32 + 1 + 32);
            assert_eq!(accounts, &vec![mint.to_bytes()]);
        }
        other => panic!("unexpected {:?}", other),
    }
    assert_eq!(
        process_initialize_token_mint(&pid.to_bytes(), &keys_only(&accounts[..3])).err(),
        Some(ProgramFailure::NotEnoughAccountKeys)
    );
}

#[test]
fn mint_tokens_steps() {
    let accounts = vec![account([1; 32]), account([2; 32]), account([3; 32]), account(spl_token_2022::ID.to_bytes())];
    let steps = process_mint_tokens(&program_id().to_bytes(), &accounts, 500).unwrap();
    match &steps[0] {
        Step::Invoke { instruction: Ok(ix), accounts, signer_seeds: None } => {
            let mut data = vec![14u8];
            data.extend_from_slice(&500u64.to_le_bytes());
            data.push(9);
            assert_eq!(ix.data, data);
            assert_eq!(ix.accounts[0].pubkey, [2; 32]);
            assert_eq!(ix.accounts[1].pubkey, [1; 32]);
            assert_eq!(ix.accounts[2].pubkey, [3; 32]);
            assert_eq!(accounts, &vec![[2; 32], [1; 32], [3; 32]]);
        }
        other => panic!("unexpected {:?}", other),
    }
    let mut wrong = keys_only(&accounts);
    wrong[3] = account([0; 32]);
    let steps = process_mint_tokens(&program_id().to_bytes(), &wrong, 500).unwrap();
    match &steps[0] {
        Step::Invoke { instruction, .. } => assert_eq!(instruction.as_ref().err(), Some(&ProgramFailure::Runtime(7u64 << 32))),
        other => panic!("unexpected {:?}", other),
    }
}

fn keys_only(a: &[AccountView]) -> Vec<AccountView> {
    a.iter().map(|v| account(v.key)).collect()
}

#[test]
fn extra_account_meta_list_steps() {
    let pid = program_id();
    let mint = [6u8; 32];
    let (list, bump) = Pubkey::find_program_address(&[b"extra-account-metas", &mint], &pid);
    let accounts = vec![account([1; 32]), account(list.to_bytes()), account(mint)];
    let steps = process_initialize_extra_account_meta_list(&pid.to_bytes(), &accounts).unwrap();
    assert_eq!(steps.len(), 2);
    match &steps[0] {
        Step::CreateAccount { new_account, space, owner, signer_seeds, .. } => {
            assert_eq!(*new_account, list.to_bytes());
            assert_eq!(*space, 16);
            assert_eq!(*owner, pid.to_bytes());
            assert_eq!(signer_seeds, &vec![b"extra-account-metas".to_vec(), mint.to_vec(), vec![bump]]);
        }
        other => panic!("unexpected {:?}", other),
    }
    match &steps[1] {
        Step::WriteData { account, data } => {
            assert_eq!(*account, list.to_bytes());
            let mut expected = vec![0u8; 16];
            spl_tlv_account_resolution::state::ExtraAccountMetaList::init::<
                spl_transfer_hook_interface::instruction::ExecuteInstruction,
            >(&mut expected, &[])
            .unwrap();
            assert_eq!(data, &expected);
            let literal = vec![105u8, 37, 101, 197, 75, 251, 102, 26, 4, 0, 0, 0, 0, 0, 0, 0];
            assert_eq!(data, &literal);
        }
        other => panic!("unexpected {:?}", other),
    }
    assert_eq!(
        process_initialize_extra_account_meta_list(&pid.to_bytes(), &keys_only(&accounts[..2])).err(),
        Some(ProgramFailure::NotEnoughAccountKeys)
    );
}

#[test]
fn token_program_keys() {
    assert_eq!(
        spl_token::ID.to_bytes(),
        [
            6, 221, 246, 225, 215, 101, 161, 147, 217, 203, 225, 70, 206, 235, 121, 172, 28, 180, 133, 237, 95, 91,
            55, 145, 58, 140, 245, 133, 126, 255, 0, 169,
        ]
    );
    assert_eq!(
        spl_token_2022::ID.to_bytes(),
        [
            6, 221, 246, 225, 238, 117, 143, 222, 24, 66, 93, 188, 228, 108, 205, 218, 182, 26, 252, 77, 131, 185, 13,
            39, 254, 189, 249, 40, 216, 161, 139, 252,
        ]
    );
    assert_eq!(u64::from(solana_program::program_error::ProgramError::IncorrectProgramId), 30064771072);
    assert_eq!(u64::from(solana_program::program_error::ProgramError::InvalidInstructionData), 12884901888);
    assert_eq!(u64::from(solana_program::program_error::ProgramError::InvalidArgument), 8589934592);
}

#[test]
fn transfer_hook_codes() {
    let execute = TransferHookInstruction::Execute { amount: 0 }.pack();
    assert_eq!(&execute[..8], &[105, 37, 101, 197, 75, 251, 102, 26]);
    let init = TransferHookInstruction::InitializeExtraAccountMetaList { extra_account_metas: vec![] }.pack();
    assert_eq!(&init[..8], &[43, 34, 13, 49, 167, 88, 235, 235]);
    let update = TransferHookInstruction::UpdateExtraAccountMetaList { extra_account_metas: vec![] }.pack();
    assert_eq!(&update[..8], &[157, 105, 42, 146, 102, 85, 241, 174]);
}

#[test]
fn transfer_hook_list_reading() {
    let init = [43u8, 34, 13, 49, 167, 88, 235, 235];
    // no length at all: too small
    let mut data = init.to_vec();
    data.push(0);
    assert_eq!(decode_instruction(&data), Err(ProgramFailure::Runtime(1)));
    // length 0 and 10 stray bytes: too small
    let mut data = init.to_vec();
    data.extend_from_slice(&[0u8; 14]);
    assert_eq!(decode_instruction(&data), Err(ProgramFailure::Runtime(1)));
    // length 0 and 36 bytes of items: too large
    let mut data = init.to_vec();
    data.extend_from_slice(&[0u8; 40]);
    assert_eq!(decode_instruction(&data), Err(ProgramFailure::Runtime(2)));
    // length 1 and one item
    let mut data = init.to_vec();
    data.extend_from_slice(&[1, 0, 0, 0]);
    data.extend_from_slice(&[0u8; 35]);
    assert!(!claim_curve::outside::declares_missing_account_metas(&data));
    assert_eq!(decode_instruction(&data), Ok(Instructions::InitializeExtraAccountMetaList));
    // length 1 and no item: reading it panics, so the entry leaves it out
    let mut data = init.to_vec();
    data.extend_from_slice(&[1, 0, 0, 0]);
    assert!(claim_curve::outside::declares_missing_account_metas(&data));
    let mut update = vec![157u8, 105, 42, 146, 102, 85, 241, 174, 2, 0, 0, 0];
    update.extend_from_slice(&[0u8; 35]);
    assert!(claim_curve::outside::declares_missing_account_metas(&update));
    let mut execute = vec![105u8, 37, 101, 197, 75, 251, 102, 26, 9, 0, 0, 0];
    assert!(!claim_curve::outside::declares_missing_account_metas(&execute));
    assert_eq!(decode_instruction(&execute), Err(ProgramFailure::Runtime(3u64 << 32)));
    execute.extend_from_slice(&[0u8; 4]);
    assert_eq!(decode_instruction(&execute), Ok(Instructions::Execute { amount: 9 }));
    execute.push(7);
    assert_eq!(decode_instruction(&execute), Ok(Instructions::Execute { amount: 9 }));
}
