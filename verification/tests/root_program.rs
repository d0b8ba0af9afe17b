use claim_curve::runtime::{AccountView, ProgramFailure, Step};
use claim_curve::state::StateAccount;
use claim_curve::{
    check_claim, check_initialize_state, initialize_hook, initialize_state_plan, process_claim,
    process_initialize_state, process_instruction, ErrorCode, Instructions,
};
use solana_program::pubkey::Pubkey;

const TOKEN_2022: Pubkey = spl_token_2022::ID;

fn program_id() -> Pubkey {
    Pubkey::new_from_array([7u8; 32])
}

fn pda(seed: &[u8]) -> (Pubkey, u8) {
    Pubkey::find_program_address(&[seed], &program_id())
}

fn account(key: Pubkey, is_signer: bool, is_writable: bool, executable: bool, data: Vec<u8>) -> AccountView {
    AccountView { key: key.to_bytes(), is_signer, is_writable, executable, data }
}

fn initialize_accounts() -> Vec<AccountView> {
    vec![
        account(Pubkey::new_from_array([1u8; 32]), true, true, false, vec![]),
        account(pda(b"state").0, false, true, false, vec![]),
        account(TOKEN_2022, false, false, true, vec![]),
        account(pda(b"token-mint").0, false, true, false, vec![]),
        account(pda(b"token-authority").0, false, false, false, vec![]),
        account(Pubkey::new_from_array([0u8; 32]), false, false, true, vec![]),
    ]
}

#[test]
fn initialize_accounts_pass_with_the_derived_bumps() {
    let accounts = initialize_accounts();
    let r = check_initialize_state(&program_id().to_bytes(), &accounts);
    assert_eq!(r, Ok((pda(b"state").1, pda(b"token-mint").1)));
}

#[test]
fn initialize_account_checks_in_order() {
    let pid = program_id().to_bytes();
    let custom = |e: ErrorCode| Err(ProgramFailure::Custom(e.as_u32()));

    let mut a = initialize_accounts();
    a[0].is_signer = false;
    assert_eq!(check_initialize_state(&pid, &a), custom(ErrorCode::AccountNeedsToBeSigner));
    assert_eq!(ErrorCode::AccountNeedsToBeSigner.as_u32(), 0);

    let mut a = initialize_accounts();
    a[0].is_writable = false;
    assert_eq!(check_initialize_state(&pid, &a), Err(ProgramFailure::Custom(1)));

    let mut a = initialize_accounts();
    a[1].is_writable = false;
    assert_eq!(check_initialize_state(&pid, &a), custom(ErrorCode::Immutable));

    let mut a = initialize_accounts();
    a[1].key = [9u8; 32];
    assert_eq!(check_initialize_state(&pid, &a), Err(ProgramFailure::Custom(2)));

    let mut a = initialize_accounts();
    a[1].data = vec![0];
    assert_eq!(check_initialize_state(&pid, &a), Err(ProgramFailure::Custom(3)));

    let mut a = initialize_accounts();
    a[2].executable = false;
    assert_eq!(check_initialize_state(&pid, &a), Err(ProgramFailure::Custom(4)));

    let mut a = initialize_accounts();
    a[3].is_writable = false;
    assert_eq!(check_initialize_state(&pid, &a), Err(ProgramFailure::Custom(1)));

    let mut a = initialize_accounts();
    a[3].key = [9u8; 32];
    assert_eq!(check_initialize_state(&pid, &a), Err(ProgramFailure::Custom(9)));

    let mut a = initialize_accounts();
    a[4].key = [9u8; 32];
    assert_eq!(check_initialize_state(&pid, &a), Err(ProgramFailure::Custom(8)));

    let mut a = initialize_accounts();
    a[5].executable = false;
    assert_eq!(check_initialize_state(&pid, &a), Err(ProgramFailure::Custom(4)));

    for n in 0..6 {
        let mut a = initialize_accounts();
        a.truncate(n);
        assert_eq!(check_initialize_state(&pid, &a), Err(ProgramFailure::NotEnoughAccountKeys), "{} accounts", n);
    }
}

#[test]
fn initialize_plan_creates_and_initializes() {
    let accounts = initialize_accounts();
    let pid = program_id();
    let (state_key, state_bump) = pda(b"state");
    let (mint_key, mint_bump) = pda(b"token-mint");
    let authority = pda(b"token-authority").0;
    let steps = initialize_state_plan(&pid.to_bytes(), &accounts, state_bump, mint_bump, 777);
    assert_eq!(steps.len(), 5);
    match &steps[0] {
        Step::CreateAccount { payer, new_account, space, owner, signer_seeds } => {
            assert_eq!(*payer, [1u8; 32]);
            assert_eq!(*new_account, state_key.to_bytes());
            assert_eq!(*space, 29);
            assert_eq!(*owner, pid.to_bytes());
            assert_eq!(signer_seeds, &vec![b"state".to_vec(), vec![state_bump]]);
        }
        other => panic!("unexpected {:?}", other),
    }
    match &steps[1] {
        Step::CreateAccount { new_account, space, owner, signer_seeds, .. } => {
            assert_eq!(*new_account, mint_key.to_bytes());
            assert_eq!(*space, 82 + 152);
            assert_eq!(*owner, TOKEN_2022.to_bytes());
            assert_eq!(signer_seeds, &vec![b"token-mint".to_vec(), vec![mint_bump]]);
        }
        other => panic!("unexpected {:?}", other),
    }
    match &steps[2] {
        Step::Invoke { instruction: Ok(ix), accounts, signer_seeds: None } => {
            let expected = spl_token_2022::extension::transfer_hook::instruction::initialize(
                &TOKEN_2022,
                &mint_key,
                None,
                Some(pid),
            )
            .unwrap();
            assert_eq!(ix.program_id, TOKEN_2022.to_bytes());
            assert_eq!(ix.data, expected.data);
            assert_eq!(accounts, &vec![mint_key.to_bytes()]);
        }
        other => panic!("unexpected {:?}", other),
    }
    match &steps[3] {
        Step::Invoke { instruction: Ok(ix), accounts, signer_seeds: None } => {
            let mut data = vec![20u8, 9];
            data.extend_from_slice(&authority.to_bytes());
            data.push(1);
            data.extend_from_slice(&authority.to_bytes());
            assert_eq!(ix.data, data);
            assert_eq!(ix.accounts.len(), 1);
            assert_eq!(ix.accounts[0].pubkey, mint_key.to_bytes());
            assert!(ix.accounts[0].is_writable && !ix.accounts[0].is_signer);
            assert_eq!(accounts, &vec![mint_key.to_bytes()]);
        }
        other => panic!("unexpected {:?}", other),
    }
    match &steps[4] {
        Step::WriteData { account, data } => {
            assert_eq!(*account, state_key.to_bytes());
            let written = StateAccount::try_from_slice(data).unwrap();
            assert_eq!(written.bump, state_bump);
            assert_eq!(written.last_slot, 777);
            assert_eq!(written.next_height, 0);
            assert_eq!(written.next_value, 0);
        }
        other => panic!("unexpected {:?}", other),
    }
}

#[test]
fn initialize_plan_with_the_wrong_token_program_fails_at_its_invoke() {
    let mut accounts = initialize_accounts();
    accounts[2].key = spl_token::ID.to_bytes();
    let steps = initialize_state_plan(&program_id().to_bytes(), &accounts, 1, 2, 3);
    match &steps[2] {
        Step::Invoke { instruction, .. } => {
            assert_eq!(instruction.as_ref().err(), Some(&ProgramFailure::Runtime(7u64 << 32)))
        }
        other => panic!("unexpected {:?}", other),
    }
    match &steps[3] {
        Step::Invoke { instruction, .. } => assert!(instruction.is_ok()),
        other => panic!("unexpected {:?}", other),
    }
}

#[test]
fn initialize_needs_the_clock() {
    let accounts = initialize_accounts();
    let r = process_initialize_state(&program_id().to_bytes(), &accounts);
    assert_eq!(r.err(), Some(ProgramFailure::Runtime(17u64 << 32)));
}

fn claim_accounts(state: &StateAccount) -> Vec<AccountView> {
    vec![
        account(Pubkey::new_from_array([1u8; 32]), true, true, false, vec![]),
        account(pda(b"state").0, false, true, false, state.serialize()),
    ]
}

fn stored_state() -> StateAccount {
    StateAccount {
        discriminator: 0,
        bump: pda(b"state").1,
        prev_height: 0,
        last_height: 0,
        next_height: 0,
        last_value: 0,
        next_value: 0,
        last_slot: 0,
    }
}

#[test]
fn claim_checks_read_the_state() {
    let pid = program_id().to_bytes();
    let s = stored_state();
    assert_eq!(check_claim(&pid, &claim_accounts(&s)), Ok(s));

    let mut other = s;
    other.discriminator = 1;
    assert_eq!(check_claim(&pid, &claim_accounts(&other)), Err(ProgramFailure::Custom(6)));

    let mut a = claim_accounts(&s);
    a[1].data.pop();
    assert_eq!(check_claim(&pid, &a), Err(ProgramFailure::BorshIoError));

    let mut a = claim_accounts(&s);
    a[1].key = [3u8; 32];
    assert_eq!(check_claim(&pid, &a), Err(ProgramFailure::Custom(2)));

    let mut a = claim_accounts(&s);
    a[1].is_writable = false;
    assert_eq!(check_claim(&pid, &a), Err(ProgramFailure::Custom(1)));

    let mut a = claim_accounts(&s);
    a.truncate(1);
    assert_eq!(check_claim(&pid, &a), Err(ProgramFailure::NotEnoughAccountKeys));
}

#[test]
fn claim_needs_the_clock() {
    let s = stored_state();
    let r = process_claim(&program_id().to_bytes(), &claim_accounts(&s));
    assert_eq!(r.err(), Some(ProgramFailure::Runtime(17u64 << 32)));
}

#[test]
fn instruction_bytes() {
    assert_eq!(Instructions::try_from_slice(&[0]), Ok(Instructions::Initialize));
    assert_eq!(Instructions::try_from_slice(&[1]), Ok(Instructions::Claim));
    assert_eq!(Instructions::try_from_slice(&[2]), Err(ProgramFailure::BorshIoError));
    assert_eq!(Instructions::try_from_slice(&[]), Err(ProgramFailure::BorshIoError));
    assert_eq!(Instructions::try_from_slice(&[0, 0]), Err(ProgramFailure::BorshIoError));
    for i in [Instructions::Initialize, Instructions::Claim] {
        assert_eq!(Instructions::try_from_slice(&i.serialize()), Ok(i));
    }
}

#[test]
fn process_instruction_dispatches() {
    let pid = program_id().to_bytes();
    let r = process_instruction(&pid, &initialize_accounts(), &[7]);
    assert_eq!(r.err(), Some(ProgramFailure::BorshIoError));
    let mut a = initialize_accounts();
    a[0].is_signer = false;
    assert_eq!(process_instruction(&pid, &a, &[0]).err(), Some(ProgramFailure::Custom(0)));
    let s = stored_state();
    let mut a = claim_accounts(&s);
    a[0].is_writable = false;
    assert_eq!(process_instruction(&pid, &a, &[1]).err(), Some(ProgramFailure::Custom(1)));
}

#[test]
fn initialize_hook_invokes_the_extension() {
    let mint = account(Pubkey::new_from_array([4u8; 32]), false, true, false, vec![]);
    let steps = initialize_hook(&TOKEN_2022.to_bytes(), &mint, None, Some([5u8; 32]));
    assert_eq!(steps.len(), 1);
    match &steps[0] {
        Step::Invoke { instruction: Ok(ix), accounts, signer_seeds: None } => {
            assert_eq!(ix.accounts.len(), 1);
            assert_eq!(ix.accounts[0].pubkey, [4u8; 32]);
            let mut data = vec![36u8, 0];
            data.extend_from_slice(&[0u8; 32]);
            data.extend_from_slice(&[5u8; 32]);
            assert_eq!(ix.data, data);
            assert!(ix.accounts[0].is_writable);
            assert_eq!(accounts, &vec![[4u8; 32]]);
        }
        other => panic!("unexpected {:?}", other),
    }
    let steps = initialize_hook(&[0u8; 32], &mint, None, None);
    match &steps[0] {
        Step::Invoke { instruction, .. } => {
            assert_eq!(instruction.as_ref().err(), Some(&ProgramFailure::Runtime(7u64 << 32)))
        }
        other => panic!("unexpected {:?}", other),
    }
    let steps = initialize_hook(&TOKEN_2022.to_bytes(), &mint, Some([0u8; 32]), None);
    match &steps[0] {
        Step::Invoke { instruction, .. } => {
            assert_eq!(instruction.as_ref().err(), Some(&ProgramFailure::Runtime(2u64 << 32)))
        }
        other => panic!("unexpected {:?}", other),
    }
}

#[test]
fn second_initialize_is_refused() {
    let pid = program_id().to_bytes();
    let accounts = initialize_accounts();
    let (state_bump, mint_bump) = check_initialize_state(&pid, &accounts).unwrap();
    let steps = initialize_state_plan(&pid, &accounts, state_bump, mint_bump, 10);
    let written = match &steps[4] {
        Step::WriteData { data, .. } => data.clone(),
        other => panic!("unexpected {:?}", other),
    };
    let mut later = initialize_accounts();
    later[1].data = written;
    assert_eq!(check_initialize_state(&pid, &later), Err(ProgramFailure::Custom(3)));
}
