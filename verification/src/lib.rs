//! Verified core of a small family of Solana programs: a claim state machine
//! whose price doubles on every timely claim and decays with waiting, the
//! byte layouts of its accounts and instructions, and the account checks and
//! cross-program steps that each instruction performs.
//!
//! Handlers take the accounts as plain values (`AccountView`) and hand back
//! the steps for the runtime (`Step`), in order; carrying the steps out is
//! left to the caller.
use vstd::prelude::*;

pub mod runtime;
pub mod seeds;
pub mod outside;
pub mod state;
pub mod main_program;
pub mod token_hook;

pub use state::StateAccount;
use runtime::{AccountView, Key, ProgramFailure, Step, StepSpec, plan_view, steps_view};
use outside::{address_of, find_address, initialize_mint2_result, mint_len, token_initialize_mint2,
    transfer_hook_initialize, transfer_hook_initialize_result};
use seeds::{state_seed, state_seed_bytes, token_authority_seed, token_authority_seed_bytes,
    token_mint_seed, token_mint_seed_bytes};
use state::{claim_step, state_bytes, state_from_bytes};

verus! {

/// The instructions of the single-crate program.
#[derive(Debug, Clone, Copy, PartialEq, Eq, Structural)]
pub enum Instructions {
    Initialize,
    Claim,
}

/// The instruction that `data` holds: exactly one byte, 0 or 1.
pub open spec fn instruction_from_bytes(data: Seq<u8>) -> Option<Instructions> {
    if data.len() == 1 && data[0] == 0 {
        Some(Instructions::Initialize)
    } else if data.len() == 1 && data[0] == 1 {
        Some(Instructions::Claim)
    } else {
        None
    }
}

/// The bytes of an instruction: its tag.
pub open spec fn instruction_bytes(i: Instructions) -> Seq<u8> {
    match i {
        Instructions::Initialize => seq![0u8],
        Instructions::Claim => seq![1u8],
    }
}

impl Instructions {
    /// Reads an instruction; anything but one byte 0 or 1 is a
    /// `BorshIoError`.
    pub fn try_from_slice(data: &[u8]) -> (r: Result<Instructions, ProgramFailure>)
        ensures
            match instruction_from_bytes(data@) {
                Some(i) => r == Ok::<Instructions, ProgramFailure>(i),
                None => r == Err::<Instructions, ProgramFailure>(ProgramFailure::BorshIoError),
            },
    {
        if data.len() != 1 {
            Err(ProgramFailure::BorshIoError)
        } else if data[0] == 0 {
            Ok(Instructions::Initialize)
        } else if data[0] == 1 {
            Ok(Instructions::Claim)
        } else {
            Err(ProgramFailure::BorshIoError)
        }
    }

    /// The instruction's bytes, by `instruction_bytes`.
    pub fn serialize(&self) -> (r: Vec<u8>)
        ensures
            r@ == instruction_bytes(*self),
    {
        let r: Vec<u8> = match self {
            Instructions::Initialize => vec![0u8],
            Instructions::Claim => vec![1u8],
        };
        assert(r@ =~= instruction_bytes(*self));
        r
    }
}

/// Reading back the bytes of an instruction gives that instruction, and only
/// its bytes read as it.
pub proof fn lemma_instruction_bytes_roundtrip(i: Instructions, data: Seq<u8>)
    ensures
        instruction_from_bytes(instruction_bytes(i)) == Some(i),
        instruction_from_bytes(data) == Some(i) ==> data == instruction_bytes(i),
{
    if instruction_from_bytes(data) == Some(i) {
        assert(data =~= instruction_bytes(i));
    }
}

/// The program's error numbers, reported as `Custom` failures.
#[derive(Debug, Clone, Copy, PartialEq, Eq, Structural)]
pub enum ErrorCode {
    AccountNeedsToBeSigner,
    Immutable,
    InvalidStateAccount,
    AccountAlreadyIntialized,
    AccountNotExecutable,
    InvalidSystemProgram,
    InvalidAccountType,
    Invalid,
    InvalidMintAuthority,
    InvalidTokenMint,
    InvalidTokenProgram,
}

/// The number of an error: its place in the declaration, from 0.
pub open spec fn error_number(e: ErrorCode) -> u32 {
    match e {
        ErrorCode::AccountNeedsToBeSigner => 0,
        ErrorCode::Immutable => 1,
        ErrorCode::InvalidStateAccount => 2,
        ErrorCode::AccountAlreadyIntialized => 3,
        ErrorCode::AccountNotExecutable => 4,
        ErrorCode::InvalidSystemProgram => 5,
        ErrorCode::InvalidAccountType => 6,
        ErrorCode::Invalid => 7,
        ErrorCode::InvalidMintAuthority => 8,
        ErrorCode::InvalidTokenMint => 9,
        ErrorCode::InvalidTokenProgram => 10,
    }
}

/// The failure that reports `e`.
pub open spec fn custom(e: ErrorCode) -> ProgramFailure {
    ProgramFailure::Custom(error_number(e))
}

impl ErrorCode {
    /// The error's number, by `error_number`.
    pub fn as_u32(&self) -> (r: u32)
        ensures
            r == error_number(*self),
    {
        match self {
            ErrorCode::AccountNeedsToBeSigner => 0,
            ErrorCode::Immutable => 1,
            ErrorCode::InvalidStateAccount => 2,
            ErrorCode::AccountAlreadyIntialized => 3,
            ErrorCode::AccountNotExecutable => 4,
            ErrorCode::InvalidSystemProgram => 5,
            ErrorCode::InvalidAccountType => 6,
            ErrorCode::Invalid => 7,
            ErrorCode::InvalidMintAuthority => 8,
            ErrorCode::InvalidTokenMint => 9,
            ErrorCode::InvalidTokenProgram => 10,
        }
    }

    /// The failure that reports this error.
    pub fn failure(&self) -> (r: ProgramFailure)
        ensures
            r == custom(*self),
    {
        ProgramFailure::Custom(self.as_u32())
    }
}

/// The accounts of `Initialize` checked in the program's order: the signer
/// (a writable signer), the state account (writable, at the "state" address,
/// empty), the token program (executable), the mint (writable, at the
/// "token-mint" address), the mint authority (at the "token-authority"
/// address) and the system program (executable). On success, the bumps of
/// the state and mint addresses.
pub open spec fn initialize_state_check(program_id: Key, a: Seq<AccountView>) -> Result<(u8, u8), ProgramFailure> {
    if a.len() < 1 {
        Err(ProgramFailure::NotEnoughAccountKeys)
    } else if !a[0].is_signer {
        Err(custom(ErrorCode::AccountNeedsToBeSigner))
    } else if !a[0].is_writable {
        Err(custom(ErrorCode::Immutable))
    } else if a.len() < 2 {
        Err(ProgramFailure::NotEnoughAccountKeys)
    } else if !a[1].is_writable {
        Err(custom(ErrorCode::Immutable))
    } else {
        match address_of(seq![state_seed()], program_id) {
            Err(e) => Err(e),
            Ok((state_address, state_bump)) => if a[1].key@ != state_address {
                Err(custom(ErrorCode::InvalidStateAccount))
            } else if a[1].data@.len() != 0 {
                Err(custom(ErrorCode::AccountAlreadyIntialized))
            } else if a.len() < 3 {
                Err(ProgramFailure::NotEnoughAccountKeys)
            } else if !a[2].executable {
                Err(custom(ErrorCode::AccountNotExecutable))
            } else if a.len() < 4 {
                Err(ProgramFailure::NotEnoughAccountKeys)
            } else if !a[3].is_writable {
                Err(custom(ErrorCode::Immutable))
            } else {
                match address_of(seq![token_mint_seed()], program_id) {
                    Err(e) => Err(e),
                    Ok((mint_address, mint_bump)) => if a[3].key@ != mint_address {
                        Err(custom(ErrorCode::InvalidTokenMint))
                    } else if a.len() < 5 {
                        Err(ProgramFailure::NotEnoughAccountKeys)
                    } else {
                        match address_of(seq![token_authority_seed()], program_id) {
                            Err(e) => Err(e),
                            Ok((authority_address, _)) => if a[4].key@ != authority_address {
                                Err(custom(ErrorCode::InvalidMintAuthority))
                            } else if a.len() < 6 {
                                Err(ProgramFailure::NotEnoughAccountKeys)
                            } else if !a[5].executable {
                                Err(custom(ErrorCode::AccountNotExecutable))
                            } else {
                                Ok((state_bump, mint_bump))
                            },
                        }
                    },
                }
            },
        }
    }
}

/// A fresh state account, created at `slot`.
pub open spec fn initial_state(bump: u8, slot: u64) -> StateAccount {
    StateAccount {
        discriminator: 0,
        bump,
        prev_height: 0,
        last_height: 0,
        next_height: 0,
        last_value: 0,
        next_value: 0,
        last_slot: slot,
    }
}

/// The steps of `Initialize` once its accounts passed: create the state
/// account (29 bytes, owned by the program) and the mint (82 + 152 bytes,
/// owned by the token program), give the mint a transfer hook to this
/// program, initialize it with the authority for minting and freezing and 9
/// decimals, and write the fresh state.
pub open spec fn initialize_state_steps(
    program_id: Key,
    a: Seq<AccountView>,
    state_bump: u8,
    mint_bump: u8,
    slot: u64,
) -> Seq<StepSpec> {
    let signer = a[0].key;
    let state_account = a[1].key;
    let token_program = a[2].key;
    let token_mint = a[3].key;
    let authority = a[4].key;
    seq![
        StepSpec::CreateAccount {
            payer: signer,
            new_account: state_account,
            space: 29,
            owner: program_id,
            signer_seeds: seq![state_seed(), seq![state_bump]],
        },
        StepSpec::CreateAccount {
            payer: signer,
            new_account: token_mint,
            space: 234,
            owner: token_program,
            signer_seeds: seq![token_mint_seed(), seq![mint_bump]],
        },
        StepSpec::Invoke {
            instruction: transfer_hook_initialize_result(token_program, token_mint, None, Some(program_id)),
            accounts: seq![token_mint],
            signer_seeds: None,
        },
        StepSpec::Invoke {
            instruction: initialize_mint2_result(token_program, token_mint, authority, Some(authority), 9),
            accounts: seq![token_mint],
            signer_seeds: None,
        },
        StepSpec::WriteData { account: state_account, data: state_bytes(initial_state(state_bump, slot)) },
    ]
}

/// Checks the accounts of `Initialize`, by `initialize_state_check`.
pub fn check_initialize_state(program_id: &Key, accounts: &Vec<AccountView>) -> (r: Result<(u8, u8), ProgramFailure>)
    ensures
        r == initialize_state_check(*program_id, accounts@),
{
    if accounts.len() < 1 {
        return Err(ProgramFailure::NotEnoughAccountKeys);
    }
    let signer = &accounts[0];
    if !signer.is_signer {
        return Err(ErrorCode::AccountNeedsToBeSigner.failure());
    }
    if !signer.is_writable {
        return Err(ErrorCode::Immutable.failure());
    }
    if accounts.len() < 2 {
        return Err(ProgramFailure::NotEnoughAccountKeys);
    }
    let state_account = &accounts[1];
    if !state_account.is_writable {
        return Err(ErrorCode::Immutable.failure());
    }
    let seeds = runtime::seed_list(state_seed_bytes(), None, None);
    assert(seeds.deep_view() =~= seq![state_seed()]);
    let (state_address, state_bump) = find_address(&seeds, program_id)?;
    if !runtime::same_key(&state_account.key, &state_address) {
        return Err(ErrorCode::InvalidStateAccount.failure());
    }
    if state_account.data.len() != 0 {
        return Err(ErrorCode::AccountAlreadyIntialized.failure());
    }
    if accounts.len() < 3 {
        return Err(ProgramFailure::NotEnoughAccountKeys);
    }
    if !accounts[2].executable {
        return Err(ErrorCode::AccountNotExecutable.failure());
    }
    if accounts.len() < 4 {
        return Err(ProgramFailure::NotEnoughAccountKeys);
    }
    let token_mint = &accounts[3];
    if !token_mint.is_writable {
        return Err(ErrorCode::Immutable.failure());
    }
    let seeds = runtime::seed_list(token_mint_seed_bytes(), None, None);
    assert(seeds.deep_view() =~= seq![token_mint_seed()]);
    let (mint_address, mint_bump) = find_address(&seeds, program_id)?;
    if !runtime::same_key(&token_mint.key, &mint_address) {
        return Err(ErrorCode::InvalidTokenMint.failure());
    }
    if accounts.len() < 5 {
        return Err(ProgramFailure::NotEnoughAccountKeys);
    }
    let seeds = runtime::seed_list(token_authority_seed_bytes(), None, None);
    assert(seeds.deep_view() =~= seq![token_authority_seed()]);
    let (authority_address, _) = find_address(&seeds, program_id)?;
    if !runtime::same_key(&accounts[4].key, &authority_address) {
        return Err(ErrorCode::InvalidMintAuthority.failure());
    }
    if accounts.len() < 6 {
        return Err(ProgramFailure::NotEnoughAccountKeys);
    }
    if !accounts[5].executable {
        return Err(ErrorCode::AccountNotExecutable.failure());
    }
    Ok((state_bump, mint_bump))
}

/// The steps of `Initialize` for accounts that passed, with the clock at
/// `slot`, by `initialize_state_steps`.
pub fn initialize_state_plan(
    program_id: &Key,
    accounts: &Vec<AccountView>,
    state_bump: u8,
    mint_bump: u8,
    slot: u64,
) -> (steps: Vec<Step>)
    requires
        accounts@.len() >= 6,
    ensures
        steps_view(steps@) == initialize_state_steps(*program_id, accounts@, state_bump, mint_bump, slot),
{
    let signer = accounts[0].key;
    let state_account = accounts[1].key;
    let token_program = accounts[2].key;
    let token_mint = accounts[3].key;
    let authority = accounts[4].key;
    let account_data = StateAccount {
        discriminator: StateAccount::DISCRIMINATOR as u8,
        bump: state_bump,
        prev_height: 0,
        last_height: 0,
        next_height: 0,
        last_value: 0,
        next_value: 0,
        last_slot: slot,
    };
    let mint_space = mint_len() + 152;
    let mut steps: Vec<Step> = Vec::new();
    let state_seeds = runtime::seed_list(state_seed_bytes(), Some(runtime::byte_seed(state_bump)), None);
    steps.push(Step::CreateAccount {
        payer: signer,
        new_account: state_account,
        space: StateAccount::LEN as u64,
        owner: *program_id,
        signer_seeds: state_seeds,
    });
    let mint_seeds = runtime::seed_list(token_mint_seed_bytes(), Some(runtime::byte_seed(mint_bump)), None);
    steps.push(Step::CreateAccount {
        payer: signer,
        new_account: token_mint,
        space: mint_space as u64,
        owner: token_program,
        signer_seeds: mint_seeds,
    });
    steps.push(Step::Invoke {
        instruction: transfer_hook_initialize(&token_program, &token_mint, None, Some(*program_id)),
        accounts: vec![token_mint],
        signer_seeds: None,
    });
    steps.push(Step::Invoke {
        instruction: token_initialize_mint2(&token_program, &token_mint, &authority, Some(authority), 9),
        accounts: vec![token_mint],
        signer_seeds: None,
    });
    steps.push(Step::WriteData { account: state_account, data: account_data.serialize() });
    let ghost expected = initialize_state_steps(*program_id, accounts@, state_bump, mint_bump, slot);
    assert(steps_view(steps@)[0] == expected[0]) by {
        assert(steps@[0]->CreateAccount_signer_seeds.deep_view() =~= seq![state_seed(), seq![state_bump]]);
    }
    assert(steps_view(steps@)[1] == expected[1]) by {
        assert(steps@[1]->CreateAccount_signer_seeds.deep_view() =~= seq![token_mint_seed(), seq![mint_bump]]);
    }
    assert(steps_view(steps@)[2] == expected[2]) by {
        assert(steps@[2]->Invoke_accounts@ =~= seq![token_mint]);
    }
    assert(steps_view(steps@)[3] == expected[3]) by {
        assert(steps@[3]->Invoke_accounts@ =~= seq![token_mint]);
    }
    assert(steps_view(steps@) =~= expected);
    steps
}

/// What `Initialize` may hand back: the failure of the account checks;
/// else the steps of `initialize_state_steps` for some slot, or a failure of
/// the runtime (reading the clock).
pub open spec fn initialize_state_result(
    program_id: Key,
    a: Seq<AccountView>,
    r: Result<Seq<StepSpec>, ProgramFailure>,
) -> bool {
    match initialize_state_check(program_id, a) {
        Err(e) => r == Err::<Seq<StepSpec>, ProgramFailure>(e),
        Ok((state_bump, mint_bump)) => {
            &&& r is Ok ==> exists|slot: u64|
                r->Ok_0 == #[trigger] initialize_state_steps(program_id, a, state_bump, mint_bump, slot)
            &&& r is Err ==> r matches Err(ProgramFailure::Runtime(_))
        },
    }
}

/// Handles `Initialize`: checks the accounts (`initialize_state_check`), reads
/// the clock, and hands back the steps of `initialize_state_steps` for the
/// slot read; where the clock cannot be read, its error.
pub fn process_initialize_state(program_id: &Key, accounts: &Vec<AccountView>) -> (r: Result<Vec<Step>, ProgramFailure>)
    ensures
        initialize_state_result(*program_id, accounts@, plan_view(r)),
{
    let (state_bump, mint_bump) = check_initialize_state(program_id, accounts)?;
    let slot = match outside::current_slot() {
        Ok(slot) => slot,
        Err(code) => return Err(ProgramFailure::Runtime(code)),
    };
    Ok(initialize_state_plan(program_id, accounts, state_bump, mint_bump, slot))
}

/// The accounts of `Claim` checked in the program's order: the signer (a
/// writable signer) and the state account (writable, at the "state"
/// address, holding a state account with discriminator 0). On success, the
/// state read.
pub open spec fn claim_check(program_id: Key, a: Seq<AccountView>) -> Result<StateAccount, ProgramFailure> {
    if a.len() < 1 {
        Err(ProgramFailure::NotEnoughAccountKeys)
    } else if !a[0].is_signer {
        Err(custom(ErrorCode::AccountNeedsToBeSigner))
    } else if !a[0].is_writable {
        Err(custom(ErrorCode::Immutable))
    } else if a.len() < 2 {
        Err(ProgramFailure::NotEnoughAccountKeys)
    } else if !a[1].is_writable {
        Err(custom(ErrorCode::Immutable))
    } else {
        match address_of(seq![state_seed()], program_id) {
            Err(e) => Err(e),
            Ok((state_address, _)) => if a[1].key@ != state_address {
                Err(custom(ErrorCode::InvalidStateAccount))
            } else {
                match state_from_bytes(a[1].data@) {
                    None => Err(ProgramFailure::BorshIoError),
                    Some(s) => if s.discriminator != 0 {
                        Err(custom(ErrorCode::InvalidAccountType))
                    } else {
                        Ok(s)
                    },
                }
            },
        }
    }
}

/// The step of a claim: write the claimed state back to the state account.
pub open spec fn claim_steps(a: Seq<AccountView>, claimed: StateAccount) -> Seq<StepSpec> {
    seq![StepSpec::WriteData { account: a[1].key, data: state_bytes(claimed) }]
}

/// What `Claim` may hand back: the failure of the account checks; else, for
/// the slot that the clock gives, the write of the state that a claim of one
/// token makes (`claim_step`) back to the state account; or the failure of the
/// claim (`ArithmeticOverflow` where the claim at some slot has no outcome, or
/// the runtime's in reading the clock).
pub open spec fn claim_result(program_id: Key, a: Seq<AccountView>, r: Result<Seq<StepSpec>, ProgramFailure>) -> bool {
    match claim_check(program_id, a) {
        Err(e) => r == Err::<Seq<StepSpec>, ProgramFailure>(e),
        Ok(s) => {
            ||| exists|slot: u64| #[trigger] claim_step(s, slot, 1) is Some
                && r == Ok::<Seq<StepSpec>, ProgramFailure>(claim_steps(a, claim_step(s, slot, 1).unwrap().0))
            ||| r == Err::<Seq<StepSpec>, ProgramFailure>(ProgramFailure::ArithmeticOverflow)
                && exists|slot: u64| #[trigger] claim_step(s, slot, 1) is None
            ||| r matches Err(ProgramFailure::Runtime(_))
        },
    }
}

/// Checks the accounts of `Claim` and reads the state, by `claim_check`.
pub fn check_claim(program_id: &Key, accounts: &Vec<AccountView>) -> (r: Result<StateAccount, ProgramFailure>)
    ensures
        r == claim_check(*program_id, accounts@),
{
    if accounts.len() < 1 {
        return Err(ProgramFailure::NotEnoughAccountKeys);
    }
    let signer = &accounts[0];
    if !signer.is_signer {
        return Err(ErrorCode::AccountNeedsToBeSigner.failure());
    }
    if !signer.is_writable {
        return Err(ErrorCode::Immutable.failure());
    }
    if accounts.len() < 2 {
        return Err(ProgramFailure::NotEnoughAccountKeys);
    }
    let state_account = &accounts[1];
    if !state_account.is_writable {
        return Err(ErrorCode::Immutable.failure());
    }
    let seeds = runtime::seed_list(state_seed_bytes(), None, None);
    assert(seeds.deep_view() =~= seq![state_seed()]);
    let (state_address, _) = find_address(&seeds, program_id)?;
    if !runtime::same_key(&state_account.key, &state_address) {
        return Err(ErrorCode::InvalidStateAccount.failure());
    }
    let account_data = StateAccount::try_from_slice(state_account.data.as_slice())?;
    if account_data.discriminator != StateAccount::DISCRIMINATOR as u8 {
        return Err(ErrorCode::InvalidAccountType.failure());
    }
    Ok(account_data)
}

/// Handles `Claim`: checks the accounts, claims one token on the state read
/// and writes the claimed state back, by `claim_result`.
pub fn process_claim(program_id: &Key, accounts: &Vec<AccountView>) -> (r: Result<Vec<Step>, ProgramFailure>)
    ensures
        claim_result(*program_id, accounts@, plan_view(r)),
{
    let mut account_data = check_claim(program_id, accounts)?;
    let ghost s = account_data;
    let amount: u64 = 1;
    account_data.claim(amount)?;
    let mut steps: Vec<Step> = Vec::new();
    steps.push(Step::WriteData { account: accounts[1].key, data: account_data.serialize() });
    assert(steps_view(steps@) =~= claim_steps(accounts@, account_data));
    proof {
        let slot = choose|slot: u64| #[trigger] claim_step(s, slot, amount) is Some
            && claim_step(s, slot, amount).unwrap().0 == account_data;
        assert(claim_step(s, slot, 1) is Some);
    }
    Ok(steps)
}

/// The one step of `initialize_hook`: invoke the transfer-hook `Initialize`
/// of the token program on the mint.
pub open spec fn initialize_hook_steps(
    token_program_id: Key,
    mint: Key,
    authority: Option<Key>,
    transfer_hook_program_id: Option<Key>,
) -> Seq<StepSpec> {
    seq![
        StepSpec::Invoke {
            instruction: transfer_hook_initialize_result(token_program_id, mint, authority, transfer_hook_program_id),
            accounts: seq![mint],
            signer_seeds: None,
        },
    ]
}

/// Gives `mint_info`'s mint a transfer hook, by `initialize_hook_steps`.
pub fn initialize_hook(
    token_program_id: &Key,
    mint_info: &AccountView,
    authority: Option<Key>,
    transfer_hook_program_id: Option<Key>,
) -> (steps: Vec<Step>)
    ensures
        steps_view(steps@) == initialize_hook_steps(*token_program_id, mint_info.key, authority, transfer_hook_program_id),
{
    let mut steps: Vec<Step> = Vec::new();
    steps.push(Step::Invoke {
        instruction: transfer_hook_initialize(token_program_id, &mint_info.key, authority, transfer_hook_program_id),
        accounts: vec![mint_info.key],
        signer_seeds: None,
    });
    let ghost expected = initialize_hook_steps(*token_program_id, mint_info.key, authority, transfer_hook_program_id);
    assert(steps_view(steps@)[0] == expected[0]) by {
        assert(steps@[0]->Invoke_accounts@ =~= seq![mint_info.key]);
    }
    assert(steps_view(steps@) =~= expected);
    steps
}

/// Reads the instruction and runs its handler: `Initialize` as
/// `process_initialize_state`, `Claim` as `process_claim`; bytes that are no
/// instruction are a `BorshIoError`.
pub fn process_instruction(
    program_id: &Key,
    accounts: &Vec<AccountView>,
    instruction_data: &[u8],
) -> (r: Result<Vec<Step>, ProgramFailure>)
    ensures
        match instruction_from_bytes(instruction_data@) {
            None => r == Err::<Vec<Step>, ProgramFailure>(ProgramFailure::BorshIoError),
            Some(Instructions::Initialize) => initialize_state_result(*program_id, accounts@, plan_view(r)),
            Some(Instructions::Claim) => claim_result(*program_id, accounts@, plan_view(r)),
        },
{
    let instruction = Instructions::try_from_slice(instruction_data)?;
    match instruction {
        Instructions::Initialize => process_initialize_state(program_id, accounts),
        Instructions::Claim => process_claim(program_id, accounts),
    }
}

/// The state that `Initialize` writes reads back, as `Claim` reads it, as a
/// state with discriminator 0 at height 0; so the first claim from the slot
/// of creation on is free.
pub proof fn lemma_initialized_state_reads_back(bump: u8, slot: u64, claim_slot: u64)
    requires
        claim_slot >= slot,
    ensures
        state_from_bytes(state_bytes(initial_state(bump, slot))) == Some(initial_state(bump, slot)),
        initial_state(bump, slot).discriminator == StateAccount::DISCRIMINATOR,
        claim_step(initial_state(bump, slot), claim_slot, 1) is Some,
        claim_step(initial_state(bump, slot), claim_slot, 1).unwrap().0.last_value == 0,
{
    state::lemma_state_bytes_roundtrip(initial_state(bump, slot));
    state::lemma_claim_at_height_zero(initial_state(bump, slot), claim_slot, 1);
}

/// Once the steps of an `Initialize` have run, the state account holds the
/// state that they wrote, so a later `Initialize` with the same accounts
/// (signer still a writable signer, state account still writable at its
/// address) is refused with `AccountAlreadyIntialized`: the state account is
/// never initialized twice.
pub proof fn lemma_second_initialize_refused(
    program_id: Key,
    a: Seq<AccountView>,
    slot: u64,
    later: Seq<AccountView>,
)
    requires
        initialize_state_check(program_id, a) is Ok,
        later.len() == a.len(),
        later[0].key == a[0].key,
        later[0].is_signer == a[0].is_signer,
        later[0].is_writable == a[0].is_writable,
        later[1].key == a[1].key,
        later[1].is_writable == a[1].is_writable,
        ({
            let (state_bump, mint_bump) = initialize_state_check(program_id, a)->Ok_0;
            let written = initialize_state_steps(program_id, a, state_bump, mint_bump, slot)[4];
            &&& written is WriteData
            &&& written->WriteData_account == later[1].key
            &&& later[1].data@.len() >= written->WriteData_data.len()
            &&& later[1].data@.subrange(0, written->WriteData_data.len() as int) == written->WriteData_data
        }),
    ensures
        initialize_state_check(program_id, later) == Err::<(u8, u8), ProgramFailure>(
            custom(ErrorCode::AccountAlreadyIntialized),
        ),
{
    let (state_bump, _) = initialize_state_check(program_id, a)->Ok_0;
    state::lemma_state_bytes_roundtrip(initial_state(state_bump, slot));
}

/// A claim's write is what the next `Claim` reads: with the same accounts and
/// the written bytes in the state account, the next claim starts from the
/// claimed state; so the height and the price carry over from claim to claim.
pub proof fn lemma_claim_persists(program_id: Key, a: Seq<AccountView>, slot: u64, later: Seq<AccountView>)
    requires
        claim_check(program_id, a) is Ok,
        claim_step(claim_check(program_id, a)->Ok_0, slot, 1) is Some,
        later.len() == a.len(),
        later[0].key == a[0].key,
        later[0].is_signer == a[0].is_signer,
        later[0].is_writable == a[0].is_writable,
        later[1].key == a[1].key,
        later[1].is_writable == a[1].is_writable,
        ({
            let written = claim_steps(a, claim_step(claim_check(program_id, a)->Ok_0, slot, 1).unwrap().0)[0];
            &&& written->WriteData_account == later[1].key
            &&& later[1].data@ == written->WriteData_data
        }),
    ensures
        claim_check(program_id, later) == Ok::<StateAccount, ProgramFailure>(
            claim_step(claim_check(program_id, a)->Ok_0, slot, 1).unwrap().0,
        ),
{
    let n = claim_step(claim_check(program_id, a)->Ok_0, slot, 1).unwrap().0;
    state::lemma_state_bytes_roundtrip(n);
    state::lemma_claim_keeps_heights(claim_check(program_id, a)->Ok_0, slot, 1);
}

/// What a successful `Initialize` does, step by step: it creates the state
/// account (second account, 29 bytes) owned by `program_id`, so that the
/// program can write and rewrite the state, and the mint (fourth account,
/// 234 bytes) owned by the token program passed third, both paid for by the
/// signer; where the token program is Token-2022 and `program_id` is not the
/// all-zero key, it gives the mint a transfer hook to `program_id` with no
/// hook authority; where the token program is Token or Token-2022, it
/// initializes the mint with the mint authority (fifth account) for minting
/// and for freezing and 9 decimals; last, it writes to the state account a
/// fresh state at height 0, from whose slot on every claim succeeds and is
/// free.
pub proof fn lemma_initialize_state_steps_shape(
    program_id: Key,
    a: Seq<AccountView>,
    r: Result<Seq<StepSpec>, ProgramFailure>,
)
    requires
        initialize_state_result(program_id, a, r),
        r is Ok,
    ensures
        a.len() >= 6,
        ({
            let steps = r->Ok_0;
            let zero = Seq::new(32, |i: int| 0u8);
            &&& steps.len() == 5
            &&& steps[0] matches StepSpec::CreateAccount { payer, new_account, space, owner, .. }
                && payer == a[0].key
                && new_account == a[1].key
                && space == 29
                && owner == program_id
            &&& steps[1] matches StepSpec::CreateAccount { payer, new_account, space, owner, .. }
                && payer == a[0].key
                && new_account == a[3].key
                && space == 234
                && owner == a[2].key
            &&& steps[2] matches StepSpec::Invoke { instruction, accounts, signer_seeds: None }
                && accounts == seq![a[3].key]
                && (a[2].key@ == outside::token_2022_program_id() && program_id@ != zero ==> (
                    instruction matches Ok(ins)
                    && ins.program_id == a[2].key
                    && ins.accounts == seq![outside::meta(a[3].key, false, true)]
                    && ins.data == seq![36u8, 0u8] + zero + program_id@))
            &&& steps[3] matches StepSpec::Invoke { instruction, accounts, signer_seeds: None }
                && accounts == seq![a[3].key]
                && (outside::is_token_program(a[2].key) ==> (
                    instruction matches Ok(ins)
                    && ins.program_id == a[2].key
                    && ins.accounts == seq![outside::meta(a[3].key, false, true)]
                    && ins.data == seq![20u8, 9u8] + a[4].key@ + seq![1u8] + a[4].key@))
            &&& steps[4] matches StepSpec::WriteData { account, data }
                && account == a[1].key
                && (state_from_bytes(data) matches Some(s)
                && s.discriminator == 0
                && s.next_height == 0
                && s.bump == address_of(seq![state_seed()], program_id)->Ok_0.1
                && forall|slot: u64, amount: u64| #![trigger claim_step(s, slot, amount)]
                    slot >= s.last_slot ==> claim_step(s, slot, amount) is Some
                        && claim_step(s, slot, amount).unwrap().0.last_value == 0)
        }),
{
    let (state_bump, mint_bump) = initialize_state_check(program_id, a)->Ok_0;
    let slot = choose|slot: u64| r->Ok_0 == #[trigger] initialize_state_steps(program_id, a, state_bump, mint_bump, slot);
    let s = initial_state(state_bump, slot);
    state::lemma_state_bytes_roundtrip(s);
    assert forall|claim_slot: u64, amount: u64| claim_slot >= s.last_slot implies claim_step(s, claim_slot, amount) is Some
        && claim_step(s, claim_slot, amount).unwrap().0.last_value == 0 by {
        state::lemma_claim_at_height_zero(s, claim_slot, amount);
    }
    let zero = Seq::new(32, |i: int| 0u8);
    assert(outside::optional_key_bytes(None) == zero);
    assert(seq![20u8, 9u8] + a[4].key@ + (seq![1u8] + a[4].key@) =~= seq![20u8, 9u8] + a[4].key@ + seq![1u8] + a[4].key@);
}

} // verus!
