//! The claim program's handlers: account checks, the state update, and the
//! payments and mints that a claim makes.
use vstd::prelude::*;
use vstd::bytes::spec_u64_to_le_bytes;
use crate::runtime::{self, AccountView, Key, ProgramFailure, Step, StepSpec, plan_view, steps_view};
use crate::outside::{address_of, find_address, meta, token_transfer_checked, transfer_checked_result};
use crate::runtime::InstructionSpec;
use crate::seeds::{state_seed, state_seed_bytes, token_authority_seed, token_authority_seed_bytes};
use crate::main_program::state::{StateAccount, state_bytes, state_from_bytes, update_step};
use crate::main_program::state;
use crate::token_hook::instruction::{mint_to, mint_to_instruction};

verus! {

/// The claim program's error numbers, reported as `Custom` failures.
#[derive(Debug, Clone, Copy, PartialEq, Eq, Structural)]
pub enum ErrorCode {
    AccountNeedsToBeSigner,
    Immutable,
    InvalidStateAccount,
    InvalidAccountType,
}

/// The number of an error: its place in the declaration, from 0.
pub open spec fn error_number(e: ErrorCode) -> u32 {
    match e {
        ErrorCode::AccountNeedsToBeSigner => 0,
        ErrorCode::Immutable => 1,
        ErrorCode::InvalidStateAccount => 2,
        ErrorCode::InvalidAccountType => 3,
    }
}

/// The failure that reports `e`.
pub open spec fn custom(e: ErrorCode) -> ProgramFailure {
    ProgramFailure::Custom(error_number(e))
}

impl ErrorCode {
    /// The error's number, by `error_number`.
    pub fn as_u32(&self) -> (r: u32)
        ensures
            r == error_number(*self),
    {
        match self {
            ErrorCode::AccountNeedsToBeSigner => 0,
            ErrorCode::Immutable => 1,
            ErrorCode::InvalidStateAccount => 2,
            ErrorCode::InvalidAccountType => 3,
        }
    }

    /// The failure that reports this error.
    pub fn failure(&self) -> (r: ProgramFailure)
        ensures
            r == custom(*self),
    {
        ProgramFailure::Custom(self.as_u32())
    }
}

/// The instructions of the claim program.
#[derive(Debug, Clone, Copy, PartialEq, Eq, Structural)]
pub enum Instructions {
    Initialize,
    Claim,
}

/// The instruction that `data` holds: exactly one byte, 0 or 1.
pub open spec fn instruction_from_bytes(data: Seq<u8>) -> Option<Instructions> {
    if data.len() == 1 && data[0] == 0 {
        Some(Instructions::Initialize)
    } else if data.len() == 1 && data[0] == 1 {
        Some(Instructions::Claim)
    } else {
        None
    }
}

/// The bytes of an instruction: its tag.
pub open spec fn instruction_bytes(i: Instructions) -> Seq<u8> {
    match i {
        Instructions::Initialize => seq![0u8],
        Instructions::Claim => seq![1u8],
    }
}

impl Instructions {
    /// Reads an instruction; anything but one byte 0 or 1 is a
    /// `BorshIoError`.
    pub fn try_from_slice(data: &[u8]) -> (r: Result<Instructions, ProgramFailure>)
        ensures
            match instruction_from_bytes(data@) {
                Some(i) => r == Ok::<Instructions, ProgramFailure>(i),
                None => r == Err::<Instructions, ProgramFailure>(ProgramFailure::BorshIoError),
            },
    {
        if data.len() != 1 {
            Err(ProgramFailure::BorshIoError)
        } else if data[0] == 0 {
            Ok(Instructions::Initialize)
        } else if data[0] == 1 {
            Ok(Instructions::Claim)
        } else {
            Err(ProgramFailure::BorshIoError)
        }
    }

    /// The instruction's bytes, by `instruction_bytes`.
    pub fn serialize(&self) -> (r: Vec<u8>)
        ensures
            r@ == instruction_bytes(*self),
    {
        let r: Vec<u8> = match self {
            Instructions::Initialize => vec![0u8],
            Instructions::Claim => vec![1u8],
        };
        assert(r@ =~= instruction_bytes(*self));
        r
    }
}

/// Reading back the bytes of an instruction gives that instruction, and only
/// its bytes read as it.
pub proof fn lemma_instruction_bytes_roundtrip(i: Instructions, data: Seq<u8>)
    ensures
        instruction_from_bytes(instruction_bytes(i)) == Some(i),
        instruction_from_bytes(data) == Some(i) ==> data == instruction_bytes(i),
{
    if instruction_from_bytes(data) == Some(i) {
        assert(data =~= instruction_bytes(i));
    }
}

/// The accounts of `Initialize`: a payer, the state account and the system
/// program, none of them checked; on success, the bump of the "state"
/// address.
pub open spec fn initialize_check(program_id: Key, a: Seq<AccountView>) -> Result<u8, ProgramFailure> {
    if a.len() < 3 {
        Err(ProgramFailure::NotEnoughAccountKeys)
    } else {
        match address_of(seq![state_seed()], program_id) {
            Err(e) => Err(e),
            Ok((_, bump)) => Ok(bump),
        }
    }
}

/// A fresh state account, created at `slot`.
pub open spec fn initial_state(bump: u8, slot: u64) -> StateAccount {
    StateAccount {
        discriminator: 0,
        bump,
        prev_height: 0,
        last_height: 0,
        next_height: 0,
        accummulated_depth: 0,
        last_value: 0,
        next_value: 0,
        last_slot: slot,
        total_contributions: 0,
        total_claimed: 0,
    }
}

/// The steps of `Initialize`: create the state account (47 bytes, owned by
/// the program, signed for with the "state" seed) and write the fresh state.
pub open spec fn initialize_steps(program_id: Key, a: Seq<AccountView>, bump: u8, slot: u64) -> Seq<StepSpec> {
    seq![
        StepSpec::CreateAccount {
            payer: a[0].key,
            new_account: a[1].key,
            space: 47,
            owner: program_id,
            signer_seeds: seq![state_seed(), seq![bump]],
        },
        StepSpec::WriteData { account: a[1].key, data: state_bytes(initial_state(bump, slot)) },
    ]
}

/// What `Initialize` may hand back: the failure of `initialize_check`; else
/// the steps of `initialize_steps` for some slot, or a failure of the
/// runtime (reading the clock).
pub open spec fn initialize_result(program_id: Key, a: Seq<AccountView>, r: Result<Seq<StepSpec>, ProgramFailure>) -> bool {
    match initialize_check(program_id, a) {
        Err(e) => r == Err::<Seq<StepSpec>, ProgramFailure>(e),
        Ok(bump) => {
            &&& r is Ok ==> exists|slot: u64| r->Ok_0 == #[trigger] initialize_steps(program_id, a, bump, slot)
            &&& r is Err ==> r matches Err(ProgramFailure::Runtime(_))
        },
    }
}

/// The steps of `Initialize` with the clock at `slot`, by
/// `initialize_steps`.
pub fn initialize_plan(program_id: &Key, accounts: &Vec<AccountView>, bump: u8, slot: u64) -> (steps: Vec<Step>)
    requires
        accounts@.len() >= 3,
    ensures
        steps_view(steps@) == initialize_steps(*program_id, accounts@, bump, slot),
{
    let signer = accounts[0].key;
    let state_account = accounts[1].key;
    let account_data = StateAccount {
        discriminator: StateAccount::DISCRIMINATOR as u8,
        bump,
        prev_height: 0,
        last_height: 0,
        next_height: 0,
        accummulated_depth: 0,
        last_value: 0,
        next_value: 0,
        last_slot: slot,
        total_claimed: 0,
        total_contributions: 0,
    };
    let mut steps: Vec<Step> = Vec::new();
    let seeds = runtime::seed_list(state_seed_bytes(), Some(runtime::byte_seed(bump)), None);
    steps.push(Step::CreateAccount {
        payer: signer,
        new_account: state_account,
        space: StateAccount::LEN as u64,
        owner: *program_id,
        signer_seeds: seeds,
    });
    steps.push(Step::WriteData { account: state_account, data: account_data.serialize() });
    let ghost expected = initialize_steps(*program_id, accounts@, bump, slot);
    assert(steps_view(steps@)[0] == expected[0]) by {
        assert(steps@[0]->CreateAccount_signer_seeds.deep_view() =~= seq![state_seed(), seq![bump]]);
    }
    assert(steps_view(steps@) =~= expected);
    steps
}

/// Handles `Initialize`, by `initialize_result`.
pub fn process_initialize(program_id: &Key, accounts: &Vec<AccountView>) -> (r: Result<Vec<Step>, ProgramFailure>)
    ensures
        initialize_result(*program_id, accounts@, plan_view(r)),
{
    if accounts.len() < 3 {
        return Err(ProgramFailure::NotEnoughAccountKeys);
    }
    let seeds = runtime::seed_list(state_seed_bytes(), None, None);
    assert(seeds.deep_view() =~= seq![state_seed()]);
    let (_pubkey, state_bump) = find_address(&seeds, program_id)?;
    let slot = match crate::outside::current_slot() {
        Ok(slot) => slot,
        Err(code) => return Err(ProgramFailure::Runtime(code)),
    };
    let steps = initialize_plan(program_id, accounts, state_bump, slot);
    assert(initialize_check(*program_id, accounts@)->Ok_0 == state_bump);
    Ok(steps)
}

/// The accounts of `Claim`, all twelve taken before any check, in order:
/// signer, source, receiver, authority, state account, funding escrow, pool
/// escrow, token mint, USDC mint, token program, USDC token program, hook
/// program. Checked: the signer is a writable signer, the state account is
/// writable, at the "state" address, and holds a state account with
/// discriminator 0. On success, the state read.
pub open spec fn claim_check(program_id: Key, a: Seq<AccountView>) -> Result<StateAccount, ProgramFailure> {
    if a.len() < 12 {
        Err(ProgramFailure::NotEnoughAccountKeys)
    } else if !a[0].is_signer {
        Err(custom(ErrorCode::AccountNeedsToBeSigner))
    } else if !a[0].is_writable {
        Err(custom(ErrorCode::Immutable))
    } else if !a[4].is_writable {
        Err(custom(ErrorCode::Immutable))
    } else {
        match address_of(seq![state_seed()], program_id) {
            Err(e) => Err(e),
            Ok((state_address, _)) => if a[4].key@ != state_address {
                Err(custom(ErrorCode::InvalidStateAccount))
            } else {
                match state_from_bytes(a[4].data@) {
                    None => Err(ProgramFailure::BorshIoError),
                    Some(s) => if s.discriminator != 0 {
                        Err(custom(ErrorCode::InvalidAccountType))
                    } else {
                        Ok(s)
                    },
                }
            },
        }
    }
}

/// The payment of `paid` USDC units (6 decimals) from the source to the
/// funding escrow, for the USDC mint, signed by the signer, through the USDC
/// token program.
pub open spec fn payment_instruction(a: Seq<AccountView>, paid: u64) -> Result<InstructionSpec, ProgramFailure> {
    transfer_checked_result(a[10].key, a[1].key, a[8].key, a[5].key, a[0].key, paid, 6)
}

/// The steps of `Claim` once the state was updated to `updated`, where the
/// update asks for `paid` USDC, mints `claimed` tokens to the claimer and
/// `pooled` to the pool: the payment if it is above 0; through the hook
/// program, the mint to the pool escrow if it is above 0 and the mint to the
/// receiver, both signed for with the "token-authority" seed and `bump`; and
/// the write of the updated state back to the state account.
pub open spec fn claim_steps(
    a: Seq<AccountView>,
    bump: u8,
    updated: StateAccount,
    paid: u64,
    claimed: u64,
    pooled: u64,
) -> Seq<StepSpec> {
    let signer = a[0].key;
    let source = a[1].key;
    let receiver = a[2].key;
    let authority = a[3].key;
    let state_account = a[4].key;
    let funding_escrow = a[5].key;
    let pool_escrow = a[6].key;
    let token_mint = a[7].key;
    let usdc_token_mint = a[8].key;
    let token_program = a[9].key;
    let token_hook_program = a[11].key;
    let signer_seeds = Some(seq![token_authority_seed(), seq![bump]]);
    let payment = if paid > 0 {
        seq![
            StepSpec::Invoke {
                instruction: payment_instruction(a, paid),
                accounts: seq![source, usdc_token_mint, funding_escrow, signer],
                signer_seeds: None,
            },
        ]
    } else {
        Seq::<StepSpec>::empty()
    };
    let pool = if pooled > 0 {
        seq![
            StepSpec::Invoke {
                instruction: Ok(mint_to_instruction(
                    token_hook_program,
                    token_program,
                    usdc_token_mint,
                    authority,
                    pool_escrow,
                    pooled,
                )),
                accounts: seq![token_mint, pool_escrow, authority],
                signer_seeds,
            },
        ]
    } else {
        Seq::<StepSpec>::empty()
    };
    payment + pool + seq![
        StepSpec::Invoke {
            instruction: Ok(mint_to_instruction(token_hook_program, token_program, token_mint, authority, receiver, claimed)),
            accounts: seq![token_mint, pool_escrow, authority],
            signer_seeds,
        },
        StepSpec::WriteData { account: state_account, data: state_bytes(updated) },
    ]
}

/// What a claim that updated the state to `updated` with the amounts `out`
/// (paid, claimed, pooled) hands back: the failure of building the payment
/// (where there is one); else the failure of the "token-authority" address;
/// else the steps of `claim_steps` with its bump.
pub open spec fn claim_plan_result(
    program_id: Key,
    a: Seq<AccountView>,
    updated: StateAccount,
    out: (u64, u64, u64),
) -> Result<Seq<StepSpec>, ProgramFailure> {
    if out.0 > 0 && payment_instruction(a, out.0) is Err {
        Err(payment_instruction(a, out.0)->Err_0)
    } else {
        match address_of(seq![token_authority_seed()], program_id) {
            Err(e) => Err(e),
            Ok((_, bump)) => Ok(claim_steps(a, bump, updated, out.0, out.1, out.2)),
        }
    }
}

/// What `Claim` may hand back: the failure of `claim_check`; else, for the
/// slot that the clock gives, `claim_plan_result` of the update at that slot
/// (`update_step`); or the failure of the update (`ArithmeticOverflow` where
/// the update at some slot has no outcome, or the runtime's in reading the
/// clock).
pub open spec fn claim_result(program_id: Key, a: Seq<AccountView>, r: Result<Seq<StepSpec>, ProgramFailure>) -> bool {
    match claim_check(program_id, a) {
        Err(e) => r == Err::<Seq<StepSpec>, ProgramFailure>(e),
        Ok(s) => {
            ||| exists|slot: u64| #[trigger] update_step(s, slot) is Some
                && r == claim_plan_result(program_id, a, update_step(s, slot).unwrap().0, update_step(s, slot).unwrap().1)
            ||| r == Err::<Seq<StepSpec>, ProgramFailure>(ProgramFailure::ArithmeticOverflow)
                && exists|slot: u64| #[trigger] update_step(s, slot) is None
            ||| r matches Err(ProgramFailure::Runtime(_))
        },
    }
}

/// Checks the accounts of `Claim` and reads the state, by `claim_check`.
pub fn check_claim(program_id: &Key, accounts: &Vec<AccountView>) -> (r: Result<StateAccount, ProgramFailure>)
    ensures
        r == claim_check(*program_id, accounts@),
{
    if accounts.len() < 12 {
        return Err(ProgramFailure::NotEnoughAccountKeys);
    }
    let signer = &accounts[0];
    let state_account = &accounts[4];
    if !signer.is_signer {
        return Err(ErrorCode::AccountNeedsToBeSigner.failure());
    }
    if !signer.is_writable {
        return Err(ErrorCode::Immutable.failure());
    }
    if !state_account.is_writable {
        return Err(ErrorCode::Immutable.failure());
    }
    let seeds = runtime::seed_list(state_seed_bytes(), None, None);
    assert(seeds.deep_view() =~= seq![state_seed()]);
    let (state_address, _) = find_address(&seeds, program_id)?;
    if !runtime::same_key(&state_account.key, &state_address) {
        return Err(ErrorCode::InvalidStateAccount.failure());
    }
    let account_data = StateAccount::try_from_slice(state_account.data.as_slice())?;
    if account_data.discriminator != StateAccount::DISCRIMINATOR as u8 {
        return Err(ErrorCode::InvalidAccountType.failure());
    }
    Ok(account_data)
}

/// The steps of `Claim` for accounts that passed, the updated state and the
/// amounts of the update, by `claim_plan_result`.
pub fn claim_plan(
    program_id: &Key,
    accounts: &Vec<AccountView>,
    updated: &StateAccount,
    paid: u64,
    claimed: u64,
    pooled: u64,
) -> (r: Result<Vec<Step>, ProgramFailure>)
    requires
        accounts@.len() >= 12,
    ensures
        plan_view(r) == claim_plan_result(*program_id, accounts@, *updated, (paid, claimed, pooled)),
{
    let signer = accounts[0].key;
    let source = accounts[1].key;
    let receiver = accounts[2].key;
    let authority = accounts[3].key;
    let state_account = accounts[4].key;
    let funding_escrow = accounts[5].key;
    let pool_escrow = accounts[6].key;
    let token_mint = accounts[7].key;
    let usdc_token_mint = accounts[8].key;
    let token_program = accounts[9].key;
    let usdc_token_program = accounts[10].key;
    let token_hook_program = accounts[11].key;
    let decimals: u8 = 6;
    let payment = if paid > 0 {
        match token_transfer_checked(&usdc_token_program, &source, &usdc_token_mint, &funding_escrow, &signer, paid, decimals) {
            Ok(instruction) => Some(instruction),
            Err(e) => return Err(e),
        }
    } else {
        None
    };
    let seeds = runtime::seed_list(token_authority_seed_bytes(), None, None);
    assert(seeds.deep_view() =~= seq![token_authority_seed()]);
    let (_account, bump) = find_address(&seeds, program_id)?;
    let ghost expected = claim_steps(accounts@, bump, *updated, paid, claimed, pooled);
    let ghost seeds_spec = seq![token_authority_seed(), seq![bump]];
    let mut steps: Vec<Step> = Vec::new();
    let ghost mut done: int = 0;
    match payment {
        Some(instruction) => {
            steps.push(Step::Invoke {
                instruction: Ok(instruction),
                accounts: vec![source, usdc_token_mint, funding_escrow, signer],
                signer_seeds: None,
            });
            proof {
                assert(steps@[0]->Invoke_accounts@ =~= seq![source, usdc_token_mint, funding_escrow, signer]);
                assert(steps_view(steps@)[0] == expected[0]);
                done = 1;
            }
        },
        None => {},
    }
    assert(steps_view(steps@) =~= expected.subrange(0, done));
    if pooled > 0 {
        let pool_seeds = runtime::seed_list(token_authority_seed_bytes(), Some(runtime::byte_seed(bump)), None);
        steps.push(Step::Invoke {
            instruction: mint_to(&token_hook_program, &token_program, &usdc_token_mint, &authority, &pool_escrow, pooled),
            accounts: vec![token_mint, pool_escrow, authority],
            signer_seeds: Some(pool_seeds),
        });
        proof {
            assert(steps@[done]->Invoke_accounts@ =~= seq![token_mint, pool_escrow, authority]);
            assert(steps@[done]->Invoke_signer_seeds->Some_0.deep_view() =~= seeds_spec);
            assert(steps_view(steps@)[done] == expected[done]);
            done = done + 1;
        }
    }
    assert(steps_view(steps@) =~= expected.subrange(0, done));
    let claim_seeds = runtime::seed_list(token_authority_seed_bytes(), Some(runtime::byte_seed(bump)), None);
    steps.push(Step::Invoke {
        instruction: mint_to(&token_hook_program, &token_program, &token_mint, &authority, &receiver, claimed),
        accounts: vec![token_mint, pool_escrow, authority],
        signer_seeds: Some(claim_seeds),
    });
    proof {
        assert(steps@[done]->Invoke_accounts@ =~= seq![token_mint, pool_escrow, authority]);
        assert(steps@[done]->Invoke_signer_seeds->Some_0.deep_view() =~= seeds_spec);
        assert(steps_view(steps@)[done] == expected[done]);
        done = done + 1;
    }
    assert(steps_view(steps@) =~= expected.subrange(0, done));
    steps.push(Step::WriteData { account: state_account, data: updated.serialize() });
    proof {
        assert(steps_view(steps@)[done] == expected[done]);
        done = done + 1;
    }
    assert(expected.len() == done);
    assert(steps_view(steps@) =~= expected);
    assert(address_of(seq![token_authority_seed()], *program_id)->Ok_0.1 == bump);
    Ok(steps)
}

/// Handles `Claim`, by `claim_result`: checks the accounts, updates the state
/// read at the clock's slot, then plans the payment of the price, the mints
/// to the pool and to the receiver, and the write of the updated state.
pub fn process_claim(program_id: &Key, accounts: &Vec<AccountView>) -> (r: Result<Vec<Step>, ProgramFailure>)
    ensures
        claim_result(*program_id, accounts@, plan_view(r)),
{
    let mut account_data = check_claim(program_id, accounts)?;
    let ghost s = account_data;
    let (amount, claim_mint, pool_mint) = account_data.update()?;
    let ghost slot = choose|slot: u64| #[trigger] update_step(s, slot) is Some
        && update_step(s, slot).unwrap() == (account_data, (amount, claim_mint, pool_mint));
    let r = claim_plan(program_id, accounts, &account_data, amount, claim_mint, pool_mint);
    assert(update_step(s, slot) is Some);
    r
}

/// The state that `Initialize` writes reads back, as `Claim` reads it, as a
/// state with discriminator 0 at height 0 and no totals yet.
pub proof fn lemma_initialized_state_reads_back(bump: u8, slot: u64)
    ensures
        state_from_bytes(state_bytes(initial_state(bump, slot))) == Some(initial_state(bump, slot)),
        initial_state(bump, slot).discriminator == StateAccount::DISCRIMINATOR,
        initial_state(bump, slot).next_height == 0,
{
    state::lemma_state_bytes_roundtrip(initial_state(bump, slot));
}

/// A claim ends with writing the updated state to the state account, and
/// that write is what the next `Claim` reads: with the same accounts and the
/// written bytes in the state account, the next claim starts from the updated
/// state; so height, price and totals carry over from claim to claim.
pub proof fn lemma_claim_persists(
    program_id: Key,
    a: Seq<AccountView>,
    slot: u64,
    bump: u8,
    later: Seq<AccountView>,
)
    requires
        a.len() >= 12,
        claim_check(program_id, a) is Ok,
        update_step(claim_check(program_id, a)->Ok_0, slot) is Some,
        later.len() == a.len(),
        later[0].key == a[0].key,
        later[0].is_signer == a[0].is_signer,
        later[0].is_writable == a[0].is_writable,
        later[4].key == a[4].key,
        later[4].is_writable == a[4].is_writable,
        later[4].data@ == state_bytes(update_step(claim_check(program_id, a)->Ok_0, slot).unwrap().0),
    ensures
        ({
            let (n, out) = update_step(claim_check(program_id, a)->Ok_0, slot).unwrap();
            claim_steps(a, bump, n, out.0, out.1, out.2).last() == (StepSpec::WriteData {
                account: a[4].key,
                data: state_bytes(n),
            })
        }),
        claim_check(program_id, later) == Ok::<StateAccount, ProgramFailure>(
            update_step(claim_check(program_id, a)->Ok_0, slot).unwrap().0,
        ),
{
    let s = claim_check(program_id, a)->Ok_0;
    let n = update_step(s, slot).unwrap().0;
    state::lemma_state_bytes_roundtrip(n);
    state::lemma_update_accounts(s, slot);
}

/// `Initialize` makes the state account an account of the program that
/// handles it: on success it first creates the second account with the 47
/// bytes of a state account, owned by `program_id`, paid for by the first
/// account and signed for with the "state" seed and its bump; then it writes
/// to that same account a fresh state, which reads back with discriminator 0,
/// that bump, height 0, no price and no totals.
pub proof fn lemma_initialize_creates_owned_state(
    program_id: Key,
    a: Seq<AccountView>,
    r: Result<Seq<StepSpec>, ProgramFailure>,
)
    requires
        initialize_result(program_id, a, r),
        r is Ok,
    ensures
        a.len() >= 3,
        ({
            let steps = r->Ok_0;
            let bump = address_of(seq![state_seed()], program_id)->Ok_0.1;
            &&& steps.len() == 2
            &&& steps[0] matches StepSpec::CreateAccount { payer, new_account, space, owner, signer_seeds }
                && payer == a[0].key
                && new_account == a[1].key
                && space == 47
                && owner == program_id
                && signer_seeds == seq![state_seed(), seq![bump]]
            &&& steps[1] matches StepSpec::WriteData { account, data }
                && account == a[1].key
                && (state_from_bytes(data) matches Some(s)
                && s.discriminator == 0
                && s.bump == bump
                && s.next_height == 0
                && s.last_height == 0
                && s.next_value == 0
                && s.total_claimed == 0
                && s.total_contributions == 0)
        }),
{
    let bump = initialize_check(program_id, a)->Ok_0;
    let slot = choose|slot: u64| r->Ok_0 == #[trigger] initialize_steps(program_id, a, bump, slot);
    state::lemma_state_bytes_roundtrip(initial_state(bump, slot));
}

/// Every mint that a claim plans is an instruction for the hook program passed
/// as the twelfth account, with the token program passed as the tenth as its
/// last account and the authority (fourth) as its signer: the mint of
/// `claimed` tokens of the token mint (eighth) to the receiver (third), just
/// before the write of the updated state to the state account (fifth), and,
/// where `pooled` is above 0, the mint of `pooled` to the pool escrow
/// (seventh) just before it. Where `paid` is above 0 the payment comes first,
/// as an instruction for the USDC token program (eleventh). Nothing else is
/// planned.
pub proof fn lemma_claim_mints_through_hook(
    program_id: Key,
    a: Seq<AccountView>,
    updated: StateAccount,
    out: (u64, u64, u64),
)
    requires
        a.len() >= 12,
        claim_plan_result(program_id, a, updated, out) is Ok,
    ensures
        ({
            let steps = claim_plan_result(program_id, a, updated, out)->Ok_0;
            let n = steps.len() as int;
            let seeds = Some(seq![token_authority_seed(), seq![address_of(seq![token_authority_seed()], program_id)->Ok_0.1]]);
            &&& n == 2 + (if out.0 > 0 { 1int } else { 0int }) + (if out.2 > 0 { 1int } else { 0int })
            &&& steps[n - 1] == (StepSpec::WriteData { account: a[4].key, data: state_bytes(updated) })
            &&& steps[n - 2] matches StepSpec::Invoke { instruction: Ok(ins), signer_seeds, .. }
                && ins.program_id == a[11].key
                && ins.accounts == seq![
                    meta(a[2].key, false, true),
                    meta(a[7].key, false, true),
                    meta(a[3].key, true, false),
                    meta(a[9].key, false, false),
                ]
                && ins.data == Seq::new(8, |j: int| 0u8) + seq![1u8] + spec_u64_to_le_bytes(out.1)
                && signer_seeds == seeds
            &&& out.2 > 0 ==> (steps[n - 3] matches StepSpec::Invoke { instruction: Ok(ins), signer_seeds, .. }
                && ins.program_id == a[11].key
                && ins.accounts == seq![
                    meta(a[6].key, false, true),
                    meta(a[8].key, false, true),
                    meta(a[3].key, true, false),
                    meta(a[9].key, false, false),
                ]
                && ins.data == Seq::new(8, |j: int| 0u8) + seq![1u8] + spec_u64_to_le_bytes(out.2)
                && signer_seeds == seeds)
            &&& out.0 > 0 ==> (steps[0] matches StepSpec::Invoke { instruction: Ok(ins), signer_seeds: None, .. }
                && ins.program_id == a[10].key)
        }),
{
    assert(Seq::new(8, |j: int| 0u8) + seq![1u8] =~= seq![0u8, 0, 0, 0, 0, 0, 0, 0, 1]);
    vstd::bytes::lemma_auto_spec_u64_to_from_le_bytes();
}

/// A claim that succeeds ends with the mint to the receiver (third account)
/// through the hook program (twelfth), with the token program (tenth) as the
/// instruction's last account, and then the write of the updated state to
/// the state account (fifth); every mint of it goes through the hook program.
pub proof fn lemma_claim_result_mints_through_hook(
    program_id: Key,
    a: Seq<AccountView>,
    r: Result<Seq<StepSpec>, ProgramFailure>,
)
    requires
        claim_result(program_id, a, r),
        r is Ok,
    ensures
        a.len() >= 12,
        ({
            let steps = r->Ok_0;
            let n = steps.len() as int;
            &&& n >= 2
            &&& steps[n - 1] matches StepSpec::WriteData { account, .. } && account == a[4].key
            &&& steps[n - 2] matches StepSpec::Invoke { instruction: Ok(ins), .. }
                && ins.program_id == a[11].key
                && ins.accounts.len() == 4
                && ins.accounts[0].pubkey == a[2].key
                && ins.accounts[1].pubkey == a[7].key
                && ins.accounts[3].pubkey == a[9].key
        }),
{
    let s = claim_check(program_id, a)->Ok_0;
    let slot = choose|slot: u64| #[trigger] update_step(s, slot) is Some
        && r == claim_plan_result(program_id, a, update_step(s, slot).unwrap().0, update_step(s, slot).unwrap().1);
    let (updated, out) = update_step(s, slot).unwrap();
    lemma_claim_mints_through_hook(program_id, a, updated, out);
}

} // verus!
