//! The hook program's handlers: creating the mint with its transfer hook,
//! minting, and the transfer-hook interface's instructions.
use vstd::prelude::*;
use vstd::bytes::{spec_u64_from_le_bytes, spec_u64_to_le_bytes, u64_from_le_bytes, u64_to_le_bytes};
use crate::runtime::{self, AccountView, Key, ProgramFailure, Step, StepSpec, plan_view, steps_view};
use crate::outside::{
    address_of, empty_extra_account_meta_list, empty_extra_account_meta_list_bytes, extra_account_metas_size, find_address, initialize_mint2_result,
    is_token_program, meta, mint_len, mint_to_checked_result, token_2022_program_id, token_initialize_mint2, token_mint_to_checked,
    transfer_hook_initialize, transfer_hook_initialize_result,
};
use crate::seeds::{
    extra_account_metas_seed, extra_account_metas_seed_bytes, token_authority_seed,
    token_authority_seed_bytes, token_mint_seed, token_mint_seed_bytes,
};

verus! {

/// The hook program's own instructions.
#[derive(Debug, Clone, Copy, PartialEq, Eq, Structural)]
pub enum Instructions {
    InitializeTokenMint,
    MintTokens { amount: u64 },
    Execute { amount: u64 },
    InitializeExtraAccountMetaList,
    UpdateExtraAccountMetaList,
}

/// The instruction that `data` holds: a tag 0..=4, followed by the amount in
/// little-endian for tags 1 and 2 and by nothing for the others.
pub open spec fn instruction_from_bytes(data: Seq<u8>) -> Option<Instructions> {
    if data.len() == 1 && data[0] == 0 {
        Some(Instructions::InitializeTokenMint)
    } else if data.len() == 9 && data[0] == 1 {
        Some(Instructions::MintTokens { amount: spec_u64_from_le_bytes(data.subrange(1, 9)) })
    } else if data.len() == 9 && data[0] == 2 {
        Some(Instructions::Execute { amount: spec_u64_from_le_bytes(data.subrange(1, 9)) })
    } else if data.len() == 1 && data[0] == 3 {
        Some(Instructions::InitializeExtraAccountMetaList)
    } else if data.len() == 1 && data[0] == 4 {
        Some(Instructions::UpdateExtraAccountMetaList)
    } else {
        None
    }
}

/// The bytes of an instruction: its tag, then its amount if it has one.
pub open spec fn instruction_bytes(i: Instructions) -> Seq<u8> {
    match i {
        Instructions::InitializeTokenMint => seq![0u8],
        Instructions::MintTokens { amount } => seq![1u8] + spec_u64_to_le_bytes(amount),
        Instructions::Execute { amount } => seq![2u8] + spec_u64_to_le_bytes(amount),
        Instructions::InitializeExtraAccountMetaList => seq![3u8],
        Instructions::UpdateExtraAccountMetaList => seq![4u8],
    }
}

impl Instructions {
    /// Reads an instruction; bytes that are none are a `BorshIoError`.
    pub fn try_from_slice(data: &[u8]) -> (r: Result<Instructions, ProgramFailure>)
        ensures
            match instruction_from_bytes(data@) {
                Some(i) => r == Ok::<Instructions, ProgramFailure>(i),
                None => r == Err::<Instructions, ProgramFailure>(ProgramFailure::BorshIoError),
            },
    {
        if data.len() == 1 {
            if data[0] == 0 {
                return Ok(Instructions::InitializeTokenMint);
            } else if data[0] == 3 {
                return Ok(Instructions::InitializeExtraAccountMetaList);
            } else if data[0] == 4 {
                return Ok(Instructions::UpdateExtraAccountMetaList);
            }
        } else if data.len() == 9 {
            if data[0] == 1 || data[0] == 2 {
                let amount = u64_from_le_bytes(vstd::slice::slice_subrange(data, 1, 9));
                if data[0] == 1 {
                    return Ok(Instructions::MintTokens { amount });
                } else {
                    return Ok(Instructions::Execute { amount });
                }
            }
        }
        Err(ProgramFailure::BorshIoError)
    }

    /// The instruction's bytes, by `instruction_bytes`.
    pub fn serialize(&self) -> (r: Vec<u8>)
        ensures
            r@ == instruction_bytes(*self),
    {
        proof {
            vstd::bytes::lemma_auto_spec_u64_to_from_le_bytes();
        }
        let mut r: Vec<u8> = Vec::new();
        match *self {
            Instructions::InitializeTokenMint => r.push(0),
            Instructions::MintTokens { amount } => {
                r.push(1);
                let mut bytes = u64_to_le_bytes(amount);
                r.append(&mut bytes);
            },
            Instructions::Execute { amount } => {
                r.push(2);
                let mut bytes = u64_to_le_bytes(amount);
                r.append(&mut bytes);
            },
            Instructions::InitializeExtraAccountMetaList => r.push(3),
            Instructions::UpdateExtraAccountMetaList => r.push(4),
        }
        assert(r@ =~= instruction_bytes(*self));
        r
    }
}

/// Reading back the bytes of an instruction gives that instruction, and only
/// its bytes read as it.
pub proof fn lemma_instruction_bytes_roundtrip(i: Instructions, data: Seq<u8>)
    ensures
        instruction_from_bytes(instruction_bytes(i)) == Some(i),
        instruction_from_bytes(data) == Some(i) ==> data == instruction_bytes(i),
{
    vstd::bytes::lemma_auto_spec_u64_to_from_le_bytes();
    let b = instruction_bytes(i);
    match i {
        Instructions::MintTokens { amount } => {
            assert(b.subrange(1, 9) =~= spec_u64_to_le_bytes(amount));
        },
        Instructions::Execute { amount } => {
            assert(b.subrange(1, 9) =~= spec_u64_to_le_bytes(amount));
        },
        _ => {},
    }
    if instruction_from_bytes(data) == Some(i) {
        if data.len() == 9 {
            assert(spec_u64_to_le_bytes(spec_u64_from_le_bytes(data.subrange(1, 9))) == data.subrange(1, 9));
        }
        assert(data =~= instruction_bytes(i));
    }
}

/// The accounts of `InitializeTokenMint`: payer, token program, mint and
/// authority, none of them checked. On success, the bump of the "token-mint"
/// address (the "token-authority" address is derived too, and must exist).
pub open spec fn initialize_token_mint_check(program_id: Key, a: Seq<AccountView>) -> Result<u8, ProgramFailure> {
    if a.len() < 4 {
        Err(ProgramFailure::NotEnoughAccountKeys)
    } else {
        match address_of(seq![token_mint_seed()], program_id) {
            Err(e) => Err(e),
            Ok((_, mint_bump)) => match address_of(seq![token_authority_seed()], program_id) {
                Err(e) => Err(e),
                Ok(_) => Ok(mint_bump),
            },
        }
    }
}

/// The steps of `InitializeTokenMint`: create the mint (82 + 152 bytes,
/// owned by the token program, signed for with the "token-mint" seed), give
/// it a transfer hook to this program with the authority as hook authority,
/// and initialize it with the authority for minting and freezing and 9
/// decimals.
pub open spec fn initialize_token_mint_steps(program_id: Key, a: Seq<AccountView>, mint_bump: u8) -> Seq<StepSpec> {
    let payer = a[0].key;
    let token_program = a[1].key;
    let token_mint = a[2].key;
    let authority = a[3].key;
    seq![
        StepSpec::CreateAccount {
            payer,
            new_account: token_mint,
            space: 234,
            owner: token_program,
            signer_seeds: seq![token_mint_seed(), seq![mint_bump]],
        },
        StepSpec::Invoke {
            instruction: transfer_hook_initialize_result(token_program, token_mint, Some(authority), Some(program_id)),
            accounts: seq![token_mint],
            signer_seeds: None,
        },
        StepSpec::Invoke {
            instruction: initialize_mint2_result(token_program, token_mint, authority, Some(authority), 9),
            accounts: seq![token_mint],
            signer_seeds: None,
        },
    ]
}

/// What `InitializeTokenMint` hands back.
pub open spec fn initialize_token_mint_result(program_id: Key, a: Seq<AccountView>, r: Result<Seq<StepSpec>, ProgramFailure>) -> bool {
    match initialize_token_mint_check(program_id, a) {
        Err(e) => r == Err::<Seq<StepSpec>, ProgramFailure>(e),
        Ok(mint_bump) => r == Ok::<Seq<StepSpec>, ProgramFailure>(initialize_token_mint_steps(program_id, a, mint_bump)),
    }
}

/// Handles `InitializeTokenMint`, by `initialize_token_mint_result`.
pub fn process_initialize_token_mint(program_id: &Key, accounts: &Vec<AccountView>) -> (r: Result<Vec<Step>, ProgramFailure>)
    ensures
        initialize_token_mint_result(*program_id, accounts@, plan_view(r)),
{
    if accounts.len() < 4 {
        return Err(ProgramFailure::NotEnoughAccountKeys);
    }
    let payer = accounts[0].key;
    let token_program = accounts[1].key;
    let token_mint = accounts[2].key;
    let authority = accounts[3].key;
    let seeds = runtime::seed_list(token_mint_seed_bytes(), None, None);
    assert(seeds.deep_view() =~= seq![token_mint_seed()]);
    let (_account, mint_bump) = find_address(&seeds, program_id)?;
    let seeds = runtime::seed_list(token_authority_seed_bytes(), None, None);
    assert(seeds.deep_view() =~= seq![token_authority_seed()]);
    let (_account, _) = find_address(&seeds, program_id)?;
    let size = mint_len() + 152;
    let mut steps: Vec<Step> = Vec::new();
    let mint_seeds = runtime::seed_list(token_mint_seed_bytes(), Some(runtime::byte_seed(mint_bump)), None);
    steps.push(Step::CreateAccount {
        payer,
        new_account: token_mint,
        space: size as u64,
        owner: token_program,
        signer_seeds: mint_seeds,
    });
    steps.push(Step::Invoke {
        instruction: transfer_hook_initialize(&token_program, &token_mint, Some(authority), Some(*program_id)),
        accounts: vec![token_mint],
        signer_seeds: None,
    });
    let decimals: u8 = 9;
    steps.push(Step::Invoke {
        instruction: token_initialize_mint2(&token_program, &token_mint, &authority, Some(authority), decimals),
        accounts: vec![token_mint],
        signer_seeds: None,
    });
    let ghost expected = initialize_token_mint_steps(*program_id, accounts@, mint_bump);
    assert(steps_view(steps@)[0] == expected[0]) by {
        assert(steps@[0]->CreateAccount_signer_seeds.deep_view() =~= seq![token_mint_seed(), seq![mint_bump]]);
    }
    assert(steps_view(steps@)[1] == expected[1]) by {
        assert(steps@[1]->Invoke_accounts@ =~= seq![token_mint]);
    }
    assert(steps_view(steps@)[2] == expected[2]) by {
        assert(steps@[2]->Invoke_accounts@ =~= seq![token_mint]);
    }
    assert(steps_view(steps@) =~= expected);
    assert(initialize_token_mint_check(*program_id, accounts@)->Ok_0 == mint_bump);
    Ok(steps)
}

/// Handles the transfer hook's `Execute`: nothing is done yet.
pub fn process_execute(_program_id: &Key, _accounts: &Vec<AccountView>, _amount: u64) -> (r: Result<Vec<Step>, ProgramFailure>)
    ensures
        plan_view(r) == Ok::<Seq<StepSpec>, ProgramFailure>(Seq::empty()),
{
    let steps: Vec<Step> = Vec::new();
    assert(steps_view(steps@) =~= Seq::<StepSpec>::empty());
    Ok(steps)
}

/// The steps of `MintTokens`: the accounts are the recipient, the mint, the
/// mint authority and the token program; mint `amount` (9 decimals) to the
/// recipient, signed by the authority.
pub open spec fn mint_tokens_steps(a: Seq<AccountView>, amount: u64) -> Seq<StepSpec> {
    let receipent = a[0].key;
    let token_mint = a[1].key;
    let authority = a[2].key;
    let token_program = a[3].key;
    seq![
        StepSpec::Invoke {
            instruction: mint_to_checked_result(token_program, token_mint, receipent, authority, amount, 9),
            accounts: seq![token_mint, receipent, authority],
            signer_seeds: None,
        },
    ]
}

/// What `MintTokens` hands back: too few accounts, or its steps.
pub open spec fn mint_tokens_result(a: Seq<AccountView>, amount: u64, r: Result<Seq<StepSpec>, ProgramFailure>) -> bool {
    if a.len() < 4 {
        r == Err::<Seq<StepSpec>, ProgramFailure>(ProgramFailure::NotEnoughAccountKeys)
    } else {
        r == Ok::<Seq<StepSpec>, ProgramFailure>(mint_tokens_steps(a, amount))
    }
}

/// Handles `MintTokens`, by `mint_tokens_result`.
pub fn process_mint_tokens(_program_id: &Key, accounts: &Vec<AccountView>, amount: u64) -> (r: Result<Vec<Step>, ProgramFailure>)
    ensures
        mint_tokens_result(accounts@, amount, plan_view(r)),
{
    if accounts.len() < 4 {
        return Err(ProgramFailure::NotEnoughAccountKeys);
    }
    let receipent = accounts[0].key;
    let token_mint = accounts[1].key;
    let authority = accounts[2].key;
    let token_program = accounts[3].key;
    let decimals: u8 = 9;
    let mut steps: Vec<Step> = Vec::new();
    steps.push(Step::Invoke {
        instruction: token_mint_to_checked(&token_program, &token_mint, &receipent, &authority, amount, decimals),
        accounts: vec![token_mint, receipent, authority],
        signer_seeds: None,
    });
    let ghost expected = mint_tokens_steps(accounts@, amount);
    assert(steps_view(steps@)[0] == expected[0]) by {
        assert(steps@[0]->Invoke_accounts@ =~= seq![token_mint, receipent, authority]);
    }
    assert(steps_view(steps@) =~= expected);
    Ok(steps)
}

/// The accounts of `InitializeExtraAccountMetaList`: payer, the account for
/// the list and the mint (a fourth, the system program, may be missing). On
/// success, the list's size for no extra accounts and the bump of the address
/// derived from "extra-account-metas" and the mint's key.
pub open spec fn extra_account_meta_list_check(program_id: Key, a: Seq<AccountView>) -> Result<u8, ProgramFailure> {
    if a.len() < 3 {
        Err(ProgramFailure::NotEnoughAccountKeys)
    } else {
        match address_of(seq![extra_account_metas_seed(), a[2].key@], program_id) {
            Err(e) => Err(e),
            Ok((_, bump)) => Ok(bump),
        }
    }
}

/// The steps of `InitializeExtraAccountMetaList`: create the list account
/// (16 bytes, the size of an empty list, owned by this program, signed for
/// with the seeds and the bump) and write an empty list for `Execute` into
/// it.
pub open spec fn extra_account_meta_list_steps(program_id: Key, a: Seq<AccountView>, bump: u8) -> Seq<StepSpec> {
    seq![
        StepSpec::CreateAccount {
            payer: a[0].key,
            new_account: a[1].key,
            space: 16,
            owner: program_id,
            signer_seeds: seq![extra_account_metas_seed(), a[2].key@, seq![bump]],
        },
        StepSpec::WriteData { account: a[1].key, data: empty_extra_account_meta_list_bytes() },
    ]
}

/// What `InitializeExtraAccountMetaList` hands back.
pub open spec fn extra_account_meta_list_result(program_id: Key, a: Seq<AccountView>, r: Result<Seq<StepSpec>, ProgramFailure>) -> bool {
    match extra_account_meta_list_check(program_id, a) {
        Err(e) => r == Err::<Seq<StepSpec>, ProgramFailure>(e),
        Ok(bump) => r == Ok::<Seq<StepSpec>, ProgramFailure>(extra_account_meta_list_steps(program_id, a, bump)),
    }
}

/// The bytes of a key, as a seed.
fn key_seed(key: &Key) -> (r: Vec<u8>)
    ensures
        r@ == key@,
{
    let mut r: Vec<u8> = Vec::new();
    let mut i: usize = 0;
    while i < 32
        invariant
            0 <= i <= 32,
            key@.len() == 32,
            r@ == key@.subrange(0, i as int),
        decreases 32 - i,
    {
        r.push(key[i]);
        i = i + 1;
        assert(r@ =~= key@.subrange(0, i as int));
    }
    assert(key@.subrange(0, 32) =~= key@);
    r
}

/// Handles `InitializeExtraAccountMetaList`, by
/// `extra_account_meta_list_result`.
pub fn process_initialize_extra_account_meta_list(
    program_id: &Key,
    accounts: &Vec<AccountView>,
) -> (r: Result<Vec<Step>, ProgramFailure>)
    ensures
        extra_account_meta_list_result(*program_id, accounts@, plan_view(r)),
{
    if accounts.len() < 3 {
        return Err(ProgramFailure::NotEnoughAccountKeys);
    }
    let payer = accounts[0].key;
    let extra_account_meta_list = accounts[1].key;
    let token_mint = accounts[2].key;
    let account_size = match extra_account_metas_size(0) {
        Ok(size) => size,
        Err(e) => return Err(e),
    };
    let seeds = runtime::seed_list(extra_account_metas_seed_bytes(), Some(key_seed(&token_mint)), None);
    assert(seeds.deep_view() =~= seq![extra_account_metas_seed(), token_mint@]);
    let (_pubkey, bump) = find_address(&seeds, program_id)?;
    let mut steps: Vec<Step> = Vec::new();
    let signer_seeds = runtime::seed_list(
        extra_account_metas_seed_bytes(),
        Some(key_seed(&token_mint)),
        Some(runtime::byte_seed(bump)),
    );
    steps.push(Step::CreateAccount {
        payer,
        new_account: extra_account_meta_list,
        space: account_size as u64,
        owner: *program_id,
        signer_seeds,
    });
    let list = match empty_extra_account_meta_list(account_size) {
        Ok(list) => list,
        Err(e) => return Err(e),
    };
    steps.push(Step::WriteData { account: extra_account_meta_list, data: list });
    let ghost expected = extra_account_meta_list_steps(*program_id, accounts@, bump);
    assert(steps_view(steps@)[0] == expected[0]) by {
        assert(steps@[0]->CreateAccount_signer_seeds.deep_view() =~= seq![extra_account_metas_seed(), token_mint@, seq![bump]]);
    }
    assert(steps_view(steps@) =~= expected);
    assert(extra_account_meta_list_check(*program_id, accounts@)->Ok_0 == bump);
    Ok(steps)
}

/// `InitializeTokenMint` makes the authority (fourth account) the mint's
/// authority in every role it sets: on success it creates the mint (third
/// account, 234 bytes, owned by the token program passed second, paid for by
/// the first account); where the token program is Token-2022 and neither the
/// authority nor `program_id` is the all-zero key, the transfer-hook
/// `Initialize` names the authority as hook authority and `program_id` as
/// hook program; and where the token program is Token or Token-2022,
/// `InitializeMint2` names the authority as mint authority and again as
/// freeze authority, with 9 decimals. Both instructions go to the token
/// program and touch only the mint.
pub proof fn lemma_token_mint_authority(
    program_id: Key,
    a: Seq<AccountView>,
    r: Result<Seq<StepSpec>, ProgramFailure>,
)
    requires
        initialize_token_mint_result(program_id, a, r),
        r is Ok,
    ensures
        a.len() >= 4,
        ({
            let steps = r->Ok_0;
            let zero = Seq::new(32, |i: int| 0u8);
            &&& steps.len() == 3
            &&& steps[0] matches StepSpec::CreateAccount { payer, new_account, space, owner, .. }
                && payer == a[0].key
                && new_account == a[2].key
                && space == 234
                && owner == a[1].key
            &&& steps[1] matches StepSpec::Invoke { instruction, accounts, signer_seeds: None }
                && accounts == seq![a[2].key]
                && (a[1].key@ == token_2022_program_id() && a[3].key@ != zero && program_id@ != zero ==> (
                    instruction matches Ok(ins)
                    && ins.program_id == a[1].key
                    && ins.accounts == seq![meta(a[2].key, false, true)]
                    && ins.data == seq![36u8, 0u8] + a[3].key@ + program_id@))
            &&& steps[2] matches StepSpec::Invoke { instruction, accounts, signer_seeds: None }
                && accounts == seq![a[2].key]
                && (is_token_program(a[1].key) ==> (
                    instruction matches Ok(ins)
                    && ins.program_id == a[1].key
                    && ins.accounts == seq![meta(a[2].key, false, true)]
                    && ins.data == seq![20u8, 9u8] + a[3].key@ + seq![1u8] + a[3].key@))
        }),
{
    let data = seq![20u8, 9u8] + a[3].key@ + seq![1u8] + a[3].key@;
    assert(seq![20u8, 9u8] + a[3].key@ + (seq![1u8] + a[3].key@) =~= data);
}

} // verus!
