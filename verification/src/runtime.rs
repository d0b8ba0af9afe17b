//! Plain-value views of what a Solana instruction handler reads (accounts)
//! and of what it asks the runtime to do (steps), with the failure codes.
use vstd::prelude::*;

verus! {

/// A public key, as its 32 bytes.
pub type Key = [u8; 32];

/// What an instruction handler reads of one account that it was handed.
pub struct AccountView {
    pub key: Key,
    pub is_signer: bool,
    pub is_writable: bool,
    pub executable: bool,
    pub data: Vec<u8>,
}

/// Why an instruction handler stopped.
#[derive(Debug, Clone, Copy, PartialEq, Eq, Structural)]
pub enum ProgramFailure {
    /// A program-specific error number.
    Custom(u32),
    /// Fewer accounts were passed than the handler takes.
    NotEnoughAccountKeys,
    /// Bytes that do not have the layout of the value read from them.
    BorshIoError,
    /// An arithmetic step of the claim rules left the range of its type.
    ArithmeticOverflow,
    /// No bump seed in 255..=1 gives a program address for the seeds.
    NoProgramAddress,
    /// An error reported by the runtime or by a token program library, by its
    /// numeric code.
    Runtime(u64),
}

/// Compares two keys byte by byte.
pub fn same_key(a: &Key, b: &Key) -> (r: bool)
    ensures
        r == (a@ == b@),
{
    let mut i: usize = 0;
    while i < 32
        invariant
            0 <= i <= 32,
            a@.len() == 32,
            b@.len() == 32,
            forall|j: int| 0 <= j < i ==> a@[j] == b@[j],
        decreases 32 - i,
    {
        if a[i] != b[i] {
            return false;
        }
        i = i + 1;
    }
    assert(a@ =~= b@);
    true
}

/// One account of an instruction: its key and how the instruction uses it.
#[derive(Debug, Clone, Copy)]
pub struct AccountMetaData {
    pub pubkey: Key,
    pub is_signer: bool,
    pub is_writable: bool,
}

/// An instruction for another program, as plain values.
#[derive(Debug)]
pub struct InstructionData {
    pub program_id: Key,
    pub accounts: Vec<AccountMetaData>,
    pub data: Vec<u8>,
}

/// The mathematical value of an instruction.
pub struct InstructionSpec {
    pub program_id: Key,
    pub accounts: Seq<AccountMetaData>,
    pub data: Seq<u8>,
}

impl View for InstructionData {
    type V = InstructionSpec;

    open spec fn view(&self) -> InstructionSpec {
        InstructionSpec { program_id: self.program_id, accounts: self.accounts@, data: self.data@ }
    }
}

/// An instruction that could be built, or the failure of building it.
pub open spec fn built_view(r: Result<InstructionData, ProgramFailure>) -> Result<InstructionSpec, ProgramFailure> {
    match r {
        Ok(i) => Ok(i@),
        Err(e) => Err(e),
    }
}

/// One thing that an instruction handler has the runtime do, in order.
#[derive(Debug)]
pub enum Step {
    /// Create `new_account` with `space` bytes owned by `owner`, funded by
    /// `payer` with the rent-exempt minimum, signing for the new account with
    /// `signer_seeds`.
    CreateAccount { payer: Key, new_account: Key, space: u64, owner: Key, signer_seeds: Vec<Vec<u8>> },
    /// Invoke `instruction` (or stop with the failure that building it gave)
    /// with the accounts of `accounts`, signing with `signer_seeds` if any.
    Invoke {
        instruction: Result<InstructionData, ProgramFailure>,
        accounts: Vec<Key>,
        signer_seeds: Option<Vec<Vec<u8>>>,
    },
    /// Write `data` at the start of `account`'s data.
    WriteData { account: Key, data: Vec<u8> },
}

/// The mathematical value of a step.
pub enum StepSpec {
    CreateAccount { payer: Key, new_account: Key, space: u64, owner: Key, signer_seeds: Seq<Seq<u8>> },
    Invoke {
        instruction: Result<InstructionSpec, ProgramFailure>,
        accounts: Seq<Key>,
        signer_seeds: Option<Seq<Seq<u8>>>,
    },
    WriteData { account: Key, data: Seq<u8> },
}

impl View for Step {
    type V = StepSpec;

    open spec fn view(&self) -> StepSpec {
        match self {
            Step::CreateAccount { payer, new_account, space, owner, signer_seeds } => StepSpec::CreateAccount {
                payer: *payer,
                new_account: *new_account,
                space: *space,
                owner: *owner,
                signer_seeds: signer_seeds.deep_view(),
            },
            Step::Invoke { instruction, accounts, signer_seeds } => StepSpec::Invoke {
                instruction: built_view(*instruction),
                accounts: accounts@,
                signer_seeds: match signer_seeds {
                    Some(seeds) => Some(seeds.deep_view()),
                    None => None,
                },
            },
            Step::WriteData { account, data } => StepSpec::WriteData { account: *account, data: data@ },
        }
    }
}

/// The values of a list of steps.
pub open spec fn steps_view(steps: Seq<Step>) -> Seq<StepSpec> {
    steps.map_values(|s: Step| s@)
}

/// A byte vector's deep view is its view.
pub proof fn lemma_bytes_deep_view(v: Vec<u8>)
    ensures
        v.deep_view() == v@,
{
    assert(v.deep_view() =~= v@);
}

/// The seed list made of the given seeds, in order.
pub fn seed_list(first: Vec<u8>, second: Option<Vec<u8>>, third: Option<Vec<u8>>) -> (r: Vec<Vec<u8>>)
    ensures
        r.deep_view() == seq![first@] + match second {
            Some(s) => seq![s@],
            None => Seq::<Seq<u8>>::empty(),
        } + match third {
            Some(t) => seq![t@],
            None => Seq::<Seq<u8>>::empty(),
        },
{
    let ghost f = first@;
    let ghost s2 = if second is Some { seq![second->Some_0@] } else { Seq::<Seq<u8>>::empty() };
    let ghost s3 = if third is Some { seq![third->Some_0@] } else { Seq::<Seq<u8>>::empty() };
    let mut r: Vec<Vec<u8>> = Vec::new();
    proof { lemma_bytes_deep_view(first); }
    r.push(first);
    assert(r.deep_view() =~= seq![f]);
    match second {
        Some(s) => {
            proof { lemma_bytes_deep_view(s); }
            r.push(s);
        },
        None => {},
    }
    assert(r.deep_view() =~= seq![f] + s2);
    match third {
        Some(t) => {
            proof { lemma_bytes_deep_view(t); }
            r.push(t);
        },
        None => {},
    }
    assert(r.deep_view() =~= seq![f] + s2 + s3);
    r
}

/// A seed made of one byte (a bump seed).
pub fn byte_seed(b: u8) -> (r: Vec<u8>)
    ensures
        r@ == seq![b],
{
    let mut r: Vec<u8> = Vec::new();
    r.push(b);
    assert(r@ =~= seq![b]);
    r
}

/// The value of a handler's result: its steps, or its failure.
pub open spec fn plan_view(r: Result<Vec<Step>, ProgramFailure>) -> Result<Seq<StepSpec>, ProgramFailure> {
    match r {
        Ok(steps) => Ok(steps_view(steps@)),
        Err(e) => Err(e),
    }
}

} // verus!
