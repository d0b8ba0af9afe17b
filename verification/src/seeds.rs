//! The seeds from which the programs derive their account addresses.
use vstd::prelude::*;

verus! {

/// The bytes of `"state"`.
pub open spec fn state_seed() -> Seq<u8> {
    seq![115, 116, 97, 116, 101]
}

/// The bytes of `"state"`, to derive an address from.
pub fn state_seed_bytes() -> (r: Vec<u8>)
    ensures
        r@ == state_seed(),
{
    let r: Vec<u8> = vec![115, 116, 97, 116, 101];
    assert(r@ =~= state_seed());
    r
}

/// The bytes of `"token-mint"`.
pub open spec fn token_mint_seed() -> Seq<u8> {
    seq![116, 111, 107, 101, 110, 45, 109, 105, 110, 116]
}

/// The bytes of `"token-mint"`, to derive an address from.
pub fn token_mint_seed_bytes() -> (r: Vec<u8>)
    ensures
        r@ == token_mint_seed(),
{
    let r: Vec<u8> = vec![116, 111, 107, 101, 110, 45, 109, 105, 110, 116];
    assert(r@ =~= token_mint_seed());
    r
}

/// The bytes of `"token-authority"`.
pub open spec fn token_authority_seed() -> Seq<u8> {
    seq![116, 111, 107, 101, 110, 45, 97, 117, 116, 104, 111, 114, 105, 116, 121]
}

/// The bytes of `"token-authority"`, to derive an address from.
pub fn token_authority_seed_bytes() -> (r: Vec<u8>)
    ensures
        r@ == token_authority_seed(),
{
    let r: Vec<u8> = vec![116, 111, 107, 101, 110, 45, 97, 117, 116, 104, 111, 114, 105, 116, 121];
    assert(r@ =~= token_authority_seed());
    r
}

/// The bytes of `"extra-account-metas"`.
pub open spec fn extra_account_metas_seed() -> Seq<u8> {
    seq![101, 120, 116, 114, 97, 45, 97, 99, 99, 111, 117, 110, 116, 45, 109, 101, 116, 97, 115]
}

/// The bytes of `"extra-account-metas"`, to derive an address from.
pub fn extra_account_metas_seed_bytes() -> (r: Vec<u8>)
    ensures
        r@ == extra_account_metas_seed(),
{
    let r: Vec<u8> = vec![101, 120, 116, 114, 97, 45, 97, 99, 99, 111, 117, 110, 116, 45, 109, 101, 116, 97, 115];
    assert(r@ =~= extra_account_metas_seed());
    r
}

} // verus!
