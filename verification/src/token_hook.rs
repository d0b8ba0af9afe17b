//! The transfer-hook program: it creates the Token-2022 mint with its hook,
//! mints on request, and answers the transfer-hook interface.
use vstd::prelude::*;

pub mod entrypoint;
pub mod instruction;
pub mod processor;

verus! {

} // verus!
