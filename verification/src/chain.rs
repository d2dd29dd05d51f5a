//! Types of the chain runtime that pass through the entry points.
//!
//! Both are opaque here: the entry points carry values of them along and never
//! look inside.

use vstd::prelude::*;

verus! {

/// The 32-byte address of an account, `anchor_lang::prelude::Pubkey`. Declared
/// without its contents; nothing is claimed of any value of it.
#[verifier::external_type_specification]
#[verifier::external_body]
pub struct ExPubkey(anchor_lang::prelude::Pubkey);

/// The error of an entry point's result, `anchor_lang::error::Error`. Declared
/// without its contents; nothing is claimed of any value of it.
#[verifier::external_type_specification]
#[verifier::external_body]
pub struct ExError(anchor_lang::error::Error);

} // verus!
