//! The entry contexts: for each entry point, the set of accounts it is handed.
//!
//! None of them names an account yet, so each has exactly one value.

use vstd::prelude::*;

verus! {

/// Accounts handed to [`create_match`](crate::entry::create_match).
#[derive(Clone, Copy, Debug, PartialEq, Eq, Structural)]
pub struct CreateMatch {}

/// Accounts handed to [`join_match`](crate::entry::join_match).
#[derive(Clone, Copy, Debug, PartialEq, Eq, Structural)]
pub struct JoinMatch {}

/// Accounts handed to [`select_door`](crate::entry::select_door).
#[derive(Clone, Copy, Debug, PartialEq, Eq, Structural)]
pub struct SelectDoor {}

/// Accounts handed to [`bribe`](crate::entry::bribe).
#[derive(Clone, Copy, Debug, PartialEq, Eq, Structural)]
pub struct Bribe {}

/// Accounts handed to [`end_match`](crate::entry::end_match).
#[derive(Clone, Copy, Debug, PartialEq, Eq, Structural)]
pub struct EndMatch {}

} // verus!
