//! Lucky Ladders: the entry points of a ladder-climbing match game that runs
//! as an on-chain program.
//!
//! The program has five instructions: [`create_match`], [`join_match`],
//! [`select_door`], [`bribe`] and [`end_match`]. Each has an entry context in
//! [`accounts`], the set of accounts it is handed.
//!
//! No instruction keeps any state or rejects any input. Every entry point
//! accepts all argument values, returns `Ok(())` and leaves the accounts it
//! was handed exactly as they were, in whatever order and however often the
//! entry points are called. The contracts say precisely that.

pub mod accounts;
pub mod chain;
pub mod entry;

pub use accounts::{Bribe, CreateMatch, EndMatch, JoinMatch, SelectDoor};
pub use entry::{bribe, create_match, end_match, join_match, select_door};
