//! The five entry points.
//!
//! Each takes its entry context by mutable reference, as the runtime hands the
//! accounts over for writing, and the instruction's arguments as plain values.

use vstd::prelude::*;
use anchor_lang::error::Error;
use anchor_lang::prelude::Pubkey;
use crate::accounts::{Bribe, CreateMatch, EndMatch, JoinMatch, SelectDoor};

verus! {

/// The instruction that opens a match with a seed and an entry fee.
///
/// No match record is kept: the call succeeds for every `seed` and
/// `entry_fee` and leaves the accounts as they were.
pub fn create_match(ctx: &mut CreateMatch, seed: u64, entry_fee: u64) -> (res: Result<(), Error>)
    ensures
        res == Ok::<(), Error>(()),
        *final(ctx) == *old(ctx),
{
    Ok(())
}

/// The instruction by which a player enters the match `match_id`.
///
/// No player list is kept, so joining twice is not told apart from joining
/// once: the call succeeds for every `match_id` and leaves the accounts as
/// they were.
pub fn join_match(ctx: &mut JoinMatch, match_id: u64) -> (res: Result<(), Error>)
    ensures
        res == Ok::<(), Error>(()),
        *final(ctx) == *old(ctx),
{
    Ok(())
}

/// The instruction by which `player` picks door `door_choice` on `level` of
/// the match `match_id`.
///
/// No range is imposed on `level` or `door_choice` and no outcome is drawn:
/// the call succeeds for every match, player, level and door and leaves the
/// accounts as they were.
pub fn select_door(
    ctx: &mut SelectDoor,
    match_id: u64,
    player: Pubkey,
    level: u8,
    door_choice: u8,
) -> (res: Result<(), Error>)
    ensures
        res == Ok::<(), Error>(()),
        *final(ctx) == *old(ctx),
{
    Ok(())
}

/// The instruction by which `player` bribes `level` of the match `match_id`.
///
/// A bribe costs nothing and changes nothing: the call succeeds for every
/// match, player and level and leaves the accounts as they were.
pub fn bribe(ctx: &mut Bribe, match_id: u64, player: Pubkey, level: u8) -> (res: Result<(), Error>)
    ensures
        res == Ok::<(), Error>(()),
        *final(ctx) == *old(ctx),
{
    Ok(())
}

/// The instruction that closes the match `match_id`.
///
/// Nothing is paid out: the call succeeds for every `match_id`, whether or
/// not such a match was ever opened, and leaves the accounts as they were.
pub fn end_match(ctx: &mut EndMatch, match_id: u64) -> (res: Result<(), Error>)
    ensures
        res == Ok::<(), Error>(()),
        *final(ctx) == *old(ctx),
{
    Ok(())
}

} // verus!
