//! An escrow for wagered races: participants stake an equal amount into a
//! vault, the host either pays the whole pot to one winner or cancels the race
//! so that every participant can take their stake back.

use vstd::prelude::*;

pub mod address;
pub mod escrow;
pub mod laws;
pub mod race;

verus! {

/// Largest number of participants a race admits.
pub const MAX_PLAYERS: usize = 4;

/// Number of bytes in a lobby code.
pub const LOBBY_CODE_LEN: usize = 6;

} // verus!

pub use address::Address;
pub use escrow::{cancel_race, claim_refund, create_race, declare_winner, deposit_wager, start_race};
pub use race::{Race, RaceStatus, WagerError};
