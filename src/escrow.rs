//! The escrow state machine: one function per instruction.
//!
//! Each transition either applies in full and returns the amount that the
//! vault receives or releases, or leaves the record untouched and returns the
//! error. The caller moves the tokens and commits the record together.

use vstd::prelude::*;

use crate::address::Address;
use crate::race::{created, other_than, Race, RaceStatus, WagerError};
use crate::{LOBBY_CODE_LEN, MAX_PLAYERS};
use vstd::string::StringSliceAdditionalSpecFns;

verus! {

broadcast use vstd::seq_lib::group_filter_ensures, vstd::seq::Seq::lemma_filter_push;

/// Whether `who` is among `players`.
pub fn is_listed(players: &Vec<Address>, who: Address) -> (r: bool)
    ensures
        r == players@.contains(who),
{
    let mut i: usize = 0;
    while i < players.len()
        invariant
            0 <= i <= players@.len(),
            forall|j: int| 0 <= j < i ==> players@[j] != who,
        decreases players@.len() - i,
    {
        if players[i] == who {
            return true;
        }
        i = i + 1;
    }
    false
}

/// The participants other than `who`, in their original order.
pub fn without(players: &Vec<Address>, who: Address) -> (r: Vec<Address>)
    ensures
        r@ == players@.filter(other_than(who)),
{
    let mut kept: Vec<Address> = Vec::new();
    let mut i: usize = 0;
    while i < players.len()
        invariant
            0 <= i <= players@.len(),
            kept@ == players@.take(i as int).filter(other_than(who)),
        decreases players@.len() - i,
    {
        proof {
            let s = players@.take(i as int);
            assert(players@.take(i as int + 1) == s.push(players@[i as int]));
            assert(s.push(players@[i as int]).filter(other_than(who)) == if players@[i as int] != who {
                s.filter(other_than(who)).push(players@[i as int])
            } else {
                s.filter(other_than(who))
            });
        }
        if players[i] != who {
            kept.push(players[i]);
        }
        i = i + 1;
    }
    proof {
        assert(players@.take(players@.len() as int) == players@);
    }
    kept
}

/// The host pays the whole pot to `winner`, one of the participants.
///
/// On success the race is completed, its winner recorded, and the result is
/// the pot (`wager_amount` times the number of participants) that the vault
/// releases to the winner. The pot is computed with checked arithmetic.
pub fn declare_winner(race: &mut Race, caller: Address, winner: Address) -> (r: Result<
    u64,
    WagerError,
>)
    ensures
        match old(race)@.after_declare(caller, winner) {
            Ok(post) => r == Ok::<u64, WagerError>(old(race)@.pot() as u64) && final(race)@ == post,
            Err(e) => r == Err::<u64, WagerError>(e) && final(race)@ == old(race)@,
        },
{
    if caller != race.host {
        return Err(WagerError::NotHost);
    }
    if race.status != RaceStatus::Racing {
        return Err(WagerError::RaceNotRacing);
    }
    if !is_listed(&race.players, winner) {
        return Err(WagerError::WinnerNotInRace);
    }
    let total_pot = match race.wager_amount.checked_mul(race.players.len() as u64) {
        Some(pot) => pot,
        None => {
            return Err(WagerError::Overflow);
        },
    };
    race.winner = Some(winner);
    race.status = RaceStatus::Completed;
    Ok(total_pot)
}

/// A participant of a cancelled race takes their stake back.
///
/// On success the caller leaves the participant list and the result is the
/// stake that the vault releases to them; a second claim finds them gone.
pub fn claim_refund(race: &mut Race, player: Address) -> (r: Result<u64, WagerError>)
    ensures
        match old(race)@.after_refund(player) {
            Ok(post) => r == Ok::<u64, WagerError>(old(race).wager_amount) && final(race)@ == post,
            Err(e) => r == Err::<u64, WagerError>(e) && final(race)@ == old(race)@,
        },
{
    if race.status != RaceStatus::Cancelled {
        return Err(WagerError::RaceNotCancelled);
    }
    if !is_listed(&race.players, player) {
        return Err(WagerError::NotInRace);
    }
    race.players = without(&race.players, player);
    Ok(race.wager_amount)
}

/// The host opens a race in `Waiting` with no participants.
///
/// The lobby code must be exactly `LOBBY_CODE_LEN` bytes and the stake
/// positive. The vault that goes with the race starts empty.
pub fn create_race(
    lobby_code: &str,
    wager_amount: u64,
    host: Address,
    token_mint: Address,
    escrow_bump: u8,
    created_at: i64,
) -> (r: Result<Race, WagerError>)
    ensures
        match created(
            lobby_code.spec_bytes(),
            wager_amount,
            host,
            token_mint,
            escrow_bump,
            created_at,
        ) {
            Ok(v) => r matches Ok(race) && race@ == v,
            Err(e) => r matches Err(x) && x == e,
        },
{
    let bytes = lobby_code.as_bytes();
    if bytes.len() != LOBBY_CODE_LEN {
        return Err(WagerError::InvalidLobbyCode);
    }
    if wager_amount == 0 {
        return Err(WagerError::InvalidWagerAmount);
    }
    let mut code: [u8; LOBBY_CODE_LEN] = [0u8; LOBBY_CODE_LEN];
    let mut i: usize = 0;
    while i < LOBBY_CODE_LEN
        invariant
            bytes@ == lobby_code.spec_bytes(),
            bytes@.len() == LOBBY_CODE_LEN,
            0 <= i <= LOBBY_CODE_LEN,
            forall|j: int| 0 <= j < i ==> code@[j] == bytes@[j],
        decreases LOBBY_CODE_LEN - i,
    {
        code[i] = bytes[i];
        i = i + 1;
    }
    proof {
        assert(code@ == bytes@);
    }
    Ok(
        Race {
            lobby_code: code,
            host,
            token_mint,
            wager_amount,
            escrow_bump,
            players: Vec::new(),
            status: RaceStatus::Waiting,
            winner: None,
            created_at,
        },
    )
}

/// `player` stakes `wager_amount` and joins a waiting race.
///
/// On success the player is appended to the participants and the result is
/// the stake that moves from the player into the vault. The caller moves it
/// before committing the record, so a failed transfer leaves no membership.
pub fn deposit_wager(race: &mut Race, player: Address) -> (r: Result<u64, WagerError>)
    ensures
        match old(race)@.after_deposit(player) {
            Ok(post) => r == Ok::<u64, WagerError>(old(race).wager_amount) && final(race)@ == post,
            Err(e) => r == Err::<u64, WagerError>(e) && final(race)@ == old(race)@,
        },
{
    if race.status != RaceStatus::Waiting {
        return Err(WagerError::RaceNotWaiting);
    }
    if is_listed(&race.players, player) {
        return Err(WagerError::AlreadyDeposited);
    }
    if race.players.len() >= MAX_PLAYERS {
        return Err(WagerError::RaceFull);
    }
    race.players.push(player);
    Ok(race.wager_amount)
}

/// The host starts a waiting race that has at least two participants.
/// No funds move.
pub fn start_race(race: &mut Race, caller: Address) -> (r: Result<(), WagerError>)
    ensures
        match old(race)@.after_start(caller) {
            Ok(post) => r is Ok && final(race)@ == post,
            Err(e) => r == Err::<(), WagerError>(e) && final(race)@ == old(race)@,
        },
{
    if caller != race.host {
        return Err(WagerError::NotHost);
    }
    if race.status != RaceStatus::Waiting {
        return Err(WagerError::RaceNotWaiting);
    }
    if race.players.len() < 2 {
        return Err(WagerError::NotEnoughPlayers);
    }
    race.status = RaceStatus::Racing;
    Ok(())
}

/// The host cancels a race that has not started. No funds move yet: the
/// vault keeps every stake until its owner claims it back.
pub fn cancel_race(race: &mut Race, caller: Address) -> (r: Result<(), WagerError>)
    ensures
        match old(race)@.after_cancel(caller) {
            Ok(post) => r is Ok && final(race)@ == post,
            Err(e) => r == Err::<(), WagerError>(e) && final(race)@ == old(race)@,
        },
{
    if caller != race.host {
        return Err(WagerError::NotHost);
    }
    if race.status != RaceStatus::Waiting {
        return Err(WagerError::RaceNotWaiting);
    }
    race.status = RaceStatus::Cancelled;
    Ok(())
}

} // verus!
