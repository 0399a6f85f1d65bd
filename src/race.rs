//! The race record and its state machine.

use vstd::prelude::*;

use crate::address::Address;
use crate::{LOBBY_CODE_LEN, MAX_PLAYERS};

verus! {

/// Where a race stands in its lifecycle.
#[derive(Clone, Copy, Debug, PartialEq, Eq, Structural)]
pub enum RaceStatus {
    Waiting,
    Racing,
    Completed,
    Cancelled,
}

/// Why a transition was refused.
#[derive(Clone, Copy, Debug, PartialEq, Eq, Structural)]
pub enum WagerError {
    InvalidLobbyCode,
    InvalidWagerAmount,
    RaceNotWaiting,
    RaceNotRacing,
    RaceNotCancelled,
    RaceFull,
    AlreadyDeposited,
    NotHost,
    NotEnoughPlayers,
    WinnerNotInRace,
    NotInRace,
    Overflow,
}

/// The durable record of one race.
pub struct Race {
    /// Caller-chosen code that identifies the race.
    pub lobby_code: [u8; LOBBY_CODE_LEN],
    /// The coordinator, the only caller that may start, settle or cancel.
    pub host: Address,
    /// The asset that stakes are paid in.
    pub token_mint: Address,
    /// What each participant stakes, in the asset's smallest unit.
    pub wager_amount: u64,
    /// Derivation data that binds the race to its vault.
    pub escrow_bump: u8,
    /// Everyone whose stake the vault holds, in order of deposit.
    pub players: Vec<Address>,
    pub status: RaceStatus,
    /// Set once, when the race completes.
    pub winner: Option<Address>,
    /// Creation time in seconds; informational only.
    pub created_at: i64,
}

/// The mathematical model of a [`Race`].
pub struct RaceView {
    pub lobby_code: Seq<u8>,
    pub host: Address,
    pub token_mint: Address,
    pub wager_amount: u64,
    pub escrow_bump: u8,
    pub players: Seq<Address>,
    pub status: RaceStatus,
    pub winner: Option<Address>,
    pub created_at: i64,
}

impl View for Race {
    type V = RaceView;

    open spec fn view(&self) -> RaceView {
        RaceView {
            lobby_code: self.lobby_code@,
            host: self.host,
            token_mint: self.token_mint,
            wager_amount: self.wager_amount,
            escrow_bump: self.escrow_bump,
            players: self.players@,
            status: self.status,
            winner: self.winner,
            created_at: self.created_at,
        }
    }
}

/// Outcome of the host creating a race from the bytes of a lobby code.
pub open spec fn created(
    lobby_code: Seq<u8>,
    wager_amount: u64,
    host: Address,
    token_mint: Address,
    escrow_bump: u8,
    created_at: i64,
) -> Result<RaceView, WagerError> {
    if lobby_code.len() != LOBBY_CODE_LEN {
        Err(WagerError::InvalidLobbyCode)
    } else if wager_amount == 0 {
        Err(WagerError::InvalidWagerAmount)
    } else {
        Ok(
            RaceView {
                lobby_code,
                host,
                token_mint,
                wager_amount,
                escrow_bump,
                players: Seq::empty(),
                status: RaceStatus::Waiting,
                winner: None,
                created_at,
            },
        )
    }
}

/// Holds of every address but `who`.
pub open spec fn other_than(who: Address) -> spec_fn(Address) -> bool {
    |p: Address| p != who
}

impl RaceView {
    /// The record's invariant: a valid code and stake, a duplicate-free
    /// participant list within the cap, and a winner exactly when the race
    /// is completed, who is one of the participants.
    pub open spec fn wf(self) -> bool {
        &&& self.lobby_code.len() == LOBBY_CODE_LEN
        &&& self.wager_amount > 0
        &&& self.players.len() <= MAX_PLAYERS
        &&& self.players.no_duplicates()
        &&& (self.status == RaceStatus::Completed) == self.winner.is_some()
        &&& self.winner matches Some(w) ==> self.players.contains(w)
    }

    /// The balance the vault must hold: every participant's stake until the
    /// pot is paid out, nothing after.
    pub open spec fn escrowed(self) -> int {
        if self.status == RaceStatus::Completed {
            0
        } else {
            self.wager_amount * self.players.len()
        }
    }

    /// The whole pot, as a mathematical integer.
    pub open spec fn pot(self) -> int {
        self.wager_amount * self.players.len()
    }

    /// Outcome of `player` depositing a stake.
    pub open spec fn after_deposit(self, player: Address) -> Result<RaceView, WagerError> {
        if self.status != RaceStatus::Waiting {
            Err(WagerError::RaceNotWaiting)
        } else if self.players.contains(player) {
            Err(WagerError::AlreadyDeposited)
        } else if self.players.len() >= MAX_PLAYERS {
            Err(WagerError::RaceFull)
        } else {
            Ok(RaceView { players: self.players.push(player), ..self })
        }
    }

    /// Outcome of `caller` starting the race.
    pub open spec fn after_start(self, caller: Address) -> Result<RaceView, WagerError> {
        if caller != self.host {
            Err(WagerError::NotHost)
        } else if self.status != RaceStatus::Waiting {
            Err(WagerError::RaceNotWaiting)
        } else if self.players.len() < 2 {
            Err(WagerError::NotEnoughPlayers)
        } else {
            Ok(RaceView { status: RaceStatus::Racing, ..self })
        }
    }

    /// Outcome of `caller` declaring `winner` the winner.
    pub open spec fn after_declare(self, caller: Address, winner: Address) -> Result<
        RaceView,
        WagerError,
    > {
        if caller != self.host {
            Err(WagerError::NotHost)
        } else if self.status != RaceStatus::Racing {
            Err(WagerError::RaceNotRacing)
        } else if !self.players.contains(winner) {
            Err(WagerError::WinnerNotInRace)
        } else if self.pot() > u64::MAX {
            Err(WagerError::Overflow)
        } else {
            Ok(RaceView { status: RaceStatus::Completed, winner: Some(winner), ..self })
        }
    }

    /// Outcome of `caller` cancelling the race.
    pub open spec fn after_cancel(self, caller: Address) -> Result<RaceView, WagerError> {
        if caller != self.host {
            Err(WagerError::NotHost)
        } else if self.status != RaceStatus::Waiting {
            Err(WagerError::RaceNotWaiting)
        } else {
            Ok(RaceView { status: RaceStatus::Cancelled, ..self })
        }
    }

    /// Outcome of `player` claiming their stake back.
    pub open spec fn after_refund(self, player: Address) -> Result<RaceView, WagerError> {
        if self.status != RaceStatus::Cancelled {
            Err(WagerError::RaceNotCancelled)
        } else if !self.players.contains(player) {
            Err(WagerError::NotInRace)
        } else {
            Ok(RaceView { players: self.players.filter(other_than(player)), ..self })
        }
    }
}

} // verus!
