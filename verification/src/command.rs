//! The match state and the commands that players give.

use vstd::prelude::*;
use crate::config::NUM_PLAYERS;

verus! {

/// A player, named by the index of their paddle.
pub type PlayerId = usize;

/// Where a match stands. A match starts in `Playing`; `Victory` names the
/// winner and is never left.
#[derive(Clone, Copy, Debug, PartialEq, Eq, Structural)]
pub enum State {
    Paused,
    Playing,
    Victory(PlayerId),
}

/// What a player asks of the match.
#[derive(Clone, Copy, Debug, PartialEq, Eq, Structural)]
pub enum Command {
    /// Halt a running match, or resume a halted one.
    Pause,
    /// Push a player's paddle: the second field gives direction and strength,
    /// `-1` for one push upward and `1` for one push downward.
    Accelerate(PlayerId, i64),
    /// Brake a player's paddle.
    Slow(PlayerId),
}

/// Why a command was turned down.
#[derive(Clone, Copy, Debug, PartialEq, Eq, Structural)]
pub enum CommandError {
    /// The command names a player that the match does not have.
    UnknownPlayer(PlayerId),
}

impl State {
    /// The state after a pause command: `Paused` and `Playing` trade places,
    /// and a victory stands.
    pub open spec fn toggled(self) -> State {
        match self {
            State::Paused => State::Playing,
            State::Playing => State::Paused,
            State::Victory(winner) => State::Victory(winner),
        }
    }

    /// A winner, if the state names one, is a player of the match.
    pub open spec fn wf(self) -> bool {
        self matches State::Victory(winner) ==> winner < NUM_PLAYERS
    }
}

impl Command {
    /// The player that the command is about, if it is about one.
    pub open spec fn target(self) -> Option<PlayerId> {
        match self {
            Command::Pause => None,
            Command::Accelerate(player, _) => Some(player),
            Command::Slow(player) => Some(player),
        }
    }

    /// The command names no player, or one that the match has.
    pub open spec fn accepted(self) -> bool {
        self.target() matches Some(player) ==> player < NUM_PLAYERS
    }
}

} // verus!
