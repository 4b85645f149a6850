//! Core vocabulary of the game: alignments, roles, votes and results.

use vstd::prelude::*;

verus! {

/// The Good or Bad meta-team membership derived from a player's role.
#[derive(PartialEq, Eq, Structural, Clone, Copy, Debug)]
pub enum Team {
    Good,
    Bad,
}

/// The closed set of roles. `Good2` is the same role as `Good`; it is kept
/// distinct only so that a team selection can reference "the first" versus
/// "the second" generic-good occupant.
#[derive(PartialEq, Eq, Structural, Clone, Copy, Debug)]
pub enum Role {
    Mordred,
    Morgen,
    Oberon,
    Assassin,
    Bad,
    Merlin,
    Percival,
    Good,
    Good2,
}

/// A player identity: a small integer index into the fixed-size, shuffled-once
/// player/role assignment, stable for the whole game.
pub type ID = u8;

impl Role {
    /// Fixed alignment of each role.
    pub open spec fn spec_is_good(&self) -> bool {
        match self {
            Role::Merlin | Role::Percival | Role::Good | Role::Good2 => true,
            Role::Mordred | Role::Morgen | Role::Assassin | Role::Oberon | Role::Bad => false,
        }
    }

    #[verifier::when_used_as_spec(spec_is_good)]
    pub fn is_good(&self) -> (r: bool)
        ensures
            r == self.spec_is_good(),
    {
        match self {
            Role::Merlin | Role::Percival | Role::Good | Role::Good2 => true,
            Role::Mordred | Role::Morgen | Role::Assassin | Role::Oberon | Role::Bad => false,
        }
    }
}

/// One player's vote on a suggested team, exactly one per player per round.
#[derive(PartialEq, Eq, Structural, Clone, Copy, Debug)]
pub enum TeamVote {
    Approve,
    Reject,
}

/// One team member's vote on a mission, exactly one per member per mission.
#[derive(PartialEq, Eq, Structural, Clone, Copy, Debug)]
pub enum MissionVote {
    Success,
    Fail,
}

/// The terminal outcome of a game, assigned at most once.
#[derive(PartialEq, Eq, Structural, Clone, Copy, Debug)]
pub enum GameResult {
    GoodWins,
    BadWins,
}

} // verus!
