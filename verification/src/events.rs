//! Externally observable transitions of the engine, and their ghost view.

use vstd::prelude::*;

use crate::roles::{GameResult, ID, MissionVote, Team, TeamVote};

verus! {

/// A record of one externally observable transition, as delivered to
/// observers over the event stream.
#[derive(PartialEq, Clone, Debug)]
pub enum GameEvent {
    /// The crown holder must now suggest a team of the given size.
    Turn(ID, usize),
    /// The crown holder suggested this team.
    TeamSuggested(Vec<ID>),
    /// Every player voted on the suggested team.
    TeamVote(Vec<TeamVote>),
    /// The team was approved and attempts the mission.
    TeamApproved(Vec<ID>),
    /// The team was rejected; the count of consecutive rejections so far.
    TeamRejected(u8),
    /// A mission completed with these votes, reordered so that individual
    /// voters cannot be inferred from position.
    MissionResult(Vec<MissionVote>),
    /// The clairvoyance holder must now pick a player to check.
    Mermaid(ID),
    /// Holder, checked player, and the checked player's true alignment;
    /// visible to the holder alone.
    MermaidResult(ID, ID, Team),
    /// Holder, checked player, and the alignment the holder announces, which
    /// may be a lie.
    MermaidSays(ID, ID, Team),
    /// Good reached three successes; the bad team and its designated guesser
    /// get one chance to name Merlin.
    BadLastChance(Vec<ID>, ID),
    /// The true Merlin, revealed after the guess.
    Merlin(ID),
    /// The terminal outcome.
    GameResult(GameResult),
}

/// The ghost view of a [`GameEvent`]: the same record with mathematical
/// sequences in place of vectors, for use in contracts.
pub enum EventView {
    Turn(ID, usize),
    TeamSuggested(Seq<ID>),
    TeamVote(Seq<TeamVote>),
    TeamApproved(Seq<ID>),
    TeamRejected(u8),
    MissionResult(Seq<MissionVote>),
    Mermaid(ID),
    MermaidResult(ID, ID, Team),
    MermaidSays(ID, ID, Team),
    BadLastChance(Seq<ID>, ID),
    Merlin(ID),
    GameResult(GameResult),
}

impl View for GameEvent {
    type V = EventView;

    open spec fn view(&self) -> EventView {
        match self {
            GameEvent::Turn(id, size) => EventView::Turn(*id, *size),
            GameEvent::TeamSuggested(team) => EventView::TeamSuggested(team@),
            GameEvent::TeamVote(votes) => EventView::TeamVote(votes@),
            GameEvent::TeamApproved(team) => EventView::TeamApproved(team@),
            GameEvent::TeamRejected(count) => EventView::TeamRejected(*count),
            GameEvent::MissionResult(votes) => EventView::MissionResult(votes@),
            GameEvent::Mermaid(id) => EventView::Mermaid(*id),
            GameEvent::MermaidResult(holder, checked, team) => EventView::MermaidResult(
                *holder,
                *checked,
                *team,
            ),
            GameEvent::MermaidSays(holder, checked, team) => EventView::MermaidSays(
                *holder,
                *checked,
                *team,
            ),
            GameEvent::BadLastChance(team, guesser) => EventView::BadLastChance(team@, *guesser),
            GameEvent::Merlin(id) => EventView::Merlin(*id),
            GameEvent::GameResult(result) => EventView::GameResult(*result),
        }
    }
}

} // verus!
