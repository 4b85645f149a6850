//! The turn-driving state machine. Each step consumes one inbound message
//! (or none, at the start of a round), advances the shared record, and
//! returns the next phase together with the events to publish, in order.
//! An embedding runs the loop: it receives from its channels according to
//! the phase, calls the matching step, and forwards the returned events to
//! the observers.

use vstd::prelude::*;

use crate::errors::GameError;
use crate::events::{EventView, GameEvent};
use crate::rng::shuffle_vec;
use crate::roles::{GameResult, ID, MissionVote, Role, Team, TeamVote};
use crate::rules::{
    calc_mission_result, calc_next_id, calc_winner, find_role, get_expected_team_size,
    is_first_index_of, is_mission_approved, lemma_counts_total, lemma_winner_rule, spec_approved,
    spec_mission_result, spec_next_id, spec_team_size, spec_winner, MAX_TRY_COUNT,
};
use crate::state::{get_bad_team, get_guesser, is_bad_team, is_guesser, GameInfo};

verus! {

/// Where the driver stands and which input it waits for next. The round
/// phases carry the per-mission reject counter: how many consecutive
/// rejections this mission has seen so far. It starts at 0, resets on team
/// approval, and reaching [`MAX_TRY_COUNT`] ends the game.
#[derive(PartialEq, Eq, Structural, Clone, Copy, Debug)]
pub enum Phase {
    /// A round begins: call [`begin_turn`] next, with no input.
    RoundStart { rejections: u8 },
    /// Waiting for the crown holder's team suggestion.
    TeamSelection { rejections: u8 },
    /// Waiting for the complete team-vote batch.
    TeamVoting { rejections: u8 },
    /// Waiting for the complete mission-vote batch.
    MissionVoting,
    /// Waiting for the clairvoyance holder's target selection.
    MermaidSelection,
    /// Waiting for the clairvoyance holder's announced word.
    MermaidWord { checked: ID },
    /// Waiting for the bad team's Merlin guess.
    MerlinGuess,
    /// The game is over.
    Done { result: GameResult },
}

/// Starts a proposal round: looks up the required team size for the current
/// mission, records it, and hands the turn to the crown holder. An
/// unsupported mission index or player count is a configuration error and
/// changes nothing.
pub fn begin_turn(info: &mut GameInfo, rejections: u8) -> (r: Result<
    (Phase, Vec<GameEvent>),
    GameError,
>)
    requires
        old(info).wf(),
    ensures
        final(info).players == old(info).players,
        final(info).current_team == old(info).current_team,
        final(info).missions == old(info).missions,
        final(info).crown_id == old(info).crown_id,
        final(info).mermaid_id == old(info).mermaid_id,
        final(info).wf(),
        r is Ok <==> spec_team_size(
            old(info).missions@.len() as int + 1,
            old(info).players@.len() as int,
        ) is Some,
        r matches Err(e) ==> e == GameError::ConfigurationError && final(info).expected_team_size
            == old(info).expected_team_size,
        r matches Ok((phase, events)) ==> {
            &&& Some(final(info).expected_team_size) == spec_team_size(
                old(info).missions@.len() as int + 1,
                old(info).players@.len() as int,
            )
            &&& phase == (Phase::TeamSelection { rejections })
            &&& events@.len() == 1
            &&& events@[0]@ == EventView::Turn(old(info).crown_id, final(info).expected_team_size)
        },
{
    let mission = info.missions.len() + 1;
    let players_count = info.players.len();
    match get_expected_team_size(mission, players_count) {
        Some(size) => {
            info.expected_team_size = size;
            let mut events: Vec<GameEvent> = Vec::new();
            events.push(GameEvent::Turn(info.crown_id, size));
            Ok((Phase::TeamSelection { rejections }, events))
        },
        None => Err(GameError::ConfigurationError),
    }
}

/// Records the suggested team as the current team and publishes it. The
/// suggestion has already passed the command-side legality check.
pub fn on_team_suggested(info: &mut GameInfo, rejections: u8, team: Vec<ID>) -> (r: (
    Phase,
    Vec<GameEvent>,
))
    requires
        old(info).wf(),
        team@.len() == old(info).expected_team_size,
        forall|i: int| 0 <= i < team@.len() ==> (team@[i] as int) < old(info).players@.len(),
    ensures
        final(info).players == old(info).players,
        final(info).missions == old(info).missions,
        final(info).crown_id == old(info).crown_id,
        final(info).mermaid_id == old(info).mermaid_id,
        final(info).expected_team_size == old(info).expected_team_size,
        final(info).current_team@ == team@,
        final(info).current_team@.len() == final(info).expected_team_size,
        final(info).wf(),
        r.0 == (Phase::TeamVoting { rejections }),
        r.1@.len() == 1,
        r.1@[0]@ == EventView::TeamSuggested(team@),
{
    let team_for_event = team.clone();
    proof {
        assert(team_for_event@ =~= team@);
    }
    info.current_team = team;
    let mut events: Vec<GameEvent> = Vec::new();
    events.push(GameEvent::TeamSuggested(team_for_event));
    (Phase::TeamVoting { rejections }, events)
}

/// Tallies a complete team-vote batch. Approval hands the mission to the
/// current team and advances the crown; a rejection raises the rejection
/// count and passes the crown for another try, and the fifth consecutive
/// rejection ends the game at once in Bad's favour. The mission history is
/// left untouched in every case, so a game lost to rejections records no
/// mission vote.
pub fn on_team_votes(info: &mut GameInfo, rejections: u8, votes: Vec<TeamVote>) -> (r: (
    Phase,
    Vec<GameEvent>,
))
    requires
        old(info).wf(),
        rejections < MAX_TRY_COUNT,
    ensures
        final(info).players == old(info).players,
        final(info).missions == old(info).missions,
        final(info).mermaid_id == old(info).mermaid_id,
        final(info).expected_team_size == old(info).expected_team_size,
        final(info).current_team == old(info).current_team,
        final(info).wf(),
        spec_approved(votes@) ==> {
            &&& final(info).crown_id as int == spec_next_id(
                old(info).crown_id,
                old(info).players@.len() as int,
            )
            &&& r.0 == Phase::MissionVoting
            &&& r.1@.len() == 2
            &&& r.1@[0]@ == EventView::TeamVote(votes@)
            &&& r.1@[1]@ == EventView::TeamApproved(old(info).current_team@)
        },
        !spec_approved(votes@) && rejections + 1 < MAX_TRY_COUNT ==> {
            &&& final(info).crown_id as int == spec_next_id(
                old(info).crown_id,
                old(info).players@.len() as int,
            )
            &&& r.0 == (Phase::RoundStart { rejections: (rejections + 1) as u8 })
            &&& r.1@.len() == 2
            &&& r.1@[0]@ == EventView::TeamVote(votes@)
            &&& r.1@[1]@ == EventView::TeamRejected((rejections + 1) as u8)
        },
        !spec_approved(votes@) && rejections + 1 == MAX_TRY_COUNT ==> {
            &&& final(info).crown_id == old(info).crown_id
            &&& r.0 == (Phase::Done { result: GameResult::BadWins })
            &&& r.1@.len() == 3
            &&& r.1@[0]@ == EventView::TeamVote(votes@)
            &&& r.1@[1]@ == EventView::TeamRejected(MAX_TRY_COUNT)
            &&& r.1@[2]@ == EventView::GameResult(GameResult::BadWins)
        },
{
    let approved = is_mission_approved(&votes);
    let mut events: Vec<GameEvent> = Vec::new();
    events.push(GameEvent::TeamVote(votes));
    if approved {
        let team = info.current_team.clone();
        proof {
            assert(team@ =~= info.current_team@);
        }
        events.push(GameEvent::TeamApproved(team));
        let players_count = info.players.len();
        info.crown_id = calc_next_id(info.crown_id, players_count);
        (Phase::MissionVoting, events)
    } else {
        let reject_count = rejections + 1;
        events.push(GameEvent::TeamRejected(reject_count));
        if reject_count >= MAX_TRY_COUNT {
            events.push(GameEvent::GameResult(GameResult::BadWins));
            (Phase::Done { result: GameResult::BadWins }, events)
        } else {
            let players_count = info.players.len();
            info.crown_id = calc_next_id(info.crown_id, players_count);
            (Phase::RoundStart { rejections: reject_count }, events)
        }
    }
}

/// Resolves a complete mission-vote batch: appends the outcome to the
/// history, publishes the votes in a randomly reordered batch so that
/// individual voters cannot be inferred from position, and decides what
/// follows -- the end of the game, a clairvoyance phase, or the next round.
///
/// Whenever this step takes Good to three successes it publishes
/// `BadLastChance` and hands the game to the guesser, and publishes no
/// `GameResult` itself: the final `GameResult` can only come later, from
/// [`on_merlin_guess`], so `BadLastChance` always strictly precedes it.
pub fn on_mission_votes(info: &mut GameInfo, votes: Vec<MissionVote>) -> (r: (
    Phase,
    Vec<GameEvent>,
))
    requires
        old(info).wf(),
        spec_winner(old(info).missions@) is None,
        votes@.len() == old(info).expected_team_size,
    ensures
        final(info).players == old(info).players,
        final(info).crown_id == old(info).crown_id,
        final(info).mermaid_id == old(info).mermaid_id,
        final(info).expected_team_size == old(info).expected_team_size,
        final(info).current_team == old(info).current_team,
        final(info).wf(),
        ({
            let mission = old(info).missions@.len() as int + 1;
            let outcome = spec_mission_result(mission, old(info).players@.len() as int, votes@);
            let history = old(info).missions@.push(outcome);
            let w = spec_winner(history);
            &&& final(info).missions@ == history
            &&& r.1@.len() >= 1
            &&& (r.1@[0]@ matches EventView::MissionResult(shuffled) && shuffled.to_multiset()
                == votes@.to_multiset())
            &&& (w == Some(GameResult::BadWins) ==> {
                &&& r.0 == (Phase::Done { result: GameResult::BadWins })
                &&& r.1@.len() == 2
                &&& r.1@[1]@ == EventView::GameResult(GameResult::BadWins)
            })
            &&& (w == Some(GameResult::GoodWins) ==> {
                &&& r.0 == Phase::MerlinGuess
                &&& r.1@.len() == 2
                &&& (r.1@[1]@ matches EventView::BadLastChance(bad, guesser) && is_bad_team(
                    old(info).players@,
                    bad,
                ) && is_guesser(old(info).players@, guesser))
                &&& forall|i: int| 0 <= i < r.1@.len() ==> !(#[trigger] r.1@[i]@ is GameResult)
            })
            &&& (w is None ==> (if old(info).players@.len() >= 7 && 2 <= mission <= 4 {
                &&& r.0 == Phase::MermaidSelection
                &&& r.1@.len() == 2
                &&& r.1@[1]@ == EventView::Mermaid(old(info).mermaid_id)
            } else {
                &&& r.0 == (Phase::RoundStart { rejections: 0 })
                &&& r.1@.len() == 1
            }))
        }),
{
    proof {
        lemma_winner_rule(info.missions@);
        lemma_counts_total(info.missions@);
    }
    let mission = info.missions.len() + 1;
    let players_count = info.players.len();
    let outcome = calc_mission_result(mission, players_count, &votes);
    info.missions.push(outcome);
    let mut shuffled = votes;
    shuffle_vec(&mut shuffled);
    let mut events: Vec<GameEvent> = Vec::new();
    events.push(GameEvent::MissionResult(shuffled));
    match calc_winner(&info.missions) {
        Some(GameResult::BadWins) => {
            events.push(GameEvent::GameResult(GameResult::BadWins));
            (Phase::Done { result: GameResult::BadWins }, events)
        },
        Some(GameResult::GoodWins) => {
            let bad = get_bad_team(&info.players);
            let guesser = get_guesser(&info.players);
            events.push(GameEvent::BadLastChance(bad, guesser));
            (Phase::MerlinGuess, events)
        },
        None => {
            if players_count >= 7 && 2 <= mission && mission <= 4 {
                events.push(GameEvent::Mermaid(info.mermaid_id));
                (Phase::MermaidSelection, events)
            } else {
                (Phase::RoundStart { rejections: 0 }, events)
            }
        },
    }
}

/// Endgame ordering. A Good-led endgame publishes its events in two steps:
/// [`on_mission_votes`], whose output ends with `BadLastChance` and holds no
/// `GameResult`, and then [`on_merlin_guess`]. In the concatenated output of
/// the two steps, some `BadLastChance` therefore comes strictly before every
/// `GameResult`.
pub proof fn lemma_last_chance_precedes_result(first: Seq<EventView>, second: Seq<EventView>)
    requires
        forall|i: int| 0 <= i < first.len() ==> !(#[trigger] first[i] is GameResult),
        first.len() >= 1,
        first[first.len() - 1] is BadLastChance,
    ensures
        ({
            let all = first + second;
            exists|b: int|
                0 <= b < all.len() && all[b] is BadLastChance && (forall|g: int|
                    0 <= g < all.len() && (#[trigger] all[g]) is GameResult ==> g > b)
        }),
{
    let all = first + second;
    let b = first.len() - 1;
    assert(all[b] == first[b]);
    assert forall|g: int| 0 <= g < all.len() && (#[trigger] all[g]) is GameResult implies g
        > b by {
        if g < first.len() {
            assert(all[g] == first[g]);
        }
    }
}

/// Resolves a clairvoyance check: computes the true alignment of the
/// checked player and reports it privately to the holder, who must then
/// announce a word.
pub fn on_mermaid_selection(info: &GameInfo, target: ID) -> (r: (Phase, Vec<GameEvent>))
    requires
        info.wf(),
        (target as int) < info.players@.len(),
    ensures
        r.0 == (Phase::MermaidWord { checked: target }),
        r.1@.len() == 1,
        r.1@[0]@ == EventView::MermaidResult(
            info.mermaid_id,
            target,
            if info.players@[target as int].is_good() {
                Team::Good
            } else {
                Team::Bad
            },
        ),
{
    let team = if info.players[target as usize].is_good() {
        Team::Good
    } else {
        Team::Bad
    };
    let mut events: Vec<GameEvent> = Vec::new();
    events.push(GameEvent::MermaidResult(info.mermaid_id, target, team));
    (Phase::MermaidWord { checked: target }, events)
}

/// Publishes the holder's announced word -- which may be a lie -- and then
/// transfers the clairvoyance power. The transfer does not depend on the
/// word: the new holder is the checked player's id whether or not the
/// announcement matched the truth.
pub fn on_mermaid_word(info: &mut GameInfo, checked: ID, word: Team) -> (r: (Phase, Vec<GameEvent>))
    requires
        old(info).wf(),
        (checked as int) < old(info).players@.len(),
    ensures
        final(info).players == old(info).players,
        final(info).crown_id == old(info).crown_id,
        final(info).missions == old(info).missions,
        final(info).expected_team_size == old(info).expected_team_size,
        final(info).current_team == old(info).current_team,
        final(info).mermaid_id == checked,
        final(info).wf(),
        r.0 == (Phase::RoundStart { rejections: 0 }),
        r.1@.len() == 1,
        r.1@[0]@ == EventView::MermaidSays(old(info).mermaid_id, checked, word),
{
    let mut events: Vec<GameEvent> = Vec::new();
    events.push(GameEvent::MermaidSays(info.mermaid_id, checked, word));
    info.mermaid_id = checked;
    (Phase::RoundStart { rejections: 0 }, events)
}

/// Resolves the bad team's last chance: reveals the true Merlin, then flips
/// the result to BadWins exactly when the guess names Merlin, and lets Good
/// keep the win otherwise. The final `GameResult` of a game that Good led
/// is published here and nowhere else.
pub fn on_merlin_guess(info: &GameInfo, guess: ID) -> (r: (Phase, Vec<GameEvent>))
    requires
        info.wf(),
    ensures
        r.1@.len() == 2,
        (r.1@[0]@ matches EventView::Merlin(merlin) && {
            &&& is_first_index_of(info.players@, Role::Merlin, merlin as int)
            &&& (guess == merlin ==> r.0 == (Phase::Done { result: GameResult::BadWins })
                && r.1@[1]@ == EventView::GameResult(GameResult::BadWins))
            &&& (guess != merlin ==> r.0 == (Phase::Done { result: GameResult::GoodWins })
                && r.1@[1]@ == EventView::GameResult(GameResult::GoodWins))
        }),
{
    let merlin = find_role(info.players.as_slice(), Role::Merlin);
    let mut events: Vec<GameEvent> = Vec::new();
    events.push(GameEvent::Merlin(merlin));
    let result = if guess == merlin {
        GameResult::BadWins
    } else {
        GameResult::GoodWins
    };
    events.push(GameEvent::GameResult(result));
    (Phase::Done { result }, events)
}

} // verus!
