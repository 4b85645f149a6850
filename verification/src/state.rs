//! The shared game record: role composition, setup, and queries over the
//! role assignment.

use vstd::prelude::*;

use crate::errors::GameError;
use crate::rng::{random_below, shuffle_vec};
use crate::roles::{ID, MissionVote, Role};
use crate::rules::{calc_prev_id, find_role, find_role_safe, is_first_index_of, spec_prev_id};

verus! {

/// The canonical role composition for a player count, before the one-time
/// shuffle.
pub open spec fn spec_default_team(players: int) -> Seq<Role> {
    if players == 2 {
        seq![Role::Merlin, Role::Mordred]
    } else if players == 3 {
        seq![Role::Merlin, Role::Good, Role::Mordred]
    } else if players == 4 {
        seq![Role::Merlin, Role::Good, Role::Good2, Role::Mordred]
    } else if players == 5 {
        seq![Role::Merlin, Role::Good, Role::Good2, Role::Mordred, Role::Morgen]
    } else if players == 6 {
        seq![
            Role::Merlin,
            Role::Percival,
            Role::Good,
            Role::Good2,
            Role::Mordred,
            Role::Morgen,
        ]
    } else if players == 7 {
        seq![
            Role::Merlin,
            Role::Percival,
            Role::Good,
            Role::Good2,
            Role::Mordred,
            Role::Morgen,
            Role::Oberon,
        ]
    } else {
        Seq::empty()
    }
}

/// The canonical role composition for a player count, or `None` for an
/// unsupported count.
pub fn default_team(players: usize) -> (r: Option<Vec<Role>>)
    ensures
        r is Some <==> 2 <= players <= 7,
        r matches Some(v) ==> v@ == spec_default_team(players as int),
{
    if players < 2 || players > 7 {
        return None;
    }
    let mut v: Vec<Role> = Vec::new();
    v.push(Role::Merlin);
    if players >= 6 {
        v.push(Role::Percival);
    }
    if players >= 3 {
        v.push(Role::Good);
    }
    if players >= 4 {
        v.push(Role::Good2);
    }
    v.push(Role::Mordred);
    if players >= 5 {
        v.push(Role::Morgen);
    }
    if players == 7 {
        v.push(Role::Oberon);
    }
    proof {
        assert(v@ =~= spec_default_team(players as int));
    }
    Some(v)
}

/// The shared game record. It is created once at setup and mutated only by
/// the driver steps and the validated command entry points.
pub struct GameInfo {
    /// Ordered role assignment, indexed by player id.
    pub players: Vec<Role>,
    /// Required team size for the in-progress mission.
    pub expected_team_size: usize,
    /// Ids approved to attempt the current mission.
    pub current_team: Vec<ID>,
    /// Current holder of the clairvoyance power.
    pub mermaid_id: ID,
    /// Current proposer.
    pub crown_id: ID,
    /// Append-only history of completed mission outcomes.
    pub missions: Vec<MissionVote>,
}

impl GameInfo {
    /// Well-formedness of the shared record, established at setup and
    /// preserved by every driver step.
    pub open spec fn wf(&self) -> bool {
        &&& 5 <= self.players@.len() <= 10
        &&& (self.crown_id as int) < self.players@.len()
        &&& (self.mermaid_id as int) < self.players@.len()
        &&& self.missions@.len() <= 5
        &&& forall|i: int|
            0 <= i < self.current_team@.len() ==> (self.current_team@[i] as int)
                < self.players@.len()
        &&& exists|i: int| 0 <= i < self.players@.len() && self.players@[i] == Role::Merlin
        &&& exists|i: int| 0 <= i < self.players@.len() && self.players@[i] == Role::Mordred
    }
}

/// Creates the shared record for a fresh game: the canonical composition for
/// the player count, shuffled once, a uniformly random crown, and the
/// clairvoyance power one seat behind the crown. Counts outside the
/// canonical role table are refused.
pub fn setup_info(number: usize) -> (r: Result<GameInfo, GameError>)
    ensures
        r is Ok <==> 5 <= number <= 7,
        r matches Err(e) ==> e == GameError::ConfigurationError,
        r matches Ok(info) ==> {
            &&& info.wf()
            &&& info.players@.len() == number
            &&& info.players@.to_multiset() == spec_default_team(number as int).to_multiset()
            &&& info.missions@.len() == 0
            &&& info.current_team@.len() == 0
            &&& info.expected_team_size == 0
            &&& info.mermaid_id as int == spec_prev_id(info.crown_id, number as int)
        },
{
    if number < 5 || number > 7 {
        return Err(GameError::ConfigurationError);
    }
    let mut players = match default_team(number) {
        Some(v) => v,
        None => {
            // unreachable: the count was checked against the table's domain
            proof {
                assert(false);
            }
            Vec::new()
        },
    };
    shuffle_vec(&mut players);
    proof {
        broadcast use vstd::seq_lib::group_to_multiset_ensures;

        let dt = spec_default_team(number as int);
        assert(dt.contains(Role::Merlin));
        assert(dt.contains(Role::Mordred));
        assert(dt.to_multiset().count(Role::Merlin) > 0);
        assert(dt.to_multiset().count(Role::Mordred) > 0);
        assert(players@.to_multiset().count(Role::Merlin) > 0);
        assert(players@.to_multiset().count(Role::Mordred) > 0);
        assert(players@.contains(Role::Merlin));
        assert(players@.contains(Role::Mordred));
    }
    let crown_id = random_below(number) as ID;
    let mermaid_id = calc_prev_id(crown_id, number);
    Ok(
        GameInfo {
            players,
            expected_team_size: 0,
            current_team: Vec::new(),
            mermaid_id,
            crown_id,
            missions: Vec::new(),
        },
    )
}

/// `team` lists exactly the bad-aligned player ids, in increasing order.
pub open spec fn is_bad_team(s: Seq<Role>, team: Seq<ID>) -> bool {
    &&& forall|a: int, b: int| 0 <= a < b < team.len() ==> team[a] < team[b]
    &&& forall|j: int| 0 <= j < team.len() ==> (team[j] as int) < s.len()
    &&& forall|id: int| 0 <= id < s.len() ==> (team.contains(id as ID) <==> !s[id].is_good())
}

/// Lists the bad-aligned player ids, in increasing order.
pub fn get_bad_team(players: &Vec<Role>) -> (r: Vec<ID>)
    requires
        players@.len() <= 255,
    ensures
        is_bad_team(players@, r@),
{
    let n = players.len();
    let mut team: Vec<ID> = Vec::new();
    let mut i: usize = 0;
    while i < n
        invariant
            i <= n,
            n == players@.len(),
            n <= 255,
            forall|a: int, b: int| 0 <= a < b < team@.len() ==> team@[a] < team@[b],
            forall|j: int| 0 <= j < team@.len() ==> (team@[j] as int) < i,
            forall|id: int| 0 <= id < i ==> (team@.contains(id as ID) <==> !players@[id].is_good()),
        decreases n - i,
    {
        let ghost old_team = team@;
        if !players[i].is_good() {
            team.push(i as ID);
        }
        proof {
            assert forall|id: int| 0 <= id < i + 1 implies (team@.contains(id as ID)
                <==> !players@[id].is_good()) by {
                if team@ != old_team {
                    assert(team@ == old_team.push(i as ID));
                    if id < i {
                        assert(team@.contains(id as ID) <==> old_team.contains(id as ID)) by {
                            if old_team.contains(id as ID) {
                                let w = choose|k: int|
                                    0 <= k < old_team.len() && old_team[k] == id as ID;
                                assert(team@[w] == id as ID);
                            }
                            if team@.contains(id as ID) {
                                let w = choose|k: int| 0 <= k < team@.len() && team@[k] == id as ID;
                                assert(w < old_team.len());
                                assert(old_team[w] == id as ID);
                            }
                        }
                    } else {
                        assert(team@[team@.len() - 1] == i as ID);
                    }
                }
            }
        }
        i = i + 1;
    }
    team
}

/// `g` is the designated guesser: the first Assassin if one is present in
/// the assignment, otherwise the first Mordred.
pub open spec fn is_guesser(s: Seq<Role>, g: ID) -> bool {
    if exists|i: int| 0 <= i < s.len() && s[i] == Role::Assassin {
        is_first_index_of(s, Role::Assassin, g as int)
    } else {
        is_first_index_of(s, Role::Mordred, g as int)
    }
}

/// The player who must guess Merlin in the endgame: the Assassin when one is
/// in the game, the default bad-team leader Mordred otherwise.
pub fn get_guesser(players: &Vec<Role>) -> (r: ID)
    requires
        players@.len() <= 255,
        exists|i: int| 0 <= i < players@.len() && players@[i] == Role::Mordred,
    ensures
        is_guesser(players@, r),
{
    match find_role_safe(players.as_slice(), Role::Assassin) {
        Some(id) => id,
        None => find_role(players.as_slice(), Role::Mordred),
    }
}

} // verus!
