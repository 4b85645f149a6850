//! Pure rules of the game: vote tallies, the team-size table, the mission
//! outcome rule, the winner rule, role lookup and cyclic index arithmetic.

use vstd::prelude::*;

use crate::roles::{GameResult, ID, MissionVote, Role, TeamVote};

verus! {

/// Consecutive team rejections that end the game in Bad's favour.
pub const MAX_TRY_COUNT: u8 = 5;

/// How many of the team votes approve the suggestion.
pub open spec fn count_approves(s: Seq<TeamVote>) -> nat
    decreases s.len(),
{
    if s.len() == 0 {
        0
    } else {
        count_approves(s.drop_last()) + (if s.last() is Approve {
            1nat
        } else {
            0nat
        })
    }
}

/// How many of the mission votes are Fail.
pub open spec fn count_fails(s: Seq<MissionVote>) -> nat
    decreases s.len(),
{
    if s.len() == 0 {
        0
    } else {
        count_fails(s.drop_last()) + (if s.last() is Fail {
            1nat
        } else {
            0nat
        })
    }
}

/// How many of the mission votes are Success.
pub open spec fn count_successes(s: Seq<MissionVote>) -> nat
    decreases s.len(),
{
    if s.len() == 0 {
        0
    } else {
        count_successes(s.drop_last()) + (if s.last() is Success {
            1nat
        } else {
            0nat
        })
    }
}

/// Every mission vote is either a Success or a Fail.
pub proof fn lemma_counts_total(s: Seq<MissionVote>)
    ensures
        count_fails(s) + count_successes(s) == s.len(),
    decreases s.len(),
{
    if s.len() > 0 {
        lemma_counts_total(s.drop_last());
    }
}

/// Approval rule: approved iff the approvals hold a strict majority of all
/// votes; equal counts reject.
pub open spec fn spec_approved(s: Seq<TeamVote>) -> bool {
    2 * count_approves(s) > s.len()
}

/// Approval rule: approved iff Approve-count × 2 > total votes; ties reject.
pub fn is_mission_approved(votes: &Vec<TeamVote>) -> (r: bool)
    ensures
        r == spec_approved(votes@),
{
    let n = votes.len();
    let mut approve_cnt: usize = 0;
    let mut i: usize = 0;
    while i < n
        invariant
            i <= n,
            n == votes@.len(),
            approve_cnt == count_approves(votes@.take(i as int)),
            approve_cnt <= i,
        decreases n - i,
    {
        proof {
            assert(votes@.take(i as int + 1).drop_last() =~= votes@.take(i as int));
        }
        if votes[i] == TeamVote::Approve {
            approve_cnt = approve_cnt + 1;
        }
        i = i + 1;
    }
    proof {
        assert(votes@.take(n as int) =~= votes@);
    }
    approve_cnt > n - approve_cnt
}

/// The fixed team-size table, as a total function on its domain: the team
/// size for the mission numbered `mission` (from 1) at `players` players.
pub open spec fn team_size_entry(mission: int, players: int) -> usize
    recommends
        1 <= mission <= 5,
        2 <= players <= 10,
{
    if mission == 1 {
        if players == 2 {
            1
        } else if players <= 7 {
            2
        } else {
            3
        }
    } else if mission == 2 {
        if players == 2 {
            2
        } else if players <= 7 {
            3
        } else {
            4
        }
    } else if mission == 3 {
        if players == 2 {
            1
        } else if players <= 5 {
            2
        } else if players == 6 {
            4
        } else if players == 7 {
            3
        } else {
            4
        }
    } else if mission == 4 {
        if players == 2 {
            2
        } else if players <= 6 {
            3
        } else if players == 7 {
            4
        } else {
            5
        }
    } else {
        if players == 2 {
            2
        } else if players <= 5 {
            3
        } else if players <= 7 {
            4
        } else {
            5
        }
    }
}

/// Team-size lookup: the table entry inside the supported domain (missions
/// 1 to 5, player counts 2 to 10), unsupported outside it.
pub open spec fn spec_team_size(mission: int, players: int) -> Option<usize> {
    if 1 <= mission <= 5 && 2 <= players <= 10 {
        Some(team_size_entry(mission, players))
    } else {
        None
    }
}

/// Looks up the required team size for a mission (numbered from 1) at a
/// player count; `None` outside the table's domain.
pub fn get_expected_team_size(mission: usize, players: usize) -> (r: Option<usize>)
    ensures
        r == spec_team_size(mission as int, players as int),
{
    if mission < 1 || mission > 5 || players < 2 || players > 10 {
        return None;
    }
    let size: usize = if mission == 1 {
        if players == 2 {
            1
        } else if players <= 7 {
            2
        } else {
            3
        }
    } else if mission == 2 {
        if players == 2 {
            2
        } else if players <= 7 {
            3
        } else {
            4
        }
    } else if mission == 3 {
        if players == 2 {
            1
        } else if players <= 5 {
            2
        } else if players == 6 {
            4
        } else if players == 7 {
            3
        } else {
            4
        }
    } else if mission == 4 {
        if players == 2 {
            2
        } else if players <= 6 {
            3
        } else if players == 7 {
            4
        } else {
            5
        }
    } else {
        if players == 2 {
            2
        } else if players <= 5 {
            3
        } else if players <= 7 {
            4
        } else {
            5
        }
    };
    Some(size)
}

/// Fail votes needed to fail a mission: the mission whose 0-based index is 4
/// (`mission == 5` numbered from 1) needs two Fail votes when more than 7
/// players are in the game; every other mission fails on a single Fail.
pub open spec fn spec_fail_threshold(mission: int, players: int) -> nat {
    if players > 7 && mission == 5 {
        2
    } else {
        1
    }
}

/// Mission outcome rule: the mission fails iff the Fail votes reach the
/// threshold for this mission and player count.
pub open spec fn spec_mission_result(mission: int, players: int, votes: Seq<MissionVote>) -> MissionVote {
    if count_fails(votes) >= spec_fail_threshold(mission, players) {
        MissionVote::Fail
    } else {
        MissionVote::Success
    }
}

/// Computes the outcome of the mission numbered `mission` (from 1) at
/// `players` players from the votes of its team.
pub fn calc_mission_result(mission: usize, players: usize, mission_votes: &Vec<MissionVote>) -> (r:
    MissionVote)
    ensures
        r == spec_mission_result(mission as int, players as int, mission_votes@),
{
    let n = mission_votes.len();
    let mut fails_count: usize = 0;
    let mut i: usize = 0;
    while i < n
        invariant
            i <= n,
            n == mission_votes@.len(),
            fails_count == count_fails(mission_votes@.take(i as int)),
            fails_count <= i,
        decreases n - i,
    {
        proof {
            assert(mission_votes@.take(i as int + 1).drop_last() =~= mission_votes@.take(i as int));
        }
        if mission_votes[i] == MissionVote::Fail {
            fails_count = fails_count + 1;
        }
        i = i + 1;
    }
    proof {
        assert(mission_votes@.take(n as int) =~= mission_votes@);
    }
    let threshold: usize = if players > 7 && mission == 5 {
        2
    } else {
        1
    };
    if fails_count >= threshold {
        MissionVote::Fail
    } else {
        MissionVote::Success
    }
}

/// Winner rule over an ordered mission history: the result of a history is
/// the result of its longest proper prefix where that is already decided;
/// otherwise Bad wins once the fails have reached 3, Good wins once the
/// successes have reached 3, and the game is undecided while neither has.
pub open spec fn spec_winner(s: Seq<MissionVote>) -> Option<GameResult>
    decreases s.len(),
{
    if s.len() == 0 {
        None
    } else if spec_winner(s.drop_last()) is Some {
        spec_winner(s.drop_last())
    } else if count_fails(s) >= 3 {
        Some(GameResult::BadWins)
    } else if count_successes(s) >= 3 {
        Some(GameResult::GoodWins)
    } else {
        None
    }
}

/// Once a history is decided, every extension of it is decided the same way.
pub proof fn lemma_winner_monotone(s: Seq<MissionVote>, i: int)
    requires
        0 <= i <= s.len(),
        spec_winner(s.take(i)) is Some,
    ensures
        spec_winner(s) == spec_winner(s.take(i)),
    decreases s.len(),
{
    if i == s.len() {
        assert(s.take(i) =~= s);
    } else {
        assert(s.drop_last().take(i) =~= s.take(i));
        lemma_winner_monotone(s.drop_last(), i);
    }
}

/// Taking a longer prefix never loses votes of either kind.
pub proof fn lemma_counts_monotone(s: Seq<MissionVote>, i: int, j: int)
    requires
        0 <= i <= j <= s.len(),
    ensures
        count_fails(s.take(i)) <= count_fails(s.take(j)),
        count_successes(s.take(i)) <= count_successes(s.take(j)),
    decreases j - i,
{
    if i < j {
        assert(s.take(j).drop_last() =~= s.take(j - 1));
        lemma_counts_monotone(s, i, j - 1);
    }
}

/// Winner rule, stated over prefixes of the history: for any
/// mission-outcome sequence, the result is BadWins exactly when some prefix
/// reaches 3 fails before reaching 3 successes, GoodWins exactly when some
/// prefix reaches 3 successes before reaching 3 fails, and undetermined
/// exactly when neither count ever reaches 3.
pub proof fn lemma_winner_rule(s: Seq<MissionVote>)
    ensures
        (spec_winner(s) == None::<GameResult>) <==> (count_fails(s) < 3 && count_successes(s) < 3),
        (spec_winner(s) == Some(GameResult::BadWins)) <==> (exists|i: int|
            0 <= i <= s.len() && count_fails(#[trigger] s.take(i)) >= 3 && count_successes(s.take(i)) < 3),
        (spec_winner(s) == Some(GameResult::GoodWins)) <==> (exists|i: int|
            0 <= i <= s.len() && count_successes(#[trigger] s.take(i)) >= 3 && count_fails(s.take(i)) < 3),
    decreases s.len(),
{
    if s.len() == 0 {
        assert(forall|i: int| 0 <= i <= s.len() ==> s.take(i) =~= s);
    } else {
        let p = s.drop_last();
        lemma_winner_rule(p);
        assert(s.take(s.len() as int) =~= s);
        assert(forall|i: int| 0 <= i <= p.len() ==> s.take(i) =~= p.take(i));
        if spec_winner(p) is Some {
            // the old witness carries over; a new witness at i == s.len()
            // cannot disagree with it, by monotonicity of the counts
            assert forall|i: int, j: int|
                0 <= i <= s.len() && 0 <= j <= s.len() && count_fails(s.take(i)) >= 3
                    && count_successes(s.take(i)) < 3 && count_successes(s.take(j)) >= 3
                    && count_fails(s.take(j)) < 3 implies false by {
                if i <= j {
                    lemma_counts_monotone(s, i, j);
                } else {
                    lemma_counts_monotone(s, j, i);
                }
            }
        } else {
            // the history itself is the first prefix that can decide
            assert forall|i: int|
                0 <= i <= s.len() && (count_fails(#[trigger] s.take(i)) >= 3 || count_successes(
                    s.take(i),
                ) >= 3) implies i == s.len() by {
                if i < s.len() {
                    assert(s.take(i) =~= p.take(i));
                    lemma_counts_monotone(p, i, p.len() as int);
                    assert(p.take(p.len() as int) =~= p);
                }
            }
        }
    }
}

/// Winner rule: scanning the history in order, Bad wins the first time the
/// fails reach 3, Good wins the first time the successes reach 3, and the
/// game is undecided if neither ever does.
pub fn calc_winner(mission_votes: &Vec<MissionVote>) -> (r: Option<GameResult>)
    ensures
        r == spec_winner(mission_votes@),
{
    let n = mission_votes.len();
    let mut fails: usize = 0;
    let mut successes: usize = 0;
    let mut i: usize = 0;
    while i < n
        invariant
            i <= n,
            n == mission_votes@.len(),
            fails == count_fails(mission_votes@.take(i as int)),
            successes == count_successes(mission_votes@.take(i as int)),
            fails < 3,
            successes < 3,
            spec_winner(mission_votes@.take(i as int)) is None,
        decreases n - i,
    {
        proof {
            assert(mission_votes@.take(i as int + 1).drop_last() =~= mission_votes@.take(i as int));
        }
        if mission_votes[i] == MissionVote::Fail {
            fails = fails + 1;
        } else {
            successes = successes + 1;
        }
        i = i + 1;
        if fails >= 3 {
            proof {
                lemma_winner_monotone(mission_votes@, i as int);
            }
            return Some(GameResult::BadWins);
        }
        if successes >= 3 {
            proof {
                lemma_winner_monotone(mission_votes@, i as int);
            }
            return Some(GameResult::GoodWins);
        }
    }
    proof {
        assert(mission_votes@.take(n as int) =~= mission_votes@);
    }
    None
}

/// `i` is the first index of `role` in `s`.
pub open spec fn is_first_index_of(s: Seq<Role>, role: Role, i: int) -> bool {
    &&& 0 <= i < s.len()
    &&& s[i] == role
    &&& forall|j: int| 0 <= j < i ==> s[j] != role
}

/// Finds the first player holding the given role, if any.
pub fn find_role_safe(players: &[Role], search_for: Role) -> (r: Option<ID>)
    requires
        players@.len() <= 255,
    ensures
        r matches Some(i) ==> is_first_index_of(players@, search_for, i as int),
        r is None ==> forall|j: int| 0 <= j < players@.len() ==> players@[j] != search_for,
{
    let n = players.len();
    let mut i: usize = 0;
    while i < n
        invariant
            i <= n,
            n == players@.len(),
            n <= 255,
            forall|j: int| 0 <= j < i ==> players@[j] != search_for,
        decreases n - i,
    {
        if players[i] == search_for {
            return Some(i as ID);
        }
        i = i + 1;
    }
    None
}

/// Finds the first player holding the given role; the role must be present.
pub fn find_role(players: &[Role], search_for: Role) -> (r: ID)
    requires
        players@.len() <= 255,
        exists|j: int| 0 <= j < players@.len() && players@[j] == search_for,
    ensures
        is_first_index_of(players@, search_for, r as int),
{
    match find_role_safe(players, search_for) {
        Some(i) => i,
        None => {
            // unreachable: the precondition has the role present
            proof {
                assert(false);
            }
            0
        },
    }
}

/// Cyclic decrement over [0, players): the seat before `id`.
pub open spec fn spec_prev_id(id: ID, players: int) -> int {
    if id == 0 {
        players - 1
    } else {
        id - 1
    }
}

/// Cyclic increment over [0, players): the seat after `id`.
pub open spec fn spec_next_id(id: ID, players: int) -> int {
    if id as int + 1 == players {
        0
    } else {
        id + 1
    }
}

/// Cyclic decrement over [0, players).
pub fn calc_prev_id(id: ID, players: usize) -> (r: ID)
    requires
        0 < players <= 255,
        (id as int) < players as int,
    ensures
        (r as int) < players as int,
        r as int == spec_prev_id(id, players as int),
{
    if id == 0 {
        (players - 1) as ID
    } else {
        id - 1
    }
}

/// Cyclic increment over [0, players).
pub fn calc_next_id(id: ID, players: usize) -> (r: ID)
    requires
        0 < players <= 255,
        (id as int) < players as int,
    ensures
        (r as int) < players as int,
        r as int == spec_next_id(id, players as int),
{
    if (id as usize) + 1 == players {
        0
    } else {
        id + 1
    }
}

} // verus!
