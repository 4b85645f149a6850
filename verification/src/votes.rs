//! The validated command side: legality checks and per-round vote batching.

use vstd::pervasive::VecAdditionalExecFns;
use vstd::prelude::*;

use crate::errors::GameError;
use crate::roles::{ID, MissionVote, TeamVote};
use crate::state::GameInfo;

verus! {

/// Legality of a team suggestion, and its side effect: only the crown holder
/// may suggest, and the team must have exactly the expected size. A legal
/// suggestion is published into the shared record at once, so that
/// mission-vote membership checks do not depend on the driver's own
/// suspended receive; an illegal one leaves the record unchanged.
pub fn record_team_suggestion(info: &mut GameInfo, from: ID, team: &Vec<ID>) -> (r: Result<
    (),
    GameError,
>)
    requires
        old(info).wf(),
        forall|i: int| 0 <= i < team@.len() ==> (team@[i] as int) < old(info).players@.len(),
    ensures
        final(info).players == old(info).players,
        final(info).missions == old(info).missions,
        final(info).crown_id == old(info).crown_id,
        final(info).mermaid_id == old(info).mermaid_id,
        final(info).expected_team_size == old(info).expected_team_size,
        final(info).wf(),
        r is Ok <==> (from == old(info).crown_id && team@.len() == old(info).expected_team_size),
        r == Err::<(), GameError>(GameError::IllegalAction) <==> from != old(info).crown_id,
        r == Err::<(), GameError>(GameError::ShapeMismatch) <==> (from == old(info).crown_id
            && team@.len() != old(info).expected_team_size),
        r is Ok ==> final(info).current_team@ == team@,
        r is Err ==> final(info).current_team == old(info).current_team,
{
    if from != info.crown_id {
        return Err(GameError::IllegalAction);
    }
    if team.len() != info.expected_team_size {
        return Err(GameError::ShapeMismatch);
    }
    let copy = team.clone();
    proof {
        assert(copy@ =~= team@);
    }
    info.current_team = copy;
    Ok(())
}

/// True when every slot holds a vote.
pub open spec fn all_filled(s: Seq<Option<TeamVote>>) -> bool {
    forall|i: int| 0 <= i < s.len() ==> s[i] is Some
}

/// The per-round team-vote accumulator: one pending slot per player,
/// last write wins.
pub struct TeamVotes {
    /// The pending vote of each player id, `None` while the player has not
    /// voted this round.
    pub slots: Vec<Option<TeamVote>>,
}

impl TeamVotes {
    /// An empty accumulator for `n` players.
    pub fn new(n: usize) -> (r: TeamVotes)
        ensures
            r.slots@.len() == n,
            forall|i: int| 0 <= i < n ==> r.slots@[i] is None,
    {
        let mut slots: Vec<Option<TeamVote>> = Vec::new();
        let mut i: usize = 0;
        while i < n
            invariant
                i <= n,
                slots@.len() == i,
                forall|j: int| 0 <= j < i ==> slots@[j] is None,
            decreases n - i,
        {
            slots.push(None);
            i = i + 1;
        }
        TeamVotes { slots }
    }

    /// Casts, or overwrites, the pending vote of one player. When the cast
    /// fills the last empty slot the complete ordered batch is returned and
    /// every slot is cleared for the next round; otherwise nothing is
    /// returned and the other pending slots are kept.
    pub fn cast(&mut self, from: ID, vote: TeamVote) -> (batch: Option<Vec<TeamVote>>)
        requires
            (from as int) < old(self).slots@.len(),
        ensures
            final(self).slots@.len() == old(self).slots@.len(),
            ({
                let filled = old(self).slots@.update(from as int, Some(vote));
                if all_filled(filled) {
                    &&& batch matches Some(b)
                    &&& b@.len() == filled.len()
                    &&& (forall|i: int|
                        0 <= i < filled.len() ==> filled[i] == Some(#[trigger] b@[i]))
                    &&& (forall|i: int| 0 <= i < filled.len() ==> final(self).slots@[i] is None)
                } else {
                    &&& batch is None
                    &&& final(self).slots@ == filled
                }
            }),
    {
        let n = self.slots.len();
        self.slots.set(from as usize, Some(vote));
        let mut i: usize = 0;
        let mut complete = true;
        while i < n
            invariant
                i <= n,
                n == self.slots@.len(),
                complete <==> (forall|j: int| 0 <= j < i ==> self.slots@[j] is Some),
            decreases n - i,
        {
            if self.slots[i].is_none() {
                complete = false;
            }
            i = i + 1;
        }
        if !complete {
            return None;
        }
        let mut batch: Vec<TeamVote> = Vec::new();
        let mut i: usize = 0;
        while i < n
            invariant
                i <= n,
                n == self.slots@.len(),
                all_filled(self.slots@),
                batch@.len() == i,
                forall|j: int| 0 <= j < i ==> self.slots@[j] == Some(#[trigger] batch@[j]),
            decreases n - i,
        {
            match self.slots[i] {
                Some(v) => batch.push(v),
                None => {
                    // unreachable: every slot is filled here
                    proof {
                        assert(false);
                    }
                },
            }
            i = i + 1;
        }
        let mut i: usize = 0;
        while i < n
            invariant
                i <= n,
                n == self.slots@.len(),
                batch@.len() == n,
                forall|j: int|
                    i <= j < n ==> self.slots@[j] == Some(#[trigger] batch@[j]),
                forall|j: int| 0 <= j < i ==> self.slots@[j] is None,
            decreases n - i,
        {
            self.slots.set(i, None);
            i = i + 1;
        }
        Some(batch)
    }
}

/// Overwriting law for the pending slots: casting a second vote for the same
/// player leaves the buffer exactly as if only the second vote had been
/// cast, so a double vote never counts twice toward a complete batch.
pub proof fn lemma_cast_overwrites(
    s: Seq<Option<TeamVote>>,
    from: int,
    first: TeamVote,
    second: TeamVote,
)
    requires
        0 <= from < s.len(),
    ensures
        s.update(from, Some(first)).update(from, Some(second)) == s.update(from, Some(second)),
{
    assert(s.update(from, Some(first)).update(from, Some(second)) =~= s.update(
        from,
        Some(second),
    ));
}

/// Legality and batching of a mission vote. A vote is accepted only from a
/// member of the current team, and a good-aligned member may only vote
/// Success; an illegal vote is rejected and leaves the pending batch
/// unchanged. An accepted vote joins the pending batch; the vote that
/// completes the batch returns it, emptied for the next mission.
pub fn submit_for_mission(
    info: &GameInfo,
    pending: &mut Vec<MissionVote>,
    from: ID,
    vote: MissionVote,
) -> (r: Result<Option<Vec<MissionVote>>, GameError>)
    requires
        info.wf(),
        old(pending)@.len() < info.expected_team_size,
    ensures
        r is Err ==> final(pending)@ == old(pending)@,
        r is Ok <==> (info.current_team@.contains(from) && !(info.players@[from as int].is_good()
            && vote is Fail)),
        r == Err::<Option<Vec<MissionVote>>, GameError>(GameError::IllegalAction) <==> !info
            .current_team@.contains(from),
        r == Err::<Option<Vec<MissionVote>>, GameError>(GameError::RoleViolation) <==> (info
            .current_team@.contains(from) && info.players@[from as int].is_good()
            && vote is Fail),
        r matches Ok(complete) ==> {
            &&& info.current_team@.contains(from)
            &&& (info.players@[from as int].is_good() ==> vote is Success)
            &&& if old(pending)@.len() + 1 == info.expected_team_size {
                &&& complete matches Some(batch)
                &&& batch@ == old(pending)@.push(vote)
                &&& final(pending)@.len() == 0
            } else {
                &&& complete is None
                &&& final(pending)@ == old(pending)@.push(vote)
            }
        },
{
    let mut member = false;
    let n = info.current_team.len();
    let mut i: usize = 0;
    while i < n
        invariant
            i <= n,
            n == info.current_team@.len(),
            member <==> (exists|j: int| 0 <= j < i && info.current_team@[j] == from),
        decreases n - i,
    {
        if info.current_team[i] == from {
            member = true;
        }
        i = i + 1;
    }
    if !member {
        return Err(GameError::IllegalAction);
    }
    assert(info.current_team@.contains(from));
    assert((from as int) < info.players@.len());
    if info.players[from as usize].is_good() && vote == MissionVote::Fail {
        return Err(GameError::RoleViolation);
    }
    pending.push(vote);
    if pending.len() == info.expected_team_size {
        let batch = pending.split_off(0);
        proof {
            assert(batch@ =~= old(pending)@.push(vote));
        }
        Ok(Some(batch))
    } else {
        Ok(None)
    }
}

} // verus!
