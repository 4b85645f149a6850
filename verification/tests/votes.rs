use avalon_engine::errors::GameError;
use avalon_engine::roles::{MissionVote, Role, TeamVote, ID};
use avalon_engine::rules::is_mission_approved;
use avalon_engine::state::{default_team, setup_info, GameInfo};
use avalon_engine::votes::{record_team_suggestion, submit_for_mission, TeamVotes};

fn seven_player_info() -> GameInfo {
    GameInfo {
        players: default_team(7).unwrap(),
        expected_team_size: 2,
        current_team: vec![0, 1],
        mermaid_id: 6,
        crown_id: 0,
        missions: Vec::new(),
    }
}

// Approved iff Approve-count x 2 > total votes; equal counts reject.
#[test]
fn test_approval_needs_strict_majority() {
    assert!(!is_mission_approved(&vec![]));
    assert!(is_mission_approved(&vec![TeamVote::Approve]));
    assert!(!is_mission_approved(&vec![TeamVote::Reject]));
    assert!(!is_mission_approved(&vec![TeamVote::Approve, TeamVote::Reject]));
    assert!(is_mission_approved(&vec![
        TeamVote::Approve,
        TeamVote::Approve,
        TeamVote::Reject
    ]));
    assert!(!is_mission_approved(&vec![
        TeamVote::Approve,
        TeamVote::Approve,
        TeamVote::Reject,
        TeamVote::Reject
    ]));
}

#[test]
fn test_suggestion_requires_crown_holder() {
    let mut info = seven_player_info();
    let team: Vec<ID> = vec![2, 3];
    assert_eq!(record_team_suggestion(&mut info, 1, &team), Err(GameError::IllegalAction));
    assert_eq!(info.current_team, vec![0, 1]);
    assert_eq!(record_team_suggestion(&mut info, 0, &team), Ok(()));
    // a legal suggestion is published into the shared record at once
    assert_eq!(info.current_team, vec![2, 3]);
}

#[test]
fn test_suggestion_requires_expected_size() {
    let mut info = seven_player_info();
    assert_eq!(
        record_team_suggestion(&mut info, 0, &vec![0, 1, 2]),
        Err(GameError::ShapeMismatch)
    );
    assert_eq!(record_team_suggestion(&mut info, 0, &vec![3]), Err(GameError::ShapeMismatch));
    assert_eq!(info.current_team, vec![0, 1]);
    assert_eq!(record_team_suggestion(&mut info, 0, &vec![3, 4]), Ok(()));
    assert_eq!(info.current_team, vec![3, 4]);
}

// Casting a vote twice for the same player overwrites the pending slot
// rather than counting twice toward a complete batch.
#[test]
fn test_double_vote_overwrites_slot() {
    let mut votes = TeamVotes::new(3);
    assert!(votes.cast(0, TeamVote::Approve).is_none());
    assert!(votes.cast(0, TeamVote::Reject).is_none());
    assert!(votes.cast(1, TeamVote::Approve).is_none());
    let batch = votes.cast(2, TeamVote::Approve).unwrap();
    assert_eq!(batch, vec![TeamVote::Reject, TeamVote::Approve, TeamVote::Approve]);
}

#[test]
fn test_vote_buffer_clears_for_next_round() {
    let mut votes = TeamVotes::new(2);
    assert!(votes.cast(1, TeamVote::Reject).is_none());
    assert!(votes.cast(0, TeamVote::Approve).is_some());
    // a fresh round: one vote is again not enough
    assert!(votes.cast(0, TeamVote::Approve).is_none());
    let batch = votes.cast(1, TeamVote::Approve).unwrap();
    assert_eq!(batch, vec![TeamVote::Approve, TeamVote::Approve]);
}

#[test]
fn test_mission_vote_from_non_member_rejected() {
    let info = seven_player_info();
    let mut pending = Vec::new();
    let r = submit_for_mission(&info, &mut pending, 5, MissionVote::Success);
    assert_eq!(r, Err(GameError::IllegalAction));
    assert!(pending.is_empty());
}

// A good-aligned player attempting a Fail mission vote is rejected and the
// pending batch is unchanged.
#[test]
fn test_good_player_cannot_fail_mission() {
    let mut info = seven_player_info();
    // ids 0 and 1 are Merlin and Percival in the unshuffled composition
    assert!(info.players[0].is_good());
    let mut pending = Vec::new();
    let r = submit_for_mission(&info, &mut pending, 0, MissionVote::Fail);
    assert_eq!(r, Err(GameError::RoleViolation));
    assert!(pending.is_empty());

    // a pending vote survives the rejected attempt
    assert_eq!(submit_for_mission(&info, &mut pending, 1, MissionVote::Success), Ok(None));
    assert_eq!(pending.len(), 1);
    let r = submit_for_mission(&info, &mut pending, 0, MissionVote::Fail);
    assert_eq!(r, Err(GameError::RoleViolation));
    assert_eq!(pending, vec![MissionVote::Success]);

    // a bad-aligned member may cast either vote
    let mordred = info
        .players
        .iter()
        .position(|r| *r == Role::Mordred)
        .unwrap() as ID;
    info.current_team = vec![0, mordred];
    let mut pending = Vec::new();
    assert_eq!(submit_for_mission(&info, &mut pending, mordred, MissionVote::Fail), Ok(None));
    assert_eq!(pending, vec![MissionVote::Fail]);
}

#[test]
fn test_mission_votes_complete_at_expected_size() {
    let info = seven_player_info();
    let mut pending = Vec::new();
    assert_eq!(submit_for_mission(&info, &mut pending, 1, MissionVote::Success), Ok(None));
    let r = submit_for_mission(&info, &mut pending, 0, MissionVote::Success);
    assert_eq!(r, Ok(Some(vec![MissionVote::Success, MissionVote::Success])));
    assert!(pending.is_empty());
}

#[test]
fn test_default_team_compositions() {
    assert_eq!(
        default_team(5).unwrap(),
        vec![Role::Merlin, Role::Good, Role::Good2, Role::Mordred, Role::Morgen]
    );
    assert_eq!(
        default_team(7).unwrap(),
        vec![
            Role::Merlin,
            Role::Percival,
            Role::Good,
            Role::Good2,
            Role::Mordred,
            Role::Morgen,
            Role::Oberon
        ]
    );
    assert!(default_team(1).is_none());
    assert!(default_team(8).is_none());
}

#[test]
fn test_setup_info_shuffles_canonical_roles() {
    let info = setup_info(7).unwrap();
    assert_eq!(info.players.len(), 7);
    assert!((info.crown_id as usize) < 7);
    assert!((info.mermaid_id as usize) < 7);
    // the clairvoyance power starts one seat behind the crown
    let expected_mermaid = if info.crown_id == 0 { 6 } else { info.crown_id - 1 };
    assert_eq!(info.mermaid_id, expected_mermaid);
    assert!(info.missions.is_empty());
    assert!(info.current_team.is_empty());
    // same multiset of roles as the canonical composition
    let mut got = info.players.clone();
    let mut want = default_team(7).unwrap();
    let key = |r: &Role| format!("{:?}", r);
    got.sort_by_key(key);
    want.sort_by_key(key);
    assert_eq!(got, want);
}

#[test]
fn test_setup_info_rejects_unsupported_counts() {
    assert_eq!(setup_info(4).err(), Some(GameError::ConfigurationError));
    assert_eq!(setup_info(8).err(), Some(GameError::ConfigurationError));
    assert!(setup_info(5).is_ok());
    assert!(setup_info(6).is_ok());
}
