use otakuverse::custody::TransferAuthority;
use otakuverse::error::ErrorCode;
use otakuverse::events::EventStatus;
use otakuverse::governance::ProposalStatus;
use otakuverse::ledger::{CredentialLedger, EventLedger, GovernanceLedger, StakeLedger};
use otakuverse::pubkey::Pubkey;

fn key(byte: u8) -> Pubkey {
    Pubkey::new_from_array([byte; 32])
}

fn text(s: &str) -> String {
    s.to_string()
}

#[test]
fn proposal_with_two_votes_in_favour_passes() {
    let mut ledger = GovernanceLedger::new(key(1));
    assert_eq!(ledger.global.total_proposals, 0);
    assert_eq!(ledger.global.total_events, 0);
    assert_eq!(ledger.global.total_staked, 0);
    assert_eq!(ledger.global.total_nfts_minted, 0);
    let id = ledger.create_proposal(key(2), text("T"), text("D"), 10).unwrap();
    assert_eq!(id, 0);
    assert_eq!(ledger.global.total_proposals, 1);
    ledger.vote(key(3), 0, true, 11).unwrap();
    ledger.vote(key(4), 0, true, 12).unwrap();
    assert_eq!(ledger.proposals[0].for_votes, 2);
    assert_eq!(ledger.proposals[0].against_votes, 0);
    assert_eq!(ledger.finalize(0), Ok(ProposalStatus::Passed));
    assert_eq!(ledger.proposals[0].status, ProposalStatus::Passed);
    assert_eq!(ledger.votes.len(), 2);
}

#[test]
fn second_vote_of_a_voter_is_refused_and_tallies_stay() {
    let mut ledger = GovernanceLedger::new(key(1));
    ledger.create_proposal(key(2), text("T"), text("D"), 10).unwrap();
    ledger.create_proposal(key(2), text("U"), text("E"), 10).unwrap();
    ledger.vote(key(3), 0, true, 11).unwrap();
    assert!(ledger.has_voted(&key(3), 0));
    assert!(!ledger.has_voted(&key(3), 1));
    assert!(!ledger.has_voted(&key(4), 0));
    assert_eq!(ledger.vote(key(3), 0, false, 12), Err(ErrorCode::DuplicateVote));
    assert_eq!(ledger.vote(key(3), 0, true, 12), Err(ErrorCode::DuplicateVote));
    assert_eq!(ledger.proposals[0].for_votes, 1);
    assert_eq!(ledger.proposals[0].against_votes, 0);
    assert_eq!(ledger.votes.len(), 1);
    ledger.vote(key(3), 1, false, 13).unwrap();
    assert_eq!(ledger.proposals[1].against_votes, 1);
    assert_eq!(ledger.proposals[0].for_votes, 1);
    assert_eq!(ledger.votes.len(), 2);
}

#[test]
fn three_against_three_is_rejected_and_then_closed() {
    let mut ledger = GovernanceLedger::new(key(1));
    ledger.create_proposal(key(2), text("T"), text("D"), 10).unwrap();
    for voter in 0..3u8 {
        ledger.vote(key(10 + voter), 0, true, 11).unwrap();
        ledger.vote(key(20 + voter), 0, false, 11).unwrap();
    }
    assert_eq!(ledger.finalize(0), Ok(ProposalStatus::Rejected));
    assert_eq!(ledger.finalize(0), Err(ErrorCode::ProposalNotActive));
    assert_eq!(ledger.vote(key(30), 0, true, 12), Err(ErrorCode::ProposalNotActive));
    assert_eq!(ledger.proposals[0].for_votes, 3);
    assert_eq!(ledger.proposals[0].against_votes, 3);
    assert_eq!(ledger.proposals[0].status, ProposalStatus::Rejected);
    assert_eq!(ledger.votes.len(), 6);
}

#[test]
fn unknown_proposals_are_not_found() {
    let mut ledger = GovernanceLedger::new(key(1));
    assert_eq!(ledger.vote(key(3), 0, true, 1), Err(ErrorCode::NotFound));
    assert_eq!(ledger.finalize(0), Err(ErrorCode::NotFound));
    let refused = ledger.create_proposal(key(2), "t".repeat(101), text("D"), 10);
    assert_eq!(refused, Err(ErrorCode::FieldTooLong));
    assert_eq!(ledger.global.total_proposals, 0);
    assert!(ledger.proposals.is_empty());
}

#[test]
fn event_fills_up_at_a_hundred_places() {
    let mut ledger = EventLedger::new(key(1));
    ledger.create_event(key(2), 42, text("club"), text("Meetup"), text("d"), 5).unwrap();
    assert_eq!(ledger.global.total_events, 1);
    for n in 0..100u8 {
        ledger.rsvp(key(n), 42, 6).unwrap();
    }
    assert_eq!(ledger.events[0].current_participants, 100);
    assert_eq!(ledger.rsvp(key(200), 42, 7), Err(ErrorCode::EventFull));
    assert_eq!(ledger.events[0].current_participants, 100);
    assert_eq!(ledger.rsvps.len(), 100);
}

#[test]
fn a_user_has_one_place_at_an_event() {
    let mut ledger = EventLedger::new(key(1));
    ledger.create_event(key(2), 42, text("club"), text("Meetup"), text("d"), 5).unwrap();
    ledger.create_event(key(2), 7, text("club"), text("Other"), text("d"), 5).unwrap();
    assert_eq!(
        ledger.create_event(key(2), 42, text("club"), text("Again"), text("d"), 5),
        Err(ErrorCode::AlreadyExists)
    );
    assert_eq!(ledger.global.total_events, 2);
    assert_eq!(ledger.find_event(7), Some(1));
    assert_eq!(ledger.find_event(8), None);
    ledger.rsvp(key(3), 42, 6).unwrap();
    assert!(ledger.has_place(&key(3), 42));
    assert!(!ledger.has_place(&key(3), 7));
    assert_eq!(ledger.rsvp(key(3), 42, 7), Err(ErrorCode::AlreadyExists));
    assert_eq!(ledger.events[0].current_participants, 1);
    ledger.rsvp(key(3), 7, 8).unwrap();
    assert_eq!(ledger.events[1].current_participants, 1);
    assert_eq!(ledger.rsvp(key(3), 8, 9), Err(ErrorCode::NotFound));
    assert_eq!(ledger.rsvps.len(), 2);
}

#[test]
fn a_staker_has_one_position_for_a_token() {
    let mut ledger = StakeLedger::new();
    ledger.stake(key(1), key(2), key(3), key(4), 0).unwrap();
    assert_eq!(ledger.stake(key(1), key(2), key(3), key(4), 5).unwrap_err(), ErrorCode::AlreadyStaked);
    ledger.stake(key(1), key(9), key(3), key(4), 0).unwrap();
    ledger.stake(key(8), key(2), key(3), key(4), 0).unwrap();
    assert_eq!(ledger.positions.len(), 3);
    assert_eq!(ledger.find_position(&key(1), &key(9)), Some(1));
    assert_eq!(ledger.find_position(&key(9), &key(1)), None);
    ledger.unstake(key(1), key(2), key(3), key(4), 3 * 86_400).unwrap();
    assert_eq!(ledger.positions[0].reward_accrued, 3);
    assert!(!ledger.positions[0].is_active);
    assert!(ledger.positions[1].is_active);
    let again = ledger.unstake(key(1), key(2), key(3), key(4), 9 * 86_400);
    assert_eq!(again.unwrap_err(), ErrorCode::NFTNotStaked);
    assert_eq!(ledger.positions[0].reward_accrued, 3);
    let unknown = ledger.unstake(key(7), key(2), key(3), key(4), 9 * 86_400);
    assert_eq!(unknown.unwrap_err(), ErrorCode::NotFound);
    ledger.stake(key(1), key(2), key(3), key(4), 10 * 86_400).unwrap();
    assert_eq!(ledger.positions.len(), 3);
    ledger.unstake(key(1), key(2), key(3), key(4), 12 * 86_400).unwrap();
    assert_eq!(ledger.positions[0].reward_accrued, 5);
}

#[test]
fn badges_and_grants_are_recorded_once() {
    let mut ledger = CredentialLedger::new();
    ledger.mint_badge(7, text("Founder"), text("Was there"), 1).unwrap();
    assert!(ledger.has_badge(7));
    assert!(!ledger.has_badge(8));
    assert_eq!(ledger.mint_badge(7, text("Other"), text("d"), 2), Err(ErrorCode::AlreadyExists));
    assert_eq!(ledger.mint_badge(8, "n".repeat(51), text("d"), 2), Err(ErrorCode::FieldTooLong));
    assert_eq!(ledger.badges.len(), 1);
    assert_eq!(ledger.badges[0].name, "Founder");
    ledger.grant_access(key(1), key(2), 500, 100).unwrap();
    assert!(ledger.has_grant(&key(1), &key(2)));
    assert!(!ledger.has_grant(&key(2), &key(1)));
    assert_eq!(ledger.grant_access(key(1), key(2), 900, 200), Err(ErrorCode::AlreadyExists));
    ledger.grant_access(key(1), key(3), 900, 200).unwrap();
    assert_eq!(ledger.grants.len(), 2);
    assert_eq!(ledger.grants[0].expiration_time, 500);
    assert_eq!(ledger.grants[0].granted_at, 100);
}

#[test]
fn an_event_is_recorded_with_all_that_was_given() {
    let mut ledger = EventLedger::new(key(1));
    ledger.create_event(key(2), 42, text("club"), text("Meetup"), text("All welcome"), 5).unwrap();
    let event = &ledger.events[0];
    assert_eq!(event.id, 42);
    assert_eq!(event.community_id, "club");
    assert!(event.creator.same(&key(2)));
    assert_eq!(event.title, "Meetup");
    assert_eq!(event.description, "All welcome");
    assert_eq!(event.timestamp, 5);
    assert_eq!(event.status, EventStatus::Active);
    assert_eq!(event.max_participants, 100);
    assert_eq!(event.current_participants, 0);
    let long = ledger.create_event(key(2), 43, "c".repeat(51), text("t"), text("d"), 5);
    assert_eq!(long, Err(ErrorCode::FieldTooLong));
    assert_eq!(ledger.events.len(), 1);
    assert_eq!(ledger.global.total_events, 1);
}

#[test]
fn rsvp_is_refused_as_the_event_refuses_it() {
    let mut ledger = EventLedger::new(key(1));
    ledger.create_event(key(2), 42, text("club"), text("Meetup"), text("d"), 5).unwrap();
    ledger.events[0].status = EventStatus::Cancelled;
    assert_eq!(ledger.rsvp(key(3), 42, 6), Err(ErrorCode::EventNotActive));
    ledger.events[0].status = EventStatus::Active;
    ledger.rsvp(key(3), 42, 6).unwrap();
    assert_eq!(ledger.events[0].current_participants, 1);
}

#[test]
fn the_staker_signs_a_stake_and_the_program_an_unstake() {
    let mut ledger = StakeLedger::new();
    let staked = ledger.stake(key(1), key(2), key(3), key(4), 0).unwrap();
    assert!(staked.from.same(&key(3)));
    assert!(staked.to.same(&key(4)));
    assert_eq!(staked.amount, 1);
    match staked.authority {
        TransferAuthority::Signer(signer) => assert!(signer.same(&key(1))),
        TransferAuthority::Program => panic!("the staker signs a stake"),
    }
    let unstaked = ledger.unstake(key(1), key(2), key(3), key(4), 86_400).unwrap();
    assert!(unstaked.from.same(&key(4)));
    assert!(unstaked.to.same(&key(3)));
    assert_eq!(unstaked.amount, 1);
    assert!(matches!(unstaked.authority, TransferAuthority::Program));
}
