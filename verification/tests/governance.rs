use otakuverse::error::{ErrorCategory, ErrorCode};
use otakuverse::governance::{
    create_proposal, finalize_proposal, initialize, vote_on_proposal, GlobalState, Proposal,
    ProposalStatus,
};
use otakuverse::pubkey::Pubkey;

fn address(byte: u8) -> Pubkey {
    Pubkey::new_from_array([byte; 32])
}

fn started() -> GlobalState {
    let mut state = GlobalState {
        authority: address(0),
        total_nfts_minted: 7,
        total_staked: 7,
        total_proposals: 7,
        total_events: 7,
    };
    initialize(&mut state, address(1));
    state
}

fn proposal_with(for_votes: u64, against_votes: u64) -> Proposal {
    Proposal {
        id: 4,
        creator: address(2),
        title: "T".to_string(),
        description: "D".to_string(),
        created_at: 0,
        for_votes,
        against_votes,
        status: ProposalStatus::Active,
    }
}

#[test]
fn initialize_zeroes_every_counter() {
    let state = started();
    assert!(state.authority.same(&address(1)));
    assert_eq!(state.total_nfts_minted, 0);
    assert_eq!(state.total_staked, 0);
    assert_eq!(state.total_proposals, 0);
    assert_eq!(state.total_events, 0);
}

#[test]
fn end_to_end_two_votes_in_favour_pass() {
    let mut state = started();
    let mut proposal =
        create_proposal(&mut state, address(2), "T".to_string(), "D".to_string(), 100).unwrap();
    assert_eq!(proposal.id, 0);
    assert_eq!(state.total_proposals, 1);
    assert_eq!(proposal.status, ProposalStatus::Active);
    assert_eq!(proposal.for_votes, 0);
    assert_eq!(proposal.against_votes, 0);
    assert_eq!(proposal.created_at, 100);
    let first = vote_on_proposal(&mut proposal, false, address(3), 0, true, 101).unwrap();
    assert!(first.voter.same(&address(3)));
    assert!(first.support);
    assert_eq!(first.proposal_id, 0);
    assert_eq!(first.timestamp, 101);
    vote_on_proposal(&mut proposal, false, address(4), 0, true, 102).unwrap();
    assert_eq!(proposal.for_votes, 2);
    assert_eq!(proposal.against_votes, 0);
    finalize_proposal(&mut proposal, 0).unwrap();
    assert_eq!(proposal.status, ProposalStatus::Passed);
}

#[test]
fn ids_follow_the_counter() {
    let mut state = started();
    for expected in 0..5u64 {
        let proposal =
            create_proposal(&mut state, address(2), "T".to_string(), "D".to_string(), 0).unwrap();
        assert_eq!(proposal.id, expected);
        assert_eq!(state.total_proposals, expected + 1);
    }
}

#[test]
fn tie_is_rejected() {
    let mut proposal = proposal_with(3, 3);
    finalize_proposal(&mut proposal, 4).unwrap();
    assert_eq!(proposal.status, ProposalStatus::Rejected);
    assert_eq!(proposal.for_votes, 3);
    assert_eq!(proposal.against_votes, 3);
}

#[test]
fn no_votes_is_rejected() {
    let mut proposal = proposal_with(0, 0);
    finalize_proposal(&mut proposal, 4).unwrap();
    assert_eq!(proposal.status, ProposalStatus::Rejected);
}

#[test]
fn majority_against_is_rejected() {
    let mut proposal = proposal_with(2, 5);
    finalize_proposal(&mut proposal, 4).unwrap();
    assert_eq!(proposal.status, ProposalStatus::Rejected);
}

#[test]
fn finalized_proposal_takes_no_vote_and_no_second_finalize() {
    let mut proposal = proposal_with(4, 3);
    finalize_proposal(&mut proposal, 4).unwrap();
    assert_eq!(proposal.status, ProposalStatus::Passed);
    let vote = vote_on_proposal(&mut proposal, false, address(5), 4, false, 9);
    assert_eq!(vote.unwrap_err(), ErrorCode::ProposalNotActive);
    assert_eq!(ErrorCode::ProposalNotActive.category(), ErrorCategory::InvalidState);
    assert_eq!(finalize_proposal(&mut proposal, 4).unwrap_err(), ErrorCode::ProposalNotActive);
    assert_eq!(proposal.status, ProposalStatus::Passed);
    assert_eq!(proposal.for_votes, 4);
    assert_eq!(proposal.against_votes, 3);
}

#[test]
fn second_vote_is_a_duplicate_and_changes_nothing() {
    let mut proposal = proposal_with(1, 1);
    let outcome = vote_on_proposal(&mut proposal, true, address(3), 4, true, 9);
    assert_eq!(outcome.unwrap_err(), ErrorCode::DuplicateVote);
    assert_eq!(ErrorCode::DuplicateVote.category(), ErrorCategory::AlreadyExists);
    assert_eq!(proposal.for_votes, 1);
    assert_eq!(proposal.against_votes, 1);
    assert_eq!(proposal.status, ProposalStatus::Active);
}

#[test]
fn vote_against_counts_against() {
    let mut proposal = proposal_with(1, 1);
    let vote = vote_on_proposal(&mut proposal, false, address(3), 4, false, 9).unwrap();
    assert!(!vote.support);
    assert_eq!(proposal.for_votes, 1);
    assert_eq!(proposal.against_votes, 2);
}

#[test]
fn vote_on_another_proposal_is_not_found() {
    let mut proposal = proposal_with(1, 1);
    let outcome = vote_on_proposal(&mut proposal, false, address(3), 5, true, 9);
    assert_eq!(outcome.unwrap_err(), ErrorCode::NotFound);
    assert_eq!(ErrorCode::NotFound.category(), ErrorCategory::NotFound);
    assert_eq!(finalize_proposal(&mut proposal, 5).unwrap_err(), ErrorCode::NotFound);
    assert_eq!(proposal.for_votes, 1);
}

#[test]
fn title_of_100_bytes_fits_and_101_does_not() {
    let mut state = started();
    let fits = create_proposal(&mut state, address(2), "t".repeat(100), "d".repeat(1000), 0);
    assert!(fits.is_ok());
    assert_eq!(state.total_proposals, 1);
    let long_title = create_proposal(&mut state, address(2), "t".repeat(101), "d".to_string(), 0);
    assert_eq!(long_title.unwrap_err(), ErrorCode::FieldTooLong);
    assert_eq!(ErrorCode::FieldTooLong.category(), ErrorCategory::ValidationFailure);
    let long_description =
        create_proposal(&mut state, address(2), "t".to_string(), "d".repeat(1001), 0);
    assert_eq!(long_description.unwrap_err(), ErrorCode::FieldTooLong);
    assert_eq!(state.total_proposals, 1);
}

#[test]
fn length_is_counted_in_bytes() {
    let mut state = started();
    let title = "é".repeat(50);
    assert!(create_proposal(&mut state, address(2), title, "d".to_string(), 0).is_ok());
    let title = "é".repeat(51);
    let outcome = create_proposal(&mut state, address(2), title, "d".to_string(), 0);
    assert_eq!(outcome.unwrap_err(), ErrorCode::FieldTooLong);
}

#[test]
fn status_codes() {
    assert_eq!(ProposalStatus::Active.code(), 0);
    assert_eq!(ProposalStatus::Passed.code(), 1);
    assert_eq!(ProposalStatus::Rejected.code(), 2);
    assert_eq!(ProposalStatus::from_code(0), Some(ProposalStatus::Active));
    assert_eq!(ProposalStatus::from_code(1), Some(ProposalStatus::Passed));
    assert_eq!(ProposalStatus::from_code(2), Some(ProposalStatus::Rejected));
    assert_eq!(ProposalStatus::from_code(3), None);
}

#[test]
fn a_full_tally_stops_only_the_vote_that_would_add_to_it() {
    let mut proposal = proposal_with(5, u64::MAX);
    vote_on_proposal(&mut proposal, false, address(3), 4, true, 9).unwrap();
    assert_eq!(proposal.for_votes, 6);
    assert_eq!(proposal.against_votes, u64::MAX);
    let mut proposal = proposal_with(u64::MAX, 5);
    vote_on_proposal(&mut proposal, false, address(3), 4, false, 9).unwrap();
    assert_eq!(proposal.for_votes, u64::MAX);
    assert_eq!(proposal.against_votes, 6);
}

#[test]
fn refusals_do_not_depend_on_room_in_the_tallies() {
    let mut proposal = proposal_with(u64::MAX, u64::MAX);
    let duplicate = vote_on_proposal(&mut proposal, true, address(3), 4, true, 9);
    assert_eq!(duplicate.unwrap_err(), ErrorCode::DuplicateVote);
    let elsewhere = vote_on_proposal(&mut proposal, false, address(3), 5, true, 9);
    assert_eq!(elsewhere.unwrap_err(), ErrorCode::NotFound);
    finalize_proposal(&mut proposal, 4).unwrap();
    assert_eq!(proposal.status, ProposalStatus::Rejected);
    let closed = vote_on_proposal(&mut proposal, false, address(3), 4, true, 9);
    assert_eq!(closed.unwrap_err(), ErrorCode::ProposalNotActive);
    assert_eq!(proposal.for_votes, u64::MAX);
    assert_eq!(proposal.against_votes, u64::MAX);
}

#[test]
fn an_over_long_text_is_refused_whatever_the_counter() {
    let mut state = started();
    state.total_proposals = u64::MAX;
    let outcome = create_proposal(&mut state, address(2), "t".repeat(101), "d".to_string(), 0);
    assert_eq!(outcome.unwrap_err(), ErrorCode::FieldTooLong);
    assert_eq!(state.total_proposals, u64::MAX);
}
