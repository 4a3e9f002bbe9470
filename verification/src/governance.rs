//! Proposals, votes, and the counters that number them.

use vstd::prelude::*;
use crate::error::ErrorCode;
use crate::pubkey::Pubkey;
use crate::text::{byte_len, fits};

verus! {

/// Most bytes that a proposal's title may take.
pub const MAX_TITLE_LEN: usize = 100;

/// Most bytes that a proposal's description may take.
pub const MAX_DESCRIPTION_LEN: usize = 1000;

/// The tallies of the governance and event engines, and who may administer
/// them. Counters only grow.
#[derive(Clone, Copy, Debug)]
pub struct GlobalState {
    pub authority: Pubkey,
    pub total_nfts_minted: u64,
    pub total_staked: u64,
    pub total_proposals: u64,
    pub total_events: u64,
}

/// Where a proposal stands. `Passed` and `Rejected` are final.
#[derive(Clone, Copy, Debug, PartialEq, Eq, Structural)]
pub enum ProposalStatus {
    Active,
    Passed,
    Rejected,
}

impl ProposalStatus {
    /// The number that stands for the status in a stored record.
    pub open spec fn spec_code(self) -> u8 {
        match self {
            ProposalStatus::Active => 0,
            ProposalStatus::Passed => 1,
            ProposalStatus::Rejected => 2,
        }
    }

    #[verifier::when_used_as_spec(spec_code)]
    pub fn code(self) -> (code: u8)
        ensures
            code == self.spec_code(),
    {
        match self {
            ProposalStatus::Active => 0,
            ProposalStatus::Passed => 1,
            ProposalStatus::Rejected => 2,
        }
    }

    /// The status that a stored number stands for, if any.
    pub fn from_code(code: u8) -> (status: Option<ProposalStatus>)
        ensures
            status is Some <==> code <= 2,
            status matches Some(s) ==> s.spec_code() == code,
    {
        match code {
            0 => Some(ProposalStatus::Active),
            1 => Some(ProposalStatus::Passed),
            2 => Some(ProposalStatus::Rejected),
            _ => None,
        }
    }
}

/// A proposal put to the vote.
#[derive(Clone, Debug)]
pub struct Proposal {
    pub id: u64,
    pub creator: Pubkey,
    pub title: String,
    pub description: String,
    pub created_at: i64,
    pub for_votes: u64,
    pub against_votes: u64,
    pub status: ProposalStatus,
}

/// One voter's vote on one proposal.
#[derive(Clone, Copy, Debug)]
pub struct Vote {
    pub proposal_id: u64,
    pub voter: Pubkey,
    pub support: bool,
    pub timestamp: i64,
}

impl Proposal {
    /// The texts fit the room that a stored proposal has for them.
    pub open spec fn wf(&self) -> bool {
        &&& byte_len(self.title@) <= MAX_TITLE_LEN
        &&& byte_len(self.description@) <= MAX_DESCRIPTION_LEN
    }
}

/// Whether the tally that a vote would add to can take one more.
pub open spec fn tally_has_room(proposal: Proposal, support: bool) -> bool {
    if support {
        proposal.for_votes < u64::MAX
    } else {
        proposal.against_votes < u64::MAX
    }
}

/// The result of a vote on a proposal.
pub open spec fn voted(proposal: Proposal, already_voted: bool, proposal_id: u64, support: bool)
    -> Result<Proposal, ErrorCode> {
    if proposal.id != proposal_id {
        Err(ErrorCode::NotFound)
    } else if already_voted {
        Err(ErrorCode::DuplicateVote)
    } else if proposal.status != ProposalStatus::Active {
        Err(ErrorCode::ProposalNotActive)
    } else if support {
        Ok(Proposal { for_votes: (proposal.for_votes + 1) as u64, ..proposal })
    } else {
        Ok(Proposal { against_votes: (proposal.against_votes + 1) as u64, ..proposal })
    }
}

/// The status that the tallies decide: passed on a strict majority in
/// favour, rejected otherwise.
pub open spec fn resolution(for_votes: u64, against_votes: u64) -> ProposalStatus {
    if for_votes > against_votes {
        ProposalStatus::Passed
    } else {
        ProposalStatus::Rejected
    }
}

/// The result of finalizing a proposal.
pub open spec fn finalized(proposal: Proposal, proposal_id: u64) -> Result<Proposal, ErrorCode> {
    if proposal.id != proposal_id {
        Err(ErrorCode::NotFound)
    } else if proposal.status != ProposalStatus::Active {
        Err(ErrorCode::ProposalNotActive)
    } else {
        Ok(Proposal { status: resolution(proposal.for_votes, proposal.against_votes), ..proposal })
    }
}

/// Sets up the tallies: every counter at zero, under the given authority.
pub fn initialize(global_state: &mut GlobalState, authority: Pubkey)
    ensures
        *final(global_state) == (GlobalState {
            authority: authority,
            total_nfts_minted: 0,
            total_staked: 0,
            total_proposals: 0,
            total_events: 0,
        }),
{
    global_state.authority = authority;
    global_state.total_nfts_minted = 0;
    global_state.total_staked = 0;
    global_state.total_proposals = 0;
    global_state.total_events = 0;
}

/// Opens a proposal. Its id is the count of proposals so far, which then
/// grows by one. A text that is too long is refused before anything
/// changes.
pub fn create_proposal(
    global_state: &mut GlobalState,
    creator: Pubkey,
    title: String,
    description: String,
    now: i64,
) -> (outcome: Result<Proposal, ErrorCode>)
    requires
        byte_len(title@) <= MAX_TITLE_LEN && byte_len(description@) <= MAX_DESCRIPTION_LEN
            ==> old(global_state).total_proposals < u64::MAX,
    ensures
        outcome is Ok <==> byte_len(title@) <= MAX_TITLE_LEN && byte_len(description@)
            <= MAX_DESCRIPTION_LEN,
        outcome matches Err(e) ==> e == ErrorCode::FieldTooLong && *final(global_state) == *old(
            global_state,
        ),
        outcome matches Ok(proposal) ==> {
            &&& proposal == (Proposal {
                id: old(global_state).total_proposals,
                creator: creator,
                title: title,
                description: description,
                created_at: now,
                for_votes: 0,
                against_votes: 0,
                status: ProposalStatus::Active,
            })
            &&& proposal.wf()
            &&& *final(global_state) == (GlobalState {
                total_proposals: (old(global_state).total_proposals + 1) as u64,
                ..*old(global_state)
            })
        },
{
    if !fits(&title, MAX_TITLE_LEN) || !fits(&description, MAX_DESCRIPTION_LEN) {
        return Err(ErrorCode::FieldTooLong);
    }
    let proposal = Proposal {
        id: global_state.total_proposals,
        creator,
        title,
        description,
        created_at: now,
        for_votes: 0,
        against_votes: 0,
        status: ProposalStatus::Active,
    };
    global_state.total_proposals = global_state.total_proposals + 1;
    Ok(proposal)
}

/// Casts a vote of one unit. `already_voted` says whether a vote of this
/// voter on this proposal is on record. A refused vote leaves the proposal
/// as it was.
pub fn vote_on_proposal(
    proposal: &mut Proposal,
    already_voted: bool,
    voter: Pubkey,
    proposal_id: u64,
    support: bool,
    now: i64,
) -> (outcome: Result<Vote, ErrorCode>)
    requires
        old(proposal).id == proposal_id && !already_voted && old(proposal).status
            == ProposalStatus::Active ==> tally_has_room(*old(proposal), support),
    ensures
        match outcome {
            Ok(vote) => {
                &&& voted(*old(proposal), already_voted, proposal_id, support) == Ok::<
                    Proposal,
                    ErrorCode,
                >(*final(proposal))
                &&& vote == (Vote { proposal_id, voter, support, timestamp: now })
            },
            Err(e) => {
                &&& voted(*old(proposal), already_voted, proposal_id, support) == Err::<
                    Proposal,
                    ErrorCode,
                >(e)
                &&& *final(proposal) == *old(proposal)
            },
        },
{
    if proposal.id != proposal_id {
        return Err(ErrorCode::NotFound);
    }
    if already_voted {
        return Err(ErrorCode::DuplicateVote);
    }
    if proposal.status != ProposalStatus::Active {
        return Err(ErrorCode::ProposalNotActive);
    }
    if support {
        proposal.for_votes = proposal.for_votes + 1;
    } else {
        proposal.against_votes = proposal.against_votes + 1;
    }
    Ok(Vote { proposal_id, voter, support, timestamp: now })
}

/// Closes the vote: the proposal passes on a strict majority in favour and
/// is rejected otherwise, a tie and an empty vote included. Anyone may
/// call it. A refused request leaves the proposal as it was.
pub fn finalize_proposal(proposal: &mut Proposal, proposal_id: u64) -> (outcome: Result<
    (),
    ErrorCode,
>)
    ensures
        match outcome {
            Ok(()) => finalized(*old(proposal), proposal_id) == Ok::<Proposal, ErrorCode>(
                *final(proposal),
            ),
            Err(e) => {
                &&& finalized(*old(proposal), proposal_id) == Err::<Proposal, ErrorCode>(e)
                &&& *final(proposal) == *old(proposal)
            },
        },
{
    if proposal.id != proposal_id {
        return Err(ErrorCode::NotFound);
    }
    if proposal.status != ProposalStatus::Active {
        return Err(ErrorCode::ProposalNotActive);
    }
    if proposal.for_votes > proposal.against_votes {
        proposal.status = ProposalStatus::Passed;
    } else {
        proposal.status = ProposalStatus::Rejected;
    }
    Ok(())
}

/// Finalizing moves a proposal out of `Active` once and for all: the
/// result is `Passed` or `Rejected` with the tallies as they were, and from
/// then on every vote and every finalize is refused, so that neither the
/// status nor the tallies change again.
pub proof fn lemma_finalize_is_final(
    proposal: Proposal,
    proposal_id: u64,
    already_voted: bool,
    support: bool,
)
    requires
        finalized(proposal, proposal_id) is Ok,
    ensures
        ({
            let closed = finalized(proposal, proposal_id)->Ok_0;
            &&& proposal.status == ProposalStatus::Active
            &&& closed.status == ProposalStatus::Passed || closed.status
                == ProposalStatus::Rejected
            &&& closed.status == ProposalStatus::Passed <==> proposal.for_votes
                > proposal.against_votes
            &&& closed.for_votes == proposal.for_votes
            &&& closed.against_votes == proposal.against_votes
            &&& finalized(closed, proposal_id) == Err::<Proposal, ErrorCode>(
                ErrorCode::ProposalNotActive,
            )
            &&& voted(closed, already_voted, proposal_id, support) is Err
        }),
{
}

/// No operation moves a proposal into `Active`, and none changes a
/// proposal that is not `Active`.
pub proof fn lemma_closed_stays_closed(
    proposal: Proposal,
    proposal_id: u64,
    already_voted: bool,
    support: bool,
)
    requires
        proposal.status != ProposalStatus::Active,
    ensures
        finalized(proposal, proposal_id) is Err,
        voted(proposal, already_voted, proposal_id, support) is Err,
{
}

/// A vote never changes the status, and changes one tally by one.
pub proof fn lemma_vote_counts_once(
    proposal: Proposal,
    already_voted: bool,
    proposal_id: u64,
    support: bool,
)
    requires
        voted(proposal, already_voted, proposal_id, support) is Ok,
        tally_has_room(proposal, support),
    ensures
        ({
            let after = voted(proposal, already_voted, proposal_id, support)->Ok_0;
            &&& !already_voted
            &&& after.status == proposal.status
            &&& after.for_votes == proposal.for_votes + (if support { 1int } else { 0int })
            &&& after.against_votes == proposal.against_votes + (if support { 0int } else { 1int })
        }),
{
}

/// A second vote by one voter on one proposal is refused as a duplicate.
pub proof fn lemma_second_vote_refused(proposal: Proposal, proposal_id: u64, support: bool)
    requires
        proposal.id == proposal_id,
    ensures
        voted(proposal, true, proposal_id, support) == Err::<Proposal, ErrorCode>(
            ErrorCode::DuplicateVote,
        ),
        ErrorCode::DuplicateVote.spec_category() == crate::error::ErrorCategory::AlreadyExists,
{
}

} // verus!
