//! Records kept together: each ledger holds the records of one engine and
//! keeps what holds of them as a whole, that no record exists twice and
//! that counts agree with what is on record.

use vstd::prelude::*;
use crate::credentials::{
    mint_badge, verify_access, Access, Badge, MAX_BADGE_DESCRIPTION_LEN, MAX_BADGE_NAME_LEN,
};
use crate::custody::{TokenTransfer, TransferAuthority};
use crate::error::ErrorCode;
use crate::events::{
    attended, create_event, rsvp_event, Event, EventStatus, MAX_COMMUNITY_ID_LEN,
    MAX_EVENT_DESCRIPTION_LEN, MAX_EVENT_TITLE_LEN, MAX_PARTICIPANTS, RSVP,
};
use crate::governance::{
    create_proposal, finalize_proposal, finalized, vote_on_proposal, voted, GlobalState, Proposal,
    ProposalStatus, Vote, MAX_DESCRIPTION_LEN, MAX_TITLE_LEN,
};
use crate::text::byte_len;
use crate::pubkey::Pubkey;
use crate::staking::{can_settle, stake_nft, unstake_nft, unstaked, StakingAccount};

verus! {

/// The records of the governance engine: the counters, every proposal
/// under its id, and every vote under its voter and its proposal.
pub struct GovernanceLedger {
    pub global: GlobalState,
    pub proposals: Vec<Proposal>,
    pub votes: Vec<Vote>,
}

/// Whether a vote of a voter on a proposal is among some votes.
pub open spec fn has_vote(votes: Seq<Vote>, voter: Pubkey, proposal_id: u64) -> bool {
    exists|i: int|
        0 <= i < votes.len() && (#[trigger] votes[i]).voter == voter && votes[i].proposal_id
            == proposal_id
}

/// No two of some votes are of one voter on one proposal.
pub open spec fn votes_distinct(votes: Seq<Vote>) -> bool {
    forall|i: int, j: int|
        0 <= i < j < votes.len() ==> !((#[trigger] votes[i]).voter == (#[trigger] votes[j]).voter
            && votes[i].proposal_id == votes[j].proposal_id)
}

/// How many of some votes are on a proposal, in favour or against.
pub open spec fn tally(votes: Seq<Vote>, proposal_id: u64, support: bool) -> nat
    decreases votes.len(),
{
    if votes.len() == 0 {
        0
    } else {
        tally(votes.drop_last(), proposal_id, support) + if votes.last().proposal_id == proposal_id
            && votes.last().support == support {
            1nat
        } else {
            0nat
        }
    }
}

impl GovernanceLedger {
    /// Every proposal stands under its id, the counter counts the
    /// proposals, no voter has two votes on one proposal, every vote is on
    /// a proposal on record, and every proposal's tallies count the votes
    /// on it.
    pub open spec fn wf(&self) -> bool {
        &&& self.proposals@.len() == self.global.total_proposals
        &&& forall|i: int|
            0 <= i < self.proposals@.len() ==> (#[trigger] self.proposals@[i]).id == i
        &&& votes_distinct(self.votes@)
        &&& forall|i: int|
            0 <= i < self.votes@.len() ==> (#[trigger] self.votes@[i]).proposal_id
                < self.proposals@.len()
        &&& forall|i: int|
            0 <= i < self.proposals@.len() ==> {
                &&& (#[trigger] self.proposals@[i]).for_votes == tally(self.votes@, i as u64, true)
                &&& self.proposals@[i].against_votes == tally(self.votes@, i as u64, false)
            }
    }

    /// A ledger with no proposal and no vote, under an authority.
    pub fn new(authority: Pubkey) -> (ledger: GovernanceLedger)
        ensures
            ledger.wf(),
            ledger.global == (GlobalState {
                authority: authority,
                total_nfts_minted: 0,
                total_staked: 0,
                total_proposals: 0,
                total_events: 0,
            }),
            ledger.proposals@.len() == 0,
            ledger.votes@.len() == 0,
    {
        GovernanceLedger {
            global: GlobalState {
                authority,
                total_nfts_minted: 0,
                total_staked: 0,
                total_proposals: 0,
                total_events: 0,
            },
            proposals: Vec::new(),
            votes: Vec::new(),
        }
    }

    /// Whether a voter has voted on a proposal.
    pub fn has_voted(&self, voter: &Pubkey, proposal_id: u64) -> (found: bool)
        ensures
            found == has_vote(self.votes@, *voter, proposal_id),
    {
        let mut i: usize = 0;
        while i < self.votes.len()
            invariant
                i <= self.votes@.len(),
                forall|j: int|
                    0 <= j < i ==> !((#[trigger] self.votes@[j]).voter == *voter
                        && self.votes@[j].proposal_id == proposal_id),
            decreases self.votes@.len() - i,
        {
            if self.votes[i].proposal_id == proposal_id && self.votes[i].voter.same(voter) {
                return true;
            }
            i = i + 1;
        }
        false
    }
}

/// One more vote adds one to the tally that it belongs to and nothing to
/// any other.
pub proof fn lemma_tally_push(votes: Seq<Vote>, vote: Vote, proposal_id: u64, support: bool)
    ensures
        tally(votes.push(vote), proposal_id, support) == tally(votes, proposal_id, support) + (if vote.proposal_id
            == proposal_id && vote.support == support {
            1nat
        } else {
            0nat
        }),
{
    assert(votes.push(vote).drop_last() =~= votes);
}

/// A tally counts no more votes than there are.
pub proof fn lemma_tally_bounded(votes: Seq<Vote>, proposal_id: u64, support: bool)
    ensures
        tally(votes, proposal_id, support) <= votes.len(),
    decreases votes.len(),
{
    if votes.len() > 0 {
        lemma_tally_bounded(votes.drop_last(), proposal_id, support);
    }
}

/// Where no vote is on a proposal, its tallies are zero.
pub proof fn lemma_tally_none(votes: Seq<Vote>, proposal_id: u64, support: bool)
    requires
        forall|i: int| 0 <= i < votes.len() ==> (#[trigger] votes[i]).proposal_id != proposal_id,
    ensures
        tally(votes, proposal_id, support) == 0,
    decreases votes.len(),
{
    if votes.len() > 0 {
        assert(votes.last() == votes[votes.len() - 1]);
        assert forall|i: int| 0 <= i < votes.drop_last().len() implies (
        #[trigger] votes.drop_last()[i]).proposal_id != proposal_id by {
            assert(votes.drop_last()[i] == votes[i]);
        }
        lemma_tally_none(votes.drop_last(), proposal_id, support);
    }
}

impl GovernanceLedger {
    /// Opens a proposal under the next id and puts it on record. A refused
    /// request changes nothing.
    pub fn create_proposal(&mut self, creator: Pubkey, title: String, description: String, now: i64) -> (outcome:
        Result<u64, ErrorCode>)
        requires
            old(self).wf(),
            byte_len(title@) <= MAX_TITLE_LEN && byte_len(description@) <= MAX_DESCRIPTION_LEN
                ==> old(self).proposals@.len() < u64::MAX,
        ensures
            final(self).wf(),
            final(self).votes@ == old(self).votes@,
            outcome is Ok <==> byte_len(title@) <= MAX_TITLE_LEN && byte_len(description@)
                <= MAX_DESCRIPTION_LEN,
            match outcome {
                Ok(id) => {
                    &&& id == old(self).proposals@.len()
                    &&& final(self).proposals@ == old(self).proposals@.push(
                        Proposal {
                            id: id,
                            creator: creator,
                            title: title,
                            description: description,
                            created_at: now,
                            for_votes: 0,
                            against_votes: 0,
                            status: ProposalStatus::Active,
                        },
                    )
                    &&& final(self).proposals@[id as int].wf()
                    &&& final(self).global == (GlobalState {
                        total_proposals: (id + 1) as u64,
                        ..old(self).global
                    })
                },
                Err(e) => e == ErrorCode::FieldTooLong && final(self).proposals@ == old(
                    self,
                ).proposals@ && final(self).global == old(self).global,
            },
    {
        let proposal = match create_proposal(&mut self.global, creator, title, description, now) {
            Ok(proposal) => proposal,
            Err(e) => { return Err(e); },
        };
        let id = proposal.id;
        self.proposals.push(proposal);
        proof {
            lemma_tally_none(self.votes@, id, true);
            lemma_tally_none(self.votes@, id, false);
        }
        Ok(id)
    }

    /// Casts a voter's vote on a proposal and puts it on record. A second
    /// vote of the voter on the proposal is refused as a duplicate, and a
    /// refused request changes nothing.
    pub fn vote(&mut self, voter: Pubkey, proposal_id: u64, support: bool, now: i64) -> (outcome:
        Result<(), ErrorCode>)
        requires
            old(self).wf(),
            proposal_id < old(self).proposals@.len() && !has_vote(
                old(self).votes@,
                voter,
                proposal_id,
            ) && old(self).proposals@[proposal_id as int].status == ProposalStatus::Active
                ==> old(self).votes@.len() < usize::MAX,
        ensures
            final(self).wf(),
            final(self).global == old(self).global,
            final(self).proposals@.len() == old(self).proposals@.len(),
            match outcome {
                Ok(()) => {
                    &&& proposal_id < old(self).proposals@.len()
                    &&& !has_vote(old(self).votes@, voter, proposal_id)
                    &&& voted(old(self).proposals@[proposal_id as int], false, proposal_id, support)
                        == Ok::<Proposal, ErrorCode>(final(self).proposals@[proposal_id as int])
                    &&& final(self).proposals@ == old(self).proposals@.update(
                        proposal_id as int,
                        final(self).proposals@[proposal_id as int],
                    )
                    &&& final(self).votes@ == old(self).votes@.push(
                        Vote { proposal_id, voter, support, timestamp: now },
                    )
                },
                Err(e) => {
                    &&& final(self).proposals@ == old(self).proposals@
                    &&& final(self).votes@ == old(self).votes@
                    &&& e == (if proposal_id >= old(self).proposals@.len() {
                        ErrorCode::NotFound
                    } else if has_vote(old(self).votes@, voter, proposal_id) {
                        ErrorCode::DuplicateVote
                    } else {
                        ErrorCode::ProposalNotActive
                    })
                    &&& proposal_id < old(self).proposals@.len() && !has_vote(
                        old(self).votes@,
                        voter,
                        proposal_id,
                    ) ==> old(self).proposals@[proposal_id as int].status != ProposalStatus::Active
                },
            },
    {
        if proposal_id >= self.proposals.len() as u64 {
            return Err(ErrorCode::NotFound);
        }
        let at: usize = proposal_id as usize;
        let already_voted = self.has_voted(&voter, proposal_id);
        proof {
            lemma_tally_bounded(self.votes@, proposal_id, true);
            lemma_tally_bounded(self.votes@, proposal_id, false);
        }
        let mut proposal = self.proposals.remove(at);
        let outcome = vote_on_proposal(&mut proposal, already_voted, voter, proposal_id, support, now);
        self.proposals.insert(at, proposal);
        proof {
            assert(self.proposals@ =~= old(self).proposals@.update(at as int, proposal));
        }
        match outcome {
            Err(e) => {
                proof {
                    assert(self.proposals@ =~= old(self).proposals@);
                }
                Err(e)
            },
            Ok(vote) => {
                self.votes.push(vote);
                proof {
                    assert forall|i: int| 0 <= i < self.proposals@.len() implies {
                        &&& (#[trigger] self.proposals@[i]).for_votes == tally(
                            self.votes@,
                            i as u64,
                            true,
                        )
                        &&& self.proposals@[i].against_votes == tally(self.votes@, i as u64, false)
                    } by {
                        lemma_tally_push(old(self).votes@, vote, i as u64, true);
                        lemma_tally_push(old(self).votes@, vote, i as u64, false);
                        assert(old(self).proposals@[i].for_votes == tally(
                            old(self).votes@,
                            i as u64,
                            true,
                        ));
                    }
                    assert(votes_distinct(self.votes@)) by {
                        assert forall|i: int, j: int| 0 <= i < j < self.votes@.len() implies !((
                        #[trigger] self.votes@[i]).voter == (#[trigger] self.votes@[j]).voter
                            && self.votes@[i].proposal_id == self.votes@[j].proposal_id) by {
                            if j == old(self).votes@.len() {
                                assert(self.votes@[i] == old(self).votes@[i]);
                            } else {
                                assert(self.votes@[i] == old(self).votes@[i]);
                                assert(self.votes@[j] == old(self).votes@[j]);
                            }
                        }
                    }
                }
                Ok(())
            },
        }
    }

    /// Closes the vote on a proposal. A refused request changes nothing.
    pub fn finalize(&mut self, proposal_id: u64) -> (outcome: Result<ProposalStatus, ErrorCode>)
        requires
            old(self).wf(),
        ensures
            final(self).wf(),
            final(self).global == old(self).global,
            final(self).votes@ == old(self).votes@,
            final(self).proposals@.len() == old(self).proposals@.len(),
            match outcome {
                Ok(status) => {
                    &&& proposal_id < old(self).proposals@.len()
                    &&& finalized(old(self).proposals@[proposal_id as int], proposal_id) == Ok::<
                        Proposal,
                        ErrorCode,
                    >(final(self).proposals@[proposal_id as int])
                    &&& final(self).proposals@ == old(self).proposals@.update(
                        proposal_id as int,
                        final(self).proposals@[proposal_id as int],
                    )
                    &&& status == final(self).proposals@[proposal_id as int].status
                    &&& status == (if tally(old(self).votes@, proposal_id, true) > tally(
                        old(self).votes@,
                        proposal_id,
                        false,
                    ) {
                        ProposalStatus::Passed
                    } else {
                        ProposalStatus::Rejected
                    })
                },
                Err(e) => {
                    &&& final(self).proposals@ == old(self).proposals@
                    &&& e == (if proposal_id >= old(self).proposals@.len() {
                        ErrorCode::NotFound
                    } else {
                        ErrorCode::ProposalNotActive
                    })
                    &&& proposal_id < old(self).proposals@.len() ==> old(
                        self,
                    ).proposals@[proposal_id as int].status != ProposalStatus::Active
                },
            },
    {
        if proposal_id >= self.proposals.len() as u64 {
            return Err(ErrorCode::NotFound);
        }
        let at: usize = proposal_id as usize;
        let mut proposal = self.proposals.remove(at);
        let outcome = finalize_proposal(&mut proposal, proposal_id);
        let status = proposal.status;
        self.proposals.insert(at, proposal);
        proof {
            assert(self.proposals@ =~= old(self).proposals@.update(at as int, proposal));
        }
        match outcome {
            Err(e) => {
                proof {
                    assert(self.proposals@ =~= old(self).proposals@);
                }
                Err(e)
            },
            Ok(()) => Ok(status),
        }
    }
}

/// The records of the event engine: the counters, every event, and every
/// place taken.
pub struct EventLedger {
    pub global: GlobalState,
    pub events: Vec<Event>,
    pub rsvps: Vec<RSVP>,
}

/// Whether the texts of an event fit the room that a stored event has for
/// them.
pub open spec fn event_texts_fit(
    community_id: Seq<char>,
    title: Seq<char>,
    description: Seq<char>,
) -> bool {
    &&& byte_len(community_id) <= MAX_COMMUNITY_ID_LEN
    &&& byte_len(title) <= MAX_EVENT_TITLE_LEN
    &&& byte_len(description) <= MAX_EVENT_DESCRIPTION_LEN
}

/// Where the event with an id stands among some events, if it is there.
pub open spec fn event_at(events: Seq<Event>, event_id: u64, at: int) -> bool {
    0 <= at < events.len() && events[at].id == event_id
}

/// Whether an event with an id is among some events.
pub open spec fn has_event(events: Seq<Event>, event_id: u64) -> bool {
    exists|i: int| 0 <= i < events.len() && (#[trigger] events[i]).id == event_id
}

/// Whether a place of a user at an event is among some places.
pub open spec fn has_rsvp(rsvps: Seq<RSVP>, user: Pubkey, event_id: u64) -> bool {
    exists|i: int|
        0 <= i < rsvps.len() && (#[trigger] rsvps[i]).user == user && rsvps[i].event_id == event_id
}

/// How many of some places are at an event.
pub open spec fn attendance(rsvps: Seq<RSVP>, event_id: u64) -> nat
    decreases rsvps.len(),
{
    if rsvps.len() == 0 {
        0
    } else {
        attendance(rsvps.drop_last(), event_id) + if rsvps.last().event_id == event_id {
            1nat
        } else {
            0nat
        }
    }
}

/// One more place adds one to the attendance of its event and nothing to
/// any other.
pub proof fn lemma_attendance_push(rsvps: Seq<RSVP>, rsvp: RSVP, event_id: u64)
    ensures
        attendance(rsvps.push(rsvp), event_id) == attendance(rsvps, event_id) + (if rsvp.event_id
            == event_id {
            1nat
        } else {
            0nat
        }),
{
    assert(rsvps.push(rsvp).drop_last() =~= rsvps);
}

/// Where no place is at an event, its attendance is zero.
pub proof fn lemma_attendance_none(rsvps: Seq<RSVP>, event_id: u64)
    requires
        forall|i: int| 0 <= i < rsvps.len() ==> (#[trigger] rsvps[i]).event_id != event_id,
    ensures
        attendance(rsvps, event_id) == 0,
    decreases rsvps.len(),
{
    if rsvps.len() > 0 {
        assert(rsvps.last() == rsvps[rsvps.len() - 1]);
        assert forall|i: int| 0 <= i < rsvps.drop_last().len() implies (
        #[trigger] rsvps.drop_last()[i]).event_id != event_id by {
            assert(rsvps.drop_last()[i] == rsvps[i]);
        }
        lemma_attendance_none(rsvps.drop_last(), event_id);
    }
}

impl EventLedger {
    /// The counter counts the events, no two events share an id, no event
    /// has more participants than it admits, no user has two places at one
    /// event, every place is at an event on record, and every event's
    /// count of participants is the number of places taken at it.
    pub open spec fn wf(&self) -> bool {
        &&& self.events@.len() == self.global.total_events
        &&& forall|i: int, j: int|
            0 <= i < j < self.events@.len() ==> (#[trigger] self.events@[i]).id != (
            #[trigger] self.events@[j]).id
        &&& forall|i: int| 0 <= i < self.events@.len() ==> (#[trigger] self.events@[i]).wf()
        &&& forall|i: int, j: int|
            0 <= i < j < self.rsvps@.len() ==> !((#[trigger] self.rsvps@[i]).user == (
            #[trigger] self.rsvps@[j]).user && self.rsvps@[i].event_id == self.rsvps@[j].event_id)
        &&& forall|i: int|
            0 <= i < self.rsvps@.len() ==> has_event(
                self.events@,
                (#[trigger] self.rsvps@[i]).event_id,
            )
        &&& forall|i: int|
            0 <= i < self.events@.len() ==> (#[trigger] self.events@[i]).current_participants
                == attendance(self.rsvps@, self.events@[i].id)
    }

    /// A ledger with no event and no place taken, under an authority.
    pub fn new(authority: Pubkey) -> (ledger: EventLedger)
        ensures
            ledger.wf(),
            ledger.events@.len() == 0,
            ledger.rsvps@.len() == 0,
            ledger.global.authority == authority,
    {
        EventLedger {
            global: GlobalState {
                authority,
                total_nfts_minted: 0,
                total_staked: 0,
                total_proposals: 0,
                total_events: 0,
            },
            events: Vec::new(),
            rsvps: Vec::new(),
        }
    }

    /// Where the event with an id stands, if it is on record.
    pub fn find_event(&self, event_id: u64) -> (found: Option<usize>)
        ensures
            found matches Some(at) ==> event_at(self.events@, event_id, at as int),
            found is None ==> !has_event(self.events@, event_id),
    {
        let mut i: usize = 0;
        while i < self.events.len()
            invariant
                i <= self.events@.len(),
                forall|j: int| 0 <= j < i ==> (#[trigger] self.events@[j]).id != event_id,
            decreases self.events@.len() - i,
        {
            if self.events[i].id == event_id {
                return Some(i);
            }
            i = i + 1;
        }
        None
    }

    /// Whether a user has a place at an event.
    pub fn has_place(&self, user: &Pubkey, event_id: u64) -> (found: bool)
        ensures
            found == has_rsvp(self.rsvps@, *user, event_id),
    {
        let mut i: usize = 0;
        while i < self.rsvps.len()
            invariant
                i <= self.rsvps@.len(),
                forall|j: int|
                    0 <= j < i ==> !((#[trigger] self.rsvps@[j]).user == *user
                        && self.rsvps@[j].event_id == event_id),
            decreases self.rsvps@.len() - i,
        {
            if self.rsvps[i].event_id == event_id && self.rsvps[i].user.same(user) {
                return true;
            }
            i = i + 1;
        }
        false
    }

    /// Opens an event under an id of the caller's choice and puts it on
    /// record. A refused request changes nothing.
    pub fn create_event(
        &mut self,
        creator: Pubkey,
        event_id: u64,
        community_id: String,
        title: String,
        description: String,
        timestamp: i64,
    ) -> (outcome: Result<(), ErrorCode>)
        requires
            old(self).wf(),
            !has_event(old(self).events@, event_id) && event_texts_fit(
                community_id@,
                title@,
                description@,
            ) ==> old(self).events@.len() < u64::MAX,
        ensures
            final(self).wf(),
            final(self).rsvps@ == old(self).rsvps@,
            outcome is Ok <==> !has_event(old(self).events@, event_id) && event_texts_fit(
                community_id@,
                title@,
                description@,
            ),
            match outcome {
                Ok(()) => {
                    &&& final(self).events@ == old(self).events@.push(
                        Event {
                            id: event_id,
                            community_id: community_id,
                            creator: creator,
                            title: title,
                            description: description,
                            timestamp: timestamp,
                            status: EventStatus::Active,
                            max_participants: MAX_PARTICIPANTS,
                            current_participants: 0,
                        },
                    )
                    &&& final(self).global == (GlobalState {
                        total_events: (old(self).global.total_events + 1) as u64,
                        ..old(self).global
                    })
                },
                Err(e) => {
                    &&& final(self).events@ == old(self).events@
                    &&& final(self).global == old(self).global
                    &&& has_event(old(self).events@, event_id) <==> e == ErrorCode::AlreadyExists
                    &&& !has_event(old(self).events@, event_id) ==> e == ErrorCode::FieldTooLong
                },
            },
    {
        let id_taken = self.find_event(event_id).is_some();
        let event = match create_event(
            &mut self.global,
            id_taken,
            creator,
            event_id,
            community_id,
            title,
            description,
            timestamp,
        ) {
            Ok(event) => event,
            Err(e) => { return Err(e); },
        };
        proof {
            assert forall|i: int| 0 <= i < self.rsvps@.len() implies (
            #[trigger] self.rsvps@[i]).event_id != event_id by {
                assert(has_event(self.events@, self.rsvps@[i].event_id));
            }
            lemma_attendance_none(self.rsvps@, event_id);
        }
        self.events.push(event);
        proof {
            assert forall|i: int| 0 <= i < self.rsvps@.len() implies has_event(
                self.events@,
                (#[trigger] self.rsvps@[i]).event_id,
            ) by {
                let k = choose|k: int|
                    0 <= k < old(self).events@.len() && (#[trigger] old(self).events@[k]).id
                        == self.rsvps@[i].event_id;
                assert(self.events@[k].id == self.rsvps@[i].event_id);
            }
        }
        Ok(())
    }

    /// Takes a place for a user at an event and puts it on record. A
    /// second request of the user for the event is refused, and a refused
    /// request changes nothing.
    pub fn rsvp(&mut self, user: Pubkey, event_id: u64, now: i64) -> (outcome: Result<
        (),
        ErrorCode,
    >)
        requires
            old(self).wf(),
        ensures
            final(self).wf(),
            final(self).global == old(self).global,
            final(self).events@.len() == old(self).events@.len(),
            match outcome {
                Ok(()) => {
                    &&& !has_rsvp(old(self).rsvps@, user, event_id)
                    &&& final(self).rsvps@ == old(self).rsvps@.push(
                        RSVP { event_id, user, timestamp: now },
                    )
                    &&& exists|at: int|
                        {
                            &&& #[trigger] event_at(old(self).events@, event_id, at)
                            &&& attended(old(self).events@[at], false, event_id) == Ok::<
                                Event,
                                ErrorCode,
                            >(final(self).events@[at])
                            &&& final(self).events@ == old(self).events@.update(
                                at,
                                final(self).events@[at],
                            )
                        }
                },
                Err(e) => {
                    &&& final(self).events@ == old(self).events@
                    &&& final(self).rsvps@ == old(self).rsvps@
                    &&& !has_event(old(self).events@, event_id) <==> e == ErrorCode::NotFound
                    &&& has_event(old(self).events@, event_id) && has_rsvp(
                        old(self).rsvps@,
                        user,
                        event_id,
                    ) ==> e == ErrorCode::AlreadyExists
                    &&& e == ErrorCode::AlreadyExists ==> has_rsvp(old(self).rsvps@, user, event_id)
                    &&& has_event(old(self).events@, event_id) ==> exists|at: int|
                        #[trigger] event_at(old(self).events@, event_id, at) && attended(
                            old(self).events@[at],
                            has_rsvp(old(self).rsvps@, user, event_id),
                            event_id,
                        ) == Err::<Event, ErrorCode>(e)
                },
            },
    {
        let at = match self.find_event(event_id) {
            Some(at) => at,
            None => { return Err(ErrorCode::NotFound); },
        };
        let already_attending = self.has_place(&user, event_id);
        let mut event = self.events.remove(at);
        let outcome = rsvp_event(&mut event, already_attending, user, event_id, now);
        self.events.insert(at, event);
        proof {
            assert(self.events@ =~= old(self).events@.update(at as int, event));
        }
        match outcome {
            Err(e) => {
                proof {
                    assert(self.events@ =~= old(self).events@);
                }
                Err(e)
            },
            Ok(rsvp) => {
                self.rsvps.push(rsvp);
                proof {
                    assert(event_at(old(self).events@, event_id, at as int));
                    assert forall|i: int| 0 <= i < self.events@.len() implies (
                    #[trigger] self.events@[i]).current_participants == attendance(
                        self.rsvps@,
                        self.events@[i].id,
                    ) by {
                        lemma_attendance_push(old(self).rsvps@, rsvp, self.events@[i].id);
                        assert(old(self).events@[i].current_participants == attendance(
                            old(self).rsvps@,
                            old(self).events@[i].id,
                        ));
                        if i != at {
                            assert(old(self).events@[i].id != old(self).events@[at as int].id);
                        }
                    }
                    assert forall|i: int, j: int| 0 <= i < j < self.rsvps@.len() implies !((
                    #[trigger] self.rsvps@[i]).user == (#[trigger] self.rsvps@[j]).user
                        && self.rsvps@[i].event_id == self.rsvps@[j].event_id) by {
                        assert(self.rsvps@[i] == old(self).rsvps@[i]);
                        if j < old(self).rsvps@.len() {
                            assert(self.rsvps@[j] == old(self).rsvps@[j]);
                        }
                    }
                    assert forall|i: int| 0 <= i < self.rsvps@.len() implies has_event(
                        self.events@,
                        (#[trigger] self.rsvps@[i]).event_id,
                    ) by {
                        if i < old(self).rsvps@.len() {
                            assert(self.rsvps@[i] == old(self).rsvps@[i]);
                            let k = choose|k: int|
                                0 <= k < old(self).events@.len() && (#[trigger] old(
                                    self,
                                ).events@[k]).id == self.rsvps@[i].event_id;
                            assert(self.events@[k].id == self.rsvps@[i].event_id);
                        } else {
                            assert(self.events@[at as int].id == event_id);
                        }
                    }
                    assert forall|i: int, j: int| 0 <= i < j < self.events@.len() implies (
                    #[trigger] self.events@[i]).id != (#[trigger] self.events@[j]).id by {
                        assert(old(self).events@[i].id != old(self).events@[j].id);
                    }
                }
                Ok(())
            },
        }
    }
}

/// The records of the staking engine: every stake position, under its
/// staker and its token.
pub struct StakeLedger {
    pub positions: Vec<StakingAccount>,
}

/// Whether the position of a staker and a token stands at a place among
/// some positions.
pub open spec fn position_at(
    positions: Seq<StakingAccount>,
    staker: Pubkey,
    nft_mint: Pubkey,
    at: int,
) -> bool {
    0 <= at < positions.len() && positions[at].staker == staker && positions[at].nft_mint
        == nft_mint
}

/// Whether a position of a staker and a token is among some positions.
pub open spec fn has_position(positions: Seq<StakingAccount>, staker: Pubkey, nft_mint: Pubkey)
    -> bool {
    exists|i: int| #[trigger] position_at(positions, staker, nft_mint, i)
}

impl StakeLedger {
    /// No two positions are of one staker and one token: a staker has at
    /// most one position for a token, active or ended.
    pub open spec fn wf(&self) -> bool {
        forall|i: int, j: int|
            0 <= i < j < self.positions@.len() ==> !((#[trigger] self.positions@[i]).staker == (
            #[trigger] self.positions@[j]).staker && self.positions@[i].nft_mint
                == self.positions@[j].nft_mint)
    }

    /// A ledger with no position.
    pub fn new() -> (ledger: StakeLedger)
        ensures
            ledger.wf(),
            ledger.positions@.len() == 0,
    {
        StakeLedger { positions: Vec::new() }
    }

    /// Where the position of a staker and a token stands, if it is on
    /// record.
    pub fn find_position(&self, staker: &Pubkey, nft_mint: &Pubkey) -> (found: Option<usize>)
        ensures
            found matches Some(at) ==> position_at(self.positions@, *staker, *nft_mint, at as int),
            found is None ==> !has_position(self.positions@, *staker, *nft_mint),
    {
        let mut i: usize = 0;
        while i < self.positions.len()
            invariant
                i <= self.positions@.len(),
                forall|j: int| 0 <= j < i ==> !position_at(self.positions@, *staker, *nft_mint, j),
            decreases self.positions@.len() - i,
        {
            if self.positions[i].staker.same(staker) && self.positions[i].nft_mint.same(nft_mint) {
                return Some(i);
            }
            i = i + 1;
        }
        None
    }

    /// Stakes a token and puts the position on record: a new one where the
    /// staker had none for the token, the old one started again where it
    /// had ended. A refused request changes nothing.
    pub fn stake(
        &mut self,
        staker: Pubkey,
        nft_mint: Pubkey,
        user_token_account: Pubkey,
        program_token_account: Pubkey,
        now: i64,
    ) -> (outcome: Result<TokenTransfer, ErrorCode>)
        requires
            old(self).wf(),
        ensures
            final(self).wf(),
            match outcome {
                Ok(transfer) => {
                    &&& transfer == (TokenTransfer {
                        from: user_token_account,
                        to: program_token_account,
                        authority: TransferAuthority::Signer(staker),
                        amount: 1,
                    })
                    &&& exists|at: int|
                        {
                            &&& #[trigger] position_at(final(self).positions@, staker, nft_mint, at)
                            &&& final(self).positions@[at].is_active
                            &&& final(self).positions@[at].staked_at == now
                            &&& if has_position(old(self).positions@, staker, nft_mint) {
                                &&& position_at(old(self).positions@, staker, nft_mint, at)
                                &&& !old(self).positions@[at].is_active
                                &&& final(self).positions@ == old(self).positions@.update(
                                    at,
                                    final(self).positions@[at],
                                )
                                &&& final(self).positions@[at].reward_accrued == old(
                                    self,
                                ).positions@[at].reward_accrued
                            } else {
                                &&& final(self).positions@ == old(self).positions@.push(
                                    final(self).positions@[at],
                                )
                                &&& final(self).positions@[at].reward_accrued == 0
                            }
                        }
                },
                Err(e) => {
                    &&& e == ErrorCode::AlreadyStaked
                    &&& final(self).positions@ == old(self).positions@
                    &&& exists|at: int|
                        #[trigger] position_at(old(self).positions@, staker, nft_mint, at) && old(
                            self,
                        ).positions@[at].is_active
                },
            },
    {
        match self.find_position(&staker, &nft_mint) {
            None => {
                match stake_nft(
                    None,
                    staker,
                    nft_mint,
                    user_token_account,
                    program_token_account,
                    now,
                ) {
                    Ok((position, transfer)) => {
                        self.positions.push(position);
                        proof {
                            let at = old(self).positions@.len() as int;
                            assert(position_at(self.positions@, staker, nft_mint, at));
                            assert forall|i: int, j: int|
                                0 <= i < j < self.positions@.len() implies !((
                            #[trigger] self.positions@[i]).staker == (
                            #[trigger] self.positions@[j]).staker && self.positions@[i].nft_mint
                                == self.positions@[j].nft_mint) by {
                                assert(self.positions@[i] == old(self).positions@[i]);
                                if j < at {
                                    assert(self.positions@[j] == old(self).positions@[j]);
                                } else {
                                    assert(!position_at(old(self).positions@, staker, nft_mint, i));
                                }
                            }
                        }
                        Ok(transfer)
                    },
                    Err(e) => Err(e),
                }
            },
            Some(at) => {
                let existing = self.positions[at];
                match stake_nft(
                    Some(existing),
                    staker,
                    nft_mint,
                    user_token_account,
                    program_token_account,
                    now,
                ) {
                    Ok((position, transfer)) => {
                        self.positions.set(at, position);
                        proof {
                            assert(position_at(old(self).positions@, staker, nft_mint, at as int));
                            assert(position_at(self.positions@, staker, nft_mint, at as int));
                            assert forall|i: int, j: int|
                                0 <= i < j < self.positions@.len() implies !((
                            #[trigger] self.positions@[i]).staker == (
                            #[trigger] self.positions@[j]).staker && self.positions@[i].nft_mint
                                == self.positions@[j].nft_mint) by {
                                assert(old(self).positions@[i].staker == self.positions@[i].staker);
                                assert(old(self).positions@[j].staker == self.positions@[j].staker);
                            }
                        }
                        Ok(transfer)
                    },
                    Err(e) => {
                        proof {
                            assert(position_at(old(self).positions@, staker, nft_mint, at as int));
                        }
                        Err(e)
                    },
                }
            },
        }
    }

    /// Unstakes a token: settles the reward of the staker's position for
    /// the token and ends it. A refused request changes nothing.
    pub fn unstake(
        &mut self,
        staker: Pubkey,
        nft_mint: Pubkey,
        user_token_account: Pubkey,
        program_token_account: Pubkey,
        now: i64,
    ) -> (outcome: Result<TokenTransfer, ErrorCode>)
        requires
            old(self).wf(),
            forall|at: int|
                #[trigger] position_at(old(self).positions@, staker, nft_mint, at) && old(
                    self,
                ).positions@[at].is_active ==> can_settle(old(self).positions@[at], now),
        ensures
            final(self).wf(),
            final(self).positions@.len() == old(self).positions@.len(),
            match outcome {
                Ok(transfer) => {
                    &&& transfer == (TokenTransfer {
                        from: program_token_account,
                        to: user_token_account,
                        authority: TransferAuthority::Program,
                        amount: 1,
                    })
                    &&& exists|at: int|
                        {
                            &&& #[trigger] position_at(old(self).positions@, staker, nft_mint, at)
                            &&& unstaked(old(self).positions@[at], staker, now) == Ok::<
                                StakingAccount,
                                ErrorCode,
                            >(final(self).positions@[at])
                            &&& final(self).positions@ == old(self).positions@.update(
                                at,
                                final(self).positions@[at],
                            )
                        }
                },
                Err(e) => {
                    &&& final(self).positions@ == old(self).positions@
                    &&& !has_position(old(self).positions@, staker, nft_mint) <==> e
                        == ErrorCode::NotFound
                    &&& has_position(old(self).positions@, staker, nft_mint) ==> e
                        == ErrorCode::NFTNotStaked
                    &&& e == ErrorCode::NFTNotStaked ==> exists|at: int|
                        #[trigger] position_at(old(self).positions@, staker, nft_mint, at) && !old(
                            self,
                        ).positions@[at].is_active
                },
            },
    {
        let at = match self.find_position(&staker, &nft_mint) {
            Some(at) => at,
            None => { return Err(ErrorCode::NotFound); },
        };
        let mut position = self.positions[at];
        proof {
            assert(position_at(old(self).positions@, staker, nft_mint, at as int));
        }
        match unstake_nft(&mut position, staker, user_token_account, program_token_account, now) {
            Ok(transfer) => {
                self.positions.set(at, position);
                proof {
                    assert forall|i: int, j: int|
                        0 <= i < j < self.positions@.len() implies !((
                    #[trigger] self.positions@[i]).staker == (
                    #[trigger] self.positions@[j]).staker && self.positions@[i].nft_mint
                        == self.positions@[j].nft_mint) by {
                        assert(old(self).positions@[i].staker == self.positions@[i].staker);
                        assert(old(self).positions@[j].staker == self.positions@[j].staker);
                    }
                }
                Ok(transfer)
            },
            Err(e) => Err(e),
        }
    }
}

/// The records of badges and of grants of access.
pub struct CredentialLedger {
    pub badges: Vec<Badge>,
    pub grants: Vec<Access>,
}

/// Whether a badge with an id is among some badges.
pub open spec fn has_badge(badges: Seq<Badge>, badge_id: u64) -> bool {
    exists|i: int| 0 <= i < badges.len() && (#[trigger] badges[i]).id == badge_id
}

/// Whether a grant for a user and a token is among some grants.
pub open spec fn has_grant(grants: Seq<Access>, user: Pubkey, nft_mint: Pubkey) -> bool {
    exists|i: int|
        0 <= i < grants.len() && (#[trigger] grants[i]).user == user && grants[i].nft_mint
            == nft_mint
}

impl CredentialLedger {
    /// No two badges share an id, every badge's texts fit, and no two
    /// grants are for one user and one token.
    pub open spec fn wf(&self) -> bool {
        &&& forall|i: int, j: int|
            0 <= i < j < self.badges@.len() ==> (#[trigger] self.badges@[i]).id != (
            #[trigger] self.badges@[j]).id
        &&& forall|i: int| 0 <= i < self.badges@.len() ==> (#[trigger] self.badges@[i]).wf()
        &&& forall|i: int, j: int|
            0 <= i < j < self.grants@.len() ==> !((#[trigger] self.grants@[i]).user == (
            #[trigger] self.grants@[j]).user && self.grants@[i].nft_mint
                == self.grants@[j].nft_mint)
    }

    /// A ledger with no badge and no grant.
    pub fn new() -> (ledger: CredentialLedger)
        ensures
            ledger.wf(),
            ledger.badges@.len() == 0,
            ledger.grants@.len() == 0,
    {
        CredentialLedger { badges: Vec::new(), grants: Vec::new() }
    }

    /// Whether a badge is on record under an id.
    pub fn has_badge(&self, badge_id: u64) -> (found: bool)
        ensures
            found == has_badge(self.badges@, badge_id),
    {
        let mut i: usize = 0;
        while i < self.badges.len()
            invariant
                i <= self.badges@.len(),
                forall|j: int| 0 <= j < i ==> (#[trigger] self.badges@[j]).id != badge_id,
            decreases self.badges@.len() - i,
        {
            if self.badges[i].id == badge_id {
                return true;
            }
            i = i + 1;
        }
        false
    }

    /// Whether a grant for a user and a token is on record.
    pub fn has_grant(&self, user: &Pubkey, nft_mint: &Pubkey) -> (found: bool)
        ensures
            found == has_grant(self.grants@, *user, *nft_mint),
    {
        let mut i: usize = 0;
        while i < self.grants.len()
            invariant
                i <= self.grants@.len(),
                forall|j: int|
                    0 <= j < i ==> !((#[trigger] self.grants@[j]).user == *user
                        && self.grants@[j].nft_mint == *nft_mint),
            decreases self.grants@.len() - i,
        {
            if self.grants[i].user.same(user) && self.grants[i].nft_mint.same(nft_mint) {
                return true;
            }
            i = i + 1;
        }
        false
    }

    /// Mints a badge under an id of the caller's choice and puts it on
    /// record. A refused request changes nothing.
    pub fn mint_badge(&mut self, badge_id: u64, name: String, description: String, now: i64) -> (outcome:
        Result<(), ErrorCode>)
        requires
            old(self).wf(),
        ensures
            final(self).wf(),
            final(self).grants@ == old(self).grants@,
            outcome is Ok <==> !has_badge(old(self).badges@, badge_id) && byte_len(name@)
                <= MAX_BADGE_NAME_LEN && byte_len(description@) <= MAX_BADGE_DESCRIPTION_LEN,
            match outcome {
                Ok(()) => {
                    &&& !has_badge(old(self).badges@, badge_id)
                    &&& final(self).badges@ == old(self).badges@.push(
                        Badge { id: badge_id, name: name, description: description, minted_at: now },
                    )
                },
                Err(e) => {
                    &&& final(self).badges@ == old(self).badges@
                    &&& e == (if has_badge(old(self).badges@, badge_id) {
                        ErrorCode::AlreadyExists
                    } else {
                        ErrorCode::FieldTooLong
                    })
                },
            },
    {
        let id_taken = self.has_badge(badge_id);
        let badge = match mint_badge(id_taken, badge_id, name, description, now) {
            Ok(badge) => badge,
            Err(e) => { return Err(e); },
        };
        self.badges.push(badge);
        proof {
            assert forall|i: int, j: int| 0 <= i < j < self.badges@.len() implies (
            #[trigger] self.badges@[i]).id != (#[trigger] self.badges@[j]).id by {
                assert(self.badges@[i] == old(self).badges@[i]);
                if j < old(self).badges@.len() {
                    assert(self.badges@[j] == old(self).badges@[j]);
                }
            }
            assert forall|i: int| 0 <= i < self.badges@.len() implies (
            #[trigger] self.badges@[i]).wf() by {
                if i < old(self).badges@.len() {
                    assert(self.badges@[i] == old(self).badges@[i]);
                }
            }
        }
        Ok(())
    }

    /// Records a grant of access for a user and a token. A second grant
    /// for the two is refused, and a refused request changes nothing.
    pub fn grant_access(&mut self, user: Pubkey, nft_mint: Pubkey, expiration_time: i64, now: i64) -> (outcome:
        Result<(), ErrorCode>)
        requires
            old(self).wf(),
        ensures
            final(self).wf(),
            final(self).badges@ == old(self).badges@,
            match outcome {
                Ok(()) => {
                    &&& !has_grant(old(self).grants@, user, nft_mint)
                    &&& final(self).grants@ == old(self).grants@.push(
                        Access { user, nft_mint, granted_at: now, expiration_time },
                    )
                },
                Err(e) => {
                    &&& e == ErrorCode::AlreadyExists
                    &&& has_grant(old(self).grants@, user, nft_mint)
                    &&& final(self).grants@ == old(self).grants@
                },
            },
    {
        let already_granted = self.has_grant(&user, &nft_mint);
        let access = match verify_access(already_granted, user, nft_mint, expiration_time, now) {
            Ok(access) => access,
            Err(e) => { return Err(e); },
        };
        self.grants.push(access);
        proof {
            assert forall|i: int, j: int| 0 <= i < j < self.grants@.len() implies !((
            #[trigger] self.grants@[i]).user == (#[trigger] self.grants@[j]).user
                && self.grants@[i].nft_mint == self.grants@[j].nft_mint) by {
                assert(self.grants@[i] == old(self).grants@[i]);
                if j < old(self).grants@.len() {
                    assert(self.grants@[j] == old(self).grants@[j]);
                }
            }
        }
        Ok(())
    }
}

/// In a well-formed ledger a voter has at most one vote on a proposal,
/// and every proposal's tallies are the counts of the votes on it.
pub proof fn lemma_one_vote_per_voter(ledger: GovernanceLedger, i: int, j: int)
    requires
        ledger.wf(),
        0 <= i < ledger.votes@.len(),
        0 <= j < ledger.votes@.len(),
        ledger.votes@[i].voter == ledger.votes@[j].voter,
        ledger.votes@[i].proposal_id == ledger.votes@[j].proposal_id,
    ensures
        i == j,
        ledger.proposals@[ledger.votes@[i].proposal_id as int].for_votes == tally(
            ledger.votes@,
            ledger.votes@[i].proposal_id,
            true,
        ),
        ledger.proposals@[ledger.votes@[i].proposal_id as int].against_votes == tally(
            ledger.votes@,
            ledger.votes@[i].proposal_id,
            false,
        ),
{
    if i < j {
        assert(!(ledger.votes@[i].voter == ledger.votes@[j].voter && ledger.votes@[i].proposal_id
            == ledger.votes@[j].proposal_id));
    }
    if j < i {
        assert(!(ledger.votes@[j].voter == ledger.votes@[i].voter && ledger.votes@[j].proposal_id
            == ledger.votes@[i].proposal_id));
    }
    let id = ledger.votes@[i].proposal_id;
    assert(ledger.proposals@[id as int].id == id);
}

/// In a well-formed ledger a user has at most one place at an event, and
/// no event has more participants than it admits.
pub proof fn lemma_one_place_per_user(ledger: EventLedger, i: int, j: int, k: int)
    requires
        ledger.wf(),
        0 <= i < ledger.rsvps@.len(),
        0 <= j < ledger.rsvps@.len(),
        ledger.rsvps@[i].user == ledger.rsvps@[j].user,
        ledger.rsvps@[i].event_id == ledger.rsvps@[j].event_id,
        0 <= k < ledger.events@.len(),
    ensures
        i == j,
        ledger.events@[k].current_participants <= ledger.events@[k].max_participants,
        ledger.events@[k].current_participants == attendance(ledger.rsvps@, ledger.events@[k].id),
{
    if i < j {
        assert(!(ledger.rsvps@[i].user == ledger.rsvps@[j].user && ledger.rsvps@[i].event_id
            == ledger.rsvps@[j].event_id));
    }
    if j < i {
        assert(!(ledger.rsvps@[j].user == ledger.rsvps@[i].user && ledger.rsvps@[j].event_id
            == ledger.rsvps@[i].event_id));
    }
    assert(ledger.events@[k].wf());
}

/// In a well-formed ledger a staker has at most one position for a token.
pub proof fn lemma_one_position_per_token(ledger: StakeLedger, i: int, j: int)
    requires
        ledger.wf(),
        0 <= i < ledger.positions@.len(),
        0 <= j < ledger.positions@.len(),
        ledger.positions@[i].staker == ledger.positions@[j].staker,
        ledger.positions@[i].nft_mint == ledger.positions@[j].nft_mint,
    ensures
        i == j,
{
    if i < j {
        assert(!(ledger.positions@[i].staker == ledger.positions@[j].staker
            && ledger.positions@[i].nft_mint == ledger.positions@[j].nft_mint));
    }
    if j < i {
        assert(!(ledger.positions@[j].staker == ledger.positions@[i].staker
            && ledger.positions@[j].nft_mint == ledger.positions@[i].nft_mint));
    }
}

} // verus!
