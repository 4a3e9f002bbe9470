//! Community events with a bounded number of participants.

use vstd::prelude::*;
use crate::error::ErrorCode;
use crate::governance::GlobalState;
use crate::pubkey::Pubkey;
use crate::text::{byte_len, fits};

verus! {

/// Most bytes that the name of an event's community may take.
pub const MAX_COMMUNITY_ID_LEN: usize = 50;

/// Most bytes that an event's title may take.
pub const MAX_EVENT_TITLE_LEN: usize = 100;

/// Most bytes that an event's description may take.
pub const MAX_EVENT_DESCRIPTION_LEN: usize = 1000;

/// How many participants every event admits.
pub const MAX_PARTICIPANTS: u32 = 100;

/// Where an event stands.
#[derive(Clone, Copy, Debug, PartialEq, Eq, Structural)]
pub enum EventStatus {
    Active,
    Completed,
    Cancelled,
}

impl EventStatus {
    /// The number that stands for the status in a stored record.
    pub open spec fn spec_code(self) -> u8 {
        match self {
            EventStatus::Active => 0,
            EventStatus::Completed => 1,
            EventStatus::Cancelled => 2,
        }
    }

    #[verifier::when_used_as_spec(spec_code)]
    pub fn code(self) -> (code: u8)
        ensures
            code == self.spec_code(),
    {
        match self {
            EventStatus::Active => 0,
            EventStatus::Completed => 1,
            EventStatus::Cancelled => 2,
        }
    }

    /// The status that a stored number stands for, if any.
    pub fn from_code(code: u8) -> (status: Option<EventStatus>)
        ensures
            status is Some <==> code <= 2,
            status matches Some(s) ==> s.spec_code() == code,
    {
        match code {
            0 => Some(EventStatus::Active),
            1 => Some(EventStatus::Completed),
            2 => Some(EventStatus::Cancelled),
            _ => None,
        }
    }
}

/// A community event with a bounded number of participants.
#[derive(Clone, Debug)]
pub struct Event {
    pub id: u64,
    pub community_id: String,
    pub creator: Pubkey,
    pub title: String,
    pub description: String,
    pub timestamp: i64,
    pub status: EventStatus,
    pub max_participants: u32,
    pub current_participants: u32,
}

/// One user's place at one event.
#[derive(Clone, Copy, Debug)]
pub struct RSVP {
    pub event_id: u64,
    pub user: Pubkey,
    pub timestamp: i64,
}

impl Event {
    /// No more participants than the event admits, and texts that fit the
    /// room a stored event has for them.
    pub open spec fn wf(&self) -> bool {
        &&& self.current_participants <= self.max_participants
        &&& byte_len(self.community_id@) <= MAX_COMMUNITY_ID_LEN
        &&& byte_len(self.title@) <= MAX_EVENT_TITLE_LEN
        &&& byte_len(self.description@) <= MAX_EVENT_DESCRIPTION_LEN
    }
}

/// The result of a request for a place at an event.
pub open spec fn attended(event: Event, already_attending: bool, event_id: u64) -> Result<
    Event,
    ErrorCode,
> {
    if event.id != event_id {
        Err(ErrorCode::NotFound)
    } else if already_attending {
        Err(ErrorCode::AlreadyExists)
    } else if event.status != EventStatus::Active {
        Err(ErrorCode::EventNotActive)
    } else if event.current_participants >= event.max_participants {
        Err(ErrorCode::EventFull)
    } else {
        Ok(Event { current_participants: (event.current_participants + 1) as u32, ..event })
    }
}

/// Opens an event for a hundred participants, with none yet, and counts it.
/// `id_taken` says whether an event is on record under `event_id`. A
/// refused request changes nothing.
pub fn create_event(
    global_state: &mut GlobalState,
    id_taken: bool,
    creator: Pubkey,
    event_id: u64,
    community_id: String,
    title: String,
    description: String,
    timestamp: i64,
) -> (outcome: Result<Event, ErrorCode>)
    requires
        !id_taken && byte_len(community_id@) <= MAX_COMMUNITY_ID_LEN && byte_len(title@)
            <= MAX_EVENT_TITLE_LEN && byte_len(description@) <= MAX_EVENT_DESCRIPTION_LEN
            ==> old(global_state).total_events < u64::MAX,
    ensures
        outcome is Ok <==> !id_taken && byte_len(community_id@) <= MAX_COMMUNITY_ID_LEN
            && byte_len(title@) <= MAX_EVENT_TITLE_LEN && byte_len(description@)
            <= MAX_EVENT_DESCRIPTION_LEN,
        outcome matches Err(e) ==> {
            &&& e == (if id_taken {
                ErrorCode::AlreadyExists
            } else {
                ErrorCode::FieldTooLong
            })
            &&& *final(global_state) == *old(global_state)
        },
        outcome matches Ok(event) ==> {
            &&& event == (Event {
                id: event_id,
                community_id: community_id,
                creator: creator,
                title: title,
                description: description,
                timestamp: timestamp,
                status: EventStatus::Active,
                max_participants: MAX_PARTICIPANTS,
                current_participants: 0,
            })
            &&& event.wf()
            &&& *final(global_state) == (GlobalState {
                total_events: (old(global_state).total_events + 1) as u64,
                ..*old(global_state)
            })
        },
{
    if id_taken {
        return Err(ErrorCode::AlreadyExists);
    }
    if !fits(&community_id, MAX_COMMUNITY_ID_LEN) || !fits(&title, MAX_EVENT_TITLE_LEN) || !fits(
        &description,
        MAX_EVENT_DESCRIPTION_LEN,
    ) {
        return Err(ErrorCode::FieldTooLong);
    }
    let event = Event {
        id: event_id,
        community_id,
        creator,
        title,
        description,
        timestamp,
        status: EventStatus::Active,
        max_participants: MAX_PARTICIPANTS,
        current_participants: 0,
    };
    global_state.total_events = global_state.total_events + 1;
    Ok(event)
}

/// Takes a place at an event. `already_attending` says whether this user's
/// place at this event is on record. A refused request leaves the event as
/// it was.
pub fn rsvp_event(
    event: &mut Event,
    already_attending: bool,
    user: Pubkey,
    event_id: u64,
    now: i64,
) -> (outcome: Result<RSVP, ErrorCode>)
    ensures
        match outcome {
            Ok(rsvp) => {
                &&& attended(*old(event), already_attending, event_id) == Ok::<Event, ErrorCode>(
                    *final(event),
                )
                &&& rsvp == (RSVP { event_id, user, timestamp: now })
            },
            Err(e) => {
                &&& attended(*old(event), already_attending, event_id) == Err::<Event, ErrorCode>(
                    e,
                )
                &&& *final(event) == *old(event)
            },
        },
        old(event).wf() ==> final(event).wf(),
{
    if event.id != event_id {
        return Err(ErrorCode::NotFound);
    }
    if already_attending {
        return Err(ErrorCode::AlreadyExists);
    }
    if event.status != EventStatus::Active {
        return Err(ErrorCode::EventNotActive);
    }
    if event.current_participants >= event.max_participants {
        return Err(ErrorCode::EventFull);
    }
    event.current_participants = event.current_participants + 1;
    Ok(RSVP { event_id, user, timestamp: now })
}

/// The number of participants never passes the number admitted: an
/// accepted request keeps the bound, and a request on a full event is
/// refused for want of capacity.
pub proof fn lemma_capacity_respected(event: Event, already_attending: bool, event_id: u64)
    requires
        event.wf(),
    ensures
        attended(event, already_attending, event_id) matches Ok(after) ==> {
            &&& after.wf()
            &&& after.current_participants == event.current_participants + 1
            &&& after.max_participants == event.max_participants
        },
        event.id == event_id && !already_attending && event.status == EventStatus::Active
            && event.current_participants == event.max_participants ==> attended(
            event,
            already_attending,
            event_id,
        ) == Err::<Event, ErrorCode>(ErrorCode::EventFull),
        ErrorCode::EventFull.spec_category() == crate::error::ErrorCategory::CapacityExceeded,
{
}

/// A second request by one user for one event is refused: a place is on
/// record.
pub proof fn lemma_second_rsvp_refused(event: Event, event_id: u64)
    requires
        event.id == event_id,
    ensures
        attended(event, true, event_id) == Err::<Event, ErrorCode>(ErrorCode::AlreadyExists),
{
}

} // verus!
