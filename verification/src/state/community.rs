//! Communities and the messages sent in them.

use vstd::prelude::*;
use crate::error::ProgramError;
use crate::pubkey::Pubkey;
use crate::wire::{
    i64_encoding, lemma_read_back_fixed, lemma_read_back_text, lemma_split, parse_i64, parse_key,
    parse_text, put_i64, put_key, put_text, read_i64, read_key, read_text,
    stands_at, text_encoding, text_storable,
};

verus! {

/// A community in which messages can be sent.
#[derive(Clone, Debug, PartialEq)]
pub struct CommunityData {
    pub id: String,
    pub name: String,
    pub description: String,
    pub creator: Pubkey,
    pub created_at: i64,
}

/// What a community record holds, as mathematical values.
pub ghost struct CommunityDataView {
    pub id: Seq<char>,
    pub name: Seq<char>,
    pub description: Seq<char>,
    pub creator: Seq<u8>,
    pub created_at: i64,
}

impl View for CommunityData {
    type V = CommunityDataView;

    open spec fn view(&self) -> CommunityDataView {
        CommunityDataView {
            id: self.id@,
            name: self.name@,
            description: self.description@,
            creator: self.creator@,
            created_at: self.created_at,
        }
    }
}

/// A message sent in a community.
#[derive(Clone, Debug, PartialEq)]
pub struct MessageData {
    pub community_id: String,
    pub sender: Pubkey,
    pub content: String,
    pub sent_at: i64,
}

/// The community that some bytes are the stored form of, if they are one:
/// id, name and description as texts, the creator's address, the time of
/// creation, and nothing after that.
pub open spec fn parse_community(input: Seq<u8>) -> Option<CommunityDataView> {
    match parse_text(input, 0) {
        Some((id, at_name)) => match parse_text(input, at_name) {
            Some((name, at_description)) => match parse_text(input, at_description) {
                Some((description, at_creator)) => match parse_key(input, at_creator) {
                    Some((creator, at_created)) => match parse_i64(input, at_created) {
                        Some((created_at, end)) => if end == input.len() {
                            Some(CommunityDataView { id, name, description, creator, created_at })
                        } else {
                            None
                        },
                        None => None,
                    },
                    None => None,
                },
                None => None,
            },
            None => None,
        },
        None => None,
    }
}

impl CommunityData {
    /// Reads a community from its stored form. Bytes that are not the
    /// stored form of a community, or that go on after it, are refused as
    /// invalid account data.
    pub fn unpack_from_slice(input: &[u8]) -> (outcome: Result<CommunityData, ProgramError>)
        ensures
            match outcome {
                Ok(community) => parse_community(input@) == Some(community@),
                Err(e) => e == ProgramError::InvalidAccountData && parse_community(input@) is None,
            },
    {
        let (id, at_name) = match read_text(input, 0) {
            Some(found) => found,
            None => { return Err(ProgramError::InvalidAccountData); },
        };
        let (name, at_description) = match read_text(input, at_name) {
            Some(found) => found,
            None => { return Err(ProgramError::InvalidAccountData); },
        };
        let (description, at_creator) = match read_text(input, at_description) {
            Some(found) => found,
            None => { return Err(ProgramError::InvalidAccountData); },
        };
        let (creator, at_created) = match read_key(input, at_creator) {
            Some(found) => found,
            None => { return Err(ProgramError::InvalidAccountData); },
        };
        let (created_at, end) = match read_i64(input, at_created) {
            Some(found) => found,
            None => { return Err(ProgramError::InvalidAccountData); },
        };
        if end != input.len() {
            return Err(ProgramError::InvalidAccountData);
        }
        Ok(CommunityData { id, name, description, creator, created_at })
    }
}

impl CommunityDataView {
    /// The stored form of the community: its fields, in order.
    pub open spec fn encoding(self) -> Seq<u8> {
        text_encoding(self.id) + text_encoding(self.name) + text_encoding(self.description)
            + self.creator + i64_encoding(self.created_at)
    }

    /// Whether the community can be stored: its texts can, and its
    /// creator's address has thirty-two bytes.
    pub open spec fn storable(self) -> bool {
        &&& text_storable(self.id)
        &&& text_storable(self.name)
        &&& text_storable(self.description)
        &&& self.creator.len() == 32
    }
}

/// A community that can be stored reads back from its stored form as
/// itself.
pub proof fn lemma_community_reads_back(community: CommunityDataView)
    requires
        community.storable(),
    ensures
        parse_community(community.encoding()) == Some(community),
{
    let input = community.encoding();
    let e1 = text_encoding(community.id);
    let e2 = text_encoding(community.name);
    let e3 = text_encoding(community.description);
    let e4 = community.creator;
    let e5 = i64_encoding(community.created_at);
    vstd::bytes::lemma_auto_spec_u64_to_from_le_bytes();
    assert(stands_at(input, 0, e1 + e2 + e3 + e4 + e5)) by {
        assert(input.subrange(0, input.len() as int) =~= input);
    }
    lemma_split(input, 0, e1 + e2 + e3 + e4, e5);
    lemma_split(input, 0, e1 + e2 + e3, e4);
    lemma_split(input, 0, e1 + e2, e3);
    lemma_split(input, 0, e1, e2);
    let at1 = e1.len() as int;
    let at2 = at1 + e2.len();
    let at3 = at2 + e3.len();
    let at4 = at3 + e4.len();
    lemma_read_back_text(input, 0, community.id);
    lemma_read_back_text(input, at1, community.name);
    lemma_read_back_text(input, at2, community.description);
    lemma_read_back_fixed(input, at3);
    lemma_read_back_fixed(input, at4);
}

impl CommunityData {
    /// Writes the community in its stored form.
    pub fn pack(&self) -> (data: Vec<u8>)
        requires
            text_storable(self.id@),
            text_storable(self.name@),
            text_storable(self.description@),
        ensures
            data@ == self@.encoding(),
            self@.storable(),
    {
        let mut out: Vec<u8> = Vec::new();
        put_text(&mut out, &self.id);
        let ghost written = text_encoding(self.id@);
        proof {
            assert(out@ =~= written);
        }
        put_text(&mut out, &self.name);
        proof {
            written = written + text_encoding(self.name@);
        }
        put_text(&mut out, &self.description);
        proof {
            written = written + text_encoding(self.description@);
        }
        put_key(&mut out, &self.creator);
        proof {
            written = written + self.creator@;
        }
        put_i64(&mut out, self.created_at);
        proof {
            Pubkey::lemma_view_injective(self.creator, self.creator);
        }
        out
    }
}

/// The stored form of a message: the community, the sender, the content,
/// and the time.
pub open spec fn message_encoding(message: MessageData) -> Seq<u8> {
    text_encoding(message.community_id@) + message.sender@ + text_encoding(message.content@)
        + i64_encoding(message.sent_at)
}

impl MessageData {
    /// Writes the message in its stored form.
    pub fn pack(&self) -> (data: Vec<u8>)
        requires
            text_storable(self.community_id@),
            text_storable(self.content@),
        ensures
            data@ == message_encoding(*self),
    {
        let mut out: Vec<u8> = Vec::new();
        put_text(&mut out, &self.community_id);
        proof {
            assert(out@ =~= text_encoding(self.community_id@));
        }
        put_key(&mut out, &self.sender);
        put_text(&mut out, &self.content);
        put_i64(&mut out, self.sent_at);
        out
    }
}

} // verus!
