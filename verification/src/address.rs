//! Where records live: the seeds that identify each kind of record, and
//! the address that the runtime derives from them.

use vstd::prelude::*;
use vstd::bytes::{spec_u64_from_le_bytes, spec_u64_to_le_bytes, u64_to_le_bytes};
use vstd::slice::slice_to_vec;
use vstd::utf8::encode_utf8;
use crate::pubkey::Pubkey;

verus! {

/// Most seeds that an address may be derived from, the bump seed included.
pub const MAX_SEEDS: usize = 16;

/// Most bytes in one seed.
pub const MAX_SEED_LEN: usize = 32;

/// The kinds of record. Each kind has a tag of its own, which is the first
/// seed of every address of that kind.
#[derive(Clone, Copy, Debug, PartialEq, Eq, Structural)]
pub enum Namespace {
    GlobalState,
    Staking,
    ProgramAuthority,
    Proposal,
    Vote,
    Event,
    Rsvp,
    Badge,
    Access,
}

impl Namespace {
    /// The tag as text.
    pub open spec fn name(self) -> Seq<char> {
        match self {
            Namespace::GlobalState => "global_state"@,
            Namespace::Staking => "staking"@,
            Namespace::ProgramAuthority => "program_authority"@,
            Namespace::Proposal => "proposal"@,
            Namespace::Vote => "vote"@,
            Namespace::Event => "event"@,
            Namespace::Rsvp => "rsvp"@,
            Namespace::Badge => "badge"@,
            Namespace::Access => "access"@,
        }
    }

    /// The tag as the bytes that go into the derivation.
    pub open spec fn spec_tag(self) -> Seq<u8> {
        encode_utf8(self.name())
    }

    /// The tag of a kind of record.
    pub fn tag(self) -> (bytes: Vec<u8>)
        ensures
            bytes@ == self.spec_tag(),
    {
        let name: &str = match self {
            Namespace::GlobalState => "global_state",
            Namespace::Staking => "staking",
            Namespace::ProgramAuthority => "program_authority",
            Namespace::Proposal => "proposal",
            Namespace::Vote => "vote",
            Namespace::Event => "event",
            Namespace::Rsvp => "rsvp",
            Namespace::Badge => "badge",
            Namespace::Access => "access",
        };
        slice_to_vec(name.as_bytes())
    }
}

/// Different kinds of record have different tags.
pub proof fn lemma_tags_distinct(a: Namespace, b: Namespace)
    ensures
        a.spec_tag() == b.spec_tag() <==> a == b,
{
    reveal_strlit("global_state");
    reveal_strlit("staking");
    reveal_strlit("program_authority");
    reveal_strlit("proposal");
    reveal_strlit("vote");
    reveal_strlit("event");
    reveal_strlit("rsvp");
    reveal_strlit("badge");
    reveal_strlit("access");
    vstd::utf8::encode_utf8_decode_utf8(a.name());
    vstd::utf8::encode_utf8_decode_utf8(b.name());
    if a.spec_tag() == b.spec_tag() {
        assert(a.name() == b.name());
        assert(a.name().len() == b.name().len());
        assert(a.name()[0] == b.name()[0]);
    }
}

/// The seeds of a record's address: the tag of its kind, then the parts
/// that identify it.
pub open spec fn seeds_of(namespace: Namespace, parts: Seq<Seq<u8>>) -> Seq<Seq<u8>> {
    seq![namespace.spec_tag()] + parts
}

/// Records of different kinds, or of one kind with different identifying
/// parts, have different seeds.
pub proof fn lemma_seeds_injective(
    a: Namespace,
    parts_a: Seq<Seq<u8>>,
    b: Namespace,
    parts_b: Seq<Seq<u8>>,
)
    ensures
        seeds_of(a, parts_a) == seeds_of(b, parts_b) <==> a == b && parts_a == parts_b,
{
    if seeds_of(a, parts_a) == seeds_of(b, parts_b) {
        assert(seeds_of(a, parts_a)[0] == a.spec_tag());
        assert(seeds_of(b, parts_b)[0] == b.spec_tag());
        lemma_tags_distinct(a, b);
        assert(parts_a =~= seeds_of(a, parts_a).subrange(1, seeds_of(a, parts_a).len() as int));
        assert(parts_b =~= seeds_of(b, parts_b).subrange(1, seeds_of(b, parts_b).len() as int));
    }
}

/// The part of a seed list that stands for a number: its eight bytes,
/// lowest first. Different numbers give different parts.
pub proof fn lemma_number_part_injective(a: u64, b: u64)
    ensures
        spec_u64_to_le_bytes(a) == spec_u64_to_le_bytes(b) <==> a == b,
{
    vstd::bytes::lemma_auto_spec_u64_to_from_le_bytes();
    if spec_u64_to_le_bytes(a) == spec_u64_to_le_bytes(b) {
        assert(spec_u64_from_le_bytes(spec_u64_to_le_bytes(a)) == a);
        assert(spec_u64_from_le_bytes(spec_u64_to_le_bytes(b)) == b);
    }
}

/// The seeds of the one record that holds the global tallies.
pub open spec fn global_state_seeds() -> Seq<Seq<u8>> {
    seeds_of(Namespace::GlobalState, seq![])
}

/// The seeds of the program's own signer.
pub open spec fn program_authority_seeds() -> Seq<Seq<u8>> {
    seeds_of(Namespace::ProgramAuthority, seq![])
}

/// The seeds of the stake position of a staker and a token.
pub open spec fn staking_seeds(staker: Pubkey, nft_mint: Pubkey) -> Seq<Seq<u8>> {
    seeds_of(Namespace::Staking, seq![staker@, nft_mint@])
}

/// The seeds of the proposal with a given id.
pub open spec fn proposal_seeds(proposal_id: u64) -> Seq<Seq<u8>> {
    seeds_of(Namespace::Proposal, seq![spec_u64_to_le_bytes(proposal_id)])
}

/// The seeds of a voter's vote on a proposal.
pub open spec fn vote_seeds(voter: Pubkey, proposal_id: u64) -> Seq<Seq<u8>> {
    seeds_of(Namespace::Vote, seq![voter@, spec_u64_to_le_bytes(proposal_id)])
}

/// The seeds of the event with a given id.
pub open spec fn event_seeds(event_id: u64) -> Seq<Seq<u8>> {
    seeds_of(Namespace::Event, seq![spec_u64_to_le_bytes(event_id)])
}

/// The seeds of a user's place at an event.
pub open spec fn rsvp_seeds(user: Pubkey, event_id: u64) -> Seq<Seq<u8>> {
    seeds_of(Namespace::Rsvp, seq![user@, spec_u64_to_le_bytes(event_id)])
}

/// The seeds of the badge with a given id.
pub open spec fn badge_seeds(badge_id: u64) -> Seq<Seq<u8>> {
    seeds_of(Namespace::Badge, seq![spec_u64_to_le_bytes(badge_id)])
}

/// The seeds of a user's grant of access on the strength of a token.
pub open spec fn access_seeds(user: Pubkey, nft_mint: Pubkey) -> Seq<Seq<u8>> {
    seeds_of(Namespace::Access, seq![user@, nft_mint@])
}

/// The bytes of each seed of a list, in order.
pub open spec fn seed_bytes(seeds: Seq<Vec<u8>>) -> Seq<Seq<u8>> {
    seeds.map_values(|seed: Vec<u8>| seed@)
}

/// A seed list of a kind with no identifying part.
pub fn singleton_seeds(namespace: Namespace) -> (seeds: Vec<Vec<u8>>)
    ensures
        seed_bytes(seeds@) == seeds_of(namespace, seq![]),
{
    let mut seeds: Vec<Vec<u8>> = Vec::new();
    seeds.push(namespace.tag());
    proof {
        assert(seed_bytes(seeds@) =~= seeds_of(namespace, seq![]));
    }
    seeds
}

/// A seed list of a kind identified by a number.
pub fn numbered_seeds(namespace: Namespace, id: u64) -> (seeds: Vec<Vec<u8>>)
    ensures
        seed_bytes(seeds@) == seeds_of(namespace, seq![spec_u64_to_le_bytes(id)]),
{
    let mut seeds: Vec<Vec<u8>> = Vec::new();
    seeds.push(namespace.tag());
    seeds.push(u64_to_le_bytes(id));
    proof {
        assert(seed_bytes(seeds@) =~= seeds_of(namespace, seq![spec_u64_to_le_bytes(id)]));
    }
    seeds
}

/// A seed list of a kind identified by an address and a number.
pub fn keyed_numbered_seeds(namespace: Namespace, key: &Pubkey, id: u64) -> (seeds: Vec<Vec<u8>>)
    ensures
        seed_bytes(seeds@) == seeds_of(namespace, seq![key@, spec_u64_to_le_bytes(id)]),
{
    let mut seeds: Vec<Vec<u8>> = Vec::new();
    seeds.push(namespace.tag());
    seeds.push(key.to_vec());
    seeds.push(u64_to_le_bytes(id));
    proof {
        assert(seed_bytes(seeds@) =~= seeds_of(namespace, seq![key@, spec_u64_to_le_bytes(id)]));
    }
    seeds
}

/// A seed list of a kind identified by two addresses.
pub fn paired_seeds(namespace: Namespace, first: &Pubkey, second: &Pubkey) -> (seeds: Vec<Vec<u8>>)
    ensures
        seed_bytes(seeds@) == seeds_of(namespace, seq![first@, second@]),
{
    let mut seeds: Vec<Vec<u8>> = Vec::new();
    seeds.push(namespace.tag());
    seeds.push(first.to_vec());
    seeds.push(second.to_vec());
    proof {
        assert(seed_bytes(seeds@) =~= seeds_of(namespace, seq![first@, second@]));
    }
    seeds
}

/// Two stake positions share their seeds only if they are of one staker
/// and one token; likewise two votes, of one voter on one proposal; two
/// places, of one user at one event; two grants, of one user and one token.
pub proof fn lemma_record_seeds_injective(
    key_a: Pubkey,
    key_b: Pubkey,
    mint_a: Pubkey,
    mint_b: Pubkey,
    id_a: u64,
    id_b: u64,
)
    ensures
        staking_seeds(key_a, mint_a) == staking_seeds(key_b, mint_b) <==> key_a == key_b && mint_a
            == mint_b,
        access_seeds(key_a, mint_a) == access_seeds(key_b, mint_b) <==> key_a == key_b && mint_a
            == mint_b,
        vote_seeds(key_a, id_a) == vote_seeds(key_b, id_b) <==> key_a == key_b && id_a == id_b,
        rsvp_seeds(key_a, id_a) == rsvp_seeds(key_b, id_b) <==> key_a == key_b && id_a == id_b,
        proposal_seeds(id_a) == proposal_seeds(id_b) <==> id_a == id_b,
        event_seeds(id_a) == event_seeds(id_b) <==> id_a == id_b,
        badge_seeds(id_a) == badge_seeds(id_b) <==> id_a == id_b,
{
    lemma_number_part_injective(id_a, id_b);
    Pubkey::lemma_view_injective(key_a, key_b);
    Pubkey::lemma_view_injective(mint_a, mint_b);
    let na = spec_u64_to_le_bytes(id_a);
    let nb = spec_u64_to_le_bytes(id_b);
    lemma_seeds_injective(Namespace::Staking, seq![key_a@, mint_a@], Namespace::Staking, seq![key_b@, mint_b@]);
    lemma_seeds_injective(Namespace::Access, seq![key_a@, mint_a@], Namespace::Access, seq![key_b@, mint_b@]);
    lemma_seeds_injective(Namespace::Vote, seq![key_a@, na], Namespace::Vote, seq![key_b@, nb]);
    lemma_seeds_injective(Namespace::Rsvp, seq![key_a@, na], Namespace::Rsvp, seq![key_b@, nb]);
    lemma_seeds_injective(Namespace::Proposal, seq![na], Namespace::Proposal, seq![nb]);
    lemma_seeds_injective(Namespace::Event, seq![na], Namespace::Event, seq![nb]);
    lemma_seeds_injective(Namespace::Badge, seq![na], Namespace::Badge, seq![nb]);
    assert(seq![key_a@, mint_a@] == seq![key_b@, mint_b@] <==> key_a@ == key_b@ && mint_a@ == mint_b@) by {
        if seq![key_a@, mint_a@] == seq![key_b@, mint_b@] {
            assert(seq![key_a@, mint_a@][0] == key_a@);
            assert(seq![key_a@, mint_a@][1] == mint_a@);
            assert(seq![key_b@, mint_b@][0] == key_b@);
            assert(seq![key_b@, mint_b@][1] == mint_b@);
        }
    }
    assert(seq![key_a@, na] == seq![key_b@, nb] <==> key_a@ == key_b@ && na == nb) by {
        if seq![key_a@, na] == seq![key_b@, nb] {
            assert(seq![key_a@, na][0] == key_a@);
            assert(seq![key_a@, na][1] == na);
            assert(seq![key_b@, nb][0] == key_b@);
            assert(seq![key_b@, nb][1] == nb);
        }
    }
    assert(seq![na] == seq![nb] <==> na == nb) by {
        if seq![na] == seq![nb] {
            assert(seq![na][0] == na);
            assert(seq![nb][0] == nb);
        }
    }
}

/// What `Pubkey::try_find_program_address` returns for a list of seeds and
/// a program's address: the derived address and its bump seed, or nothing.
pub uninterp spec fn program_address(seeds: Seq<Seq<u8>>, program_id: Seq<u8>) -> Option<
    (Seq<u8>, u8),
>;

/// A derived address and its bump seed, as plain values.
pub open spec fn derived_view(found: Option<(Pubkey, u8)>) -> Option<(Seq<u8>, u8)> {
    match found {
        Some((address, bump)) => Some((address@, bump)),
        None => None,
    }
}

/// Whether a list of seeds is too long to derive from: it leaves no room
/// for the bump seed, or one of its seeds has more bytes than a seed may.
pub open spec fn seeds_oversized(seeds: Seq<Seq<u8>>) -> bool {
    seeds.len() >= MAX_SEEDS || exists|i: int| 0 <= i < seeds.len() && #[trigger] seeds[i].len()
        > MAX_SEED_LEN
}

/// Calls `Pubkey::try_find_program_address`. The result is a function of
/// the seeds and the program's address alone; for an oversized list of
/// seeds it is nothing.
#[verifier::external_body]
fn try_find_program_address(seeds: &Vec<Vec<u8>>, program_id: &Pubkey) -> (found: Option<
    (Pubkey, u8),
>)
    ensures
        derived_view(found) == program_address(seed_bytes(seeds@), program_id@),
        seeds_oversized(seed_bytes(seeds@)) ==> found is None,
{
    let parts: Vec<&[u8]> = seeds.iter().map(|seed| seed.as_slice()).collect();
    let id = anchor_lang::prelude::Pubkey::new_from_array(program_id.bytes);
    match anchor_lang::prelude::Pubkey::try_find_program_address(&parts, &id) {
        Some((address, bump)) => Some((Pubkey { bytes: address.to_bytes() }, bump)),
        None => None,
    }
}

/// Derives the address of a record from its seeds, for a program.
pub fn find_address(seeds: &Vec<Vec<u8>>, program_id: &Pubkey) -> (found: Option<(Pubkey, u8)>)
    ensures
        derived_view(found) == program_address(seed_bytes(seeds@), program_id@),
        seeds_oversized(seed_bytes(seeds@)) ==> found is None,
{
    try_find_program_address(seeds, program_id)
}

/// Whether an account is the one that a derivation found.
pub fn is_derived(found: &Option<(Pubkey, u8)>, account: &Pubkey) -> (same: bool)
    ensures
        same == (found matches Some((address, _)) && address == *account),
{
    match found {
        Some((address, _)) => address.same(account),
        None => false,
    }
}

/// Whether an account stands at the address derived from the seeds.
pub fn located_at(seeds: &Vec<Vec<u8>>, program_id: &Pubkey, account: &Pubkey) -> (same: bool)
    ensures
        same == (program_address(seed_bytes(seeds@), program_id@) matches Some((address, _))
            && address == account@),
{
    let found = find_address(seeds, program_id);
    proof {
        if let Some((address, _)) = found {
            Pubkey::lemma_view_injective(address, *account);
        }
    }
    is_derived(&found, account)
}

/// The address of the one record that holds the global tallies.
pub fn global_state_address(program_id: &Pubkey) -> (found: Option<(Pubkey, u8)>)
    ensures
        derived_view(found) == program_address(global_state_seeds(), program_id@),
{
    find_address(&singleton_seeds(Namespace::GlobalState), program_id)
}

/// The address of the program's own signer.
pub fn program_authority_address(program_id: &Pubkey) -> (found: Option<(Pubkey, u8)>)
    ensures
        derived_view(found) == program_address(program_authority_seeds(), program_id@),
{
    find_address(&singleton_seeds(Namespace::ProgramAuthority), program_id)
}

/// The address of the stake position of a staker and a token.
pub fn staking_address(program_id: &Pubkey, staker: &Pubkey, nft_mint: &Pubkey) -> (found: Option<
    (Pubkey, u8),
>)
    ensures
        derived_view(found) == program_address(staking_seeds(*staker, *nft_mint), program_id@),
{
    find_address(&paired_seeds(Namespace::Staking, staker, nft_mint), program_id)
}

/// The address of the proposal with a given id.
pub fn proposal_address(program_id: &Pubkey, proposal_id: u64) -> (found: Option<(Pubkey, u8)>)
    ensures
        derived_view(found) == program_address(proposal_seeds(proposal_id), program_id@),
{
    find_address(&numbered_seeds(Namespace::Proposal, proposal_id), program_id)
}

/// The address of a voter's vote on a proposal.
pub fn vote_address(program_id: &Pubkey, voter: &Pubkey, proposal_id: u64) -> (found: Option<
    (Pubkey, u8),
>)
    ensures
        derived_view(found) == program_address(vote_seeds(*voter, proposal_id), program_id@),
{
    find_address(&keyed_numbered_seeds(Namespace::Vote, voter, proposal_id), program_id)
}

/// The address of the event with a given id.
pub fn event_address(program_id: &Pubkey, event_id: u64) -> (found: Option<(Pubkey, u8)>)
    ensures
        derived_view(found) == program_address(event_seeds(event_id), program_id@),
{
    find_address(&numbered_seeds(Namespace::Event, event_id), program_id)
}

/// The address of a user's place at an event.
pub fn rsvp_address(program_id: &Pubkey, user: &Pubkey, event_id: u64) -> (found: Option<
    (Pubkey, u8),
>)
    ensures
        derived_view(found) == program_address(rsvp_seeds(*user, event_id), program_id@),
{
    find_address(&keyed_numbered_seeds(Namespace::Rsvp, user, event_id), program_id)
}

/// The address of the badge with a given id.
pub fn badge_address(program_id: &Pubkey, badge_id: u64) -> (found: Option<(Pubkey, u8)>)
    ensures
        derived_view(found) == program_address(badge_seeds(badge_id), program_id@),
{
    find_address(&numbered_seeds(Namespace::Badge, badge_id), program_id)
}

/// The address of a user's grant of access on the strength of a token.
pub fn access_address(program_id: &Pubkey, user: &Pubkey, nft_mint: &Pubkey) -> (found: Option<
    (Pubkey, u8),
>)
    ensures
        derived_view(found) == program_address(access_seeds(*user, *nft_mint), program_id@),
{
    find_address(&paired_seeds(Namespace::Access, user, nft_mint), program_id)
}

} // verus!
