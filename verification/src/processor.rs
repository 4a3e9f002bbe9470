//! Carrying out the requests of the marketplace and messaging program.

use vstd::prelude::*;
use crate::address::find_address;
use crate::cpi::{
    associated_token_program_bytes, associated_token_program_id, create_account_data,
    create_metadata_account, create_metadata_data, create_token_account, creator_view,
    initialize_mint_data, lamport_transfer_data, mint_account_len, mint_to_data,
    moved_tokens_data, system_create_account, system_transfer, token_account_address,
    token_account_seeds, token_initialize_mint, token_mint_to, token_transfer, CreatorShare,
    MINT_ACCOUNT_LEN,
};
use crate::error::{OtakuVerseError, ProgramError};
use crate::instruction::{
    parse_instruction, readonly, writable, Instruction, InstructionView, OtakuVerseInstruction,
};
use crate::programs::{
    rent_sysvar_bytes, system_program_bytes, token_program_bytes, token_program_id,
};
use crate::pubkey::Pubkey;
use crate::state::community::{parse_community, CommunityData, MessageData};
use crate::state::nft::{
    attribute_views, lowercase_of, NFTAttribute, NFTData, NFTDataView, NFTRarity,
    MAX_ROYALTY_BASIS_POINTS,
};
use crate::state::record::{key_of, optional_key_of};
use crate::text::fits;
use crate::wire::{optional_text_view, text_storable};

verus! {

/// An account as a request sees it.
#[derive(Clone, Debug)]
pub struct AccountInfo {
    pub key: Pubkey,
    /// Whether the holder of the account signed the request.
    pub is_signer: bool,
    /// Whether the request may change the account.
    pub is_writable: bool,
    /// What the account holds.
    pub data: Vec<u8>,
}

/// What the runtime tells a request: the time, and the balance that frees
/// a new mint account from rent.
#[derive(Clone, Copy, Debug)]
pub struct Runtime {
    pub unix_timestamp: i64,
    pub mint_rent: u64,
}

/// What a record that may be absent holds, as mathematical values.
pub open spec fn record_view(record: Option<NFTData>) -> Option<NFTDataView> {
    match record {
        Some(nft) => Some(nft@),
        None => None,
    }
}

/// What a record that is there holds.
pub open spec fn held(record: Option<NFTData>) -> NFTDataView
    recommends
        record is Some,
{
    record->Some_0@
}

/// Whether a record that may be absent is well formed where it is there.
pub open spec fn well_formed(record: Option<NFTData>) -> bool {
    record matches Some(nft) ==> nft.wf()
}

/// The error of the program's own that the runtime is told of.
pub open spec fn refusal(e: OtakuVerseError) -> ProgramError {
    ProgramError::Custom(e.spec_code())
}

/// Whether a request came with enough accounts, one at the least, and its
/// first account signed it; if not, the error that says so.
pub open spec fn admission(accounts: Seq<AccountInfo>, needed: nat) -> Result<(), ProgramError> {
    if accounts.len() < needed || accounts.len() == 0 {
        Err(ProgramError::NotEnoughAccountKeys)
    } else if !accounts[0].is_signer {
        Err(refusal(OtakuVerseError::Unauthorized))
    } else {
        Ok(())
    }
}

/// Checks that a request came with the accounts it needs and that its
/// first account signed it.
pub fn check_signer(accounts: &[AccountInfo], needed: usize) -> (outcome: Result<(), ProgramError>)
    ensures
        outcome == admission(accounts@, needed as nat),
{
    if accounts.len() < needed || accounts.len() == 0 {
        return Err(ProgramError::NotEnoughAccountKeys);
    }
    if !accounts[0].is_signer {
        return Err(ProgramError::Custom(OtakuVerseError::Unauthorized.code()));
    }
    Ok(())
}

/// The result of a request by a token's owner on the token's record: the
/// request must come with three accounts, be signed by the first, find a
/// record, and the first account must own the token.
pub open spec fn owner_admission(accounts: Seq<AccountInfo>, record: Option<NFTData>) -> Result<
    (),
    ProgramError,
> {
    match admission(accounts, 3) {
        Err(e) => Err(e),
        Ok(()) => match record {
            None => Err(refusal(OtakuVerseError::NFTNotFound)),
            Some(nft) => if nft.owner != accounts[0].key {
                Err(refusal(OtakuVerseError::Unauthorized))
            } else {
                Ok(())
            },
        },
    }
}

fn check_owner(accounts: &[AccountInfo], record: &Option<NFTData>) -> (outcome: Result<
    (),
    ProgramError,
>)
    ensures
        outcome == owner_admission(accounts@, *record),
{
    match check_signer(accounts, 3) {
        Err(e) => { return Err(e); },
        Ok(()) => {},
    }
    match record {
        None => Err(ProgramError::Custom(OtakuVerseError::NFTNotFound.code())),
        Some(nft) => {
            if !nft.owner.same(&accounts[0].key) {
                Err(ProgramError::Custom(OtakuVerseError::Unauthorized.code()))
            } else {
                Ok(())
            }
        },
    }
}

/// What putting a token up for sale does: the owner's request sets the
/// price and the mark, and a refused request changes nothing.
pub open spec fn list_post(
    accounts: Seq<AccountInfo>,
    price: u64,
    before: Option<NFTData>,
    outcome: Result<(), ProgramError>,
    after: Option<NFTData>,
) -> bool {
    &&& outcome == owner_admission(accounts, before)
    &&& outcome is Err ==> after == before
    &&& outcome is Ok ==> record_view(after) == Some(
        (NFTDataView { is_for_sale: true, price: price, ..held(before) }),
    )
}

/// What withdrawing a token from sale does: the owner's request clears
/// the mark and keeps the price, and a refused request changes nothing.
pub open spec fn cancel_post(
    accounts: Seq<AccountInfo>,
    before: Option<NFTData>,
    outcome: Result<(), ProgramError>,
    after: Option<NFTData>,
) -> bool {
    &&& outcome == owner_admission(accounts, before)
    &&& outcome is Err ==> after == before
    &&& outcome is Ok ==> record_view(after) == Some(
        (NFTDataView { is_for_sale: false, ..held(before) }),
    )
}

/// Puts a token up for sale at a price, at its owner's request. A refused
/// request leaves the record as it was.
///
/// Accounts: the owner, who signs; the metadata account; the mint.
pub fn process_list_nft_for_sale(
    program_id: &Pubkey,
    accounts: &[AccountInfo],
    price: u64,
    record: &mut Option<NFTData>,
) -> (outcome: Result<(), ProgramError>)
    ensures
        list_post(accounts@, price, *old(record), outcome, *final(record)),
{
    match check_owner(accounts, record) {
        Err(e) => { return Err(e); },
        Ok(()) => {},
    }
    match record {
        Some(nft) => {
            nft.set_for_sale(price);
        },
        None => {},
    }
    Ok(())
}

/// Withdraws a token from sale, at its owner's request. A refused request
/// leaves the record as it was.
///
/// Accounts: the owner, who signs; the metadata account; the mint.
pub fn process_cancel_nft_listing(
    program_id: &Pubkey,
    accounts: &[AccountInfo],
    record: &mut Option<NFTData>,
) -> (outcome: Result<(), ProgramError>)
    ensures
        cancel_post(accounts@, *old(record), outcome, *final(record)),
{
    match check_owner(accounts, record) {
        Err(e) => { return Err(e); },
        Ok(()) => {},
    }
    match record {
        Some(nft) => {
            nft.remove_from_sale();
        },
        None => {},
    }
    Ok(())
}

/// The result of a request to mark a token as verified: the request must
/// come with three accounts, be signed by the first, and find the record
/// of the token that it names.
pub open spec fn verify_admission(accounts: Seq<AccountInfo>, mint: Pubkey, record: Option<NFTData>)
    -> Result<(), ProgramError> {
    match admission(accounts, 3) {
        Err(e) => Err(e),
        Ok(()) => match record {
            None => Err(refusal(OtakuVerseError::NFTNotFound)),
            Some(nft) => if nft.mint != mint {
                Err(refusal(OtakuVerseError::NFTNotFound))
            } else {
                Ok(())
            },
        },
    }
}

/// What marking a token as verified does: an accepted request sets the
/// mark, and a refused request changes nothing.
pub open spec fn verify_post(
    accounts: Seq<AccountInfo>,
    mint: Pubkey,
    before: Option<NFTData>,
    outcome: Result<(), ProgramError>,
    after: Option<NFTData>,
) -> bool {
    &&& outcome == verify_admission(accounts, mint, before)
    &&& outcome is Err ==> after == before
    &&& outcome is Ok ==> record_view(after) == Some(
        (NFTDataView { is_verified: true, ..held(before) }),
    )
}

/// Marking a token as verified again changes nothing and is no error: a
/// request that was accepted once is accepted on the record that it left,
/// and leaves it as it is, verified.
pub proof fn lemma_verify_is_idempotent(
    accounts: Seq<AccountInfo>,
    mint: Pubkey,
    before: Option<NFTData>,
    once: Option<NFTData>,
    outcome: Result<(), ProgramError>,
    twice: Option<NFTData>,
)
    requires
        verify_post(accounts, mint, before, Ok(()), once),
        verify_post(accounts, mint, once, outcome, twice),
    ensures
        outcome is Ok,
        record_view(twice) == record_view(once),
        held(twice).is_verified,
{
}

/// Marks a token as verified. A token that is verified stays so, and the
/// request succeeds on it as on any other. A refused request leaves the
/// record as it was.
///
/// Accounts: the authority, who signs; the metadata account; the mint.
pub fn process_verify_nft(
    program_id: &Pubkey,
    accounts: &[AccountInfo],
    mint: Pubkey,
    record: &mut Option<NFTData>,
) -> (outcome: Result<(), ProgramError>)
    ensures
        verify_post(accounts@, mint, *old(record), outcome, *final(record)),
{
    match check_signer(accounts, 3) {
        Err(e) => { return Err(e); },
        Ok(()) => {},
    }
    match record {
        None => Err(ProgramError::Custom(OtakuVerseError::NFTNotFound.code())),
        Some(nft) => {
            if !nft.mint.same(&mint) {
                return Err(ProgramError::Custom(OtakuVerseError::NFTNotFound.code()));
            }
            nft.verify();
            Ok(())
        },
    }
}

/// The text of a record after an update that may replace it.
pub open spec fn replaced(current: Seq<char>, update: Option<Seq<char>>) -> Seq<char> {
    match update {
        Some(text) => text,
        None => current,
    }
}

/// The royalty of a record after an update that may replace it.
pub open spec fn replaced_royalty(current: u16, update: Option<u16>) -> u16 {
    match update {
        Some(rate) => rate,
        None => current,
    }
}

/// The result of a request to change a token's metadata: the owner's
/// request is refused where it asks for a royalty above one hundred
/// percent.
pub open spec fn update_admission(
    accounts: Seq<AccountInfo>,
    royalty_basis_points: Option<u16>,
    record: Option<NFTData>,
) -> Result<(), ProgramError> {
    match owner_admission(accounts, record) {
        Err(e) => Err(e),
        Ok(()) => if royalty_basis_points matches Some(rate) && rate > MAX_ROYALTY_BASIS_POINTS {
            Err(refusal(OtakuVerseError::InvalidNFTMetadata))
        } else {
            Ok(())
        },
    }
}

/// What changing a token's metadata does: an accepted request replaces
/// the uri, the name and the description where new ones are given, appends
/// the attributes after those already there, and sets the royalty where
/// one is given; a refused request changes nothing.
pub open spec fn update_post(
    accounts: Seq<AccountInfo>,
    uri: Option<Seq<char>>,
    name: Option<Seq<char>>,
    description: Option<Seq<char>>,
    attributes_to_add: Seq<(Seq<char>, Seq<char>)>,
    royalty_basis_points: Option<u16>,
    before: Option<NFTData>,
    outcome: Result<(), ProgramError>,
    after: Option<NFTData>,
) -> bool {
    &&& outcome == update_admission(accounts, royalty_basis_points, before)
    &&& outcome is Err ==> after == before
    &&& outcome is Ok ==> record_view(after) == Some(
        (NFTDataView {
            uri: replaced(held(before).uri, uri),
            name: replaced(held(before).name, name),
            description: replaced(held(before).description, description),
            attributes: held(before).attributes + attributes_to_add,
            royalty_basis_points: replaced_royalty(
                held(before).royalty_basis_points,
                royalty_basis_points,
            ),
            ..held(before)
        }),
    )
}

/// Changes a token's metadata, at its owner's request: replaces the uri,
/// the name and the description where new ones are given, appends the
/// attributes, and sets the royalty where one is given. A refused request
/// leaves the record as it was.
///
/// Accounts: the owner, who signs; the metadata account; the mint.
pub fn process_update_nft_metadata(
    program_id: &Pubkey,
    accounts: &[AccountInfo],
    uri: Option<String>,
    name: Option<String>,
    description: Option<String>,
    attributes_to_add: Vec<NFTAttribute>,
    royalty_basis_points: Option<u16>,
    record: &mut Option<NFTData>,
) -> (outcome: Result<(), ProgramError>)
    ensures
        update_post(
            accounts@,
            optional_text_view(uri),
            optional_text_view(name),
            optional_text_view(description),
            attribute_views(attributes_to_add@),
            royalty_basis_points,
            *old(record),
            outcome,
            *final(record),
        ),
        outcome is Ok && well_formed(*old(record)) ==> well_formed(*final(record)),
{
    match check_owner(accounts, record) {
        Err(e) => { return Err(e); },
        Ok(()) => {},
    }
    match royalty_basis_points {
        Some(rate) => {
            if rate > MAX_ROYALTY_BASIS_POINTS {
                return Err(ProgramError::Custom(OtakuVerseError::InvalidNFTMetadata.code()));
            }
        },
        None => {},
    }
    match record {
        Some(nft) => {
            match uri {
                Some(text) => {
                    nft.uri = text;
                },
                None => {},
            }
            match name {
                Some(text) => {
                    nft.name = text;
                },
                None => {},
            }
            match description {
                Some(text) => {
                    nft.description = text;
                },
                None => {},
            }
            let mut added = attributes_to_add;
            let ghost before = nft.attributes@;
            nft.attributes.append(&mut added);
            proof {
                assert(attribute_views(nft.attributes@) =~= attribute_views(before)
                    + attribute_views(attributes_to_add@));
            }
            match royalty_basis_points {
                Some(rate) => {
                    nft.set_royalty(rate);
                },
                None => {},
            }
        },
        None => {},
    }
    Ok(())
}

/// The result of a request to send a message: the request must come with
/// four accounts and be signed by the first, and the second must hold the
/// community that the request names.
pub open spec fn message_admission(accounts: Seq<AccountInfo>, community_id: Seq<char>) -> Result<
    (),
    ProgramError,
> {
    match admission(accounts, 4) {
        Err(e) => Err(e),
        Ok(()) => match parse_community(accounts[1].data@) {
            None => Err(refusal(OtakuVerseError::CommunityNotFound)),
            Some(community) => if community.id != community_id {
                Err(refusal(OtakuVerseError::CommunityNotFound))
            } else {
                Ok(())
            },
        },
    }
}

/// What sending a message does: an accepted request makes the message,
/// for the community named, from the signer, with the content and the
/// time given.
pub open spec fn message_post(
    accounts: Seq<AccountInfo>,
    community_id: Seq<char>,
    content: Seq<char>,
    now: i64,
    outcome: Result<MessageData, ProgramError>,
) -> bool {
    match outcome {
        Ok(message) => {
            &&& message_admission(accounts, community_id) is Ok
            &&& message.community_id@ == community_id
            &&& message.sender == accounts[0].key
            &&& message.content@ == content
            &&& message.sent_at == now
        },
        Err(e) => message_admission(accounts, community_id) == Err::<(), ProgramError>(e),
    }
}

/// Sends a message in a community: checks that the community account
/// holds the community that the request names, and makes the message, from
/// the signer, at the time given.
///
/// Accounts: the sender, who signs; the community; the message; the
/// system program.
pub fn process_send_community_message(
    program_id: &Pubkey,
    accounts: &[AccountInfo],
    community_id: String,
    content: String,
    now: i64,
) -> (outcome: Result<MessageData, ProgramError>)
    ensures
        message_post(accounts@, community_id@, content@, now, outcome),
{
    match check_signer(accounts, 4) {
        Err(e) => { return Err(e); },
        Ok(()) => {},
    }
    let community_data = match CommunityData::unpack_from_slice(accounts[1].data.as_slice()) {
        Ok(community) => community,
        Err(_) => {
            return Err(ProgramError::Custom(OtakuVerseError::CommunityNotFound.code()));
        },
    };
    if community_data.id != community_id {
        return Err(ProgramError::Custom(OtakuVerseError::CommunityNotFound.code()));
    }
    Ok(MessageData { community_id, sender: accounts[0].key, content, sent_at: now })
}

/// A request to another program, with the accounts that it is to be
/// handed, by address, in order.
#[derive(Clone, Debug)]
pub struct Invocation {
    pub instruction: Instruction,
    pub accounts: Vec<Pubkey>,
}

impl Invocation {
    /// Whether this is the given request, handed the given accounts.
    pub open spec fn is(
        self,
        request: (Seq<u8>, Seq<(Seq<u8>, bool, bool)>, Seq<u8>),
        accounts: Seq<Pubkey>,
    ) -> bool {
        self.instruction.plain() == request && self.accounts@ == accounts
    }
}

/// Whether a plan is the five requests that set up a token: create the
/// mint account, set up the mint with no decimals, create the authority's
/// token account, mint one token into it, and create the metadata account.
pub open spec fn is_mint_plan(
    plan: Seq<Invocation>,
    a: Seq<AccountInfo>,
    name: Seq<char>,
    symbol: Seq<char>,
    uri: Seq<char>,
    creator: Option<CreatorShare>,
    seller_fee_basis_points: u16,
    mint_rent: u64,
) -> bool {
    &&& plan.len() == 5
    &&& plan[0].is(
        (
            system_program_bytes(),
            seq![writable(a[0].key, true), writable(a[1].key, true)],
            create_account_data(mint_rent, MINT_ACCOUNT_LEN, token_program_bytes()),
        ),
        seq![a[0].key, a[1].key],
    )
    &&& plan[1].is(
        (
            token_program_bytes(),
            seq![writable(a[1].key, false), readonly(rent_sysvar_bytes(), false)],
            initialize_mint_data(a[4].key@, Some(a[5].key@), 0),
        ),
        seq![a[1].key, a[9].key, a[7].key],
    )
    &&& token_account_address(a[0].key, a[1].key) is Some
    &&& plan[2].is(
        (
            associated_token_program_bytes(),
            seq![
                writable(a[0].key, true),
                (token_account_address(a[0].key, a[1].key)->Some_0.0, false, true),
                readonly(a[0].key@, false),
                readonly(a[1].key@, false),
                readonly(system_program_bytes(), false),
                readonly(token_program_bytes(), false),
            ],
            seq![0u8],
        ),
        seq![a[0].key, a[2].key, a[0].key, a[1].key, a[6].key, a[7].key],
    )
    &&& plan[3].is(
        (
            token_program_bytes(),
            seq![writable(a[1].key, false), writable(a[2].key, false), readonly(a[4].key@, true)],
            mint_to_data(1),
        ),
        seq![a[1].key, a[2].key, a[4].key, a[7].key],
    )
    &&& plan[4].is(
        (
            a[8].key@,
            seq![
                writable(a[3].key, false),
                readonly(a[1].key@, false),
                readonly(a[4].key@, true),
                writable(a[0].key, true),
                readonly(a[5].key@, true),
                readonly(system_program_bytes(), false),
            ],
            create_metadata_data(
                name,
                symbol,
                uri,
                creator_view(creator),
                seller_fee_basis_points,
                true,
            ),
        ),
        seq![a[3].key, a[1].key, a[4].key, a[0].key, a[5].key, a[6].key, a[9].key, a[8].key],
    )
}

/// Whether the requests that set up a token can be made: the three texts
/// of the metadata can be stored, and the address of the authority's token
/// account can be derived. If not, the error that says so.
pub open spec fn plan_admission(
    a: Seq<AccountInfo>,
    name: Seq<char>,
    symbol: Seq<char>,
    uri: Seq<char>,
) -> Result<(), ProgramError> {
    if !(text_storable(name) && text_storable(symbol) && text_storable(uri)) {
        Err(refusal(OtakuVerseError::InvalidNFTMetadata))
    } else if token_account_address(a[0].key, a[1].key) is None {
        Err(ProgramError::InvalidSeeds)
    } else {
        Ok(())
    }
}

fn keys2(a: &[AccountInfo], i: usize, j: usize) -> (keys: Vec<Pubkey>)
    requires
        i < a@.len(),
        j < a@.len(),
    ensures
        keys@ == seq![a@[i as int].key, a@[j as int].key],
{
    let mut keys: Vec<Pubkey> = Vec::new();
    keys.push(a[i].key);
    keys.push(a[j].key);
    proof {
        assert(keys@ =~= seq![a@[i as int].key, a@[j as int].key]);
    }
    keys
}

fn mint_plan(
    a: &[AccountInfo],
    name: &String,
    symbol: &String,
    uri: &String,
    creator: Option<CreatorShare>,
    seller_fee_basis_points: u16,
    mint_rent: u64,
) -> (outcome: Result<Vec<Invocation>, ProgramError>)
    requires
        a@.len() >= 10,
    ensures
        match outcome {
            Ok(plan) => {
                &&& plan_admission(a@, name@, symbol@, uri@) is Ok
                &&& is_mint_plan(
                    plan@,
                    a@,
                    name@,
                    symbol@,
                    uri@,
                    creator,
                    seller_fee_basis_points,
                    mint_rent,
                )
            },
            Err(e) => plan_admission(a@, name@, symbol@, uri@) == Err::<(), ProgramError>(e),
        },
{
    let limit: usize = 0xffff_ffff;
    if !fits(name, limit) || !fits(symbol, limit) || !fits(uri, limit) {
        return Err(ProgramError::Custom(OtakuVerseError::InvalidNFTMetadata.code()));
    }
    let token_program = token_program_id();
    let mut seeds: Vec<Vec<u8>> = Vec::new();
    seeds.push(a[0].key.to_vec());
    seeds.push(token_program.to_vec());
    seeds.push(a[1].key.to_vec());
    proof {
        assert(crate::address::seed_bytes(seeds@) =~= token_account_seeds(a@[0].key, a@[1].key));
    }
    if find_address(&seeds, &associated_token_program_id()).is_none() {
        return Err(ProgramError::InvalidSeeds);
    }
    let mut plan: Vec<Invocation> = Vec::new();
    plan.push(
        Invocation {
            instruction: system_create_account(
                &a[0].key,
                &a[1].key,
                mint_rent,
                mint_account_len(),
                &token_program,
            ),
            accounts: keys2(a, 0, 1),
        },
    );
    // The token program's builders refuse only a request to another program.
    let initialize = match token_initialize_mint(&a[1].key, &a[4].key, Some(a[5].key), 0) {
        Some(request) => request,
        None => { return Err(ProgramError::IncorrectProgramId); },
    };
    let mut passed = keys2(a, 1, 9);
    passed.push(a[7].key);
    proof {
        assert(passed@ =~= seq![a@[1].key, a@[9].key, a@[7].key]);
    }
    plan.push(Invocation { instruction: initialize, accounts: passed });
    let mut passed = keys2(a, 0, 2);
    passed.push(a[0].key);
    passed.push(a[1].key);
    passed.push(a[6].key);
    passed.push(a[7].key);
    proof {
        assert(passed@ =~= seq![
            a@[0].key,
            a@[2].key,
            a@[0].key,
            a@[1].key,
            a@[6].key,
            a@[7].key,
        ]);
    }
    plan.push(
        Invocation {
            instruction: create_token_account(&a[0].key, &a[0].key, &a[1].key),
            accounts: passed,
        },
    );
    let mint_to = match token_mint_to(&a[1].key, &a[2].key, &a[4].key, 1) {
        Some(request) => request,
        None => { return Err(ProgramError::IncorrectProgramId); },
    };
    let mut passed = keys2(a, 1, 2);
    passed.push(a[4].key);
    passed.push(a[7].key);
    proof {
        assert(passed@ =~= seq![a@[1].key, a@[2].key, a@[4].key, a@[7].key]);
    }
    plan.push(Invocation { instruction: mint_to, accounts: passed });
    let keys: [Pubkey; 5] = [a[3].key, a[1].key, a[4].key, a[0].key, a[5].key];
    let metadata = create_metadata_account(
        &a[8].key,
        &keys,
        name.clone(),
        symbol.clone(),
        uri.clone(),
        creator,
        seller_fee_basis_points,
        true,
        true,
    );
    let mut passed = keys2(a, 3, 1);
    passed.push(a[4].key);
    passed.push(a[0].key);
    passed.push(a[5].key);
    passed.push(a[6].key);
    passed.push(a[9].key);
    passed.push(a[8].key);
    proof {
        assert(passed@ =~= seq![
            a@[3].key,
            a@[1].key,
            a@[4].key,
            a@[0].key,
            a@[5].key,
            a@[6].key,
            a@[9].key,
            a@[8].key,
        ]);
    }
    plan.push(Invocation { instruction: metadata, accounts: passed });
    Ok(plan)
}

/// Whether a token can be minted: the request must come with ten
/// accounts and be signed by the first, the royalty must be at most one
/// hundred percent, no record of the token may exist, and the requests
/// that set the token up must be possible. If not, the error that says so.
pub open spec fn mint_admission(
    a: Seq<AccountInfo>,
    name: Seq<char>,
    symbol: Seq<char>,
    uri: Seq<char>,
    royalty_basis_points: u16,
    before: Option<NFTData>,
) -> Result<(), ProgramError> {
    match admission(a, 10) {
        Err(e) => Err(e),
        Ok(()) => if royalty_basis_points > MAX_ROYALTY_BASIS_POINTS {
            Err(refusal(OtakuVerseError::InvalidNFTMetadata))
        } else if before is Some {
            Err(refusal(OtakuVerseError::NFTAlreadyExists))
        } else {
            plan_admission(a, name, symbol, uri)
        },
    }
}

/// What minting a token as a reward does: an accepted request plans the
/// five requests that set the token up, without creators or royalty, and
/// records the token as owned and created by the authority, created at the
/// time given, with the rarity that its name stands for, no description,
/// no collection, no attributes and no royalty, not for sale and not
/// verified. A refused request plans nothing and changes nothing.
pub open spec fn mint_reward_post(
    a: Seq<AccountInfo>,
    name: Seq<char>,
    symbol: Seq<char>,
    uri: Seq<char>,
    anime_title: Seq<char>,
    rarity: Seq<char>,
    runtime: Runtime,
    before: Option<NFTData>,
    outcome: Result<Vec<Invocation>, ProgramError>,
    after: Option<NFTData>,
) -> bool {
    match outcome {
        Err(e) => mint_admission(a, name, symbol, uri, 0, before) == Err::<(), ProgramError>(e)
            && after == before,
        Ok(plan) => {
            &&& mint_admission(a, name, symbol, uri, 0, before) is Ok
            &&& is_mint_plan(plan@, a, name, symbol, uri, None, 0, runtime.mint_rent)
            &&& record_view(after) == Some(
                (NFTDataView {
                    mint: a[1].key,
                    owner: a[0].key,
                    name: name,
                    symbol: symbol,
                    uri: uri,
                    anime_title: anime_title,
                    rarity: NFTRarity::of_lowercase(lowercase_of(rarity)),
                    is_for_sale: false,
                    price: 0,
                    created_at: runtime.unix_timestamp,
                    creator: a[0].key,
                    description: Seq::empty(),
                    collection_id: None,
                    attributes: Seq::empty(),
                    royalty_basis_points: 0,
                    is_verified: false,
                }),
            )
        },
    }
}

/// The creator that a token minted with a royalty names: the authority,
/// verified, with one percent of share for each hundred basis points.
pub open spec fn creator_of(authority: Pubkey, royalty_basis_points: u16) -> Option<CreatorShare> {
    Some(
        CreatorShare {
            address: authority,
            verified: true,
            share: (royalty_basis_points / 100) as u8,
        },
    )
}

/// What minting a token with details does: an accepted request plans the
/// five requests that set the token up, with the authority as its creator
/// and the royalty as the seller's fee, and records the token with the
/// details given, owned and created by the authority, created at the time
/// given, not for sale and not verified. A refused request plans nothing
/// and changes nothing.
pub open spec fn mint_enhanced_post(
    a: Seq<AccountInfo>,
    name: Seq<char>,
    symbol: Seq<char>,
    uri: Seq<char>,
    anime_title: Seq<char>,
    rarity: NFTRarity,
    description: Seq<char>,
    collection_id: Option<Pubkey>,
    attributes: Seq<(Seq<char>, Seq<char>)>,
    royalty_basis_points: u16,
    runtime: Runtime,
    before: Option<NFTData>,
    outcome: Result<Vec<Invocation>, ProgramError>,
    after: Option<NFTData>,
) -> bool {
    match outcome {
        Err(e) => mint_admission(a, name, symbol, uri, royalty_basis_points, before) == Err::<
            (),
            ProgramError,
        >(e) && after == before,
        Ok(plan) => {
            &&& mint_admission(a, name, symbol, uri, royalty_basis_points, before) is Ok
            &&& is_mint_plan(
                plan@,
                a,
                name,
                symbol,
                uri,
                creator_of(a[0].key, royalty_basis_points),
                royalty_basis_points,
                runtime.mint_rent,
            )
            &&& record_view(after) == Some(
                (NFTDataView {
                    mint: a[1].key,
                    owner: a[0].key,
                    name: name,
                    symbol: symbol,
                    uri: uri,
                    anime_title: anime_title,
                    rarity: rarity,
                    is_for_sale: false,
                    price: 0,
                    created_at: runtime.unix_timestamp,
                    creator: a[0].key,
                    description: description,
                    collection_id: collection_id,
                    attributes: attributes,
                    royalty_basis_points: royalty_basis_points,
                    is_verified: false,
                }),
            )
        },
    }
}

/// Mints a token as a reward.
///
/// Accounts: the authority, who signs and pays; the mint; the token
/// account; the metadata account; the mint authority; the update
/// authority; the system program; the token program; the token metadata
/// program; the rent sysvar.
pub fn process_mint_nft_reward(
    program_id: &Pubkey,
    accounts: &[AccountInfo],
    name: String,
    symbol: String,
    uri: String,
    anime_title: String,
    rarity: String,
    runtime: &Runtime,
    record: &mut Option<NFTData>,
) -> (outcome: Result<Vec<Invocation>, ProgramError>)
    ensures
        mint_reward_post(
            accounts@,
            name@,
            symbol@,
            uri@,
            anime_title@,
            rarity@,
            *runtime,
            *old(record),
            outcome,
            *final(record),
        ),
        outcome is Ok ==> well_formed(*final(record)),
{
    match check_signer(accounts, 10) {
        Err(e) => { return Err(e); },
        Ok(()) => {},
    }
    if record.is_some() {
        return Err(ProgramError::Custom(OtakuVerseError::NFTAlreadyExists.code()));
    }
    let plan = match mint_plan(accounts, &name, &symbol, &uri, None, 0, runtime.mint_rent) {
        Ok(plan) => plan,
        Err(e) => { return Err(e); },
    };
    let mut nft_data = NFTData::new_with_details(
        accounts[1].key,
        accounts[0].key,
        name,
        symbol,
        uri,
        anime_title,
        NFTRarity::from_str(rarity.as_str()),
        accounts[0].key,
        String::new(),
        None,
        Vec::new(),
        0,
    );
    nft_data.created_at = runtime.unix_timestamp;
    proof {
        assert(nft_data@.attributes =~= Seq::empty());
    }
    *record = Some(nft_data);
    Ok(plan)
}

/// Mints a token with a description, a collection, attributes and a
/// royalty.
///
/// Accounts: as for a reward.
pub fn process_mint_enhanced_nft(
    program_id: &Pubkey,
    accounts: &[AccountInfo],
    name: String,
    symbol: String,
    uri: String,
    anime_title: String,
    rarity: NFTRarity,
    description: String,
    collection_id: Option<Pubkey>,
    attributes: Vec<NFTAttribute>,
    royalty_basis_points: u16,
    runtime: &Runtime,
    record: &mut Option<NFTData>,
) -> (outcome: Result<Vec<Invocation>, ProgramError>)
    ensures
        mint_enhanced_post(
            accounts@,
            name@,
            symbol@,
            uri@,
            anime_title@,
            rarity,
            description@,
            collection_id,
            attribute_views(attributes@),
            royalty_basis_points,
            *runtime,
            *old(record),
            outcome,
            *final(record),
        ),
        outcome is Ok ==> well_formed(*final(record)),
{
    match check_signer(accounts, 10) {
        Err(e) => { return Err(e); },
        Ok(()) => {},
    }
    if royalty_basis_points > MAX_ROYALTY_BASIS_POINTS {
        return Err(ProgramError::Custom(OtakuVerseError::InvalidNFTMetadata.code()));
    }
    if record.is_some() {
        return Err(ProgramError::Custom(OtakuVerseError::NFTAlreadyExists.code()));
    }
    let creators_share: u8 = (royalty_basis_points / 100) as u8;
    let creator = CreatorShare { address: accounts[0].key, verified: true, share: creators_share };
    let plan = match mint_plan(
        accounts,
        &name,
        &symbol,
        &uri,
        Some(creator),
        royalty_basis_points,
        runtime.mint_rent,
    ) {
        Ok(plan) => plan,
        Err(e) => { return Err(e); },
    };
    let mut nft_data = NFTData::new_with_details(
        accounts[1].key,
        accounts[0].key,
        name,
        symbol,
        uri,
        anime_title,
        rarity,
        accounts[0].key,
        description,
        collection_id,
        attributes,
        royalty_basis_points,
    );
    nft_data.created_at = runtime.unix_timestamp;
    *record = Some(nft_data);
    Ok(plan)
}

/// What buying a token does: an accepted request, which must come with
/// seven accounts and be signed by the buyer, plans two requests: move the
/// price from the buyer to the seller, and move one token from the
/// seller's token account to the buyer's, on the seller's authority.
pub open spec fn purchase_post(
    a: Seq<AccountInfo>,
    price: u64,
    outcome: Result<Vec<Invocation>, ProgramError>,
) -> bool {
    match outcome {
        Err(e) => admission(a, 7) == Err::<(), ProgramError>(e),
        Ok(plan) => {
            &&& admission(a, 7) is Ok
            &&& plan@.len() == 2
            &&& plan@[0].is(
                (
                    system_program_bytes(),
                    seq![writable(a[0].key, true), writable(a[1].key, false)],
                    lamport_transfer_data(price),
                ),
                seq![a[0].key, a[1].key, a[5].key],
            )
            &&& plan@[1].is(
                (
                    token_program_bytes(),
                    seq![
                        writable(a[4].key, false),
                        writable(a[3].key, false),
                        readonly(a[1].key@, true),
                    ],
                    moved_tokens_data(1),
                ),
                seq![a[4].key, a[3].key, a[1].key, a[6].key],
            )
        },
    }
}

/// Buys a token. The royalty is not taken from the price: whoever settles
/// the sale applies it.
///
/// Accounts: the buyer, who signs and pays; the seller; the mint; the
/// buyer's token account; the seller's token account; the system program;
/// the token program.
pub fn process_purchase_nft(program_id: &Pubkey, accounts: &[AccountInfo], price: u64) -> (outcome:
    Result<Vec<Invocation>, ProgramError>)
    ensures
        purchase_post(accounts@, price, outcome),
{
    match check_signer(accounts, 7) {
        Err(e) => { return Err(e); },
        Ok(()) => {},
    }
    let mut plan: Vec<Invocation> = Vec::new();
    let mut passed = keys2(accounts, 0, 1);
    passed.push(accounts[5].key);
    proof {
        assert(passed@ =~= seq![accounts@[0].key, accounts@[1].key, accounts@[5].key]);
    }
    plan.push(
        Invocation {
            instruction: system_transfer(&accounts[0].key, &accounts[1].key, price),
            accounts: passed,
        },
    );
    // The token program's builders refuse only a request to another program.
    let transfer = match token_transfer(&accounts[4].key, &accounts[3].key, &accounts[1].key, 1) {
        Some(request) => request,
        None => { return Err(ProgramError::IncorrectProgramId); },
    };
    let mut passed = keys2(accounts, 4, 3);
    passed.push(accounts[1].key);
    passed.push(accounts[6].key);
    proof {
        assert(passed@ =~= seq![
            accounts@[4].key,
            accounts@[3].key,
            accounts@[1].key,
            accounts@[6].key,
        ]);
    }
    plan.push(Invocation { instruction: transfer, accounts: passed });
    Ok(plan)
}

/// What the runtime is to do once a request has been accepted: the
/// requests to hand to other programs, in order, and the message to store,
/// if the request sent one.
#[derive(Clone, Debug)]
pub struct Effect {
    pub invocations: Vec<Invocation>,
    pub message: Option<MessageData>,
}

/// The outcome of a request that plans requests to other programs and
/// sends no message.
pub open spec fn planned(outcome: Result<Effect, ProgramError>) -> Result<
    Vec<Invocation>,
    ProgramError,
> {
    match outcome {
        Ok(effect) => Ok(effect.invocations),
        Err(e) => Err(e),
    }
}

/// The outcome of a request that only changes the record.
pub open spec fn settled(outcome: Result<Effect, ProgramError>) -> Result<(), ProgramError> {
    match outcome {
        Ok(_) => Ok(()),
        Err(e) => Err(e),
    }
}

/// What a request does, by its kind.
pub open spec fn effect_post(
    request: InstructionView,
    accounts: Seq<AccountInfo>,
    runtime: Runtime,
    before: Option<NFTData>,
    outcome: Result<Effect, ProgramError>,
    after: Option<NFTData>,
) -> bool {
    match request {
        InstructionView::MintNFTReward { name, symbol, uri, anime_title, rarity } => {
            &&& mint_reward_post(
                accounts,
                name,
                symbol,
                uri,
                anime_title,
                rarity,
                runtime,
                before,
                planned(outcome),
                after,
            )
            &&& outcome matches Ok(effect) ==> effect.message is None
        },
        InstructionView::MintEnhancedNFT {
            name,
            symbol,
            uri,
            anime_title,
            rarity,
            description,
            collection_id,
            attributes,
            royalty_basis_points,
        } => {
            &&& mint_enhanced_post(
                accounts,
                name,
                symbol,
                uri,
                anime_title,
                rarity,
                description,
                optional_key_of(collection_id),
                attributes,
                royalty_basis_points,
                runtime,
                before,
                planned(outcome),
                after,
            )
            &&& outcome matches Ok(effect) ==> effect.message is None
        },
        InstructionView::PurchaseNFT { price } => {
            &&& purchase_post(accounts, price, planned(outcome))
            &&& after == before
            &&& outcome matches Ok(effect) ==> effect.message is None
        },
        InstructionView::UpdateNFTMetadata {
            uri,
            name,
            description,
            attributes_to_add,
            royalty_basis_points,
        } => {
            &&& update_post(
                accounts,
                uri,
                name,
                description,
                attributes_to_add,
                royalty_basis_points,
                before,
                settled(outcome),
                after,
            )
            &&& outcome matches Ok(effect) ==> effect.message is None && effect.invocations@.len()
                == 0
        },
        InstructionView::VerifyNFT { mint } => {
            &&& verify_post(accounts, key_of(mint), before, settled(outcome), after)
            &&& outcome matches Ok(effect) ==> effect.message is None && effect.invocations@.len()
                == 0
        },
        InstructionView::ListNFTForSale { price } => {
            &&& list_post(accounts, price, before, settled(outcome), after)
            &&& outcome matches Ok(effect) ==> effect.message is None && effect.invocations@.len()
                == 0
        },
        InstructionView::CancelNFTListing => {
            &&& cancel_post(accounts, before, settled(outcome), after)
            &&& outcome matches Ok(effect) ==> effect.message is None && effect.invocations@.len()
                == 0
        },
        InstructionView::SendCommunityMessage { community_id, content } => {
            &&& after == before
            &&& match outcome {
                Ok(effect) => {
                    &&& effect.invocations@.len() == 0
                    &&& effect.message is Some
                    &&& message_post(
                        accounts,
                        community_id,
                        content,
                        runtime.unix_timestamp,
                        Ok(effect.message->Some_0),
                    )
                },
                Err(e) => message_post(
                    accounts,
                    community_id,
                    content,
                    runtime.unix_timestamp,
                    Err(e),
                ),
            }
        },
    }
}

/// What carrying out a request in its stored form does: bytes that are
/// not the stored form of a request are refused as invalid instruction
/// data and change nothing; a request does what its kind asks for.
pub open spec fn instruction_post(
    instruction_data: Seq<u8>,
    accounts: Seq<AccountInfo>,
    runtime: Runtime,
    before: Option<NFTData>,
    outcome: Result<Effect, ProgramError>,
    after: Option<NFTData>,
) -> bool {
    match parse_instruction(instruction_data) {
        None => outcome == Err::<Effect, ProgramError>(ProgramError::InvalidInstructionData)
            && after == before,
        Some(request) => effect_post(request, accounts, runtime, before, outcome, after),
    }
}

/// Carries out a request: reads it from its stored form and does what its
/// kind asks for, on the accounts given, the record of the token that the
/// request is about, and what the runtime tells. Bytes that are not the
/// stored form of a request are refused as invalid instruction data, and
/// every refused request leaves the record as it was.
pub fn process_instruction(
    program_id: &Pubkey,
    accounts: &[AccountInfo],
    instruction_data: &[u8],
    runtime: &Runtime,
    record: &mut Option<NFTData>,
) -> (outcome: Result<Effect, ProgramError>)
    ensures
        instruction_post(
            instruction_data@,
            accounts@,
            *runtime,
            *old(record),
            outcome,
            *final(record),
        ),
        outcome is Err ==> *final(record) == *old(record),
{
    let instruction = match OtakuVerseInstruction::unpack(instruction_data) {
        Some(instruction) => instruction,
        None => { return Err(ProgramError::InvalidInstructionData); },
    };
    match instruction {
        OtakuVerseInstruction::MintNFTReward { name, symbol, uri, anime_title, rarity } => {
            match process_mint_nft_reward(
                program_id,
                accounts,
                name,
                symbol,
                uri,
                anime_title,
                rarity,
                runtime,
                record,
            ) {
                Ok(invocations) => Ok(Effect { invocations, message: None }),
                Err(e) => Err(e),
            }
        },
        OtakuVerseInstruction::MintEnhancedNFT {
            name,
            symbol,
            uri,
            anime_title,
            rarity,
            description,
            collection_id,
            attributes,
            royalty_basis_points,
        } => {
            proof {
                if let Some(key) = collection_id {
                    Pubkey::lemma_view_injective(key, key_of(key@));
                }
            }
            match process_mint_enhanced_nft(
                program_id,
                accounts,
                name,
                symbol,
                uri,
                anime_title,
                rarity,
                description,
                collection_id,
                attributes,
                royalty_basis_points,
                runtime,
                record,
            ) {
                Ok(invocations) => Ok(Effect { invocations, message: None }),
                Err(e) => Err(e),
            }
        },
        OtakuVerseInstruction::PurchaseNFT { price } => {
            match process_purchase_nft(program_id, accounts, price) {
                Ok(invocations) => Ok(Effect { invocations, message: None }),
                Err(e) => Err(e),
            }
        },
        OtakuVerseInstruction::UpdateNFTMetadata {
            uri,
            name,
            description,
            attributes_to_add,
            royalty_basis_points,
        } => {
            match process_update_nft_metadata(
                program_id,
                accounts,
                uri,
                name,
                description,
                attributes_to_add,
                royalty_basis_points,
                record,
            ) {
                Ok(()) => Ok(Effect { invocations: Vec::new(), message: None }),
                Err(e) => Err(e),
            }
        },
        OtakuVerseInstruction::VerifyNFT { mint } => {
            proof {
                Pubkey::lemma_view_injective(mint, key_of(mint@));
            }
            match process_verify_nft(program_id, accounts, mint, record) {
                Ok(()) => Ok(Effect { invocations: Vec::new(), message: None }),
                Err(e) => Err(e),
            }
        },
        OtakuVerseInstruction::ListNFTForSale { price } => {
            match process_list_nft_for_sale(program_id, accounts, price, record) {
                Ok(()) => Ok(Effect { invocations: Vec::new(), message: None }),
                Err(e) => Err(e),
            }
        },
        OtakuVerseInstruction::CancelNFTListing => {
            match process_cancel_nft_listing(program_id, accounts, record) {
                Ok(()) => Ok(Effect { invocations: Vec::new(), message: None }),
                Err(e) => Err(e),
            }
        },
        OtakuVerseInstruction::SendCommunityMessage { community_id, content } => {
            match process_send_community_message(
                program_id,
                accounts,
                community_id,
                content,
                runtime.unix_timestamp,
            ) {
                Ok(message) => Ok(Effect { invocations: Vec::new(), message: Some(message) }),
                Err(e) => Err(e),
            }
        },
    }
}

} // verus!
