//! The requests that the marketplace and messaging program takes: their
//! stored form, reading and writing it, and building a request with the
//! accounts it names.

use vstd::prelude::*;
use vstd::bytes::{spec_u16_to_le_bytes, spec_u64_to_le_bytes};
use crate::programs::{
    rent_sysvar_bytes, rent_sysvar_id, system_program_bytes, system_program_id,
    token_metadata_program_bytes, token_metadata_program_id, token_program_bytes,
    token_program_id,
};
use crate::pubkey::Pubkey;
use crate::state::nft::{attribute_views, NFTAttribute, NFTRarity};
use crate::wire::{
    lemma_appended, lemma_read_back_attributes, lemma_read_back_fixed, lemma_read_back_optional_key,
    lemma_read_back_optional_text, lemma_read_back_optional_u16, lemma_read_back_text,
    lemma_split, stands_at,
};
use crate::wire::{
    attributes_encoding, attributes_storable, optional_key_encoding, optional_key_view,
    optional_text_encoding, optional_text_storable, optional_text_view, optional_u16_encoding,
    parse_attributes, parse_key, parse_optional_key, parse_optional_text, parse_optional_u16,
    parse_rarity, parse_text, parse_u16, parse_u64, parse_u8, put_attributes, put_key,
    put_optional_key, put_optional_text, put_optional_u16, put_rarity, put_text, put_u16, put_u64,
    put_u8, rarity_tag, read_attributes, read_key, read_optional_key, read_optional_text,
    read_optional_u16, read_rarity, read_text, read_u16, read_u64, read_u8, text_encoding,
    text_storable,
};

verus! {

/// The requests that the marketplace and messaging program takes.
#[derive(Clone, Debug, PartialEq)]
pub enum OtakuVerseInstruction {
    /// Mint a token as a reward.
    ///
    /// Accounts: the authority, who signs and pays; the mint; the token
    /// account; the metadata account; the mint authority; the update
    /// authority; the system program; the token program; the token
    /// metadata program; the rent sysvar.
    MintNFTReward {
        name: String,
        symbol: String,
        uri: String,
        anime_title: String,
        /// `common`, `rare`, `epic` or `legendary`, in any case.
        rarity: String,
    },
    /// Mint a token with a description, attributes, a collection and a
    /// royalty. Accounts as for `MintNFTReward`.
    MintEnhancedNFT {
        name: String,
        symbol: String,
        uri: String,
        anime_title: String,
        rarity: NFTRarity,
        description: String,
        collection_id: Option<Pubkey>,
        attributes: Vec<NFTAttribute>,
        royalty_basis_points: u16,
    },
    /// Buy a token.
    ///
    /// Accounts: the buyer, who signs and pays; the seller; the mint; the
    /// buyer's token account; the seller's token account; the system
    /// program; the token program.
    PurchaseNFT { price: u64 },
    /// Change a token's metadata.
    ///
    /// Accounts: the owner, who signs; the metadata account; the mint.
    UpdateNFTMetadata {
        uri: Option<String>,
        name: Option<String>,
        description: Option<String>,
        attributes_to_add: Vec<NFTAttribute>,
        royalty_basis_points: Option<u16>,
    },
    /// Mark a token as verified.
    ///
    /// Accounts: the authority, who signs; the metadata account; the mint.
    VerifyNFT { mint: Pubkey },
    /// Put a token up for sale.
    ///
    /// Accounts: the owner, who signs; the metadata account; the mint.
    ListNFTForSale { price: u64 },
    /// Withdraw a token from sale. Accounts as for `ListNFTForSale`.
    CancelNFTListing,
    /// Send a message in a community.
    ///
    /// Accounts: the sender, who signs; the community; the message; the
    /// system program.
    SendCommunityMessage { community_id: String, content: String },
}

/// What a request holds, as mathematical values.
pub ghost enum InstructionView {
    MintNFTReward {
        name: Seq<char>,
        symbol: Seq<char>,
        uri: Seq<char>,
        anime_title: Seq<char>,
        rarity: Seq<char>,
    },
    MintEnhancedNFT {
        name: Seq<char>,
        symbol: Seq<char>,
        uri: Seq<char>,
        anime_title: Seq<char>,
        rarity: NFTRarity,
        description: Seq<char>,
        collection_id: Option<Seq<u8>>,
        attributes: Seq<(Seq<char>, Seq<char>)>,
        royalty_basis_points: u16,
    },
    PurchaseNFT { price: u64 },
    UpdateNFTMetadata {
        uri: Option<Seq<char>>,
        name: Option<Seq<char>>,
        description: Option<Seq<char>>,
        attributes_to_add: Seq<(Seq<char>, Seq<char>)>,
        royalty_basis_points: Option<u16>,
    },
    VerifyNFT { mint: Seq<u8> },
    ListNFTForSale { price: u64 },
    CancelNFTListing,
    SendCommunityMessage { community_id: Seq<char>, content: Seq<char> },
}

impl View for OtakuVerseInstruction {
    type V = InstructionView;

    open spec fn view(&self) -> InstructionView {
        match *self {
            OtakuVerseInstruction::MintNFTReward { name, symbol, uri, anime_title, rarity } => {
                InstructionView::MintNFTReward {
                    name: name@,
                    symbol: symbol@,
                    uri: uri@,
                    anime_title: anime_title@,
                    rarity: rarity@,
                }
            },
            OtakuVerseInstruction::MintEnhancedNFT {
                name,
                symbol,
                uri,
                anime_title,
                rarity,
                description,
                collection_id,
                attributes,
                royalty_basis_points,
            } => InstructionView::MintEnhancedNFT {
                name: name@,
                symbol: symbol@,
                uri: uri@,
                anime_title: anime_title@,
                rarity: rarity,
                description: description@,
                collection_id: optional_key_view(collection_id),
                attributes: attribute_views(attributes@),
                royalty_basis_points: royalty_basis_points,
            },
            OtakuVerseInstruction::PurchaseNFT { price } => InstructionView::PurchaseNFT { price },
            OtakuVerseInstruction::UpdateNFTMetadata {
                uri,
                name,
                description,
                attributes_to_add,
                royalty_basis_points,
            } => InstructionView::UpdateNFTMetadata {
                uri: optional_text_view(uri),
                name: optional_text_view(name),
                description: optional_text_view(description),
                attributes_to_add: attribute_views(attributes_to_add@),
                royalty_basis_points: royalty_basis_points,
            },
            OtakuVerseInstruction::VerifyNFT { mint } => InstructionView::VerifyNFT { mint: mint@ },
            OtakuVerseInstruction::ListNFTForSale { price } => InstructionView::ListNFTForSale {
                price,
            },
            OtakuVerseInstruction::CancelNFTListing => InstructionView::CancelNFTListing,
            OtakuVerseInstruction::SendCommunityMessage { community_id, content } => {
                InstructionView::SendCommunityMessage {
                    community_id: community_id@,
                    content: content@,
                }
            },
        }
    }
}

/// Reads the fields of a reward mint from a place in the input.
pub open spec fn parse_mint_reward(input: Seq<u8>, at: int) -> Option<(InstructionView, int)> {
    match parse_text(input, at) {
        Some((name, at1)) => match parse_text(input, at1) {
            Some((symbol, at2)) => match parse_text(input, at2) {
                Some((uri, at3)) => match parse_text(input, at3) {
                    Some((anime_title, at4)) => match parse_text(input, at4) {
                        Some((rarity, end)) => Some(
                            (
                                InstructionView::MintNFTReward {
                                    name,
                                    symbol,
                                    uri,
                                    anime_title,
                                    rarity,
                                },
                                end,
                            ),
                        ),
                        None => None,
                    },
                    None => None,
                },
                None => None,
            },
            None => None,
        },
        None => None,
    }
}

/// Reads the fields of an enhanced mint from a place in the input.
pub open spec fn parse_mint_enhanced(input: Seq<u8>, at: int) -> Option<(InstructionView, int)> {
    match parse_text(input, at) {
        Some((name, at1)) => match parse_text(input, at1) {
            Some((symbol, at2)) => match parse_text(input, at2) {
                Some((uri, at3)) => match parse_text(input, at3) {
                    Some((anime_title, at4)) => match parse_rarity(input, at4) {
                        Some((rarity, at5)) => match parse_text(input, at5) {
                            Some((description, at6)) => match parse_optional_key(input, at6) {
                                Some((collection_id, at7)) => match parse_attributes(input, at7) {
                                    Some((attributes, at8)) => match parse_u16(input, at8) {
                                        Some((royalty_basis_points, end)) => Some(
                                            (
                                                InstructionView::MintEnhancedNFT {
                                                    name,
                                                    symbol,
                                                    uri,
                                                    anime_title,
                                                    rarity,
                                                    description,
                                                    collection_id,
                                                    attributes,
                                                    royalty_basis_points,
                                                },
                                                end,
                                            ),
                                        ),
                                        None => None,
                                    },
                                    None => None,
                                },
                                None => None,
                            },
                            None => None,
                        },
                        None => None,
                    },
                    None => None,
                },
                None => None,
            },
            None => None,
        },
        None => None,
    }
}

/// Reads the fields of a metadata update from a place in the input.
pub open spec fn parse_update(input: Seq<u8>, at: int) -> Option<(InstructionView, int)> {
    match parse_optional_text(input, at) {
        Some((uri, at1)) => match parse_optional_text(input, at1) {
            Some((name, at2)) => match parse_optional_text(input, at2) {
                Some((description, at3)) => match parse_attributes(input, at3) {
                    Some((attributes_to_add, at4)) => match parse_optional_u16(input, at4) {
                        Some((royalty_basis_points, end)) => Some(
                            (
                                InstructionView::UpdateNFTMetadata {
                                    uri,
                                    name,
                                    description,
                                    attributes_to_add,
                                    royalty_basis_points,
                                },
                                end,
                            ),
                        ),
                        None => None,
                    },
                    None => None,
                },
                None => None,
            },
            None => None,
        },
        None => None,
    }
}

/// Reads the fields of a message from a place in the input.
pub open spec fn parse_message(input: Seq<u8>, at: int) -> Option<(InstructionView, int)> {
    match parse_text(input, at) {
        Some((community_id, at1)) => match parse_text(input, at1) {
            Some((content, end)) => Some(
                (InstructionView::SendCommunityMessage { community_id, content }, end),
            ),
            None => None,
        },
        None => None,
    }
}

/// Reads the fields of the request that a tag announces.
pub open spec fn parse_fields(tag: u8, input: Seq<u8>, at: int) -> Option<(InstructionView, int)> {
    if tag == 0 {
        parse_mint_reward(input, at)
    } else if tag == 1 {
        parse_mint_enhanced(input, at)
    } else if tag == 2 {
        match parse_u64(input, at) {
            Some((price, end)) => Some((InstructionView::PurchaseNFT { price }, end)),
            None => None,
        }
    } else if tag == 3 {
        parse_update(input, at)
    } else if tag == 4 {
        match parse_key(input, at) {
            Some((mint, end)) => Some((InstructionView::VerifyNFT { mint }, end)),
            None => None,
        }
    } else if tag == 5 {
        match parse_u64(input, at) {
            Some((price, end)) => Some((InstructionView::ListNFTForSale { price }, end)),
            None => None,
        }
    } else if tag == 6 {
        Some((InstructionView::CancelNFTListing, at))
    } else if tag == 7 {
        parse_message(input, at)
    } else {
        None
    }
}

/// The request that some bytes are the stored form of, if they are one: a
/// tag that says which request, its fields in order, and nothing after
/// them.
pub open spec fn parse_instruction(input: Seq<u8>) -> Option<InstructionView> {
    match parse_u8(input, 0) {
        Some((tag, at)) => match parse_fields(tag, input, at) {
            Some((instruction, end)) => if end == input.len() {
                Some(instruction)
            } else {
                None
            },
            None => None,
        },
        None => None,
    }
}

/// The request that an exec reader reports, as mathematical values.
pub open spec fn instruction_place(read: Option<(OtakuVerseInstruction, usize)>) -> Option<
    (InstructionView, int),
> {
    match read {
        Some((instruction, next)) => Some((instruction@, next as int)),
        None => None,
    }
}

fn read_mint_reward(input: &[u8], at: usize) -> (read: Option<(OtakuVerseInstruction, usize)>)
    ensures
        instruction_place(read) == parse_mint_reward(input@, at as int),
{
    let (name, at1) = match read_text(input, at) {
        Some(found) => found,
        None => { return None; },
    };
    let (symbol, at2) = match read_text(input, at1) {
        Some(found) => found,
        None => { return None; },
    };
    let (uri, at3) = match read_text(input, at2) {
        Some(found) => found,
        None => { return None; },
    };
    let (anime_title, at4) = match read_text(input, at3) {
        Some(found) => found,
        None => { return None; },
    };
    let (rarity, end) = match read_text(input, at4) {
        Some(found) => found,
        None => { return None; },
    };
    Some((OtakuVerseInstruction::MintNFTReward { name, symbol, uri, anime_title, rarity }, end))
}

fn read_mint_enhanced(input: &[u8], at: usize) -> (read: Option<(OtakuVerseInstruction, usize)>)
    ensures
        instruction_place(read) == parse_mint_enhanced(input@, at as int),
{
    let (name, at1) = match read_text(input, at) {
        Some(found) => found,
        None => { return None; },
    };
    let (symbol, at2) = match read_text(input, at1) {
        Some(found) => found,
        None => { return None; },
    };
    let (uri, at3) = match read_text(input, at2) {
        Some(found) => found,
        None => { return None; },
    };
    let (anime_title, at4) = match read_text(input, at3) {
        Some(found) => found,
        None => { return None; },
    };
    let (rarity, at5) = match read_rarity(input, at4) {
        Some(found) => found,
        None => { return None; },
    };
    let (description, at6) = match read_text(input, at5) {
        Some(found) => found,
        None => { return None; },
    };
    let (collection_id, at7) = match read_optional_key(input, at6) {
        Some(found) => found,
        None => { return None; },
    };
    let (attributes, at8) = match read_attributes(input, at7) {
        Some(found) => found,
        None => { return None; },
    };
    let (royalty_basis_points, end) = match read_u16(input, at8) {
        Some(found) => found,
        None => { return None; },
    };
    Some(
        (
            OtakuVerseInstruction::MintEnhancedNFT {
                name,
                symbol,
                uri,
                anime_title,
                rarity,
                description,
                collection_id,
                attributes,
                royalty_basis_points,
            },
            end,
        ),
    )
}

fn read_update(input: &[u8], at: usize) -> (read: Option<(OtakuVerseInstruction, usize)>)
    ensures
        instruction_place(read) == parse_update(input@, at as int),
{
    let (uri, at1) = match read_optional_text(input, at) {
        Some(found) => found,
        None => { return None; },
    };
    let (name, at2) = match read_optional_text(input, at1) {
        Some(found) => found,
        None => { return None; },
    };
    let (description, at3) = match read_optional_text(input, at2) {
        Some(found) => found,
        None => { return None; },
    };
    let (attributes_to_add, at4) = match read_attributes(input, at3) {
        Some(found) => found,
        None => { return None; },
    };
    let (royalty_basis_points, end) = match read_optional_u16(input, at4) {
        Some(found) => found,
        None => { return None; },
    };
    Some(
        (
            OtakuVerseInstruction::UpdateNFTMetadata {
                uri,
                name,
                description,
                attributes_to_add,
                royalty_basis_points,
            },
            end,
        ),
    )
}

fn read_message(input: &[u8], at: usize) -> (read: Option<(OtakuVerseInstruction, usize)>)
    ensures
        instruction_place(read) == parse_message(input@, at as int),
{
    let (community_id, at1) = match read_text(input, at) {
        Some(found) => found,
        None => { return None; },
    };
    let (content, end) = match read_text(input, at1) {
        Some(found) => found,
        None => { return None; },
    };
    Some((OtakuVerseInstruction::SendCommunityMessage { community_id, content }, end))
}

impl OtakuVerseInstruction {
    /// Reads a request from its stored form. Nothing is returned for bytes
    /// that are not the stored form of a request, or that go on after it.
    pub fn unpack(input: &[u8]) -> (instruction: Option<OtakuVerseInstruction>)
        ensures
            match instruction {
                Some(found) => parse_instruction(input@) == Some(found@),
                None => parse_instruction(input@) is None,
            },
    {
        let (tag, at) = match read_u8(input, 0) {
            Some(found) => found,
            None => { return None; },
        };
        let read = if tag == 0 {
            read_mint_reward(input, at)
        } else if tag == 1 {
            read_mint_enhanced(input, at)
        } else if tag == 2 {
            match read_u64(input, at) {
                Some((price, end)) => Some((OtakuVerseInstruction::PurchaseNFT { price }, end)),
                None => None,
            }
        } else if tag == 3 {
            read_update(input, at)
        } else if tag == 4 {
            match read_key(input, at) {
                Some((mint, end)) => Some((OtakuVerseInstruction::VerifyNFT { mint }, end)),
                None => None,
            }
        } else if tag == 5 {
            match read_u64(input, at) {
                Some((price, end)) => Some((OtakuVerseInstruction::ListNFTForSale { price }, end)),
                None => None,
            }
        } else if tag == 6 {
            Some((OtakuVerseInstruction::CancelNFTListing, at))
        } else if tag == 7 {
            read_message(input, at)
        } else {
            None
        };
        match read {
            Some((instruction, end)) => {
                if end == input.len() {
                    Some(instruction)
                } else {
                    None
                }
            },
            None => None,
        }
    }
}

impl InstructionView {
    /// The tag that says which request this is.
    pub open spec fn tag(self) -> u8 {
        match self {
            InstructionView::MintNFTReward { .. } => 0,
            InstructionView::MintEnhancedNFT { .. } => 1,
            InstructionView::PurchaseNFT { .. } => 2,
            InstructionView::UpdateNFTMetadata { .. } => 3,
            InstructionView::VerifyNFT { .. } => 4,
            InstructionView::ListNFTForSale { .. } => 5,
            InstructionView::CancelNFTListing => 6,
            InstructionView::SendCommunityMessage { .. } => 7,
        }
    }

    /// The stored form of the fields of the request, in order.
    pub open spec fn fields_encoding(self) -> Seq<u8> {
        match self {
            InstructionView::MintNFTReward { name, symbol, uri, anime_title, rarity } => {
                text_encoding(name) + text_encoding(symbol) + text_encoding(uri) + text_encoding(
                    anime_title,
                ) + text_encoding(rarity)
            },
            InstructionView::MintEnhancedNFT {
                name,
                symbol,
                uri,
                anime_title,
                rarity,
                description,
                collection_id,
                attributes,
                royalty_basis_points,
            } => {
                text_encoding(name) + text_encoding(symbol) + text_encoding(uri) + text_encoding(
                    anime_title,
                ) + seq![rarity_tag(rarity)] + text_encoding(description) + optional_key_encoding(
                    collection_id,
                ) + attributes_encoding(attributes) + spec_u16_to_le_bytes(royalty_basis_points)
            },
            InstructionView::PurchaseNFT { price } => spec_u64_to_le_bytes(price),
            InstructionView::UpdateNFTMetadata {
                uri,
                name,
                description,
                attributes_to_add,
                royalty_basis_points,
            } => {
                optional_text_encoding(uri) + optional_text_encoding(name) + optional_text_encoding(
                    description,
                ) + attributes_encoding(attributes_to_add) + optional_u16_encoding(
                    royalty_basis_points,
                )
            },
            InstructionView::VerifyNFT { mint } => mint,
            InstructionView::ListNFTForSale { price } => spec_u64_to_le_bytes(price),
            InstructionView::CancelNFTListing => Seq::empty(),
            InstructionView::SendCommunityMessage { community_id, content } => {
                text_encoding(community_id) + text_encoding(content)
            },
        }
    }

    /// The stored form of the request: its tag, then its fields.
    pub open spec fn encoding(self) -> Seq<u8> {
        seq![self.tag()] + self.fields_encoding()
    }

    /// Whether the request can be stored: each text and each list in it
    /// can.
    pub open spec fn storable(self) -> bool {
        match self {
            InstructionView::MintNFTReward { name, symbol, uri, anime_title, rarity } => {
                &&& text_storable(name)
                &&& text_storable(symbol)
                &&& text_storable(uri)
                &&& text_storable(anime_title)
                &&& text_storable(rarity)
            },
            InstructionView::MintEnhancedNFT {
                name,
                symbol,
                uri,
                anime_title,
                description,
                attributes,
                ..
            } => {
                &&& text_storable(name)
                &&& text_storable(symbol)
                &&& text_storable(uri)
                &&& text_storable(anime_title)
                &&& text_storable(description)
                &&& attributes_storable(attributes)
            },
            InstructionView::UpdateNFTMetadata { uri, name, description, attributes_to_add, .. } => {
                &&& optional_text_storable(uri)
                &&& optional_text_storable(name)
                &&& optional_text_storable(description)
                &&& attributes_storable(attributes_to_add)
            },
            InstructionView::SendCommunityMessage { community_id, content } => {
                &&& text_storable(community_id)
                &&& text_storable(content)
            },
            _ => true,
        }
    }
}

fn pack_mint_reward(
    out: &mut Vec<u8>,
    name: &String,
    symbol: &String,
    uri: &String,
    anime_title: &String,
    rarity: &String,
)
    requires
        text_storable(name@),
        text_storable(symbol@),
        text_storable(uri@),
        text_storable(anime_title@),
        text_storable(rarity@),
    ensures
        final(out)@ == old(out)@ + (InstructionView::MintNFTReward {
            name: name@,
            symbol: symbol@,
            uri: uri@,
            anime_title: anime_title@,
            rarity: rarity@,
        }).fields_encoding(),
{
    let ghost start = out@;
    put_text(out, name);
    let ghost written = text_encoding(name@);
    put_text(out, symbol);
    proof {
        lemma_appended(start, written, text_encoding(symbol@));
        written = written + text_encoding(symbol@);
    }
    put_text(out, uri);
    proof {
        lemma_appended(start, written, text_encoding(uri@));
        written = written + text_encoding(uri@);
    }
    put_text(out, anime_title);
    proof {
        lemma_appended(start, written, text_encoding(anime_title@));
        written = written + text_encoding(anime_title@);
    }
    put_text(out, rarity);
    proof {
        lemma_appended(start, written, text_encoding(rarity@));
    }
}

fn pack_mint_enhanced(
    out: &mut Vec<u8>,
    name: &String,
    symbol: &String,
    uri: &String,
    anime_title: &String,
    rarity: NFTRarity,
    description: &String,
    collection_id: &Option<Pubkey>,
    attributes: &Vec<NFTAttribute>,
    royalty_basis_points: u16,
)
    requires
        text_storable(name@),
        text_storable(symbol@),
        text_storable(uri@),
        text_storable(anime_title@),
        text_storable(description@),
        attributes_storable(attribute_views(attributes@)),
    ensures
        final(out)@ == old(out)@ + (InstructionView::MintEnhancedNFT {
            name: name@,
            symbol: symbol@,
            uri: uri@,
            anime_title: anime_title@,
            rarity: rarity,
            description: description@,
            collection_id: optional_key_view(*collection_id),
            attributes: attribute_views(attributes@),
            royalty_basis_points: royalty_basis_points,
        }).fields_encoding(),
{
    let ghost start = out@;
    put_text(out, name);
    let ghost written = text_encoding(name@);
    put_text(out, symbol);
    proof {
        lemma_appended(start, written, text_encoding(symbol@));
        written = written + text_encoding(symbol@);
    }
    put_text(out, uri);
    proof {
        lemma_appended(start, written, text_encoding(uri@));
        written = written + text_encoding(uri@);
    }
    put_text(out, anime_title);
    proof {
        lemma_appended(start, written, text_encoding(anime_title@));
        written = written + text_encoding(anime_title@);
    }
    put_rarity(out, rarity);
    proof {
        lemma_appended(start, written, seq![rarity_tag(rarity)]);
        written = written + seq![rarity_tag(rarity)];
    }
    put_text(out, description);
    proof {
        lemma_appended(start, written, text_encoding(description@));
        written = written + text_encoding(description@);
    }
    put_optional_key(out, collection_id);
    proof {
        lemma_appended(start, written, optional_key_encoding(optional_key_view(*collection_id)));
        written = written + optional_key_encoding(optional_key_view(*collection_id));
    }
    put_attributes(out, attributes);
    proof {
        lemma_appended(start, written, attributes_encoding(attribute_views(attributes@)));
        written = written + attributes_encoding(attribute_views(attributes@));
    }
    put_u16(out, royalty_basis_points);
    proof {
        lemma_appended(start, written, spec_u16_to_le_bytes(royalty_basis_points));
    }
}

fn pack_update(
    out: &mut Vec<u8>,
    uri: &Option<String>,
    name: &Option<String>,
    description: &Option<String>,
    attributes_to_add: &Vec<NFTAttribute>,
    royalty_basis_points: Option<u16>,
)
    requires
        optional_text_storable(optional_text_view(*uri)),
        optional_text_storable(optional_text_view(*name)),
        optional_text_storable(optional_text_view(*description)),
        attributes_storable(attribute_views(attributes_to_add@)),
    ensures
        final(out)@ == old(out)@ + (InstructionView::UpdateNFTMetadata {
            uri: optional_text_view(*uri),
            name: optional_text_view(*name),
            description: optional_text_view(*description),
            attributes_to_add: attribute_views(attributes_to_add@),
            royalty_basis_points: royalty_basis_points,
        }).fields_encoding(),
{
    let ghost start = out@;
    put_optional_text(out, uri);
    let ghost written = optional_text_encoding(optional_text_view(*uri));
    put_optional_text(out, name);
    proof {
        lemma_appended(start, written, optional_text_encoding(optional_text_view(*name)));
        written = written + optional_text_encoding(optional_text_view(*name));
    }
    put_optional_text(out, description);
    proof {
        lemma_appended(start, written, optional_text_encoding(optional_text_view(*description)));
        written = written + optional_text_encoding(optional_text_view(*description));
    }
    put_attributes(out, attributes_to_add);
    proof {
        lemma_appended(start, written, attributes_encoding(attribute_views(attributes_to_add@)));
        written = written + attributes_encoding(attribute_views(attributes_to_add@));
    }
    put_optional_u16(out, royalty_basis_points);
    proof {
        lemma_appended(start, written, optional_u16_encoding(royalty_basis_points));
    }
}

impl OtakuVerseInstruction {
    /// Writes the request in its stored form.
    pub fn pack(&self) -> (data: Vec<u8>)
        requires
            self@.storable(),
        ensures
            data@ == self@.encoding(),
    {
        let mut out: Vec<u8> = Vec::new();
        match self {
            OtakuVerseInstruction::MintNFTReward { name, symbol, uri, anime_title, rarity } => {
                put_u8(&mut out, 0);
                pack_mint_reward(&mut out, name, symbol, uri, anime_title, rarity);
            },
            OtakuVerseInstruction::MintEnhancedNFT {
                name,
                symbol,
                uri,
                anime_title,
                rarity,
                description,
                collection_id,
                attributes,
                royalty_basis_points,
            } => {
                put_u8(&mut out, 1);
                pack_mint_enhanced(
                    &mut out,
                    name,
                    symbol,
                    uri,
                    anime_title,
                    *rarity,
                    description,
                    collection_id,
                    attributes,
                    *royalty_basis_points,
                );
            },
            OtakuVerseInstruction::PurchaseNFT { price } => {
                put_u8(&mut out, 2);
                put_u64(&mut out, *price);
            },
            OtakuVerseInstruction::UpdateNFTMetadata {
                uri,
                name,
                description,
                attributes_to_add,
                royalty_basis_points,
            } => {
                put_u8(&mut out, 3);
                pack_update(
                    &mut out,
                    uri,
                    name,
                    description,
                    attributes_to_add,
                    *royalty_basis_points,
                );
            },
            OtakuVerseInstruction::VerifyNFT { mint } => {
                put_u8(&mut out, 4);
                put_key(&mut out, mint);
            },
            OtakuVerseInstruction::ListNFTForSale { price } => {
                put_u8(&mut out, 5);
                put_u64(&mut out, *price);
            },
            OtakuVerseInstruction::CancelNFTListing => {
                put_u8(&mut out, 6);
            },
            OtakuVerseInstruction::SendCommunityMessage { community_id, content } => {
                put_u8(&mut out, 7);
                put_text(&mut out, community_id);
                put_text(&mut out, content);
                proof {
                    assert(out@ =~= seq![7u8] + (text_encoding(community_id@) + text_encoding(
                        content@,
                    )));
                }
            },
        }
        proof {
            assert(Seq::<u8>::empty() + seq![self@.tag()] =~= seq![self@.tag()]);
            assert(out@ =~= self@.encoding());
        }
        out
    }
}

/// An account that a request names, and how the request uses it.
#[derive(Clone, Copy, Debug, PartialEq, Eq)]
pub struct AccountMeta {
    pub pubkey: Pubkey,
    /// Whether the holder of the account signs the request.
    pub is_signer: bool,
    /// Whether the request may change the account.
    pub is_writable: bool,
}

impl AccountMeta {
    /// An account that the request may change.
    pub fn new(pubkey: Pubkey, is_signer: bool) -> (meta: AccountMeta)
        ensures
            meta == (AccountMeta { pubkey, is_signer, is_writable: true }),
    {
        AccountMeta { pubkey, is_signer, is_writable: true }
    }

    /// An account that the request only reads.
    pub fn new_readonly(pubkey: Pubkey, is_signer: bool) -> (meta: AccountMeta)
        ensures
            meta == (AccountMeta { pubkey, is_signer, is_writable: false }),
    {
        AccountMeta { pubkey, is_signer, is_writable: false }
    }

    /// The account as plain values: the bytes of its address, whether it
    /// signs, whether it may change.
    pub open spec fn plain(self) -> (Seq<u8>, bool, bool) {
        (self.pubkey@, self.is_signer, self.is_writable)
    }
}

/// A request to a program: the program, the accounts that the request
/// names, and the request in its stored form.
#[derive(Clone, Debug, PartialEq, Eq)]
pub struct Instruction {
    pub program_id: Pubkey,
    pub accounts: Vec<AccountMeta>,
    pub data: Vec<u8>,
}

impl Instruction {
    /// The request as plain values: the bytes of the program's address,
    /// the accounts, the data.
    pub open spec fn plain(self) -> (Seq<u8>, Seq<(Seq<u8>, bool, bool)>, Seq<u8>) {
        (self.program_id@, plain_accounts(self.accounts@), self.data@)
    }

    /// Makes a request from plain values.
    pub fn from_parts(program_id: [u8; 32], accounts: Vec<([u8; 32], bool, bool)>, data: Vec<u8>) -> (request: Instruction)
        ensures
            request.program_id@ == program_id@,
            request.data@ == data@,
            request.accounts@.len() == accounts@.len(),
            forall|i: int|
                0 <= i < accounts@.len() ==> #[trigger] request.accounts@[i].plain() == (
                    accounts@[i].0@,
                    accounts@[i].1,
                    accounts@[i].2,
                ),
    {
        let mut metas: Vec<AccountMeta> = Vec::new();
        let mut i: usize = 0;
        while i < accounts.len()
            invariant
                i <= accounts.len(),
                metas@.len() == i,
                forall|j: int|
                    0 <= j < i ==> #[trigger] metas@[j].plain() == (
                        accounts@[j].0@,
                        accounts@[j].1,
                        accounts@[j].2,
                    ),
            decreases accounts.len() - i,
        {
            let (key, is_signer, is_writable) = accounts[i];
            metas.push(AccountMeta { pubkey: Pubkey { bytes: key }, is_signer, is_writable });
            i = i + 1;
        }
        Instruction { program_id: Pubkey { bytes: program_id }, accounts: metas, data }
    }
}

/// An account that the request may change, as plain values.
pub open spec fn writable(key: Pubkey, is_signer: bool) -> (Seq<u8>, bool, bool) {
    (key@, is_signer, true)
}

/// An account that the request only reads, as plain values.
pub open spec fn readonly(key: Seq<u8>, is_signer: bool) -> (Seq<u8>, bool, bool) {
    (key, is_signer, false)
}

/// The accounts of a list, as plain values.
pub open spec fn plain_accounts(accounts: Seq<AccountMeta>) -> Seq<(Seq<u8>, bool, bool)> {
    accounts.map_values(|meta: AccountMeta| meta.plain())
}

/// The accounts that a mint names, in order.
pub open spec fn mint_accounts(
    authority: Pubkey,
    nft_mint: Pubkey,
    nft_token: Pubkey,
    nft_metadata: Pubkey,
    mint_authority: Pubkey,
    update_authority: Pubkey,
) -> Seq<(Seq<u8>, bool, bool)> {
    seq![
        readonly(authority@, true),
        writable(nft_mint, false),
        writable(nft_token, false),
        writable(nft_metadata, false),
        readonly(mint_authority@, false),
        readonly(update_authority@, false),
        readonly(system_program_bytes(), false),
        readonly(token_program_bytes(), false),
        readonly(token_metadata_program_bytes(), false),
        readonly(rent_sysvar_bytes(), false),
    ]
}

/// The accounts that a request of a token's owner names, in order: the
/// owner, who signs; the metadata account; the mint.
pub open spec fn owner_accounts(owner: Pubkey, nft_metadata: Pubkey, nft_mint: Pubkey) -> Seq<
    (Seq<u8>, bool, bool),
> {
    seq![readonly(owner@, true), writable(nft_metadata, false), readonly(nft_mint@, false)]
}

fn build_mint_accounts(
    authority: &Pubkey,
    nft_mint: &Pubkey,
    nft_token: &Pubkey,
    nft_metadata: &Pubkey,
    mint_authority: &Pubkey,
    update_authority: &Pubkey,
) -> (accounts: Vec<AccountMeta>)
    ensures
        plain_accounts(accounts@) == mint_accounts(
            *authority,
            *nft_mint,
            *nft_token,
            *nft_metadata,
            *mint_authority,
            *update_authority,
        ),
{
    let mut accounts: Vec<AccountMeta> = Vec::new();
    accounts.push(AccountMeta::new_readonly(*authority, true));
    accounts.push(AccountMeta::new(*nft_mint, false));
    accounts.push(AccountMeta::new(*nft_token, false));
    accounts.push(AccountMeta::new(*nft_metadata, false));
    accounts.push(AccountMeta::new_readonly(*mint_authority, false));
    accounts.push(AccountMeta::new_readonly(*update_authority, false));
    accounts.push(AccountMeta::new_readonly(system_program_id(), false));
    accounts.push(AccountMeta::new_readonly(token_program_id(), false));
    accounts.push(AccountMeta::new_readonly(token_metadata_program_id(), false));
    accounts.push(AccountMeta::new_readonly(rent_sysvar_id(), false));
    proof {
        assert(plain_accounts(accounts@) =~= mint_accounts(
            *authority,
            *nft_mint,
            *nft_token,
            *nft_metadata,
            *mint_authority,
            *update_authority,
        ));
    }
    accounts
}

fn build_owner_accounts(owner: &Pubkey, nft_metadata: &Pubkey, nft_mint: &Pubkey) -> (accounts: Vec<
    AccountMeta,
>)
    ensures
        plain_accounts(accounts@) == owner_accounts(*owner, *nft_metadata, *nft_mint),
{
    let mut accounts: Vec<AccountMeta> = Vec::new();
    accounts.push(AccountMeta::new_readonly(*owner, true));
    accounts.push(AccountMeta::new(*nft_metadata, false));
    accounts.push(AccountMeta::new_readonly(*nft_mint, false));
    proof {
        assert(plain_accounts(accounts@) =~= owner_accounts(*owner, *nft_metadata, *nft_mint));
    }
    accounts
}

/// Builds the request to mint a token as a reward.
pub fn mint_nft_reward(
    program_id: &Pubkey,
    authority: &Pubkey,
    nft_mint: &Pubkey,
    nft_token: &Pubkey,
    nft_metadata: &Pubkey,
    mint_authority: &Pubkey,
    update_authority: &Pubkey,
    name: String,
    symbol: String,
    uri: String,
    anime_title: String,
    rarity: String,
) -> (request: Instruction)
    requires
        text_storable(name@),
        text_storable(symbol@),
        text_storable(uri@),
        text_storable(anime_title@),
        text_storable(rarity@),
    ensures
        request.program_id == *program_id,
        plain_accounts(request.accounts@) == mint_accounts(
            *authority,
            *nft_mint,
            *nft_token,
            *nft_metadata,
            *mint_authority,
            *update_authority,
        ),
        request.data@ == (InstructionView::MintNFTReward {
            name: name@,
            symbol: symbol@,
            uri: uri@,
            anime_title: anime_title@,
            rarity: rarity@,
        }).encoding(),
{
    let accounts = build_mint_accounts(
        authority,
        nft_mint,
        nft_token,
        nft_metadata,
        mint_authority,
        update_authority,
    );
    let instruction_data = OtakuVerseInstruction::MintNFTReward {
        name,
        symbol,
        uri,
        anime_title,
        rarity,
    };
    Instruction { program_id: *program_id, accounts, data: instruction_data.pack() }
}

/// Builds the request to buy a token.
pub fn purchase_nft(
    program_id: &Pubkey,
    buyer: &Pubkey,
    seller: &Pubkey,
    nft_mint: &Pubkey,
    buyer_token: &Pubkey,
    seller_token: &Pubkey,
    price: u64,
) -> (request: Instruction)
    ensures
        request.program_id == *program_id,
        plain_accounts(request.accounts@) == seq![
            writable(*buyer, true),
            writable(*seller, false),
            readonly(nft_mint@, false),
            writable(*buyer_token, false),
            writable(*seller_token, false),
            readonly(system_program_bytes(), false),
            readonly(token_program_bytes(), false),
        ],
        request.data@ == (InstructionView::PurchaseNFT { price }).encoding(),
{
    let mut accounts: Vec<AccountMeta> = Vec::new();
    accounts.push(AccountMeta::new(*buyer, true));
    accounts.push(AccountMeta::new(*seller, false));
    accounts.push(AccountMeta::new_readonly(*nft_mint, false));
    accounts.push(AccountMeta::new(*buyer_token, false));
    accounts.push(AccountMeta::new(*seller_token, false));
    accounts.push(AccountMeta::new_readonly(system_program_id(), false));
    accounts.push(AccountMeta::new_readonly(token_program_id(), false));
    proof {
        assert(plain_accounts(accounts@) =~= seq![
            writable(*buyer, true),
            writable(*seller, false),
            readonly(nft_mint@, false),
            writable(*buyer_token, false),
            writable(*seller_token, false),
            readonly(system_program_bytes(), false),
            readonly(token_program_bytes(), false),
        ]);
    }
    let instruction_data = OtakuVerseInstruction::PurchaseNFT { price };
    Instruction { program_id: *program_id, accounts, data: instruction_data.pack() }
}

/// Builds the request to mint a token with a description, attributes, a
/// collection and a royalty.
pub fn mint_enhanced_nft(
    program_id: &Pubkey,
    authority: &Pubkey,
    nft_mint: &Pubkey,
    nft_token: &Pubkey,
    nft_metadata: &Pubkey,
    mint_authority: &Pubkey,
    update_authority: &Pubkey,
    name: String,
    symbol: String,
    uri: String,
    anime_title: String,
    rarity: NFTRarity,
    description: String,
    collection_id: Option<Pubkey>,
    attributes: Vec<NFTAttribute>,
    royalty_basis_points: u16,
) -> (request: Instruction)
    requires
        text_storable(name@),
        text_storable(symbol@),
        text_storable(uri@),
        text_storable(anime_title@),
        text_storable(description@),
        attributes_storable(attribute_views(attributes@)),
    ensures
        request.program_id == *program_id,
        plain_accounts(request.accounts@) == mint_accounts(
            *authority,
            *nft_mint,
            *nft_token,
            *nft_metadata,
            *mint_authority,
            *update_authority,
        ),
        request.data@ == (InstructionView::MintEnhancedNFT {
            name: name@,
            symbol: symbol@,
            uri: uri@,
            anime_title: anime_title@,
            rarity: rarity,
            description: description@,
            collection_id: optional_key_view(collection_id),
            attributes: attribute_views(attributes@),
            royalty_basis_points: royalty_basis_points,
        }).encoding(),
{
    let accounts = build_mint_accounts(
        authority,
        nft_mint,
        nft_token,
        nft_metadata,
        mint_authority,
        update_authority,
    );
    let instruction_data = OtakuVerseInstruction::MintEnhancedNFT {
        name,
        symbol,
        uri,
        anime_title,
        rarity,
        description,
        collection_id,
        attributes,
        royalty_basis_points,
    };
    Instruction { program_id: *program_id, accounts, data: instruction_data.pack() }
}

/// Builds the request to change a token's metadata.
pub fn update_nft_metadata(
    program_id: &Pubkey,
    owner: &Pubkey,
    nft_metadata: &Pubkey,
    nft_mint: &Pubkey,
    uri: Option<String>,
    name: Option<String>,
    description: Option<String>,
    attributes_to_add: Vec<NFTAttribute>,
    royalty_basis_points: Option<u16>,
) -> (request: Instruction)
    requires
        optional_text_storable(optional_text_view(uri)),
        optional_text_storable(optional_text_view(name)),
        optional_text_storable(optional_text_view(description)),
        attributes_storable(attribute_views(attributes_to_add@)),
    ensures
        request.program_id == *program_id,
        plain_accounts(request.accounts@) == owner_accounts(*owner, *nft_metadata, *nft_mint),
        request.data@ == (InstructionView::UpdateNFTMetadata {
            uri: optional_text_view(uri),
            name: optional_text_view(name),
            description: optional_text_view(description),
            attributes_to_add: attribute_views(attributes_to_add@),
            royalty_basis_points: royalty_basis_points,
        }).encoding(),
{
    let accounts = build_owner_accounts(owner, nft_metadata, nft_mint);
    let instruction_data = OtakuVerseInstruction::UpdateNFTMetadata {
        uri,
        name,
        description,
        attributes_to_add,
        royalty_basis_points,
    };
    Instruction { program_id: *program_id, accounts, data: instruction_data.pack() }
}

/// Builds the request to mark a token as verified.
pub fn verify_nft(
    program_id: &Pubkey,
    authority: &Pubkey,
    nft_metadata: &Pubkey,
    nft_mint: &Pubkey,
    mint: Pubkey,
) -> (request: Instruction)
    ensures
        request.program_id == *program_id,
        plain_accounts(request.accounts@) == owner_accounts(*authority, *nft_metadata, *nft_mint),
        request.data@ == (InstructionView::VerifyNFT { mint: mint@ }).encoding(),
{
    let accounts = build_owner_accounts(authority, nft_metadata, nft_mint);
    let instruction_data = OtakuVerseInstruction::VerifyNFT { mint };
    Instruction { program_id: *program_id, accounts, data: instruction_data.pack() }
}

/// Builds the request to put a token up for sale.
pub fn list_nft_for_sale(
    program_id: &Pubkey,
    owner: &Pubkey,
    nft_metadata: &Pubkey,
    nft_mint: &Pubkey,
    price: u64,
) -> (request: Instruction)
    ensures
        request.program_id == *program_id,
        plain_accounts(request.accounts@) == owner_accounts(*owner, *nft_metadata, *nft_mint),
        request.data@ == (InstructionView::ListNFTForSale { price }).encoding(),
{
    let accounts = build_owner_accounts(owner, nft_metadata, nft_mint);
    let instruction_data = OtakuVerseInstruction::ListNFTForSale { price };
    Instruction { program_id: *program_id, accounts, data: instruction_data.pack() }
}

/// Builds the request to withdraw a token from sale.
pub fn cancel_nft_listing(
    program_id: &Pubkey,
    owner: &Pubkey,
    nft_metadata: &Pubkey,
    nft_mint: &Pubkey,
) -> (request: Instruction)
    ensures
        request.program_id == *program_id,
        plain_accounts(request.accounts@) == owner_accounts(*owner, *nft_metadata, *nft_mint),
        request.data@ == InstructionView::CancelNFTListing.encoding(),
{
    let accounts = build_owner_accounts(owner, nft_metadata, nft_mint);
    let instruction_data = OtakuVerseInstruction::CancelNFTListing;
    Instruction { program_id: *program_id, accounts, data: instruction_data.pack() }
}

/// Builds the request to send a message in a community.
pub fn send_community_message(
    program_id: &Pubkey,
    sender: &Pubkey,
    community: &Pubkey,
    message: &Pubkey,
    community_id: String,
    content: String,
) -> (request: Instruction)
    requires
        text_storable(community_id@),
        text_storable(content@),
    ensures
        request.program_id == *program_id,
        plain_accounts(request.accounts@) == seq![
            writable(*sender, true),
            writable(*community, false),
            writable(*message, false),
            readonly(system_program_bytes(), false),
        ],
        request.data@ == (InstructionView::SendCommunityMessage {
            community_id: community_id@,
            content: content@,
        }).encoding(),
{
    let mut accounts: Vec<AccountMeta> = Vec::new();
    accounts.push(AccountMeta::new(*sender, true));
    accounts.push(AccountMeta::new(*community, false));
    accounts.push(AccountMeta::new(*message, false));
    accounts.push(AccountMeta::new_readonly(system_program_id(), false));
    proof {
        assert(plain_accounts(accounts@) =~= seq![
            writable(*sender, true),
            writable(*community, false),
            writable(*message, false),
            readonly(system_program_bytes(), false),
        ]);
    }
    let instruction_data = OtakuVerseInstruction::SendCommunityMessage { community_id, content };
    Instruction { program_id: *program_id, accounts, data: instruction_data.pack() }
}

impl InstructionView {
    /// Every address in the request has thirty-two bytes.
    pub open spec fn keys_sized(self) -> bool {
        match self {
            InstructionView::MintEnhancedNFT { collection_id, .. } => collection_id matches Some(
                key,
            ) ==> key.len() == 32,
            InstructionView::VerifyNFT { mint } => mint.len() == 32,
            _ => true,
        }
    }
}

proof fn lemma_mint_reward_reads_back(input: Seq<u8>, at: int, request: InstructionView)
    requires
        request is MintNFTReward,
        request.storable(),
        stands_at(input, at, request.fields_encoding()),
    ensures
        parse_mint_reward(input, at) == Some((request, at + request.fields_encoding().len())),
{
    match request {
        InstructionView::MintNFTReward { name, symbol, uri, anime_title, rarity } => {
            let e1 = text_encoding(name);
            let e2 = text_encoding(symbol);
            let e3 = text_encoding(uri);
            let e4 = text_encoding(anime_title);
            let e5 = text_encoding(rarity);
            lemma_split(input, at, e1 + e2 + e3 + e4, e5);
            lemma_split(input, at, e1 + e2 + e3, e4);
            lemma_split(input, at, e1 + e2, e3);
            lemma_split(input, at, e1, e2);
            lemma_read_back_text(input, at, name);
            lemma_read_back_text(input, at + e1.len(), symbol);
            lemma_read_back_text(input, at + e1.len() + e2.len(), uri);
            lemma_read_back_text(input, at + e1.len() + e2.len() + e3.len(), anime_title);
            lemma_read_back_text(input, at + e1.len() + e2.len() + e3.len() + e4.len(), rarity);
        },
        _ => {},
    }
}

proof fn lemma_mint_enhanced_reads_back(input: Seq<u8>, at: int, request: InstructionView)
    requires
        request is MintEnhancedNFT,
        request.storable(),
        request.keys_sized(),
        stands_at(input, at, request.fields_encoding()),
    ensures
        parse_mint_enhanced(input, at) == Some((request, at + request.fields_encoding().len())),
{
    match request {
        InstructionView::MintEnhancedNFT {
            name,
            symbol,
            uri,
            anime_title,
            rarity,
            description,
            collection_id,
            attributes,
            royalty_basis_points,
        } => {
            let e1 = text_encoding(name);
            let e2 = text_encoding(symbol);
            let e3 = text_encoding(uri);
            let e4 = text_encoding(anime_title);
            let e5 = seq![rarity_tag(rarity)];
            let e6 = text_encoding(description);
            let e7 = optional_key_encoding(collection_id);
            let e8 = attributes_encoding(attributes);
            let e9 = spec_u16_to_le_bytes(royalty_basis_points);
            lemma_split(input, at, e1 + e2 + e3 + e4 + e5 + e6 + e7 + e8, e9);
            lemma_split(input, at, e1 + e2 + e3 + e4 + e5 + e6 + e7, e8);
            lemma_split(input, at, e1 + e2 + e3 + e4 + e5 + e6, e7);
            lemma_split(input, at, e1 + e2 + e3 + e4 + e5, e6);
            lemma_split(input, at, e1 + e2 + e3 + e4, e5);
            lemma_split(input, at, e1 + e2 + e3, e4);
            lemma_split(input, at, e1 + e2, e3);
            lemma_split(input, at, e1, e2);
            let at1 = at + e1.len();
            let at2 = at1 + e2.len();
            let at3 = at2 + e3.len();
            let at4 = at3 + e4.len();
            let at5 = at4 + e5.len();
            let at6 = at5 + e6.len();
            let at7 = at6 + e7.len();
            let at8 = at7 + e8.len();
            lemma_read_back_text(input, at, name);
            lemma_read_back_text(input, at1, symbol);
            lemma_read_back_text(input, at2, uri);
            lemma_read_back_text(input, at3, anime_title);
            lemma_read_back_fixed(input, at4);
            lemma_read_back_text(input, at5, description);
            lemma_read_back_optional_key(input, at6, collection_id);
            lemma_read_back_attributes(input, at7, attributes);
            lemma_read_back_fixed(input, at8);
            vstd::bytes::lemma_auto_spec_u16_to_from_le_bytes();
        },
        _ => {},
    }
}

proof fn lemma_update_reads_back(input: Seq<u8>, at: int, request: InstructionView)
    requires
        request is UpdateNFTMetadata,
        request.storable(),
        stands_at(input, at, request.fields_encoding()),
    ensures
        parse_update(input, at) == Some((request, at + request.fields_encoding().len())),
{
    match request {
        InstructionView::UpdateNFTMetadata {
            uri,
            name,
            description,
            attributes_to_add,
            royalty_basis_points,
        } => {
            let e1 = optional_text_encoding(uri);
            let e2 = optional_text_encoding(name);
            let e3 = optional_text_encoding(description);
            let e4 = attributes_encoding(attributes_to_add);
            let e5 = optional_u16_encoding(royalty_basis_points);
            lemma_split(input, at, e1 + e2 + e3 + e4, e5);
            lemma_split(input, at, e1 + e2 + e3, e4);
            lemma_split(input, at, e1 + e2, e3);
            lemma_split(input, at, e1, e2);
            let at1 = at + e1.len();
            let at2 = at1 + e2.len();
            let at3 = at2 + e3.len();
            let at4 = at3 + e4.len();
            lemma_read_back_optional_text(input, at, uri);
            lemma_read_back_optional_text(input, at1, name);
            lemma_read_back_optional_text(input, at2, description);
            lemma_read_back_attributes(input, at3, attributes_to_add);
            lemma_read_back_optional_u16(input, at4, royalty_basis_points);
        },
        _ => {},
    }
}

proof fn lemma_message_reads_back(input: Seq<u8>, at: int, request: InstructionView)
    requires
        request is SendCommunityMessage,
        request.storable(),
        stands_at(input, at, request.fields_encoding()),
    ensures
        parse_message(input, at) == Some((request, at + request.fields_encoding().len())),
{
    match request {
        InstructionView::SendCommunityMessage { community_id, content } => {
            let e1 = text_encoding(community_id);
            let e2 = text_encoding(content);
            lemma_split(input, at, e1, e2);
            lemma_read_back_text(input, at, community_id);
            lemma_read_back_text(input, at + e1.len(), content);
        },
        _ => {},
    }
}

/// A request that can be stored reads back from its stored form as
/// itself: reading is the inverse of writing.
pub proof fn lemma_instruction_reads_back(request: InstructionView)
    requires
        request.storable(),
        request.keys_sized(),
    ensures
        parse_instruction(request.encoding()) == Some(request),
{
    let input = request.encoding();
    let fields = request.fields_encoding();
    assert(stands_at(input, 0, seq![request.tag()] + fields)) by {
        assert(input.subrange(0, input.len() as int) =~= input);
    }
    lemma_split(input, 0, seq![request.tag()], fields);
    lemma_read_back_fixed(input, 0);
    lemma_read_back_fixed(input, 1);
    vstd::bytes::lemma_auto_spec_u64_to_from_le_bytes();
    match request {
        InstructionView::MintNFTReward { .. } => {
            lemma_mint_reward_reads_back(input, 1, request);
        },
        InstructionView::MintEnhancedNFT { .. } => {
            lemma_mint_enhanced_reads_back(input, 1, request);
        },
        InstructionView::PurchaseNFT { price } => {},
        InstructionView::UpdateNFTMetadata { .. } => {
            lemma_update_reads_back(input, 1, request);
        },
        InstructionView::VerifyNFT { mint } => {},
        InstructionView::ListNFTForSale { price } => {},
        InstructionView::CancelNFTListing => {},
        InstructionView::SendCommunityMessage { .. } => {
            lemma_message_reads_back(input, 1, request);
        },
    }
}

} // verus!
