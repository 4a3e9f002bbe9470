//! The stored form of a token's record.

use vstd::prelude::*;
use vstd::bytes::{spec_u16_to_le_bytes, spec_u64_to_le_bytes};
use crate::pubkey::Pubkey;
use crate::state::nft::{attribute_views, NFTData, NFTDataView, NFTRarity};
use crate::wire::{
    attributes_encoding, attributes_storable, bool_encoding, i64_encoding,
    lemma_read_back_attributes, lemma_read_back_fixed, lemma_read_back_optional_key,
    lemma_read_back_text, lemma_split, optional_key_encoding, optional_key_view,
    parse_attributes, parse_bool, parse_i64, parse_key, parse_optional_key, parse_rarity,
    parse_text, parse_u16, parse_u64, put_attributes, put_bool, put_i64, put_key,
    put_optional_key, put_rarity, put_text, put_u16, put_u64, rarity_tag, read_attributes,
    read_bool, read_i64, read_key, read_optional_key, read_rarity, read_text, read_u16, read_u64,
    lemma_appended, stands_at, text_encoding, text_storable,
};

verus! {

/// The address that some bytes stand for.
pub open spec fn key_of(bytes: Seq<u8>) -> Pubkey {
    choose|key: Pubkey| key@ == bytes
}

/// The address that some bytes stand for, where there are any.
pub open spec fn optional_key_of(bytes: Option<Seq<u8>>) -> Option<Pubkey> {
    match bytes {
        Some(b) => Some(key_of(b)),
        None => None,
    }
}

/// An address is the one that its bytes stand for.
pub proof fn lemma_key_of_view(key: Pubkey)
    ensures
        key_of(key@) == key,
        optional_key_of(optional_key_view(Some(key))) == Some(key),
{
    Pubkey::lemma_view_injective(key, key_of(key@));
}

/// The first half of a token's record: who minted and owns it, its texts,
/// its rarity, and whether it is for sale.
pub ghost struct RecordHead {
    pub mint: Seq<u8>,
    pub owner: Seq<u8>,
    pub name: Seq<char>,
    pub symbol: Seq<char>,
    pub uri: Seq<char>,
    pub anime_title: Seq<char>,
    pub rarity: NFTRarity,
    pub is_for_sale: bool,
}

/// The second half of a token's record: its price and time of creation,
/// its creator, description, collection and attributes, its royalty, and
/// whether it is verified.
pub ghost struct RecordTail {
    pub price: u64,
    pub created_at: i64,
    pub creator: Seq<u8>,
    pub description: Seq<char>,
    pub collection_id: Option<Seq<u8>>,
    pub attributes: Seq<(Seq<char>, Seq<char>)>,
    pub royalty_basis_points: u16,
    pub is_verified: bool,
}

/// Reads the first half of a token's record at a place in the input.
pub open spec fn parse_head(input: Seq<u8>, at: int) -> Option<(RecordHead, int)> {
    match parse_key(input, at) {
        Some((mint, at1)) => match parse_key(input, at1) {
            Some((owner, at2)) => match parse_text(input, at2) {
                Some((name, at3)) => match parse_text(input, at3) {
                    Some((symbol, at4)) => match parse_text(input, at4) {
                        Some((uri, at5)) => match parse_text(input, at5) {
                            Some((anime_title, at6)) => match parse_rarity(input, at6) {
                                Some((rarity, at7)) => match parse_bool(input, at7) {
                                    Some((is_for_sale, end)) => Some(
                                        (
                                            RecordHead {
                                                mint,
                                                owner,
                                                name,
                                                symbol,
                                                uri,
                                                anime_title,
                                                rarity,
                                                is_for_sale,
                                            },
                                            end,
                                        ),
                                    ),
                                    None => None,
                                },
                                None => None,
                            },
                            None => None,
                        },
                        None => None,
                    },
                    None => None,
                },
                None => None,
            },
            None => None,
        },
        None => None,
    }
}

/// Reads the second half of a token's record at a place in the input.
pub open spec fn parse_tail(input: Seq<u8>, at: int) -> Option<(RecordTail, int)> {
    match parse_u64(input, at) {
        Some((price, at1)) => match parse_i64(input, at1) {
            Some((created_at, at2)) => match parse_key(input, at2) {
                Some((creator, at3)) => match parse_text(input, at3) {
                    Some((description, at4)) => match parse_optional_key(input, at4) {
                        Some((collection_id, at5)) => match parse_attributes(input, at5) {
                            Some((attributes, at6)) => match parse_u16(input, at6) {
                                Some((royalty_basis_points, at7)) => match parse_bool(input, at7) {
                                    Some((is_verified, end)) => Some(
                                        (
                                            RecordTail {
                                                price,
                                                created_at,
                                                creator,
                                                description,
                                                collection_id,
                                                attributes,
                                                royalty_basis_points,
                                                is_verified,
                                            },
                                            end,
                                        ),
                                    ),
                                    None => None,
                                },
                                None => None,
                            },
                            None => None,
                        },
                        None => None,
                    },
                    None => None,
                },
                None => None,
            },
            None => None,
        },
        None => None,
    }
}

/// The record that the two halves make.
pub open spec fn joined(head: RecordHead, tail: RecordTail) -> NFTDataView {
    NFTDataView {
        mint: key_of(head.mint),
        owner: key_of(head.owner),
        name: head.name,
        symbol: head.symbol,
        uri: head.uri,
        anime_title: head.anime_title,
        rarity: head.rarity,
        is_for_sale: head.is_for_sale,
        price: tail.price,
        created_at: tail.created_at,
        creator: key_of(tail.creator),
        description: tail.description,
        collection_id: optional_key_of(tail.collection_id),
        attributes: tail.attributes,
        royalty_basis_points: tail.royalty_basis_points,
        is_verified: tail.is_verified,
    }
}

/// The record of a token that stands at the start of some bytes, if there
/// is one, and the place after it. What follows the record is not read: an
/// account may have more room than its record takes.
pub open spec fn parse_record(input: Seq<u8>) -> Option<(NFTDataView, int)> {
    match parse_head(input, 0) {
        Some((head, middle)) => match parse_tail(input, middle) {
            Some((tail, end)) => Some((joined(head, tail), end)),
            None => None,
        },
        None => None,
    }
}

impl NFTDataView {
    /// The first half of the record.
    pub open spec fn head(self) -> RecordHead {
        RecordHead {
            mint: self.mint@,
            owner: self.owner@,
            name: self.name,
            symbol: self.symbol,
            uri: self.uri,
            anime_title: self.anime_title,
            rarity: self.rarity,
            is_for_sale: self.is_for_sale,
        }
    }

    /// The second half of the record.
    pub open spec fn tail(self) -> RecordTail {
        RecordTail {
            price: self.price,
            created_at: self.created_at,
            creator: self.creator@,
            description: self.description,
            collection_id: optional_key_view(self.collection_id),
            attributes: self.attributes,
            royalty_basis_points: self.royalty_basis_points,
            is_verified: self.is_verified,
        }
    }

    /// The stored form of the first half of the record.
    pub open spec fn head_encoding(self) -> Seq<u8> {
        self.mint@ + self.owner@ + text_encoding(self.name) + text_encoding(self.symbol)
            + text_encoding(self.uri) + text_encoding(self.anime_title) + seq![
            rarity_tag(self.rarity),
        ] + bool_encoding(self.is_for_sale)
    }

    /// The stored form of the second half of the record.
    pub open spec fn tail_encoding(self) -> Seq<u8> {
        spec_u64_to_le_bytes(self.price) + i64_encoding(self.created_at) + self.creator@
            + text_encoding(self.description) + optional_key_encoding(
            optional_key_view(self.collection_id),
        ) + attributes_encoding(self.attributes) + spec_u16_to_le_bytes(self.royalty_basis_points)
            + bool_encoding(self.is_verified)
    }

    /// The stored form of the record: its fields, in order.
    pub open spec fn encoding(self) -> Seq<u8> {
        self.head_encoding() + self.tail_encoding()
    }

    /// Whether the record can be stored: each text and the list of
    /// attributes can.
    pub open spec fn storable(self) -> bool {
        &&& text_storable(self.name)
        &&& text_storable(self.symbol)
        &&& text_storable(self.uri)
        &&& text_storable(self.anime_title)
        &&& text_storable(self.description)
        &&& attributes_storable(self.attributes)
    }
}

fn write_head(out: &mut Vec<u8>, record: &NFTData)
    requires
        record@.storable(),
    ensures
        final(out)@ == old(out)@ + record@.head_encoding(),
{
    let ghost start = out@;
    put_key(out, &record.mint);
    let ghost written = record.mint@;
    put_key(out, &record.owner);
    proof {
        lemma_appended(start, written, record.owner@);
        written = written + record.owner@;
    }
    put_text(out, &record.name);
    proof {
        lemma_appended(start, written, text_encoding(record.name@));
        written = written + text_encoding(record.name@);
    }
    put_text(out, &record.symbol);
    proof {
        lemma_appended(start, written, text_encoding(record.symbol@));
        written = written + text_encoding(record.symbol@);
    }
    put_text(out, &record.uri);
    proof {
        lemma_appended(start, written, text_encoding(record.uri@));
        written = written + text_encoding(record.uri@);
    }
    put_text(out, &record.anime_title);
    proof {
        lemma_appended(start, written, text_encoding(record.anime_title@));
        written = written + text_encoding(record.anime_title@);
    }
    put_rarity(out, record.rarity);
    proof {
        lemma_appended(start, written, seq![rarity_tag(record.rarity)]);
        written = written + seq![rarity_tag(record.rarity)];
    }
    put_bool(out, record.is_for_sale);
    proof {
        lemma_appended(start, written, bool_encoding(record.is_for_sale));
    }
}

fn write_tail(out: &mut Vec<u8>, record: &NFTData)
    requires
        record@.storable(),
    ensures
        final(out)@ == old(out)@ + record@.tail_encoding(),
{
    let ghost start = out@;
    put_u64(out, record.price);
    let ghost written = spec_u64_to_le_bytes(record.price);
    put_i64(out, record.created_at);
    proof {
        lemma_appended(start, written, i64_encoding(record.created_at));
        written = written + i64_encoding(record.created_at);
    }
    put_key(out, &record.creator);
    proof {
        lemma_appended(start, written, record.creator@);
        written = written + record.creator@;
    }
    put_text(out, &record.description);
    proof {
        lemma_appended(start, written, text_encoding(record.description@));
        written = written + text_encoding(record.description@);
    }
    put_optional_key(out, &record.collection_id);
    proof {
        lemma_appended(
            start,
            written,
            optional_key_encoding(optional_key_view(record.collection_id)),
        );
        written = written + optional_key_encoding(optional_key_view(record.collection_id));
    }
    put_attributes(out, &record.attributes);
    proof {
        lemma_appended(start, written, attributes_encoding(attribute_views(record.attributes@)));
        written = written + attributes_encoding(attribute_views(record.attributes@));
    }
    put_u16(out, record.royalty_basis_points);
    proof {
        lemma_appended(start, written, spec_u16_to_le_bytes(record.royalty_basis_points));
        written = written + spec_u16_to_le_bytes(record.royalty_basis_points);
    }
    put_bool(out, record.is_verified);
    proof {
        lemma_appended(start, written, bool_encoding(record.is_verified));
    }
}

/// What an exec reader of a record reports, as mathematical values.
pub open spec fn record_place(read: Option<(NFTData, usize)>) -> Option<(NFTDataView, int)> {
    match read {
        Some((record, end)) => Some((record@, end as int)),
        None => None,
    }
}

impl NFTData {
    /// Whether the record can be stored, and so written by `pack`.
    #[verifier::loop_isolation(false)]
    pub fn is_storable(&self) -> (storable: bool)
        ensures
            storable == self@.storable(),
    {
        let limit: usize = 0xffff_ffff;
        if !crate::text::fits(&self.name, limit) || !crate::text::fits(&self.symbol, limit)
            || !crate::text::fits(&self.uri, limit) || !crate::text::fits(&self.anime_title, limit)
            || !crate::text::fits(&self.description, limit) || self.attributes.len() > limit {
            return false;
        }
        let mut i: usize = 0;
        while i < self.attributes.len()
            invariant
                i <= self.attributes@.len(),
                self.attributes@.len() <= u32::MAX,
                forall|j: int|
                    #![trigger attribute_views(self.attributes@)[j]]
                    0 <= j < i ==> text_storable(attribute_views(self.attributes@)[j].0)
                        && text_storable(attribute_views(self.attributes@)[j].1),
            decreases self.attributes@.len() - i,
        {
            if !crate::text::fits(&self.attributes[i].trait_type, limit) || !crate::text::fits(
                &self.attributes[i].value,
                limit,
            ) {
                proof {
                    assert(attribute_views(self.attributes@)[i as int] == self.attributes@[i as int]@);
                }
                return false;
            }
            proof {
                assert(attribute_views(self.attributes@)[i as int] == self.attributes@[i as int]@);
            }
            i = i + 1;
        }
        true
    }

    /// Writes the record in its stored form.
    pub fn pack(&self) -> (data: Vec<u8>)
        requires
            self@.storable(),
        ensures
            data@ == self@.encoding(),
    {
        let mut out: Vec<u8> = Vec::new();
        write_head(&mut out, self);
        write_tail(&mut out, self);
        proof {
            assert(out@ =~= self@.encoding());
        }
        out
    }

    /// Reads the record that stands at the start of some bytes, and the
    /// place after it. Nothing is returned where no record stands there.
    pub fn unpack(input: &[u8]) -> (read: Option<(NFTData, usize)>)
        ensures
            record_place(read) == parse_record(input@),
    {
        let (mint, at1) = match read_key(input, 0) {
            Some(found) => found,
            None => { return None; },
        };
        let (owner, at2) = match read_key(input, at1) {
            Some(found) => found,
            None => { return None; },
        };
        let (name, at3) = match read_text(input, at2) {
            Some(found) => found,
            None => { return None; },
        };
        let (symbol, at4) = match read_text(input, at3) {
            Some(found) => found,
            None => { return None; },
        };
        let (uri, at5) = match read_text(input, at4) {
            Some(found) => found,
            None => { return None; },
        };
        let (anime_title, at6) = match read_text(input, at5) {
            Some(found) => found,
            None => { return None; },
        };
        let (rarity, at7) = match read_rarity(input, at6) {
            Some(found) => found,
            None => { return None; },
        };
        let (is_for_sale, middle) = match read_bool(input, at7) {
            Some(found) => found,
            None => { return None; },
        };
        let ghost head = RecordHead {
            mint: mint@,
            owner: owner@,
            name: name@,
            symbol: symbol@,
            uri: uri@,
            anime_title: anime_title@,
            rarity,
            is_for_sale,
        };
        assert(parse_head(input@, 0) == Some((head, middle as int)));
        let (price, at9) = match read_u64(input, middle) {
            Some(found) => found,
            None => { return None; },
        };
        let (created_at, at10) = match read_i64(input, at9) {
            Some(found) => found,
            None => { return None; },
        };
        let (creator, at11) = match read_key(input, at10) {
            Some(found) => found,
            None => { return None; },
        };
        let (description, at12) = match read_text(input, at11) {
            Some(found) => found,
            None => { return None; },
        };
        let (collection_id, at13) = match read_optional_key(input, at12) {
            Some(found) => found,
            None => { return None; },
        };
        let (attributes, at14) = match read_attributes(input, at13) {
            Some(found) => found,
            None => { return None; },
        };
        let (royalty_basis_points, at15) = match read_u16(input, at14) {
            Some(found) => found,
            None => { return None; },
        };
        let (is_verified, end) = match read_bool(input, at15) {
            Some(found) => found,
            None => { return None; },
        };
        let ghost tail = RecordTail {
            price,
            created_at,
            creator: creator@,
            description: description@,
            collection_id: optional_key_view(collection_id),
            attributes: attribute_views(attributes@),
            royalty_basis_points,
            is_verified,
        };
        assert(parse_tail(input@, middle as int) == Some((tail, end as int)));
        proof {
            lemma_key_of_view(mint);
            lemma_key_of_view(owner);
            lemma_key_of_view(creator);
            if let Some(key) = collection_id {
                lemma_key_of_view(key);
            }
        }
        Some(
            (
                NFTData {
                    mint,
                    owner,
                    name,
                    symbol,
                    uri,
                    anime_title,
                    rarity,
                    is_for_sale,
                    price,
                    created_at,
                    creator,
                    description,
                    collection_id,
                    attributes,
                    royalty_basis_points,
                    is_verified,
                },
                end,
            ),
        )
    }
}

proof fn lemma_head_reads_back(input: Seq<u8>, record: NFTDataView)
    requires
        record.storable(),
        stands_at(input, 0, record.head_encoding()),
    ensures
        parse_head(input, 0) == Some((record.head(), record.head_encoding().len() as int)),
{
    let e1 = record.mint@;
    let e2 = record.owner@;
    let e3 = text_encoding(record.name);
    let e4 = text_encoding(record.symbol);
    let e5 = text_encoding(record.uri);
    let e6 = text_encoding(record.anime_title);
    let e7 = seq![rarity_tag(record.rarity)];
    let e8 = bool_encoding(record.is_for_sale);
    Pubkey::lemma_view_injective(record.mint, record.mint);
    Pubkey::lemma_view_injective(record.owner, record.owner);
    lemma_split(input, 0, e1 + e2 + e3 + e4 + e5 + e6 + e7, e8);
    lemma_split(input, 0, e1 + e2 + e3 + e4 + e5 + e6, e7);
    lemma_split(input, 0, e1 + e2 + e3 + e4 + e5, e6);
    lemma_split(input, 0, e1 + e2 + e3 + e4, e5);
    lemma_split(input, 0, e1 + e2 + e3, e4);
    lemma_split(input, 0, e1 + e2, e3);
    lemma_split(input, 0, e1, e2);
    let at1 = e1.len() as int;
    let at2 = at1 + e2.len();
    let at3 = at2 + e3.len();
    let at4 = at3 + e4.len();
    let at5 = at4 + e5.len();
    let at6 = at5 + e6.len();
    let at7 = at6 + e7.len();
    lemma_read_back_fixed(input, 0);
    lemma_read_back_fixed(input, at1);
    lemma_read_back_text(input, at2, record.name);
    lemma_read_back_text(input, at3, record.symbol);
    lemma_read_back_text(input, at4, record.uri);
    lemma_read_back_text(input, at5, record.anime_title);
    lemma_read_back_fixed(input, at6);
    lemma_read_back_fixed(input, at7);
}

proof fn lemma_tail_reads_back(input: Seq<u8>, at: int, record: NFTDataView)
    requires
        record.storable(),
        stands_at(input, at, record.tail_encoding()),
    ensures
        parse_tail(input, at) == Some((record.tail(), at + record.tail_encoding().len())),
{
    let e1 = spec_u64_to_le_bytes(record.price);
    let e2 = i64_encoding(record.created_at);
    let e3 = record.creator@;
    let e4 = text_encoding(record.description);
    let e5 = optional_key_encoding(optional_key_view(record.collection_id));
    let e6 = attributes_encoding(record.attributes);
    let e7 = spec_u16_to_le_bytes(record.royalty_basis_points);
    let e8 = bool_encoding(record.is_verified);
    vstd::bytes::lemma_auto_spec_u64_to_from_le_bytes();
    vstd::bytes::lemma_auto_spec_u16_to_from_le_bytes();
    Pubkey::lemma_view_injective(record.creator, record.creator);
    if let Some(key) = record.collection_id {
        Pubkey::lemma_view_injective(key, key);
    }
    lemma_split(input, at, e1 + e2 + e3 + e4 + e5 + e6 + e7, e8);
    lemma_split(input, at, e1 + e2 + e3 + e4 + e5 + e6, e7);
    lemma_split(input, at, e1 + e2 + e3 + e4 + e5, e6);
    lemma_split(input, at, e1 + e2 + e3 + e4, e5);
    lemma_split(input, at, e1 + e2 + e3, e4);
    lemma_split(input, at, e1 + e2, e3);
    lemma_split(input, at, e1, e2);
    let at1 = at + e1.len();
    let at2 = at1 + e2.len();
    let at3 = at2 + e3.len();
    let at4 = at3 + e4.len();
    let at5 = at4 + e5.len();
    let at6 = at5 + e6.len();
    let at7 = at6 + e7.len();
    lemma_read_back_fixed(input, at);
    lemma_read_back_fixed(input, at1);
    lemma_read_back_fixed(input, at2);
    lemma_read_back_text(input, at3, record.description);
    lemma_read_back_optional_key(input, at4, optional_key_view(record.collection_id));
    lemma_read_back_attributes(input, at5, record.attributes);
    lemma_read_back_fixed(input, at6);
    lemma_read_back_fixed(input, at7);
}

/// A record that can be stored reads back as itself from its stored form,
/// whatever follows it.
pub proof fn lemma_record_reads_back(record: NFTDataView, rest: Seq<u8>)
    requires
        record.storable(),
    ensures
        parse_record(record.encoding() + rest) == Some((record, record.encoding().len() as int)),
{
    let input = record.encoding() + rest;
    let head = record.head_encoding();
    let tail = record.tail_encoding();
    assert(stands_at(input, 0, head + tail)) by {
        assert(input.subrange(0, (head + tail).len() as int) =~= head + tail);
    }
    lemma_split(input, 0, head, tail);
    lemma_head_reads_back(input, record);
    lemma_tail_reads_back(input, head.len() as int, record);
    Pubkey::lemma_view_injective(record.mint, key_of(record.mint@));
    Pubkey::lemma_view_injective(record.owner, key_of(record.owner@));
    Pubkey::lemma_view_injective(record.creator, key_of(record.creator@));
    if let Some(key) = record.collection_id {
        Pubkey::lemma_view_injective(key, key_of(key@));
    }
    assert(joined(record.head(), record.tail()) == record);
}

} // verus!
