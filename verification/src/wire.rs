//! The stored form of records and requests: numbers with their lowest
//! byte first, a flag as one byte, a text as the count of its bytes in four
//! bytes and then its UTF-8 bytes, a list as the count of its items in four
//! bytes and then the items, an optional value as one byte that says
//! whether it is there and then the value.

use vstd::prelude::*;
use vstd::bytes::{
    spec_u16_from_le_bytes, spec_u16_to_le_bytes, spec_u32_from_le_bytes, spec_u32_to_le_bytes,
    spec_u64_from_le_bytes, spec_u64_to_le_bytes, u16_from_le_bytes, u16_to_le_bytes,
    u32_from_le_bytes, u32_to_le_bytes, u64_from_le_bytes, u64_to_le_bytes,
};
use vstd::slice::slice_subrange;
use vstd::utf8::{decode_utf8, encode_utf8, valid_utf8};
use crate::pubkey::Pubkey;
use crate::state::nft::{attribute_views, NFTAttribute, NFTRarity};
use crate::text::byte_len;

verus! {

/// The stored form of a text.
pub open spec fn text_encoding(text: Seq<char>) -> Seq<u8> {
    spec_u32_to_le_bytes(byte_len(text) as u32) + encode_utf8(text)
}

/// The stored form of a signed number.
pub open spec fn i64_encoding(value: i64) -> Seq<u8> {
    spec_u64_to_le_bytes(value as u64)
}

/// The stored form of a flag.
pub open spec fn bool_encoding(value: bool) -> Seq<u8> {
    seq![if value { 1u8 } else { 0u8 }]
}

/// Reads one byte at a place in the input: the byte and the place after it.
pub open spec fn parse_u8(input: Seq<u8>, at: int) -> Option<(u8, int)> {
    if 0 <= at < input.len() {
        Some((input[at], at + 1))
    } else {
        None
    }
}

/// Reads a flag: a byte that is zero or one.
pub open spec fn parse_bool(input: Seq<u8>, at: int) -> Option<(bool, int)> {
    match parse_u8(input, at) {
        Some((byte, next)) => if byte == 0 {
            Some((false, next))
        } else if byte == 1 {
            Some((true, next))
        } else {
            None
        },
        None => None,
    }
}

/// Reads a number of two bytes.
pub open spec fn parse_u16(input: Seq<u8>, at: int) -> Option<(u16, int)> {
    if 0 <= at && at + 2 <= input.len() {
        Some((spec_u16_from_le_bytes(input.subrange(at, at + 2)), at + 2))
    } else {
        None
    }
}

/// Reads a number of four bytes.
pub open spec fn parse_u32(input: Seq<u8>, at: int) -> Option<(u32, int)> {
    if 0 <= at && at + 4 <= input.len() {
        Some((spec_u32_from_le_bytes(input.subrange(at, at + 4)), at + 4))
    } else {
        None
    }
}

/// Reads a number of eight bytes.
pub open spec fn parse_u64(input: Seq<u8>, at: int) -> Option<(u64, int)> {
    if 0 <= at && at + 8 <= input.len() {
        Some((spec_u64_from_le_bytes(input.subrange(at, at + 8)), at + 8))
    } else {
        None
    }
}

/// Reads a signed number of eight bytes.
pub open spec fn parse_i64(input: Seq<u8>, at: int) -> Option<(i64, int)> {
    match parse_u64(input, at) {
        Some((value, next)) => Some((value as i64, next)),
        None => None,
    }
}

/// Reads an address: thirty-two bytes.
pub open spec fn parse_key(input: Seq<u8>, at: int) -> Option<(Seq<u8>, int)> {
    if 0 <= at && at + 32 <= input.len() {
        Some((input.subrange(at, at + 32), at + 32))
    } else {
        None
    }
}

/// Reads a text: the count of its bytes, then as many bytes, which must be
/// valid UTF-8.
pub open spec fn parse_text(input: Seq<u8>, at: int) -> Option<(Seq<char>, int)> {
    match parse_u32(input, at) {
        Some((count, start)) => if start + count <= input.len() && valid_utf8(
            input.subrange(start, start + count),
        ) {
            Some((decode_utf8(input.subrange(start, start + count)), start + count))
        } else {
            None
        },
        None => None,
    }
}

/// A place after a step of reading lies further on, within the input.
pub proof fn lemma_parse_advances(input: Seq<u8>, at: int)
    ensures
        parse_u8(input, at) matches Some((_, next)) ==> at < next <= input.len(),
        parse_bool(input, at) matches Some((_, next)) ==> at < next <= input.len(),
        parse_u16(input, at) matches Some((_, next)) ==> at < next <= input.len(),
        parse_u32(input, at) matches Some((_, next)) ==> at < next <= input.len(),
        parse_u64(input, at) matches Some((_, next)) ==> at < next <= input.len(),
        parse_i64(input, at) matches Some((_, next)) ==> at < next <= input.len(),
        parse_key(input, at) matches Some((_, next)) ==> at < next <= input.len(),
        parse_text(input, at) matches Some((_, next)) ==> at < next <= input.len(),
{
}

/// The place that an exec reader reports, as a mathematical value.
pub open spec fn at_place<T>(read: Option<(T, usize)>) -> Option<(T, int)> {
    match read {
        Some((value, next)) => Some((value, next as int)),
        None => None,
    }
}

/// Reads one byte at a place in the input.
pub fn read_u8(input: &[u8], at: usize) -> (read: Option<(u8, usize)>)
    ensures
        at_place(read) == parse_u8(input@, at as int),
{
    if at < input.len() {
        Some((input[at], at + 1))
    } else {
        None
    }
}

/// Reads a flag at a place in the input.
pub fn read_bool(input: &[u8], at: usize) -> (read: Option<(bool, usize)>)
    ensures
        at_place(read) == parse_bool(input@, at as int),
{
    match read_u8(input, at) {
        Some((byte, next)) => {
            if byte == 0 {
                Some((false, next))
            } else if byte == 1 {
                Some((true, next))
            } else {
                None
            }
        },
        None => None,
    }
}

/// Reads a number of two bytes at a place in the input.
pub fn read_u16(input: &[u8], at: usize) -> (read: Option<(u16, usize)>)
    ensures
        at_place(read) == parse_u16(input@, at as int),
{
    if at <= input.len() && input.len() - at >= 2 {
        let value = u16_from_le_bytes(slice_subrange(input, at, at + 2));
        Some((value, at + 2))
    } else {
        None
    }
}

/// Reads a number of four bytes at a place in the input.
pub fn read_u32(input: &[u8], at: usize) -> (read: Option<(u32, usize)>)
    ensures
        at_place(read) == parse_u32(input@, at as int),
{
    if at <= input.len() && input.len() - at >= 4 {
        let value = u32_from_le_bytes(slice_subrange(input, at, at + 4));
        Some((value, at + 4))
    } else {
        None
    }
}

/// Reads a number of eight bytes at a place in the input.
pub fn read_u64(input: &[u8], at: usize) -> (read: Option<(u64, usize)>)
    ensures
        at_place(read) == parse_u64(input@, at as int),
{
    if at <= input.len() && input.len() - at >= 8 {
        let value = u64_from_le_bytes(slice_subrange(input, at, at + 8));
        Some((value, at + 8))
    } else {
        None
    }
}

/// Reads a signed number of eight bytes at a place in the input.
pub fn read_i64(input: &[u8], at: usize) -> (read: Option<(i64, usize)>)
    ensures
        at_place(read) == parse_i64(input@, at as int),
{
    match read_u64(input, at) {
        Some((value, next)) => Some((value as i64, next)),
        None => None,
    }
}

/// The bytes of the address that an exec reader reports.
pub open spec fn key_place(read: Option<(Pubkey, usize)>) -> Option<(Seq<u8>, int)> {
    match read {
        Some((key, next)) => Some((key@, next as int)),
        None => None,
    }
}

/// Reads an address at a place in the input.
pub fn read_key(input: &[u8], at: usize) -> (read: Option<(Pubkey, usize)>)
    ensures
        key_place(read) == parse_key(input@, at as int),
{
    if at <= input.len() && input.len() - at >= 32 {
        let mut bytes: [u8; 32] = [0u8; 32];
        let mut i: usize = 0;
        while i < 32
            invariant
                i <= 32,
                at + 32 <= input@.len() <= usize::MAX,
                forall|j: int| 0 <= j < i ==> bytes@[j] == input@[at + j],
            decreases 32 - i,
        {
            bytes[i] = input[at + i];
            i += 1;
        }
        let key = Pubkey { bytes };
        proof {
            assert(key@ =~= input@.subrange(at as int, at + 32));
        }
        Some((key, at + 32))
    } else {
        None
    }
}

/// Whether some bytes are the whole stored form of a text: a count and
/// then exactly as many bytes of valid UTF-8.
pub open spec fn is_text_encoding(encoded: Seq<u8>) -> bool {
    &&& encoded.len() >= 4
    &&& spec_u32_from_le_bytes(encoded.subrange(0, 4)) == encoded.len() - 4
    &&& valid_utf8(encoded.subrange(4, encoded.len() as int))
}

/// Calls borsh's `String::try_from_slice`: it succeeds exactly on the
/// whole stored form of a text, and gives the text that the bytes after
/// the count decode to.
#[verifier::external_body]
fn text_from_slice(encoded: &[u8]) -> (text: Option<String>)
    ensures
        text is Some <==> is_text_encoding(encoded@),
        text matches Some(t) ==> t@ == decode_utf8(encoded@.subrange(4, encoded@.len() as int)),
{
    match <String as borsh::BorshDeserialize>::try_from_slice(encoded) {
        Ok(text) => Some(text),
        Err(_) => None,
    }
}

/// The text that an exec reader reports, as a sequence of characters.
pub open spec fn text_place(read: Option<(String, usize)>) -> Option<(Seq<char>, int)> {
    match read {
        Some((text, next)) => Some((text@, next as int)),
        None => None,
    }
}

/// Reads a text at a place in the input.
pub fn read_text(input: &[u8], at: usize) -> (read: Option<(String, usize)>)
    ensures
        text_place(read) == parse_text(input@, at as int),
{
    let (count, start) = match read_u32(input, at) {
        Some(found) => found,
        None => { return None; },
    };
    if input.len() - start < count as usize {
        return None;
    }
    let end: usize = start + count as usize;
    let encoded = slice_subrange(input, at, end);
    proof {
        assert(encoded@.subrange(0, 4) =~= input@.subrange(at as int, at + 4));
        assert(encoded@.subrange(4, encoded@.len() as int) =~= input@.subrange(
            start as int,
            end as int,
        ));
    }
    match text_from_slice(encoded) {
        Some(text) => Some((text, end)),
        None => None,
    }
}

/// Whether a text can be stored: the count of its bytes fits four bytes.
pub open spec fn text_storable(text: Seq<char>) -> bool {
    byte_len(text) <= u32::MAX
}

/// Appends one byte.
pub fn put_u8(out: &mut Vec<u8>, value: u8)
    ensures
        final(out)@ == old(out)@ + seq![value],
{
    out.push(value);
    proof {
        assert(out@ =~= old(out)@ + seq![value]);
    }
}

/// Appends a flag.
pub fn put_bool(out: &mut Vec<u8>, value: bool)
    ensures
        final(out)@ == old(out)@ + bool_encoding(value),
{
    put_u8(out, if value { 1 } else { 0 });
}

/// Appends a number of two bytes.
pub fn put_u16(out: &mut Vec<u8>, value: u16)
    ensures
        final(out)@ == old(out)@ + spec_u16_to_le_bytes(value),
{
    let mut bytes = u16_to_le_bytes(value);
    out.append(&mut bytes);
}

/// Appends a number of four bytes.
pub fn put_u32(out: &mut Vec<u8>, value: u32)
    ensures
        final(out)@ == old(out)@ + spec_u32_to_le_bytes(value),
{
    let mut bytes = u32_to_le_bytes(value);
    out.append(&mut bytes);
}

/// Appends a number of eight bytes.
pub fn put_u64(out: &mut Vec<u8>, value: u64)
    ensures
        final(out)@ == old(out)@ + spec_u64_to_le_bytes(value),
{
    let mut bytes = u64_to_le_bytes(value);
    out.append(&mut bytes);
}

/// Appends a signed number of eight bytes.
pub fn put_i64(out: &mut Vec<u8>, value: i64)
    ensures
        final(out)@ == old(out)@ + i64_encoding(value),
{
    put_u64(out, value as u64);
}

/// Appends an address.
pub fn put_key(out: &mut Vec<u8>, key: &Pubkey)
    ensures
        final(out)@ == old(out)@ + key@,
{
    let mut bytes = key.to_vec();
    out.append(&mut bytes);
}

/// Appends a text.
pub fn put_text(out: &mut Vec<u8>, text: &String)
    requires
        text_storable(text@),
    ensures
        final(out)@ == old(out)@ + text_encoding(text@),
{
    let bytes = text.as_str().as_bytes();
    put_u32(out, bytes.len() as u32);
    out.extend_from_slice(bytes);
    proof {
        assert(out@ =~= old(out)@ + text_encoding(text@));
    }
}

/// The byte that stands for a rarity.
pub open spec fn rarity_tag(rarity: NFTRarity) -> u8 {
    match rarity {
        NFTRarity::Common => 0,
        NFTRarity::Rare => 1,
        NFTRarity::Epic => 2,
        NFTRarity::Legendary => 3,
    }
}

/// Reads a rarity: one byte below four.
pub open spec fn parse_rarity(input: Seq<u8>, at: int) -> Option<(NFTRarity, int)> {
    match parse_u8(input, at) {
        Some((tag, next)) => if tag == 0 {
            Some((NFTRarity::Common, next))
        } else if tag == 1 {
            Some((NFTRarity::Rare, next))
        } else if tag == 2 {
            Some((NFTRarity::Epic, next))
        } else if tag == 3 {
            Some((NFTRarity::Legendary, next))
        } else {
            None
        },
        None => None,
    }
}

/// Reads a text that may be absent.
pub open spec fn parse_optional_text(input: Seq<u8>, at: int) -> Option<(Option<Seq<char>>, int)> {
    match parse_bool(input, at) {
        Some((present, next)) => if present {
            match parse_text(input, next) {
                Some((text, end)) => Some((Some(text), end)),
                None => None,
            }
        } else {
            Some((None, next))
        },
        None => None,
    }
}

/// Reads a number of two bytes that may be absent.
pub open spec fn parse_optional_u16(input: Seq<u8>, at: int) -> Option<(Option<u16>, int)> {
    match parse_bool(input, at) {
        Some((present, next)) => if present {
            match parse_u16(input, next) {
                Some((value, end)) => Some((Some(value), end)),
                None => None,
            }
        } else {
            Some((None, next))
        },
        None => None,
    }
}

/// Reads an address that may be absent.
pub open spec fn parse_optional_key(input: Seq<u8>, at: int) -> Option<(Option<Seq<u8>>, int)> {
    match parse_bool(input, at) {
        Some((present, next)) => if present {
            match parse_key(input, next) {
                Some((key, end)) => Some((Some(key), end)),
                None => None,
            }
        } else {
            Some((None, next))
        },
        None => None,
    }
}

/// Reads an attribute: the trait as a text, then the value as a text.
pub open spec fn parse_attribute(input: Seq<u8>, at: int) -> Option<((Seq<char>, Seq<char>), int)> {
    match parse_text(input, at) {
        Some((trait_type, next)) => match parse_text(input, next) {
            Some((value, end)) => Some(((trait_type, value), end)),
            None => None,
        },
        None => None,
    }
}

/// Reads `count` attributes, one after the other.
pub open spec fn parse_attribute_run(input: Seq<u8>, at: int, count: nat) -> Option<
    (Seq<(Seq<char>, Seq<char>)>, int),
>
    decreases count,
{
    if count == 0 {
        Some((Seq::empty(), at))
    } else {
        match parse_attribute_run(input, at, (count - 1) as nat) {
            Some((items, next)) => match parse_attribute(input, next) {
                Some((item, end)) => Some((items.push(item), end)),
                None => None,
            },
            None => None,
        }
    }
}

/// Reads a list of attributes: their count, then the attributes.
pub open spec fn parse_attributes(input: Seq<u8>, at: int) -> Option<
    (Seq<(Seq<char>, Seq<char>)>, int),
> {
    match parse_u32(input, at) {
        Some((count, next)) => parse_attribute_run(input, next, count as nat),
        None => None,
    }
}

/// Where a run of attributes cannot be read, no longer run can.
pub proof fn lemma_attribute_run_fails_on(input: Seq<u8>, at: int, short: nat, long: nat)
    requires
        short <= long,
        parse_attribute_run(input, at, short) is None,
    ensures
        parse_attribute_run(input, at, long) is None,
    decreases long,
{
    if short < long {
        lemma_attribute_run_fails_on(input, at, short, (long - 1) as nat);
    }
}

/// Reads a rarity at a place in the input.
pub fn read_rarity(input: &[u8], at: usize) -> (read: Option<(NFTRarity, usize)>)
    ensures
        at_place(read) == parse_rarity(input@, at as int),
{
    match read_u8(input, at) {
        Some((tag, next)) => {
            if tag == 0 {
                Some((NFTRarity::Common, next))
            } else if tag == 1 {
                Some((NFTRarity::Rare, next))
            } else if tag == 2 {
                Some((NFTRarity::Epic, next))
            } else if tag == 3 {
                Some((NFTRarity::Legendary, next))
            } else {
                None
            }
        },
        None => None,
    }
}

/// The optional text that an exec reader reports, as mathematical values.
pub open spec fn optional_text_place(read: Option<(Option<String>, usize)>) -> Option<
    (Option<Seq<char>>, int),
> {
    match read {
        Some((Some(text), next)) => Some((Some(text@), next as int)),
        Some((None, next)) => Some((None, next as int)),
        None => None,
    }
}

/// Reads a text that may be absent, at a place in the input.
pub fn read_optional_text(input: &[u8], at: usize) -> (read: Option<(Option<String>, usize)>)
    ensures
        optional_text_place(read) == parse_optional_text(input@, at as int),
{
    match read_bool(input, at) {
        Some((present, next)) => {
            if present {
                match read_text(input, next) {
                    Some((text, end)) => Some((Some(text), end)),
                    None => None,
                }
            } else {
                Some((None, next))
            }
        },
        None => None,
    }
}

/// Reads a number of two bytes that may be absent, at a place in the input.
pub fn read_optional_u16(input: &[u8], at: usize) -> (read: Option<(Option<u16>, usize)>)
    ensures
        at_place(read) == parse_optional_u16(input@, at as int),
{
    match read_bool(input, at) {
        Some((present, next)) => {
            if present {
                match read_u16(input, next) {
                    Some((value, end)) => Some((Some(value), end)),
                    None => None,
                }
            } else {
                Some((None, next))
            }
        },
        None => None,
    }
}

/// The optional address that an exec reader reports, as plain values.
pub open spec fn optional_key_place(read: Option<(Option<Pubkey>, usize)>) -> Option<
    (Option<Seq<u8>>, int),
> {
    match read {
        Some((Some(key), next)) => Some((Some(key@), next as int)),
        Some((None, next)) => Some((None, next as int)),
        None => None,
    }
}

/// Reads an address that may be absent, at a place in the input.
pub fn read_optional_key(input: &[u8], at: usize) -> (read: Option<(Option<Pubkey>, usize)>)
    ensures
        optional_key_place(read) == parse_optional_key(input@, at as int),
{
    match read_bool(input, at) {
        Some((present, next)) => {
            if present {
                match read_key(input, next) {
                    Some((key, end)) => Some((Some(key), end)),
                    None => None,
                }
            } else {
                Some((None, next))
            }
        },
        None => None,
    }
}

/// The attributes that an exec reader reports, as mathematical values.
pub open spec fn attributes_place(read: Option<(Vec<NFTAttribute>, usize)>) -> Option<
    (Seq<(Seq<char>, Seq<char>)>, int),
> {
    match read {
        Some((items, next)) => Some((attribute_views(items@), next as int)),
        None => None,
    }
}

/// Reads a list of attributes at a place in the input.
pub fn read_attributes(input: &[u8], at: usize) -> (read: Option<(Vec<NFTAttribute>, usize)>)
    ensures
        attributes_place(read) == parse_attributes(input@, at as int),
{
    let (count, start) = match read_u32(input, at) {
        Some(found) => found,
        None => { return None; },
    };
    let mut items: Vec<NFTAttribute> = Vec::new();
    let mut place: usize = start;
    let mut done: u32 = 0;
    proof {
        assert(attribute_views(items@) =~= Seq::empty());
    }
    while done < count
        invariant
            done <= count,
            parse_u32(input@, at as int) == Some((count, start as int)),
            parse_attribute_run(input@, start as int, done as nat) == Some(
                (attribute_views(items@), place as int),
            ),
        decreases count - done,
    {
        let (trait_type, next) = match read_text(input, place) {
            Some(found) => found,
            None => {
                proof {
                    assert(parse_attribute_run(input@, start as int, (done + 1) as nat) is None);
                    lemma_attribute_run_fails_on(
                        input@,
                        start as int,
                        (done + 1) as nat,
                        count as nat,
                    );
                }
                return None;
            },
        };
        let (value, end) = match read_text(input, next) {
            Some(found) => found,
            None => {
                proof {
                    assert(parse_attribute_run(input@, start as int, (done + 1) as nat) is None);
                    lemma_attribute_run_fails_on(
                        input@,
                        start as int,
                        (done + 1) as nat,
                        count as nat,
                    );
                }
                return None;
            },
        };
        let ghost before = items@;
        items.push(NFTAttribute { trait_type, value });
        proof {
            assert(attribute_views(items@) =~= attribute_views(before).push((trait_type@, value@)));
        }
        place = end;
        done = done + 1;
    }
    Some((items, place))
}

/// The stored form of a text that may be absent.
pub open spec fn optional_text_encoding(text: Option<Seq<char>>) -> Seq<u8> {
    match text {
        Some(t) => seq![1u8] + text_encoding(t),
        None => seq![0u8],
    }
}

/// The stored form of a number of two bytes that may be absent.
pub open spec fn optional_u16_encoding(value: Option<u16>) -> Seq<u8> {
    match value {
        Some(v) => seq![1u8] + spec_u16_to_le_bytes(v),
        None => seq![0u8],
    }
}

/// The stored form of an address that may be absent.
pub open spec fn optional_key_encoding(key: Option<Seq<u8>>) -> Seq<u8> {
    match key {
        Some(k) => seq![1u8] + k,
        None => seq![0u8],
    }
}

/// The stored form of an attribute.
pub open spec fn attribute_encoding(attribute: (Seq<char>, Seq<char>)) -> Seq<u8> {
    text_encoding(attribute.0) + text_encoding(attribute.1)
}

/// The stored forms of some attributes, one after the other.
pub open spec fn attribute_run_encoding(items: Seq<(Seq<char>, Seq<char>)>) -> Seq<u8>
    decreases items.len(),
{
    if items.len() == 0 {
        Seq::empty()
    } else {
        attribute_run_encoding(items.drop_last()) + attribute_encoding(items.last())
    }
}

/// The stored form of a list of attributes.
pub open spec fn attributes_encoding(items: Seq<(Seq<char>, Seq<char>)>) -> Seq<u8> {
    spec_u32_to_le_bytes(items.len() as u32) + attribute_run_encoding(items)
}

/// Whether a list of attributes can be stored: the count of its items fits
/// four bytes, and each of its texts can be stored.
pub open spec fn attributes_storable(items: Seq<(Seq<char>, Seq<char>)>) -> bool {
    &&& items.len() <= u32::MAX
    &&& forall|i: int|
        #![trigger items[i]]
        0 <= i < items.len() ==> text_storable(items[i].0) && text_storable(items[i].1)
}

/// Whether a text that may be absent can be stored.
pub open spec fn optional_text_storable(text: Option<Seq<char>>) -> bool {
    text matches Some(t) ==> text_storable(t)
}

/// Appends a rarity.
pub fn put_rarity(out: &mut Vec<u8>, rarity: NFTRarity)
    ensures
        final(out)@ == old(out)@ + seq![rarity_tag(rarity)],
{
    let tag: u8 = match rarity {
        NFTRarity::Common => 0,
        NFTRarity::Rare => 1,
        NFTRarity::Epic => 2,
        NFTRarity::Legendary => 3,
    };
    put_u8(out, tag);
}

/// The views of a text that may be absent.
pub open spec fn optional_text_view(text: Option<String>) -> Option<Seq<char>> {
    match text {
        Some(t) => Some(t@),
        None => None,
    }
}

/// The bytes of an address that may be absent.
pub open spec fn optional_key_view(key: Option<Pubkey>) -> Option<Seq<u8>> {
    match key {
        Some(k) => Some(k@),
        None => None,
    }
}

/// Appends a text that may be absent.
pub fn put_optional_text(out: &mut Vec<u8>, text: &Option<String>)
    requires
        optional_text_storable(optional_text_view(*text)),
    ensures
        final(out)@ == old(out)@ + optional_text_encoding(optional_text_view(*text)),
{
    match text {
        Some(t) => {
            put_u8(out, 1);
            put_text(out, t);
            proof {
                assert(out@ =~= old(out)@ + (seq![1u8] + text_encoding(t@)));
            }
        },
        None => {
            put_u8(out, 0);
        },
    }
}

/// Appends a number of two bytes that may be absent.
pub fn put_optional_u16(out: &mut Vec<u8>, value: Option<u16>)
    ensures
        final(out)@ == old(out)@ + optional_u16_encoding(value),
{
    match value {
        Some(v) => {
            put_u8(out, 1);
            put_u16(out, v);
            proof {
                assert(out@ =~= old(out)@ + (seq![1u8] + spec_u16_to_le_bytes(v)));
            }
        },
        None => {
            put_u8(out, 0);
        },
    }
}

/// Appends an address that may be absent.
pub fn put_optional_key(out: &mut Vec<u8>, key: &Option<Pubkey>)
    ensures
        final(out)@ == old(out)@ + optional_key_encoding(optional_key_view(*key)),
{
    match key {
        Some(k) => {
            put_u8(out, 1);
            put_key(out, k);
            proof {
                assert(out@ =~= old(out)@ + (seq![1u8] + k@));
            }
        },
        None => {
            put_u8(out, 0);
        },
    }
}

/// Appends a list of attributes.
pub fn put_attributes(out: &mut Vec<u8>, items: &Vec<NFTAttribute>)
    requires
        attributes_storable(attribute_views(items@)),
    ensures
        final(out)@ == old(out)@ + attributes_encoding(attribute_views(items@)),
{
    let ghost views = attribute_views(items@);
    put_u32(out, items.len() as u32);
    let ghost head = out@;
    let mut i: usize = 0;
    while i < items.len()
        invariant
            i <= items.len(),
            views == attribute_views(items@),
            attributes_storable(views),
            out@ == head + attribute_run_encoding(views.subrange(0, i as int)),
        decreases items.len() - i,
    {
        let ghost before = out@;
        proof {
            assert(views.len() == items@.len());
            assert(views[i as int] == items@[i as int]@);
            assert(text_storable(views[i as int].0) && text_storable(views[i as int].1));
        }
        put_text(out, &items[i].trait_type);
        put_text(out, &items[i].value);
        proof {
            let longer = views.subrange(0, i + 1);
            assert(longer.drop_last() =~= views.subrange(0, i as int));
            assert(longer.last() == views[i as int]);
            assert(out@ =~= head + attribute_run_encoding(longer));
        }
        i = i + 1;
    }
    proof {
        assert(views.subrange(0, items.len() as int) =~= views);
        assert(out@ =~= old(out)@ + attributes_encoding(views));
    }
}

/// Whether some bytes stand at a place in the input.
pub open spec fn stands_at(input: Seq<u8>, at: int, bytes: Seq<u8>) -> bool {
    &&& 0 <= at
    &&& at + bytes.len() <= input.len()
    &&& input.subrange(at, at + bytes.len()) == bytes
}

/// Where the stored form of a number, a flag, a rarity or an address
/// stands in the input, reading at that place gives the value back, and
/// the place after it.
pub proof fn lemma_read_back_fixed(input: Seq<u8>, at: int)
    ensures
        forall|value: u8|
            #![trigger stands_at(input, at, seq![value])]
            stands_at(input, at, seq![value]) ==> parse_u8(input, at) == Some((value, at + 1)),
        forall|value: bool|
            #![trigger stands_at(input, at, bool_encoding(value))]
            stands_at(input, at, bool_encoding(value)) ==> parse_bool(input, at) == Some(
                (value, at + 1),
            ),
        forall|value: NFTRarity|
            #![trigger stands_at(input, at, seq![rarity_tag(value)])]
            stands_at(input, at, seq![rarity_tag(value)]) ==> parse_rarity(input, at) == Some(
                (value, at + 1),
            ),
        forall|value: u16|
            #![trigger stands_at(input, at, spec_u16_to_le_bytes(value))]
            stands_at(input, at, spec_u16_to_le_bytes(value)) ==> parse_u16(input, at) == Some(
                (value, at + 2),
            ),
        forall|value: u32|
            #![trigger stands_at(input, at, spec_u32_to_le_bytes(value))]
            stands_at(input, at, spec_u32_to_le_bytes(value)) ==> parse_u32(input, at) == Some(
                (value, at + 4),
            ),
        forall|value: u64|
            #![trigger stands_at(input, at, spec_u64_to_le_bytes(value))]
            stands_at(input, at, spec_u64_to_le_bytes(value)) ==> parse_u64(input, at) == Some(
                (value, at + 8),
            ),
        forall|value: i64|
            #![trigger stands_at(input, at, i64_encoding(value))]
            stands_at(input, at, i64_encoding(value)) ==> parse_i64(input, at) == Some(
                (value, at + 8),
            ),
        forall|key: Seq<u8>|
            #![trigger stands_at(input, at, key)]
            key.len() == 32 && stands_at(input, at, key) ==> parse_key(input, at) == Some(
                (key, at + 32),
            ),
{
    vstd::bytes::lemma_auto_spec_u16_to_from_le_bytes();
    vstd::bytes::lemma_auto_spec_u32_to_from_le_bytes();
    vstd::bytes::lemma_auto_spec_u64_to_from_le_bytes();
    assert forall|value: u8| #![trigger stands_at(input, at, seq![value])] stands_at(
        input,
        at,
        seq![value],
    ) implies parse_u8(input, at) == Some((value, at + 1)) by {
        assert(input.subrange(at, at + 1)[0] == value);
    }
    assert forall|value: bool| #![trigger stands_at(input, at, bool_encoding(value))] stands_at(
        input,
        at,
        bool_encoding(value),
    ) implies parse_bool(input, at) == Some((value, at + 1)) by {
        assert(input.subrange(at, at + 1)[0] == bool_encoding(value)[0]);
    }
    assert forall|value: NFTRarity|
        #![trigger stands_at(input, at, seq![rarity_tag(value)])]
        stands_at(input, at, seq![rarity_tag(value)]) implies parse_rarity(input, at) == Some(
        (value, at + 1),
    ) by {
        assert(input.subrange(at, at + 1)[0] == rarity_tag(value));
    }
    assert forall|value: i64| #![trigger stands_at(input, at, i64_encoding(value))] stands_at(
        input,
        at,
        i64_encoding(value),
    ) implies parse_i64(input, at) == Some((value, at + 8)) by {
        assert(((value as u64) as i64) == value) by (bit_vector);
        assert(stands_at(input, at, spec_u64_to_le_bytes(value as u64)));
    }
}

/// Where the stored form of a text that can be stored stands in the
/// input, reading at that place gives the text back, and the place after
/// it.
pub proof fn lemma_read_back_text(input: Seq<u8>, at: int, text: Seq<char>)
    requires
        text_storable(text),
        stands_at(input, at, text_encoding(text)),
    ensures
        parse_text(input, at) == Some((text, at + text_encoding(text).len())),
        text_encoding(text).len() == 4 + byte_len(text),
{
    vstd::bytes::lemma_auto_spec_u32_to_from_le_bytes();
    vstd::utf8::encode_utf8_valid_utf8(text);
    vstd::utf8::encode_utf8_decode_utf8(text);
    let count = byte_len(text) as u32;
    let encoded = text_encoding(text);
    assert(spec_u32_to_le_bytes(count).len() == 4);
    assert(input.subrange(at, at + 4) =~= encoded.subrange(0, 4));
    assert(encoded.subrange(0, 4) =~= spec_u32_to_le_bytes(count));
    assert(input.subrange(at + 4, at + 4 + count) =~= encoded.subrange(4, 4 + count));
    assert(encoded.subrange(4, 4 + count) =~= encode_utf8(text));
}

/// A part of what stands at a place stands at its own place.
pub proof fn lemma_part_stands(
    input: Seq<u8>,
    at: int,
    before: Seq<u8>,
    part: Seq<u8>,
    after: Seq<u8>,
)
    requires
        stands_at(input, at, before + part + after),
    ensures
        stands_at(input, at + before.len(), part),
        stands_at(input, at, before),
        stands_at(input, at + before.len() + part.len(), after),
{
    let whole = before + part + after;
    let start = before.len() as int;
    let end = start + part.len();
    assert(input.subrange(at + start, at + end) =~= whole.subrange(start, end));
    assert(whole.subrange(start, end) =~= part);
    assert(input.subrange(at, at + start) =~= whole.subrange(0, start));
    assert(whole.subrange(0, start) =~= before);
    assert(input.subrange(at + end, at + end + after.len()) =~= whole.subrange(
        end,
        whole.len() as int,
    ));
    assert(whole.subrange(end, whole.len() as int) =~= after);
}

/// Where the stored form of a text that may be absent stands in the
/// input, reading at that place gives it back.
pub proof fn lemma_read_back_optional_text(input: Seq<u8>, at: int, text: Option<Seq<char>>)
    requires
        optional_text_storable(text),
        stands_at(input, at, optional_text_encoding(text)),
    ensures
        parse_optional_text(input, at) == Some((text, at + optional_text_encoding(text).len())),
{
    lemma_read_back_fixed(input, at);
    match text {
        Some(t) => {
            lemma_part_stands(input, at, seq![1u8], text_encoding(t), Seq::empty());
            assert(seq![1u8] + text_encoding(t) + Seq::<u8>::empty() =~= seq![1u8] + text_encoding(
                t,
            ));
            assert(seq![1u8] =~= bool_encoding(true));
            lemma_read_back_text(input, at + 1, t);
        },
        None => {
            assert(seq![0u8] =~= bool_encoding(false));
        },
    }
}

/// Where the stored form of a number of two bytes that may be absent
/// stands in the input, reading at that place gives it back.
pub proof fn lemma_read_back_optional_u16(input: Seq<u8>, at: int, value: Option<u16>)
    requires
        stands_at(input, at, optional_u16_encoding(value)),
    ensures
        parse_optional_u16(input, at) == Some((value, at + optional_u16_encoding(value).len())),
{
    lemma_read_back_fixed(input, at);
    vstd::bytes::lemma_auto_spec_u16_to_from_le_bytes();
    match value {
        Some(v) => {
            lemma_part_stands(input, at, seq![1u8], spec_u16_to_le_bytes(v), Seq::empty());
            assert(seq![1u8] + spec_u16_to_le_bytes(v) + Seq::<u8>::empty() =~= seq![1u8]
                + spec_u16_to_le_bytes(v));
            assert(seq![1u8] =~= bool_encoding(true));
            lemma_read_back_fixed(input, at + 1);
        },
        None => {
            assert(seq![0u8] =~= bool_encoding(false));
        },
    }
}

/// Where the stored form of an address that may be absent stands in the
/// input, reading at that place gives it back.
pub proof fn lemma_read_back_optional_key(input: Seq<u8>, at: int, key: Option<Seq<u8>>)
    requires
        key matches Some(k) ==> k.len() == 32,
        stands_at(input, at, optional_key_encoding(key)),
    ensures
        parse_optional_key(input, at) == Some((key, at + optional_key_encoding(key).len())),
{
    lemma_read_back_fixed(input, at);
    match key {
        Some(k) => {
            lemma_part_stands(input, at, seq![1u8], k, Seq::empty());
            assert(seq![1u8] + k + Seq::<u8>::empty() =~= seq![1u8] + k);
            assert(seq![1u8] =~= bool_encoding(true));
            lemma_read_back_fixed(input, at + 1);
        },
        None => {
            assert(seq![0u8] =~= bool_encoding(false));
        },
    }
}

/// Where the stored form of an attribute stands in the input, reading at
/// that place gives it back.
pub proof fn lemma_read_back_attribute(input: Seq<u8>, at: int, attribute: (Seq<char>, Seq<char>))
    requires
        text_storable(attribute.0),
        text_storable(attribute.1),
        stands_at(input, at, attribute_encoding(attribute)),
    ensures
        parse_attribute(input, at) == Some((attribute, at + attribute_encoding(attribute).len())),
{
    lemma_part_stands(
        input,
        at,
        Seq::empty(),
        text_encoding(attribute.0),
        text_encoding(attribute.1),
    );
    assert(Seq::<u8>::empty() + text_encoding(attribute.0) + text_encoding(attribute.1)
        =~= attribute_encoding(attribute));
    lemma_read_back_text(input, at, attribute.0);
    lemma_read_back_text(input, at + text_encoding(attribute.0).len(), attribute.1);
}

/// Where the stored forms of some attributes stand in the input one after
/// the other, reading as many at that place gives them back.
pub proof fn lemma_read_back_attribute_run(
    input: Seq<u8>,
    at: int,
    items: Seq<(Seq<char>, Seq<char>)>,
)
    requires
        forall|i: int|
            #![trigger items[i]]
            0 <= i < items.len() ==> text_storable(items[i].0) && text_storable(items[i].1),
        stands_at(input, at, attribute_run_encoding(items)),
    ensures
        parse_attribute_run(input, at, items.len()) == Some(
            (items, at + attribute_run_encoding(items).len()),
        ),
    decreases items.len(),
{
    if items.len() == 0 {
        assert(items =~= Seq::empty());
    } else {
        let front = items.drop_last();
        let last = items.last();
        lemma_part_stands(
            input,
            at,
            attribute_run_encoding(front),
            attribute_encoding(last),
            Seq::empty(),
        );
        assert(attribute_run_encoding(front) + attribute_encoding(last) + Seq::<u8>::empty()
            =~= attribute_run_encoding(items));
        assert forall|i: int| #![trigger front[i]] 0 <= i < front.len() implies text_storable(
            front[i].0,
        ) && text_storable(front[i].1) by {
            assert(front[i] == items[i]);
        }
        lemma_read_back_attribute_run(input, at, front);
        assert(last == items[items.len() - 1]);
        lemma_read_back_attribute(input, at + attribute_run_encoding(front).len(), last);
        assert(front.push(last) =~= items);
    }
}

/// Where the stored form of a list of attributes that can be stored
/// stands in the input, reading at that place gives the list back.
pub proof fn lemma_read_back_attributes(
    input: Seq<u8>,
    at: int,
    items: Seq<(Seq<char>, Seq<char>)>,
)
    requires
        attributes_storable(items),
        stands_at(input, at, attributes_encoding(items)),
    ensures
        parse_attributes(input, at) == Some((items, at + attributes_encoding(items).len())),
{
    vstd::bytes::lemma_auto_spec_u32_to_from_le_bytes();
    let count = items.len() as u32;
    lemma_part_stands(
        input,
        at,
        Seq::empty(),
        spec_u32_to_le_bytes(count),
        attribute_run_encoding(items),
    );
    assert(Seq::<u8>::empty() + spec_u32_to_le_bytes(count) + attribute_run_encoding(items)
        =~= attributes_encoding(items));
    lemma_read_back_fixed(input, at);
    lemma_read_back_attribute_run(input, at + 4, items);
}

/// Where two runs of bytes stand at a place one after the other, each
/// stands at its own place.
pub proof fn lemma_split(input: Seq<u8>, at: int, before: Seq<u8>, part: Seq<u8>)
    requires
        stands_at(input, at, before + part),
    ensures
        stands_at(input, at, before),
        stands_at(input, at + before.len(), part),
        (before + part).len() == before.len() + part.len(),
{
    assert(before + part + Seq::<u8>::empty() =~= before + part);
    lemma_part_stands(input, at, before, part, Seq::empty());
}

/// Appending to what was appended is appending the two together.
pub proof fn lemma_appended(start: Seq<u8>, so_far: Seq<u8>, next: Seq<u8>)
    ensures
        (start + so_far) + next == start + (so_far + next),
{
    assert((start + so_far) + next =~= start + (so_far + next));
}

} // verus!
