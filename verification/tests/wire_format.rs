use borsh::BorshSerialize;
use otakuverse::error::ProgramError;
use otakuverse::pubkey::Pubkey;
use otakuverse::state::community::CommunityData;
use otakuverse::state::nft::{NFTAttribute, NFTRarity};
use otakuverse::wire::{
    put_attributes, put_bool, put_i64, put_key, put_optional_key, put_optional_text,
    put_optional_u16, put_rarity, put_text, put_u16, put_u32, put_u64, put_u8, read_attributes,
    read_bool, read_i64, read_key, read_optional_key, read_optional_text, read_optional_u16,
    read_rarity, read_text, read_u16, read_u32, read_u64, read_u8,
};

fn community_bytes(id: &str, name: &str, description: &str, creator: [u8; 32], at: i64) -> Vec<u8> {
    (id.to_string(), name.to_string(), description.to_string(), creator, at).try_to_vec().unwrap()
}

#[test]
fn numbers_are_read_lowest_byte_first() {
    let input = [1u8, 2, 3, 4, 5, 6, 7, 8, 9];
    assert_eq!(read_u8(&input, 0), Some((1, 1)));
    assert_eq!(read_u8(&input, 8), Some((9, 9)));
    assert_eq!(read_u8(&input, 9), None);
    assert_eq!(read_u16(&input, 0), Some((0x0201, 2)));
    assert_eq!(read_u16(&input, 8), None);
    assert_eq!(read_u32(&input, 1), Some((0x05040302, 5)));
    assert_eq!(read_u32(&input, 6), None);
    assert_eq!(read_u64(&input, 1), Some((0x0908070605040302, 9)));
    assert_eq!(read_u64(&input, 2), None);
    assert_eq!(read_i64(&[0xff; 8], 0), Some((-1, 8)));
    assert_eq!(read_i64(&input, 0), Some((0x0807060504030201, 8)));
    assert_eq!(read_u8(&input, usize::MAX), None);
    assert_eq!(read_u64(&input, usize::MAX), None);
}

#[test]
fn flags_are_zero_or_one() {
    assert_eq!(read_bool(&[0], 0), Some((false, 1)));
    assert_eq!(read_bool(&[1], 0), Some((true, 1)));
    assert_eq!(read_bool(&[2], 0), None);
    assert_eq!(read_bool(&[], 0), None);
}

#[test]
fn text_is_read_as_borsh_writes_it() {
    let encoded = "héllo".to_string().try_to_vec().unwrap();
    assert_eq!(encoded, vec![6, 0, 0, 0, b'h', 0xc3, 0xa9, b'l', b'l', b'o']);
    assert_eq!(read_text(&encoded, 0), Some(("héllo".to_string(), 10)));
    let mut padded = vec![9u8, 9];
    padded.extend_from_slice(&encoded);
    padded.push(7);
    assert_eq!(read_text(&padded, 2), Some(("héllo".to_string(), 12)));
    assert_eq!(read_text(&[0, 0, 0, 0], 0), Some((String::new(), 4)));
}

#[test]
fn text_that_is_cut_short_or_not_utf8_is_refused() {
    assert_eq!(read_text(&[3, 0, 0, 0, b'a', b'b'], 0), None);
    assert_eq!(read_text(&[3, 0, 0], 0), None);
    assert_eq!(read_text(&[1, 0, 0, 0, 0xff], 0), None);
    assert_eq!(read_text(&[2, 0, 0, 0, 0xc3, b'a'], 0), None);
    assert_eq!(read_text(&[0xff, 0xff, 0xff, 0xff, b'a'], 0), None);
}

#[test]
fn text_is_written_as_borsh_writes_it() {
    let mut out = vec![7u8];
    put_text(&mut out, &"héllo".to_string());
    let mut expected = vec![7u8];
    expected.extend_from_slice(&"héllo".to_string().try_to_vec().unwrap());
    assert_eq!(out, expected);
}

#[test]
fn numbers_are_written_as_borsh_writes_them() {
    let mut out = Vec::new();
    put_u8(&mut out, 0xab);
    put_bool(&mut out, true);
    put_bool(&mut out, false);
    put_u16(&mut out, 0x1234);
    put_u32(&mut out, 0x89abcdef);
    put_u64(&mut out, 0x0123456789abcdef);
    put_i64(&mut out, -2);
    let expected =
        (0xabu8, true, false, 0x1234u16, 0x89abcdefu32, 0x0123456789abcdefu64, -2i64)
            .try_to_vec()
            .unwrap();
    assert_eq!(out, expected);
}

#[test]
fn keys_and_options_round_trip() {
    let key = Pubkey::new_from_array([3; 32]);
    let mut out = Vec::new();
    put_key(&mut out, &key);
    put_optional_key(&mut out, &Some(key));
    put_optional_key(&mut out, &None);
    put_optional_text(&mut out, &Some("x".to_string()));
    put_optional_text(&mut out, &None);
    put_optional_u16(&mut out, Some(500));
    put_optional_u16(&mut out, None);
    let expected = (
        [3u8; 32],
        Some([3u8; 32]),
        None::<[u8; 32]>,
        Some("x".to_string()),
        None::<String>,
        Some(500u16),
        None::<u16>,
    )
        .try_to_vec()
        .unwrap();
    assert_eq!(out, expected);
    let (read, at) = read_key(&out, 0).unwrap();
    assert!(read.same(&key));
    let (read, at) = read_optional_key(&out, at).unwrap();
    assert!(read.unwrap().same(&key));
    let (read, at) = read_optional_key(&out, at).unwrap();
    assert!(read.is_none());
    let (read, at) = read_optional_text(&out, at).unwrap();
    assert_eq!(read, Some("x".to_string()));
    let (read, at) = read_optional_text(&out, at).unwrap();
    assert_eq!(read, None);
    let (read, at) = read_optional_u16(&out, at).unwrap();
    assert_eq!(read, Some(500));
    let (read, at) = read_optional_u16(&out, at).unwrap();
    assert_eq!(read, None);
    assert_eq!(at, out.len());
    assert!(read_key(&out, out.len() - 31).is_none());
    assert!(read_optional_u16(&[2, 0, 0], 0).is_none());
    assert!(read_optional_text(&[1, 9, 0, 0, 0], 0).is_none());
}

#[test]
fn rarity_is_one_byte_below_four() {
    let mut out = Vec::new();
    put_rarity(&mut out, NFTRarity::Common);
    put_rarity(&mut out, NFTRarity::Rare);
    put_rarity(&mut out, NFTRarity::Epic);
    put_rarity(&mut out, NFTRarity::Legendary);
    assert_eq!(out, vec![0, 1, 2, 3]);
    assert_eq!(read_rarity(&out, 0), Some((NFTRarity::Common, 1)));
    assert_eq!(read_rarity(&out, 1), Some((NFTRarity::Rare, 2)));
    assert_eq!(read_rarity(&out, 2), Some((NFTRarity::Epic, 3)));
    assert_eq!(read_rarity(&out, 3), Some((NFTRarity::Legendary, 4)));
    assert_eq!(read_rarity(&[4], 0), None);
    assert_eq!(read_rarity(&out, 4), None);
}

#[test]
fn attributes_round_trip_as_borsh_writes_them() {
    let items = vec![
        NFTAttribute { trait_type: "hair".to_string(), value: "blue".to_string() },
        NFTAttribute { trait_type: "eyes".to_string(), value: "".to_string() },
    ];
    let mut out = Vec::new();
    put_attributes(&mut out, &items);
    let expected = vec![
        ("hair".to_string(), "blue".to_string()),
        ("eyes".to_string(), "".to_string()),
    ]
    .try_to_vec()
    .unwrap();
    assert_eq!(out, expected);
    let (read, at) = read_attributes(&out, 0).unwrap();
    assert_eq!(at, out.len());
    assert_eq!(read.len(), 2);
    assert_eq!(read[0].trait_type, "hair");
    assert_eq!(read[0].value, "blue");
    assert_eq!(read[1].trait_type, "eyes");
    assert_eq!(read[1].value, "");
    let mut empty = Vec::new();
    put_attributes(&mut empty, &Vec::new());
    assert_eq!(empty, vec![0, 0, 0, 0]);
    assert_eq!(read_attributes(&empty, 0).unwrap().0.len(), 0);
    assert!(read_attributes(&out[..out.len() - 1], 0).is_none());
    assert!(read_attributes(&[3, 0, 0, 0], 0).is_none());
}

#[test]
fn community_is_read_from_its_stored_form() {
    let bytes = community_bytes("club", "The Club", "A place", [8; 32], -5);
    let community = CommunityData::unpack_from_slice(&bytes).unwrap();
    assert_eq!(community.id, "club");
    assert_eq!(community.name, "The Club");
    assert_eq!(community.description, "A place");
    assert_eq!(community.creator.to_bytes(), [8; 32]);
    assert_eq!(community.created_at, -5);
}

#[test]
fn community_with_bytes_left_over_or_missing_is_invalid_account_data() {
    let mut bytes = community_bytes("club", "The Club", "A place", [8; 32], 1);
    bytes.push(0);
    assert_eq!(
        CommunityData::unpack_from_slice(&bytes).unwrap_err(),
        ProgramError::InvalidAccountData
    );
    bytes.pop();
    bytes.pop();
    assert_eq!(
        CommunityData::unpack_from_slice(&bytes).unwrap_err(),
        ProgramError::InvalidAccountData
    );
    assert_eq!(CommunityData::unpack_from_slice(&[]).unwrap_err(), ProgramError::InvalidAccountData);
    let mut bad = community_bytes("club", "The Club", "A place", [8; 32], 1);
    bad[4] = 0xff;
    assert_eq!(
        CommunityData::unpack_from_slice(&bad).unwrap_err(),
        ProgramError::InvalidAccountData
    );
}
