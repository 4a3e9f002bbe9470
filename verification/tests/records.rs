use borsh::BorshSerialize;
use otakuverse::pubkey::Pubkey;
use otakuverse::state::community::{CommunityData, MessageData};
use otakuverse::state::nft::{NFTAttribute, NFTData, NFTRarity};

fn key(byte: u8) -> Pubkey {
    Pubkey::new_from_array([byte; 32])
}

fn text(s: &str) -> String {
    s.to_string()
}

fn sample() -> NFTData {
    let mut record = NFTData::new_with_details(
        key(1),
        key(2),
        text("Hero"),
        text("HR"),
        text("https://example.org/1"),
        text("Saga"),
        NFTRarity::Legendary,
        key(3),
        text("A hero"),
        Some(key(4)),
        vec![
            NFTAttribute { trait_type: text("hair"), value: text("blue") },
            NFTAttribute { trait_type: text("eyes"), value: text("green") },
        ],
        250,
    );
    record.set_for_sale(9_000);
    record.created_at = -7;
    record.verify();
    record
}

#[test]
fn record_is_written_field_by_field() {
    let expected = (
        ([1u8; 32], [2u8; 32], text("Hero"), text("HR"), text("https://example.org/1"), text("Saga")),
        (3u8, true, 9_000u64, -7i64, [3u8; 32], text("A hero")),
        (
            Some([4u8; 32]),
            vec![(text("hair"), text("blue")), (text("eyes"), text("green"))],
            250u16,
            true,
        ),
    )
        .try_to_vec()
        .unwrap();
    let record = sample();
    assert!(record.is_storable());
    assert_eq!(record.pack(), expected);
}

#[test]
fn record_reads_back_with_room_to_spare() {
    let record = sample();
    let mut data = record.pack();
    let length = data.len();
    data.extend_from_slice(&[0; 40]);
    let (read, end) = NFTData::unpack(&data).unwrap();
    assert_eq!(end, length);
    assert_eq!(read, record);
    let (exact, end) = NFTData::unpack(&data[..length]).unwrap();
    assert_eq!(end, length);
    assert_eq!(exact, record);
}

#[test]
fn empty_record_reads_back() {
    let record = NFTData::new();
    let data = record.pack();
    assert_eq!(data.len(), 32 + 32 + 4 * 4 + 1 + 1 + 8 + 8 + 32 + 4 + 1 + 4 + 2 + 1);
    assert_eq!(NFTData::unpack(&data), Some((record, data.len())));
}

#[test]
fn record_cut_short_or_malformed_is_not_read() {
    let data = sample().pack();
    for length in 0..data.len() {
        assert!(NFTData::unpack(&data[..length]).is_none());
    }
    let mut bad_rarity = NFTData::new().pack();
    bad_rarity[32 + 32 + 16] = 4;
    assert!(NFTData::unpack(&bad_rarity).is_none());
    let mut bad_flag = NFTData::new().pack();
    bad_flag[32 + 32 + 16 + 1] = 2;
    assert!(NFTData::unpack(&bad_flag).is_none());
}

#[test]
fn community_is_written_as_it_is_read() {
    let community = CommunityData {
        id: text("club"),
        name: text("The Club"),
        description: text("A place"),
        creator: key(8),
        created_at: 5,
    };
    let data = community.pack();
    let expected =
        (text("club"), text("The Club"), text("A place"), [8u8; 32], 5i64).try_to_vec().unwrap();
    assert_eq!(data, expected);
    assert_eq!(CommunityData::unpack_from_slice(&data), Ok(community));
}

#[test]
fn message_is_written_field_by_field() {
    let message = MessageData {
        community_id: text("club"),
        sender: key(1),
        content: text("hello"),
        sent_at: 77,
    };
    let expected = (text("club"), [1u8; 32], text("hello"), 77i64).try_to_vec().unwrap();
    assert_eq!(message.pack(), expected);
}
