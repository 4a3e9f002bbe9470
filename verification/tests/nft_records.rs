use otakuverse::pubkey::Pubkey;
use otakuverse::state::nft::{NFTAttribute, NFTData, NFTRarity};

fn key(byte: u8) -> Pubkey {
    Pubkey::new_from_array([byte; 32])
}

#[test]
fn royalty_of_250_basis_points_on_10000_is_250() {
    let mut nft = NFTData::new();
    nft.set_royalty(250);
    assert_eq!(nft.calculate_royalty(10000), 250);
}

#[test]
fn royalty_of_zero_rate_is_zero() {
    let nft = NFTData::new();
    assert_eq!(nft.calculate_royalty(0), 0);
    assert_eq!(nft.calculate_royalty(1), 0);
    assert_eq!(nft.calculate_royalty(u64::MAX), 0);
}

#[test]
fn royalty_rounds_down() {
    let mut nft = NFTData::new();
    nft.set_royalty(250);
    assert_eq!(nft.calculate_royalty(39), 0);
    assert_eq!(nft.calculate_royalty(40), 1);
    assert_eq!(nft.calculate_royalty(79), 1);
    nft.set_royalty(10000);
    assert_eq!(nft.calculate_royalty(u64::MAX), u64::MAX);
}

#[test]
fn royalty_above_full_rate_is_ignored() {
    let mut nft = NFTData::new();
    nft.set_royalty(500);
    nft.set_royalty(10001);
    assert_eq!(nft.royalty_basis_points, 500);
    nft.set_royalty(10000);
    assert_eq!(nft.royalty_basis_points, 10000);
}

#[test]
fn verify_twice_stays_verified() {
    let mut nft = NFTData::new();
    assert!(!nft.is_verified);
    nft.verify();
    assert!(nft.is_verified);
    nft.verify();
    assert!(nft.is_verified);
}

#[test]
fn new_record_is_empty() {
    let nft = NFTData::new();
    assert_eq!(nft.mint.to_bytes(), [0u8; 32]);
    assert_eq!(nft.owner.to_bytes(), [0u8; 32]);
    assert_eq!(nft.creator.to_bytes(), [0u8; 32]);
    assert_eq!(nft.name, "");
    assert_eq!(nft.rarity, NFTRarity::Common);
    assert!(!nft.is_for_sale);
    assert_eq!(nft.price, 0);
    assert!(nft.collection_id.is_none());
    assert!(nft.attributes.is_empty());
    assert_eq!(nft.royalty_basis_points, 0);
    assert!(!nft.is_verified);
}

#[test]
fn listing_and_transfer() {
    let mut nft = NFTData::new_with_details(
        key(1),
        key(2),
        "Hero".to_string(),
        "HR".to_string(),
        "https://example.org/1".to_string(),
        "Saga".to_string(),
        NFTRarity::Epic,
        key(3),
        "A hero".to_string(),
        Some(key(4)),
        vec![NFTAttribute { trait_type: "hair".to_string(), value: "blue".to_string() }],
        250,
    );
    assert!(!nft.is_for_sale);
    assert_eq!(nft.created_at, 0);
    nft.set_for_sale(5000);
    assert!(nft.is_for_sale);
    assert_eq!(nft.price, 5000);
    nft.remove_from_sale();
    assert!(!nft.is_for_sale);
    assert_eq!(nft.price, 5000);
    nft.set_for_sale(7000);
    nft.transfer(key(9));
    assert!(nft.owner.same(&key(9)));
    assert!(!nft.is_for_sale);
    nft.add_attribute("eyes".to_string(), "green".to_string());
    assert_eq!(nft.attributes.len(), 2);
    assert_eq!(nft.attributes[1].trait_type, "eyes");
    assert_eq!(nft.attributes[1].value, "green");
    nft.remove_from_collection();
    assert!(nft.collection_id.is_none());
    nft.set_collection(key(5));
    assert!(nft.collection_id.unwrap().same(&key(5)));
}

#[test]
fn rarity_names() {
    assert_eq!(NFTRarity::from_str("common"), NFTRarity::Common);
    assert_eq!(NFTRarity::from_str("RARE"), NFTRarity::Rare);
    assert_eq!(NFTRarity::from_str("Epic"), NFTRarity::Epic);
    assert_eq!(NFTRarity::from_str("lEgEnDaRy"), NFTRarity::Legendary);
    assert_eq!(NFTRarity::from_str("mythic"), NFTRarity::Common);
    assert_eq!(NFTRarity::from_str(""), NFTRarity::Common);
    assert_eq!(NFTRarity::Common.to_string(), "Common");
    assert_eq!(NFTRarity::Rare.to_string(), "Rare");
    assert_eq!(NFTRarity::Epic.to_string(), "Epic");
    assert_eq!(NFTRarity::Legendary.to_string(), "Legendary");
}
