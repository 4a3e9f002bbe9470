use borsh::BorshSerialize;
use otakuverse::instruction::{
    cancel_nft_listing, list_nft_for_sale, mint_enhanced_nft, mint_nft_reward, purchase_nft,
    send_community_message, update_nft_metadata, verify_nft, AccountMeta, Instruction,
    OtakuVerseInstruction,
};
use otakuverse::pubkey::Pubkey;
use otakuverse::state::nft::{NFTAttribute, NFTRarity};

fn key(byte: u8) -> Pubkey {
    Pubkey::new_from_array([byte; 32])
}

fn text(s: &str) -> String {
    s.to_string()
}

fn tagged(tag: u8, fields: Vec<u8>) -> Vec<u8> {
    let mut bytes = vec![tag];
    bytes.extend_from_slice(&fields);
    bytes
}

fn plain(request: &Instruction) -> Vec<([u8; 32], bool, bool)> {
    request.accounts.iter().map(|m| (m.pubkey.to_bytes(), m.is_signer, m.is_writable)).collect()
}

fn system_program() -> [u8; 32] {
    anchor_lang::solana_program::system_program::id().to_bytes()
}

fn mint_accounts() -> Vec<([u8; 32], bool, bool)> {
    vec![
        ([1; 32], true, false),
        ([2; 32], false, true),
        ([3; 32], false, true),
        ([4; 32], false, true),
        ([5; 32], false, false),
        ([6; 32], false, false),
        (system_program(), false, false),
        (spl_token::id().to_bytes(), false, false),
        (mpl_token_metadata::id().to_bytes(), false, false),
        (anchor_lang::solana_program::sysvar::rent::id().to_bytes(), false, false),
    ]
}

fn owner_accounts() -> Vec<([u8; 32], bool, bool)> {
    vec![([1; 32], true, false), ([2; 32], false, true), ([3; 32], false, false)]
}

#[test]
fn account_metas() {
    let writable = AccountMeta::new(key(1), true);
    assert!(writable.is_writable && writable.is_signer);
    let readonly = AccountMeta::new_readonly(key(1), false);
    assert!(!readonly.is_writable && !readonly.is_signer);
    assert!(readonly.pubkey.same(&key(1)));
}

#[test]
fn program_addresses_are_well_known() {
    assert_eq!(system_program(), [0u8; 32]);
    let request = mint_nft_reward(
        &key(9),
        &key(1),
        &key(2),
        &key(3),
        &key(4),
        &key(5),
        &key(6),
        text("n"),
        text("s"),
        text("u"),
        text("a"),
        text("rare"),
    );
    let accounts = plain(&request);
    assert_eq!(accounts[6].0, [0u8; 32]);
    assert_eq!(
        accounts[7].0,
        [
            6, 221, 246, 225, 215, 101, 161, 147, 217, 203, 225, 70, 206, 235, 121, 172, 28, 180,
            133, 237, 95, 91, 55, 145, 58, 140, 245, 133, 126, 255, 0, 169
        ]
    );
    assert_eq!(
        accounts[8].0,
        [
            11, 112, 101, 177, 227, 209, 124, 69, 56, 157, 82, 127, 107, 4, 195, 205, 88, 184,
            108, 115, 26, 160, 253, 181, 73, 182, 209, 188, 3, 248, 41, 70
        ]
    );
    assert_eq!(
        accounts[9].0,
        [
            6, 167, 213, 23, 25, 44, 92, 81, 33, 140, 201, 76, 61, 74, 241, 127, 88, 218, 238, 8,
            155, 161, 253, 68, 227, 219, 217, 138, 0, 0, 0, 0
        ]
    );
}

#[test]
fn mint_reward_request() {
    let request = mint_nft_reward(
        &key(9),
        &key(1),
        &key(2),
        &key(3),
        &key(4),
        &key(5),
        &key(6),
        text("Hero"),
        text("HR"),
        text("https://example.org"),
        text("Saga"),
        text("epic"),
    );
    assert!(request.program_id.same(&key(9)));
    assert_eq!(plain(&request), mint_accounts());
    let fields = (text("Hero"), text("HR"), text("https://example.org"), text("Saga"), text("epic"))
        .try_to_vec()
        .unwrap();
    assert_eq!(request.data, tagged(0, fields));
}

#[test]
fn mint_enhanced_request() {
    let attributes = vec![NFTAttribute { trait_type: text("hair"), value: text("blue") }];
    let request = mint_enhanced_nft(
        &key(9),
        &key(1),
        &key(2),
        &key(3),
        &key(4),
        &key(5),
        &key(6),
        text("Hero"),
        text("HR"),
        text("uri"),
        text("Saga"),
        NFTRarity::Legendary,
        text("A hero"),
        Some(key(7)),
        attributes,
        250,
    );
    assert!(request.program_id.same(&key(9)));
    assert_eq!(plain(&request), mint_accounts());
    let fields = (
        text("Hero"),
        text("HR"),
        text("uri"),
        text("Saga"),
        3u8,
        text("A hero"),
        Some([7u8; 32]),
        vec![(text("hair"), text("blue"))],
        250u16,
    )
        .try_to_vec()
        .unwrap();
    assert_eq!(request.data, tagged(1, fields));
}

#[test]
fn purchase_request() {
    let request = purchase_nft(&key(9), &key(1), &key(2), &key(3), &key(4), &key(5), 1_000_000);
    assert_eq!(
        plain(&request),
        vec![
            ([1; 32], true, true),
            ([2; 32], false, true),
            ([3; 32], false, false),
            ([4; 32], false, true),
            ([5; 32], false, true),
            (system_program(), false, false),
            (spl_token::id().to_bytes(), false, false),
        ]
    );
    assert_eq!(request.data, tagged(2, 1_000_000u64.try_to_vec().unwrap()));
}

#[test]
fn update_request() {
    let request = update_nft_metadata(
        &key(9),
        &key(1),
        &key(2),
        &key(3),
        Some(text("new uri")),
        None,
        Some(text("new description")),
        vec![NFTAttribute { trait_type: text("eyes"), value: text("green") }],
        Some(300),
    );
    assert_eq!(plain(&request), owner_accounts());
    let fields = (
        Some(text("new uri")),
        None::<String>,
        Some(text("new description")),
        vec![(text("eyes"), text("green"))],
        Some(300u16),
    )
        .try_to_vec()
        .unwrap();
    assert_eq!(request.data, tagged(3, fields));
}

#[test]
fn verify_list_and_cancel_requests() {
    let verify = verify_nft(&key(9), &key(1), &key(2), &key(3), key(8));
    assert_eq!(plain(&verify), owner_accounts());
    assert_eq!(verify.data, tagged(4, vec![8; 32]));
    let list = list_nft_for_sale(&key(9), &key(1), &key(2), &key(3), 77);
    assert_eq!(plain(&list), owner_accounts());
    assert_eq!(list.data, tagged(5, 77u64.try_to_vec().unwrap()));
    let cancel = cancel_nft_listing(&key(9), &key(1), &key(2), &key(3));
    assert_eq!(plain(&cancel), owner_accounts());
    assert_eq!(cancel.data, vec![6]);
    assert!(cancel.program_id.same(&key(9)));
}

#[test]
fn message_request() {
    let request =
        send_community_message(&key(9), &key(1), &key(2), &key(3), text("club"), text("hello"));
    assert_eq!(
        plain(&request),
        vec![
            ([1; 32], true, true),
            ([2; 32], false, true),
            ([3; 32], false, true),
            (system_program(), false, false),
        ]
    );
    assert_eq!(request.data, tagged(7, (text("club"), text("hello")).try_to_vec().unwrap()));
}

#[test]
fn every_request_reads_back_as_written() {
    let requests = vec![
        OtakuVerseInstruction::MintNFTReward {
            name: text("n"),
            symbol: text("s"),
            uri: text("u"),
            anime_title: text("a"),
            rarity: text("Rare"),
        },
        OtakuVerseInstruction::MintEnhancedNFT {
            name: text("n"),
            symbol: text("s"),
            uri: text("u"),
            anime_title: text("a"),
            rarity: NFTRarity::Epic,
            description: text("d"),
            collection_id: None,
            attributes: vec![
                NFTAttribute { trait_type: text("t1"), value: text("v1") },
                NFTAttribute { trait_type: text("t2"), value: text("v2") },
            ],
            royalty_basis_points: 10_000,
        },
        OtakuVerseInstruction::PurchaseNFT { price: u64::MAX },
        OtakuVerseInstruction::UpdateNFTMetadata {
            uri: None,
            name: Some(text("名前")),
            description: None,
            attributes_to_add: vec![],
            royalty_basis_points: None,
        },
        OtakuVerseInstruction::VerifyNFT { mint: key(4) },
        OtakuVerseInstruction::ListNFTForSale { price: 0 },
        OtakuVerseInstruction::CancelNFTListing,
        OtakuVerseInstruction::SendCommunityMessage { community_id: text("c"), content: text("") },
    ];
    for request in requests {
        let data = request.pack();
        let read = OtakuVerseInstruction::unpack(&data).unwrap();
        assert_eq!(read.pack(), data);
        assert_eq!(format!("{:?}", read), format!("{:?}", request));
        let mut longer = data.clone();
        longer.push(0);
        assert!(OtakuVerseInstruction::unpack(&longer).is_none());
        let mut shorter = data.clone();
        shorter.pop();
        assert!(
            OtakuVerseInstruction::unpack(&shorter).is_none()
                || matches!(request, OtakuVerseInstruction::CancelNFTListing)
        );
    }
}

#[test]
fn unknown_requests_are_not_read() {
    assert!(OtakuVerseInstruction::unpack(&[]).is_none());
    assert!(OtakuVerseInstruction::unpack(&[8]).is_none());
    assert!(OtakuVerseInstruction::unpack(&[255, 1, 2]).is_none());
    assert!(OtakuVerseInstruction::unpack(&[2, 1, 2]).is_none());
    assert!(matches!(
        OtakuVerseInstruction::unpack(&[6]),
        Some(OtakuVerseInstruction::CancelNFTListing)
    ));
}
