use anchor_lang::prelude::Pubkey as ProgramKey;
use anchor_lang::solana_program::instruction::Instruction as ProgramRequest;
use anchor_lang::solana_program::system_instruction;
use borsh::BorshSerialize;
use mpl_token_metadata::state::Creator;
use otakuverse::error::{OtakuVerseError, ProgramError};
use otakuverse::instruction::{
    list_nft_for_sale, mint_enhanced_nft, mint_nft_reward, purchase_nft, send_community_message,
    update_nft_metadata, verify_nft, cancel_nft_listing, Instruction,
};
use otakuverse::processor::{
    check_signer, process_cancel_nft_listing, process_list_nft_for_sale,
    process_mint_enhanced_nft, process_mint_nft_reward, process_purchase_nft,
    process_send_community_message, process_update_nft_metadata, process_verify_nft, AccountInfo,
    Invocation, Runtime,
};
use otakuverse::pubkey::Pubkey;
use otakuverse::state::nft::{NFTAttribute, NFTData, NFTRarity};

fn key(byte: u8) -> Pubkey {
    Pubkey::new_from_array([byte; 32])
}

fn outside(byte: u8) -> ProgramKey {
    ProgramKey::new_from_array([byte; 32])
}

fn text(s: &str) -> String {
    s.to_string()
}

fn account(byte: u8, is_signer: bool) -> AccountInfo {
    AccountInfo { key: key(byte), is_signer, is_writable: true, data: Vec::new() }
}

fn accounts(count: u8, signed: bool) -> Vec<AccountInfo> {
    (0..count).map(|i| account(i + 1, signed && i == 0)).collect()
}

fn runtime() -> Runtime {
    Runtime { unix_timestamp: 1_700_000_000, mint_rent: 1_461_600 }
}

fn custom(e: OtakuVerseError) -> ProgramError {
    ProgramError::Custom(e.code())
}

fn record_owned_by(owner: u8) -> NFTData {
    NFTData::new_with_details(
        key(50),
        key(owner),
        text("Hero"),
        text("HR"),
        text("uri"),
        text("Saga"),
        NFTRarity::Rare,
        key(owner),
        text("A hero"),
        None,
        vec![NFTAttribute { trait_type: text("hair"), value: text("blue") }],
        250,
    )
}

fn same_request(ours: &Instruction, theirs: &ProgramRequest) {
    assert_eq!(ours.program_id.to_bytes(), theirs.program_id.to_bytes());
    assert_eq!(ours.data, theirs.data);
    assert_eq!(ours.accounts.len(), theirs.accounts.len());
    for (a, b) in ours.accounts.iter().zip(theirs.accounts.iter()) {
        assert_eq!(a.pubkey.to_bytes(), b.pubkey.to_bytes());
        assert_eq!(a.is_signer, b.is_signer);
        assert_eq!(a.is_writable, b.is_writable);
    }
}

fn handed(invocation: &Invocation) -> Vec<u8> {
    invocation.accounts.iter().map(|k| k.to_bytes()[0]).collect()
}

fn check_mint_plan(plan: &[Invocation], creators: Option<Vec<Creator>>, fee: u16) {
    assert_eq!(plan.len(), 5);
    same_request(
        &plan[0].instruction,
        &system_instruction::create_account(&outside(1), &outside(2), 1_461_600, 82, &spl_token::id()),
    );
    assert_eq!(handed(&plan[0]), vec![1, 2]);
    same_request(
        &plan[1].instruction,
        &spl_token::instruction::initialize_mint(
            &spl_token::id(),
            &outside(2),
            &outside(5),
            Some(&outside(6)),
            0,
        )
        .unwrap(),
    );
    assert_eq!(handed(&plan[1]), vec![2, 10, 8]);
    same_request(
        &plan[2].instruction,
        &spl_associated_token_account::instruction::create_associated_token_account(
            &outside(1),
            &outside(1),
            &outside(2),
            &spl_token::id(),
        ),
    );
    assert_eq!(plan[2].instruction.data, vec![0]);
    assert_eq!(handed(&plan[2]), vec![1, 3, 1, 2, 7, 8]);
    same_request(
        &plan[3].instruction,
        &spl_token::instruction::mint_to(
            &spl_token::id(),
            &outside(2),
            &outside(3),
            &outside(5),
            &[],
            1,
        )
        .unwrap(),
    );
    assert_eq!(handed(&plan[3]), vec![2, 3, 5, 8]);
    same_request(
        &plan[4].instruction,
        &mpl_token_metadata::instruction::create_metadata_accounts_v3(
            outside(9),
            outside(4),
            outside(2),
            outside(5),
            outside(1),
            outside(6),
            text("Hero"),
            text("HR"),
            text("uri"),
            creators,
            fee,
            true,
            true,
            None,
            None,
            None,
        ),
    );
    assert_eq!(handed(&plan[4]), vec![4, 2, 5, 1, 6, 7, 10, 9]);
}

#[test]
fn signer_check() {
    assert_eq!(check_signer(&accounts(3, true), 3), Ok(()));
    assert_eq!(check_signer(&accounts(2, true), 3), Err(ProgramError::NotEnoughAccountKeys));
    assert_eq!(check_signer(&accounts(3, false), 3), Err(custom(OtakuVerseError::Unauthorized)));
    assert_eq!(check_signer(&[], 1), Err(ProgramError::NotEnoughAccountKeys));
    assert_eq!(check_signer(&[], 0), Err(ProgramError::NotEnoughAccountKeys));
    assert_eq!(check_signer(&accounts(1, true), 0), Ok(()));
}

#[test]
fn mint_reward_plans_five_requests_and_records_the_token() {
    let mut record = None;
    let plan = process_mint_nft_reward(
        &key(99),
        &accounts(10, true),
        text("Hero"),
        text("HR"),
        text("uri"),
        text("Saga"),
        text("LEGENDARY"),
        &runtime(),
        &mut record,
    )
    .unwrap();
    check_mint_plan(&plan, None, 0);
    let nft = record.unwrap();
    assert_eq!(nft.mint.to_bytes(), [2; 32]);
    assert_eq!(nft.owner.to_bytes(), [1; 32]);
    assert_eq!(nft.creator.to_bytes(), [1; 32]);
    assert_eq!(nft.name, "Hero");
    assert_eq!(nft.symbol, "HR");
    assert_eq!(nft.uri, "uri");
    assert_eq!(nft.anime_title, "Saga");
    assert_eq!(nft.rarity, NFTRarity::Legendary);
    assert_eq!(nft.created_at, 1_700_000_000);
    assert_eq!(nft.description, "");
    assert!(nft.collection_id.is_none());
    assert!(nft.attributes.is_empty());
    assert_eq!(nft.royalty_basis_points, 0);
    assert_eq!(nft.price, 0);
    assert!(!nft.is_for_sale);
    assert!(!nft.is_verified);
}

#[test]
fn mint_enhanced_names_the_authority_as_creator() {
    let mut record = None;
    let plan = process_mint_enhanced_nft(
        &key(99),
        &accounts(10, true),
        text("Hero"),
        text("HR"),
        text("uri"),
        text("Saga"),
        NFTRarity::Epic,
        text("A hero"),
        Some(key(70)),
        vec![NFTAttribute { trait_type: text("hair"), value: text("blue") }],
        250,
        &runtime(),
        &mut record,
    )
    .unwrap();
    let creators = vec![Creator { address: outside(1), verified: true, share: 2 }];
    check_mint_plan(&plan, Some(creators), 250);
    let nft = record.unwrap();
    assert_eq!(nft.rarity, NFTRarity::Epic);
    assert_eq!(nft.description, "A hero");
    assert_eq!(nft.collection_id.unwrap().to_bytes(), [70; 32]);
    assert_eq!(nft.attributes.len(), 1);
    assert_eq!(nft.attributes[0].trait_type, "hair");
    assert_eq!(nft.royalty_basis_points, 250);
    assert_eq!(nft.created_at, 1_700_000_000);
    assert_eq!(nft.calculate_royalty(10_000), 250);
    assert!(!nft.is_verified);
    assert!(!nft.is_for_sale);
}

#[test]
fn mint_refusals() {
    let mut record = None;
    let few = process_mint_nft_reward(
        &key(99),
        &accounts(9, true),
        text("n"),
        text("s"),
        text("u"),
        text("a"),
        text("rare"),
        &runtime(),
        &mut record,
    );
    assert_eq!(few.unwrap_err(), ProgramError::NotEnoughAccountKeys);
    let unsigned = process_mint_nft_reward(
        &key(99),
        &accounts(10, false),
        text("n"),
        text("s"),
        text("u"),
        text("a"),
        text("rare"),
        &runtime(),
        &mut record,
    );
    assert_eq!(unsigned.unwrap_err(), custom(OtakuVerseError::Unauthorized));
    assert!(record.is_none());
    let steep = process_mint_enhanced_nft(
        &key(99),
        &accounts(10, true),
        text("n"),
        text("s"),
        text("u"),
        text("a"),
        NFTRarity::Common,
        text("d"),
        None,
        vec![],
        10_001,
        &runtime(),
        &mut record,
    );
    assert_eq!(steep.unwrap_err(), custom(OtakuVerseError::InvalidNFTMetadata));
    assert!(record.is_none());
    let mut taken = Some(record_owned_by(1));
    let again = process_mint_nft_reward(
        &key(99),
        &accounts(10, true),
        text("n"),
        text("s"),
        text("u"),
        text("a"),
        text("rare"),
        &runtime(),
        &mut taken,
    );
    assert_eq!(again.unwrap_err(), custom(OtakuVerseError::NFTAlreadyExists));
    assert_eq!(taken.unwrap().name, "Hero");
}

#[test]
fn purchase_moves_the_price_and_one_token() {
    let plan = process_purchase_nft(&key(99), &accounts(7, true), 5_000).unwrap();
    assert_eq!(plan.len(), 2);
    same_request(&plan[0].instruction, &system_instruction::transfer(&outside(1), &outside(2), 5_000));
    assert_eq!(handed(&plan[0]), vec![1, 2, 6]);
    same_request(
        &plan[1].instruction,
        &spl_token::instruction::transfer(
            &spl_token::id(),
            &outside(5),
            &outside(4),
            &outside(2),
            &[],
            1,
        )
        .unwrap(),
    );
    assert_eq!(handed(&plan[1]), vec![5, 4, 2, 7]);
    assert_eq!(
        process_purchase_nft(&key(99), &accounts(6, true), 1).unwrap_err(),
        ProgramError::NotEnoughAccountKeys
    );
    assert_eq!(
        process_purchase_nft(&key(99), &accounts(7, false), 1).unwrap_err(),
        custom(OtakuVerseError::Unauthorized)
    );
}

#[test]
fn listing_is_for_the_owner() {
    let mut record = Some(record_owned_by(1));
    process_list_nft_for_sale(&key(99), &accounts(3, true), 900, &mut record).unwrap();
    assert!(record.as_ref().unwrap().is_for_sale);
    assert_eq!(record.as_ref().unwrap().price, 900);
    process_cancel_nft_listing(&key(99), &accounts(3, true), &mut record).unwrap();
    assert!(!record.as_ref().unwrap().is_for_sale);
    assert_eq!(record.as_ref().unwrap().price, 900);
    let mut other = Some(record_owned_by(2));
    let outcome = process_list_nft_for_sale(&key(99), &accounts(3, true), 900, &mut other);
    assert_eq!(outcome.unwrap_err(), custom(OtakuVerseError::Unauthorized));
    assert!(!other.as_ref().unwrap().is_for_sale);
    let outcome = process_cancel_nft_listing(&key(99), &accounts(3, false), &mut record);
    assert_eq!(outcome.unwrap_err(), custom(OtakuVerseError::Unauthorized));
    let outcome = process_list_nft_for_sale(&key(99), &accounts(2, true), 900, &mut record);
    assert_eq!(outcome.unwrap_err(), ProgramError::NotEnoughAccountKeys);
    let mut none = None;
    let outcome = process_list_nft_for_sale(&key(99), &accounts(3, true), 900, &mut none);
    assert_eq!(outcome.unwrap_err(), custom(OtakuVerseError::NFTNotFound));
    assert!(none.is_none());
}

#[test]
fn verify_is_idempotent() {
    let mut record = Some(record_owned_by(1));
    process_verify_nft(&key(99), &accounts(3, true), key(50), &mut record).unwrap();
    assert!(record.as_ref().unwrap().is_verified);
    let before = format!("{:?}", record);
    process_verify_nft(&key(99), &accounts(3, true), key(50), &mut record).unwrap();
    assert!(record.as_ref().unwrap().is_verified);
    assert_eq!(format!("{:?}", record), before);
}

#[test]
fn verify_refusals_change_nothing() {
    let mut record = Some(record_owned_by(1));
    let outcome = process_verify_nft(&key(99), &accounts(3, true), key(51), &mut record);
    assert_eq!(outcome.unwrap_err(), custom(OtakuVerseError::NFTNotFound));
    let outcome = process_verify_nft(&key(99), &accounts(3, false), key(50), &mut record);
    assert_eq!(outcome.unwrap_err(), custom(OtakuVerseError::Unauthorized));
    assert!(!record.as_ref().unwrap().is_verified);
    let mut none = None;
    let outcome = process_verify_nft(&key(99), &accounts(3, true), key(50), &mut none);
    assert_eq!(outcome.unwrap_err(), custom(OtakuVerseError::NFTNotFound));
}

#[test]
fn update_replaces_what_is_given_and_appends_attributes() {
    let mut record = Some(record_owned_by(1));
    process_update_nft_metadata(
        &key(99),
        &accounts(3, true),
        Some(text("new uri")),
        None,
        Some(text("new description")),
        vec![
            NFTAttribute { trait_type: text("eyes"), value: text("green") },
            NFTAttribute { trait_type: text("cape"), value: text("red") },
        ],
        Some(10_000),
        &mut record,
    )
    .unwrap();
    let nft = record.as_ref().unwrap();
    assert_eq!(nft.uri, "new uri");
    assert_eq!(nft.name, "Hero");
    assert_eq!(nft.description, "new description");
    assert_eq!(nft.royalty_basis_points, 10_000);
    let traits: Vec<&str> = nft.attributes.iter().map(|a| a.trait_type.as_str()).collect();
    assert_eq!(traits, vec!["hair", "eyes", "cape"]);
    process_update_nft_metadata(&key(99), &accounts(3, true), None, None, None, vec![], None, &mut record)
        .unwrap();
    let nft = record.as_ref().unwrap();
    assert_eq!(nft.uri, "new uri");
    assert_eq!(nft.royalty_basis_points, 10_000);
    assert_eq!(nft.attributes.len(), 3);
}

#[test]
fn update_with_a_royalty_above_full_rate_is_refused() {
    let mut record = Some(record_owned_by(1));
    let outcome = process_update_nft_metadata(
        &key(99),
        &accounts(3, true),
        Some(text("new uri")),
        None,
        None,
        vec![NFTAttribute { trait_type: text("eyes"), value: text("green") }],
        Some(10_001),
        &mut record,
    );
    assert_eq!(outcome.unwrap_err(), custom(OtakuVerseError::InvalidNFTMetadata));
    let nft = record.as_ref().unwrap();
    assert_eq!(nft.uri, "uri");
    assert_eq!(nft.attributes.len(), 1);
    assert_eq!(nft.royalty_basis_points, 250);
    let mut other = Some(record_owned_by(2));
    let outcome = process_update_nft_metadata(
        &key(99),
        &accounts(3, true),
        None,
        None,
        None,
        vec![],
        None,
        &mut other,
    );
    assert_eq!(outcome.unwrap_err(), custom(OtakuVerseError::Unauthorized));
}

#[test]
fn message_needs_the_community_it_names() {
    let mut given = accounts(4, true);
    given[1].data =
        (text("club"), text("The Club"), text("A place"), [8u8; 32], 5i64).try_to_vec().unwrap();
    let message =
        process_send_community_message(&key(99), &given, text("club"), text("hello"), 77).unwrap();
    assert_eq!(message.community_id, "club");
    assert_eq!(message.content, "hello");
    assert_eq!(message.sender.to_bytes(), [1; 32]);
    assert_eq!(message.sent_at, 77);
    let other = process_send_community_message(&key(99), &given, text("pub"), text("hello"), 77);
    assert_eq!(other.unwrap_err(), custom(OtakuVerseError::CommunityNotFound));
    given[1].data.push(0);
    let broken = process_send_community_message(&key(99), &given, text("club"), text("hello"), 77);
    assert_eq!(broken.unwrap_err(), custom(OtakuVerseError::CommunityNotFound));
    given[1].data.clear();
    let absent = process_send_community_message(&key(99), &given, text("club"), text("hello"), 77);
    assert_eq!(absent.unwrap_err(), custom(OtakuVerseError::CommunityNotFound));
    let unsigned =
        process_send_community_message(&key(99), &accounts(4, false), text("club"), text("x"), 77);
    assert_eq!(unsigned.unwrap_err(), custom(OtakuVerseError::Unauthorized));
    let few =
        process_send_community_message(&key(99), &accounts(3, true), text("club"), text("x"), 77);
    assert_eq!(few.unwrap_err(), ProgramError::NotEnoughAccountKeys);
}

#[test]
fn requests_are_carried_out_from_their_stored_form() {
    let mut record = None;
    let mint = mint_nft_reward(
        &key(99),
        &key(1),
        &key(2),
        &key(3),
        &key(4),
        &key(5),
        &key(6),
        text("Hero"),
        text("HR"),
        text("uri"),
        text("Saga"),
        text("epic"),
    );
    let effect =
        otakuverse::process_instruction(&key(99), &accounts(10, true), &mint.data, &runtime(), &mut record)
            .unwrap();
    check_mint_plan(&effect.invocations, None, 0);
    assert!(effect.message.is_none());
    assert_eq!(record.as_ref().unwrap().rarity, NFTRarity::Epic);
    let mut record = Some(record_owned_by(1));
    let list = list_nft_for_sale(&key(99), &key(1), &key(2), &key(3), 123);
    let effect =
        otakuverse::process_instruction(&key(99), &accounts(3, true), &list.data, &runtime(), &mut record)
            .unwrap();
    assert!(effect.invocations.is_empty());
    assert_eq!(record.as_ref().unwrap().price, 123);
    assert!(record.as_ref().unwrap().is_for_sale);
    let cancel = cancel_nft_listing(&key(99), &key(1), &key(2), &key(3));
    otakuverse::process_instruction(&key(99), &accounts(3, true), &cancel.data, &runtime(), &mut record)
        .unwrap();
    assert!(!record.as_ref().unwrap().is_for_sale);
    let verify = verify_nft(&key(99), &key(1), &key(2), &key(3), key(50));
    otakuverse::process_instruction(&key(99), &accounts(3, true), &verify.data, &runtime(), &mut record)
        .unwrap();
    assert!(record.as_ref().unwrap().is_verified);
    let update =
        update_nft_metadata(&key(99), &key(1), &key(2), &key(3), None, Some(text("New")), None, vec![], None);
    otakuverse::process_instruction(&key(99), &accounts(3, true), &update.data, &runtime(), &mut record)
        .unwrap();
    assert_eq!(record.as_ref().unwrap().name, "New");
    let purchase = purchase_nft(&key(99), &key(1), &key(2), &key(3), &key(4), &key(5), 10);
    let effect = otakuverse::processor::process_instruction(
        &key(99),
        &accounts(7, true),
        &purchase.data,
        &runtime(),
        &mut record,
    )
    .unwrap();
    assert_eq!(effect.invocations.len(), 2);
    let mut given = accounts(4, true);
    given[1].data = (text("club"), text("n"), text("d"), [8u8; 32], 5i64).try_to_vec().unwrap();
    let send = send_community_message(&key(99), &key(1), &key(2), &key(3), text("club"), text("hi"));
    let effect =
        otakuverse::process_instruction(&key(99), &given, &send.data, &runtime(), &mut record).unwrap();
    let message = effect.message.unwrap();
    assert_eq!(message.content, "hi");
    assert_eq!(message.sent_at, 1_700_000_000);
    let enhanced = mint_enhanced_nft(
        &key(99),
        &key(1),
        &key(2),
        &key(3),
        &key(4),
        &key(5),
        &key(6),
        text("Hero"),
        text("HR"),
        text("uri"),
        text("Saga"),
        NFTRarity::Rare,
        text("d"),
        None,
        vec![],
        0,
    );
    let mut fresh = None;
    let effect = otakuverse::process_instruction(
        &key(99),
        &accounts(10, true),
        &enhanced.data,
        &runtime(),
        &mut fresh,
    )
    .unwrap();
    let creators = vec![Creator { address: outside(1), verified: true, share: 0 }];
    check_mint_plan(&effect.invocations, Some(creators), 0);
}

#[test]
fn unreadable_requests_are_invalid_instruction_data() {
    let mut record = Some(record_owned_by(1));
    for data in [&[][..], &[9][..], &[5, 1, 2][..], &[6, 0][..]] {
        let outcome =
            otakuverse::process_instruction(&key(99), &accounts(10, true), data, &runtime(), &mut record);
        assert_eq!(outcome.unwrap_err(), ProgramError::InvalidInstructionData);
    }
    assert!(!record.as_ref().unwrap().is_for_sale);
}

#[test]
fn errors_have_their_numbers() {
    assert_eq!(OtakuVerseError::InvalidInstructionData.code(), 0);
    assert_eq!(OtakuVerseError::InsufficientFunds.code(), 1);
    assert_eq!(OtakuVerseError::Unauthorized.code(), 2);
    assert_eq!(OtakuVerseError::NFTAlreadyExists.code(), 3);
    assert_eq!(OtakuVerseError::NFTNotFound.code(), 4);
    assert_eq!(OtakuVerseError::InvalidNFTMetadata.code(), 5);
    assert_eq!(OtakuVerseError::InvalidMessageData.code(), 6);
    assert_eq!(OtakuVerseError::CommunityNotFound.code(), 7);
    assert_eq!(OtakuVerseError::from_code(7), Some(OtakuVerseError::CommunityNotFound));
    assert_eq!(OtakuVerseError::from_code(8), None);
    assert_eq!(ProgramError::from(OtakuVerseError::NFTNotFound), ProgramError::Custom(4));
}

fn joined(parts: &[&[u8]]) -> Vec<u8> {
    parts.iter().flat_map(|part| part.iter().copied()).collect()
}

#[test]
fn planned_requests_carry_the_data_their_programs_read() {
    let mut record = None;
    let plan = process_mint_enhanced_nft(
        &key(99),
        &accounts(10, true),
        text("Hero"),
        text("HR"),
        text("uri"),
        text("Saga"),
        NFTRarity::Epic,
        text("A hero"),
        None,
        vec![],
        750,
        &runtime(),
        &mut record,
    )
    .unwrap();
    assert_eq!(
        plan[0].instruction.data,
        joined(&[
            &[0, 0, 0, 0],
            &1_461_600u64.to_le_bytes(),
            &82u64.to_le_bytes(),
            &spl_token::id().to_bytes(),
        ])
    );
    assert_eq!(plan[1].instruction.data, joined(&[&[0, 0], &[5; 32], &[1], &[6; 32]]));
    assert_eq!(plan[2].instruction.data, vec![0]);
    assert_eq!(plan[3].instruction.data, joined(&[&[7], &1u64.to_le_bytes()]));
    assert_eq!(
        plan[4].instruction.data,
        joined(&[
            &[33],
            &[4, 0, 0, 0],
            b"Hero",
            &[2, 0, 0, 0],
            b"HR",
            &[3, 0, 0, 0],
            b"uri",
            &750u16.to_le_bytes(),
            &[1],
            &[1, 0, 0, 0],
            &[1; 32],
            &[1],
            &[7],
            &[0, 0],
            &[1],
            &[0],
        ])
    );
    let mut record = None;
    let plan = process_mint_nft_reward(
        &key(99),
        &accounts(10, true),
        text("Hero"),
        text("HR"),
        text("uri"),
        text("Saga"),
        text("rare"),
        &runtime(),
        &mut record,
    )
    .unwrap();
    assert_eq!(
        plan[4].instruction.data,
        joined(&[
            &[33],
            &[4, 0, 0, 0],
            b"Hero",
            &[2, 0, 0, 0],
            b"HR",
            &[3, 0, 0, 0],
            b"uri",
            &[0, 0],
            &[0],
            &[0, 0],
            &[1],
            &[0],
        ])
    );
    let plan = process_purchase_nft(&key(99), &accounts(7, true), 5_000).unwrap();
    assert_eq!(plan[0].instruction.data, joined(&[&[2, 0, 0, 0], &5_000u64.to_le_bytes()]));
    assert_eq!(plan[1].instruction.data, joined(&[&[3], &1u64.to_le_bytes()]));
}
