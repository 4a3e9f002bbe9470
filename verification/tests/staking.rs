use otakuverse::custody::TransferAuthority;
use otakuverse::error::{ErrorCategory, ErrorCode};
use otakuverse::pubkey::Pubkey;
use otakuverse::staking::{stake_nft, unstake_nft, StakingAccount};

fn key(byte: u8) -> Pubkey {
    Pubkey::new_from_array([byte; 32])
}

fn fresh(now: i64) -> StakingAccount {
    let (position, _) = stake_nft(None, key(1), key(2), key(3), key(4), now).unwrap();
    position
}

#[test]
fn stake_opens_an_active_position() {
    let (position, transfer) = stake_nft(None, key(1), key(2), key(3), key(4), 1_000).unwrap();
    assert!(position.staker.same(&key(1)));
    assert!(position.nft_mint.same(&key(2)));
    assert_eq!(position.staked_at, 1_000);
    assert_eq!(position.reward_accrued, 0);
    assert!(position.is_active);
    assert!(transfer.from.same(&key(3)));
    assert!(transfer.to.same(&key(4)));
    assert_eq!(transfer.amount, 1);
    match transfer.authority {
        TransferAuthority::Signer(signer) => assert!(signer.same(&key(1))),
        TransferAuthority::Program => panic!("the staker authorizes a stake"),
    }
}

#[test]
fn stake_on_an_active_position_is_refused() {
    let position = fresh(1_000);
    let outcome = stake_nft(Some(position), key(1), key(2), key(3), key(4), 2_000);
    assert_eq!(outcome.unwrap_err(), ErrorCode::AlreadyStaked);
    assert_eq!(ErrorCode::AlreadyStaked.category(), ErrorCategory::AlreadyExists);
}

#[test]
fn stake_on_another_position_is_refused() {
    let position = fresh(1_000);
    let outcome = stake_nft(Some(position), key(9), key(2), key(3), key(4), 2_000);
    assert_eq!(outcome.unwrap_err(), ErrorCode::NotFound);
}

#[test]
fn unstake_pays_one_unit_per_whole_day() {
    let mut position = fresh(1_000);
    let transfer = unstake_nft(&mut position, key(1), key(3), key(4), 1_000 + 3 * 86_400 + 86_399)
        .unwrap();
    assert_eq!(position.reward_accrued, 3);
    assert!(!position.is_active);
    assert_eq!(position.staked_at, 1_000);
    assert!(transfer.from.same(&key(4)));
    assert!(transfer.to.same(&key(3)));
    assert_eq!(transfer.amount, 1);
    assert!(matches!(transfer.authority, TransferAuthority::Program));
}

#[test]
fn unstake_at_once_pays_nothing() {
    let mut position = fresh(5_000);
    unstake_nft(&mut position, key(1), key(3), key(4), 5_000).unwrap();
    assert_eq!(position.reward_accrued, 0);
    assert!(!position.is_active);
}

#[test]
fn unstake_one_second_short_of_a_day_pays_nothing() {
    let mut position = fresh(0);
    unstake_nft(&mut position, key(1), key(3), key(4), 86_399).unwrap();
    assert_eq!(position.reward_accrued, 0);
    let mut other = fresh(0);
    unstake_nft(&mut other, key(1), key(3), key(4), 86_400).unwrap();
    assert_eq!(other.reward_accrued, 1);
}

#[test]
fn unstake_twice_is_an_invalid_state() {
    let mut position = fresh(0);
    unstake_nft(&mut position, key(1), key(3), key(4), 10 * 86_400).unwrap();
    let before = position;
    let outcome = unstake_nft(&mut position, key(1), key(3), key(4), 20 * 86_400);
    assert_eq!(outcome.unwrap_err(), ErrorCode::NFTNotStaked);
    assert_eq!(ErrorCode::NFTNotStaked.category(), ErrorCategory::InvalidState);
    assert_eq!(position.reward_accrued, before.reward_accrued);
    assert_eq!(position.reward_accrued, 10);
    assert!(!position.is_active);
}

#[test]
fn unstake_by_another_is_unauthorized() {
    let mut position = fresh(0);
    let outcome = unstake_nft(&mut position, key(7), key(3), key(4), 86_400);
    assert_eq!(outcome.unwrap_err(), ErrorCode::Unauthorized);
    assert_eq!(ErrorCode::Unauthorized.category(), ErrorCategory::Unauthorized);
    assert!(position.is_active);
    assert_eq!(position.reward_accrued, 0);
}

#[test]
fn restake_keeps_the_reward_and_adds_to_it() {
    let mut position = fresh(0);
    unstake_nft(&mut position, key(1), key(3), key(4), 2 * 86_400).unwrap();
    let (mut again, _) =
        stake_nft(Some(position), key(1), key(2), key(3), key(4), 10 * 86_400).unwrap();
    assert!(again.is_active);
    assert_eq!(again.reward_accrued, 2);
    assert_eq!(again.staked_at, 10 * 86_400);
    unstake_nft(&mut again, key(1), key(3), key(4), 15 * 86_400 + 5).unwrap();
    assert_eq!(again.reward_accrued, 7);
}
