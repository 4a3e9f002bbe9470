//! Staking a token and earning a reward for each day it stays staked.

use vstd::prelude::*;
use crate::custody::{TokenTransfer, TransferAuthority};
use crate::error::ErrorCode;
use crate::pubkey::Pubkey;

verus! {

/// Seconds in a day.
pub const SECONDS_PER_DAY: i64 = 86400;

/// The stake of one token by one holder.
#[derive(Clone, Copy, Debug)]
pub struct StakingAccount {
    pub staker: Pubkey,
    pub nft_mint: Pubkey,
    /// When the token was last staked, in seconds.
    pub staked_at: i64,
    /// Reward earned over all completed stakes.
    pub reward_accrued: u64,
    pub is_active: bool,
}

/// Whole days between two moments, the first not after the second.
pub open spec fn days_between(staked_at: int, now: int) -> int {
    (now - staked_at) / 86400
}

/// The position after a stake at `now`: a new one where there was none,
/// the old one started again where it had ended.
pub open spec fn staked(
    existing: Option<StakingAccount>,
    staker: Pubkey,
    nft_mint: Pubkey,
    now: i64,
) -> Result<StakingAccount, ErrorCode> {
    match existing {
        None => Ok(
            StakingAccount { staker, nft_mint, staked_at: now, reward_accrued: 0, is_active: true },
        ),
        Some(position) => if position.staker != staker || position.nft_mint != nft_mint {
            Err(ErrorCode::NotFound)
        } else if position.is_active {
            Err(ErrorCode::AlreadyStaked)
        } else {
            Ok(StakingAccount { staked_at: now, is_active: true, ..position })
        },
    }
}

/// The position after an unstake at `now`.
pub open spec fn unstaked(position: StakingAccount, staker: Pubkey, now: i64) -> Result<
    StakingAccount,
    ErrorCode,
> {
    if position.staker != staker {
        Err(ErrorCode::Unauthorized)
    } else if !position.is_active {
        Err(ErrorCode::NFTNotStaked)
    } else {
        Ok(
            StakingAccount {
                reward_accrued: (position.reward_accrued + days_between(
                    position.staked_at as int,
                    now as int,
                )) as u64,
                is_active: false,
                ..position
            },
        )
    }
}

/// Whether an unstake at `now` can be computed: time has not run
/// backwards and the reward fits.
pub open spec fn can_settle(position: StakingAccount, now: i64) -> bool {
    &&& position.staked_at <= now
    &&& position.reward_accrued + days_between(position.staked_at as int, now as int) <= u64::MAX
}

/// Stakes a token: opens a position for the staker and the token, or
/// starts again one that had ended, and asks for one token to be moved
/// from the staker's token account to the program's.
///
/// `existing` is the position recorded for this staker and token, if any.
pub fn stake_nft(
    existing: Option<StakingAccount>,
    staker: Pubkey,
    nft_mint: Pubkey,
    user_token_account: Pubkey,
    program_token_account: Pubkey,
    now: i64,
) -> (outcome: Result<(StakingAccount, TokenTransfer), ErrorCode>)
    ensures
        match outcome {
            Ok((position, transfer)) => {
                &&& staked(existing, staker, nft_mint, now) == Ok::<StakingAccount, ErrorCode>(
                    position,
                )
                &&& transfer == (TokenTransfer {
                    from: user_token_account,
                    to: program_token_account,
                    authority: TransferAuthority::Signer(staker),
                    amount: 1,
                })
            },
            Err(e) => staked(existing, staker, nft_mint, now) == Err::<StakingAccount, ErrorCode>(
                e,
            ),
        },
{
    let position = match existing {
        None => StakingAccount {
            staker,
            nft_mint,
            staked_at: now,
            reward_accrued: 0,
            is_active: true,
        },
        Some(position) => {
            if !position.staker.same(&staker) || !position.nft_mint.same(&nft_mint) {
                return Err(ErrorCode::NotFound);
            }
            if position.is_active {
                return Err(ErrorCode::AlreadyStaked);
            }
            StakingAccount {
                staker: position.staker,
                nft_mint: position.nft_mint,
                staked_at: now,
                reward_accrued: position.reward_accrued,
                is_active: true,
            }
        },
    };
    let transfer = TokenTransfer {
        from: user_token_account,
        to: program_token_account,
        authority: TransferAuthority::Signer(staker),
        amount: 1,
    };
    Ok((position, transfer))
}

/// Unstakes a token: adds one unit of reward for each whole day since the
/// stake, ends the position, and asks for the token to be moved back to
/// the staker's token account under the program's own authority. A
/// refused request leaves the position as it was.
pub fn unstake_nft(
    staking_account: &mut StakingAccount,
    staker: Pubkey,
    user_token_account: Pubkey,
    program_token_account: Pubkey,
    now: i64,
) -> (outcome: Result<TokenTransfer, ErrorCode>)
    requires
        old(staking_account).is_active && old(staking_account).staker == staker ==> can_settle(
            *old(staking_account),
            now,
        ),
    ensures
        match outcome {
            Ok(transfer) => {
                &&& unstaked(*old(staking_account), staker, now) == Ok::<
                    StakingAccount,
                    ErrorCode,
                >(*final(staking_account))
                &&& transfer == (TokenTransfer {
                    from: program_token_account,
                    to: user_token_account,
                    authority: TransferAuthority::Program,
                    amount: 1,
                })
            },
            Err(e) => {
                &&& unstaked(*old(staking_account), staker, now) == Err::<
                    StakingAccount,
                    ErrorCode,
                >(e)
                &&& *final(staking_account) == *old(staking_account)
            },
        },
{
    if !staking_account.staker.same(&staker) {
        return Err(ErrorCode::Unauthorized);
    }
    if !staking_account.is_active {
        return Err(ErrorCode::NFTNotStaked);
    }
    let staking_duration: i128 = now as i128 - staking_account.staked_at as i128;
    let days_staked: i128 = staking_duration / 86400;
    let rewards: u64 = days_staked as u64;
    staking_account.reward_accrued = staking_account.reward_accrued + rewards;
    staking_account.is_active = false;
    Ok(
        TokenTransfer {
            from: program_token_account,
            to: user_token_account,
            authority: TransferAuthority::Program,
            amount: 1,
        },
    )
}

/// After a stake and then an unstake, the reward is the reward before plus
/// one unit for each whole day between the two, and the position has
/// ended, so that a second unstake is refused as an invalid state.
pub proof fn lemma_stake_then_unstake(
    existing: Option<StakingAccount>,
    staker: Pubkey,
    nft_mint: Pubkey,
    stake_time: i64,
    unstake_time: i64,
    later: i64,
)
    requires
        staked(existing, staker, nft_mint, stake_time) is Ok,
        can_settle(staked(existing, staker, nft_mint, stake_time)->Ok_0, unstake_time),
    ensures
        ({
            let position = staked(existing, staker, nft_mint, stake_time)->Ok_0;
            let prior = match existing {
                Some(p) => p.reward_accrued,
                None => 0,
            };
            let ended = unstaked(position, staker, unstake_time);
            &&& position.reward_accrued == prior
            &&& ended is Ok
            &&& ended->Ok_0.reward_accrued == prior + (unstake_time - stake_time) / 86400
            &&& ended->Ok_0.reward_accrued >= prior
            &&& !ended->Ok_0.is_active
            &&& unstaked(ended->Ok_0, staker, later) == Err::<StakingAccount, ErrorCode>(
                ErrorCode::NFTNotStaked,
            )
            &&& ErrorCode::NFTNotStaked.spec_category() == crate::error::ErrorCategory::InvalidState
        }),
{
}

/// A stake that ends within the day it began earns nothing.
pub proof fn lemma_same_day_earns_nothing(position: StakingAccount, staker: Pubkey, now: i64)
    requires
        position.is_active,
        position.staker == staker,
        position.staked_at <= now < position.staked_at + 86400,
    ensures
        unstaked(position, staker, now)->Ok_0.reward_accrued == position.reward_accrued,
{
}

} // verus!
