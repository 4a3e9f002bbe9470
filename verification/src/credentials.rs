//! Badges and grants of access.

use vstd::prelude::*;
use crate::error::ErrorCode;
use crate::pubkey::Pubkey;
use crate::text::{byte_len, fits};

verus! {

/// Most bytes that a badge's name may take.
pub const MAX_BADGE_NAME_LEN: usize = 50;

/// Most bytes that a badge's description may take.
pub const MAX_BADGE_DESCRIPTION_LEN: usize = 200;

/// A badge. It never changes once minted.
#[derive(Clone, Debug)]
pub struct Badge {
    pub id: u64,
    pub name: String,
    pub description: String,
    pub minted_at: i64,
}

/// A grant of access to a user on the strength of a token. The engine
/// records when the grant ends and leaves it to the one who checks the
/// grant to honour that.
#[derive(Clone, Copy, Debug)]
pub struct Access {
    pub user: Pubkey,
    pub nft_mint: Pubkey,
    pub granted_at: i64,
    pub expiration_time: i64,
}

impl Badge {
    /// The texts fit the room that a stored badge has for them.
    pub open spec fn wf(&self) -> bool {
        &&& byte_len(self.name@) <= MAX_BADGE_NAME_LEN
        &&& byte_len(self.description@) <= MAX_BADGE_DESCRIPTION_LEN
    }
}

/// Mints a badge under an id of the caller's choice. `id_taken` says
/// whether a badge is on record under that id.
pub fn mint_badge(id_taken: bool, badge_id: u64, name: String, description: String, now: i64) -> (outcome:
    Result<Badge, ErrorCode>)
    ensures
        outcome is Ok <==> !id_taken && byte_len(name@) <= MAX_BADGE_NAME_LEN && byte_len(
            description@,
        ) <= MAX_BADGE_DESCRIPTION_LEN,
        outcome matches Err(e) ==> e == (if id_taken {
            ErrorCode::AlreadyExists
        } else {
            ErrorCode::FieldTooLong
        }),
        outcome matches Ok(badge) ==> {
            &&& badge == (Badge {
                id: badge_id,
                name: name,
                description: description,
                minted_at: now,
            })
            &&& badge.wf()
        },
{
    if id_taken {
        return Err(ErrorCode::AlreadyExists);
    }
    if !fits(&name, MAX_BADGE_NAME_LEN) || !fits(&description, MAX_BADGE_DESCRIPTION_LEN) {
        return Err(ErrorCode::FieldTooLong);
    }
    Ok(Badge { id: badge_id, name, description, minted_at: now })
}

/// Records a grant of access for a user and a token. `already_granted`
/// says whether a grant for this user and this token is on record.
pub fn verify_access(
    already_granted: bool,
    user: Pubkey,
    nft_mint: Pubkey,
    expiration_time: i64,
    now: i64,
) -> (outcome: Result<Access, ErrorCode>)
    ensures
        already_granted ==> outcome == Err::<Access, ErrorCode>(ErrorCode::AlreadyExists),
        !already_granted ==> outcome == Ok::<Access, ErrorCode>(
            Access { user, nft_mint, granted_at: now, expiration_time },
        ),
{
    if already_granted {
        return Err(ErrorCode::AlreadyExists);
    }
    Ok(Access { user, nft_mint, granted_at: now, expiration_time })
}

} // verus!
