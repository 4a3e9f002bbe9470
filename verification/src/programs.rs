//! The addresses of the programs and sysvars that requests name.

use vstd::prelude::*;
use crate::pubkey::Pubkey;

verus! {

/// The bytes of the system program's address.
pub open spec fn system_program_bytes() -> Seq<u8> {
    seq![
        0u8, 0, 0, 0, 0, 0, 0, 0, 0, 0, 0, 0, 0, 0, 0, 0, 0, 0, 0, 0, 0, 0, 0, 0, 0, 0, 0, 0, 0, 0, 0, 0,
    ]
}

/// The bytes of the token program's address.
pub open spec fn token_program_bytes() -> Seq<u8> {
    seq![
        6u8, 221, 246, 225, 215, 101, 161, 147, 217, 203, 225, 70, 206, 235, 121, 172, 28, 180, 133,
        237, 95, 91, 55, 145, 58, 140, 245, 133, 126, 255, 0, 169,
    ]
}

/// The bytes of the token metadata program's address.
pub open spec fn token_metadata_program_bytes() -> Seq<u8> {
    seq![
        11u8, 112, 101, 177, 227, 209, 124, 69, 56, 157, 82, 127, 107, 4, 195, 205, 88, 184, 108,
        115, 26, 160, 253, 181, 73, 182, 209, 188, 3, 248, 41, 70,
    ]
}

/// The bytes of the rent sysvar's address.
pub open spec fn rent_sysvar_bytes() -> Seq<u8> {
    seq![
        6u8, 167, 213, 23, 25, 44, 92, 81, 33, 140, 201, 76, 61, 74, 241, 127, 88, 218, 238, 8, 155,
        161, 253, 68, 227, 219, 217, 138, 0, 0, 0, 0,
    ]
}

/// Calls `system_program::id`: the address of the system program, which
/// is thirty-two zero bytes.
#[verifier::external_body]
pub(crate) fn system_program_id() -> (id: Pubkey)
    ensures
        id@ == system_program_bytes(),
{
    Pubkey { bytes: anchor_lang::solana_program::system_program::id().to_bytes() }
}

/// Calls `spl_token::id`: the address of the token program.
#[verifier::external_body]
pub(crate) fn token_program_id() -> (id: Pubkey)
    ensures
        id@ == token_program_bytes(),
{
    Pubkey { bytes: spl_token::id().to_bytes() }
}

/// Calls `mpl_token_metadata::id`: the address of the token metadata
/// program.
#[verifier::external_body]
pub(crate) fn token_metadata_program_id() -> (id: Pubkey)
    ensures
        id@ == token_metadata_program_bytes(),
{
    Pubkey { bytes: mpl_token_metadata::id().to_bytes() }
}

/// Calls `sysvar::rent::id`: the address of the rent sysvar.
#[verifier::external_body]
pub(crate) fn rent_sysvar_id() -> (id: Pubkey)
    ensures
        id@ == rent_sysvar_bytes(),
{
    Pubkey { bytes: anchor_lang::solana_program::sysvar::rent::id().to_bytes() }
}

} // verus!
