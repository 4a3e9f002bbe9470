//! Movements of tokens that the engine asks the token program for.

use vstd::prelude::*;
use crate::pubkey::Pubkey;

verus! {

/// Who authorizes a movement of tokens.
#[derive(Clone, Copy, Debug)]
pub enum TransferAuthority {
    /// The holder of this address, who signed the request.
    Signer(Pubkey),
    /// The program's own signer, derived from its fixed seed.
    Program,
}

/// A movement of tokens between two token accounts, to be carried out by
/// the token program.
#[derive(Clone, Copy, Debug)]
pub struct TokenTransfer {
    pub from: Pubkey,
    pub to: Pubkey,
    pub authority: TransferAuthority,
    pub amount: u64,
}

} // verus!
