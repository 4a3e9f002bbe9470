//! The rules of a community platform on a shared ledger: staking,
//! governance, events, badges and grants of access, and a marketplace for
//! tokens with messaging. Every record is changed only through the
//! operations here, each of which says in its contract what it accepts,
//! what it refuses and with which error, and what it leaves unchanged.

use vstd::prelude::*;

pub mod address;
pub mod cpi;
pub mod credentials;
pub mod custody;
pub mod error;
pub mod events;
pub mod governance;
pub mod instruction;
pub mod ledger;
pub mod processor;
pub mod programs;
pub mod pubkey;
pub mod staking;
pub mod state;
pub mod text;
pub mod wire;

verus! {

/// The entry of the marketplace and messaging program: carries out a
/// request in its stored form.
pub fn process_instruction(
    program_id: &pubkey::Pubkey,
    accounts: &[processor::AccountInfo],
    instruction_data: &[u8],
    runtime: &processor::Runtime,
    record: &mut Option<state::nft::NFTData>,
) -> (outcome: Result<processor::Effect, error::ProgramError>)
    ensures
        processor::instruction_post(
            instruction_data@,
            accounts@,
            *runtime,
            *old(record),
            outcome,
            *final(record),
        ),
        outcome is Err ==> *final(record) == *old(record),
{
    processor::process_instruction(program_id, accounts, instruction_data, runtime, record)
}

} // verus!
