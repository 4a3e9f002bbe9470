//! Requests to other programs: the system program, the token program, the
//! associated token account program and the token metadata program. Each
//! is built by its program's own library; the contracts here say which
//! accounts a request names and which data it carries.

use vstd::prelude::*;
use vstd::bytes::{spec_u16_to_le_bytes, spec_u32_to_le_bytes, spec_u64_to_le_bytes};
use anchor_lang::solana_program::pubkey::Pubkey as ProgramKey;
use anchor_lang::solana_program::system_instruction;
use mpl_token_metadata::instruction::create_metadata_accounts_v3;
use mpl_token_metadata::state::Creator;
use spl_associated_token_account::instruction::create_associated_token_account;
use crate::instruction::{readonly, writable, Instruction};
use crate::address::program_address;
use crate::programs::{rent_sysvar_bytes, system_program_bytes, token_program_bytes};
use crate::pubkey::Pubkey;
use crate::wire::{
    bool_encoding, optional_key_encoding, optional_key_view, text_encoding, text_storable,
};

verus! {

/// The bytes of the associated token account program's address.
pub open spec fn associated_token_program_bytes() -> Seq<u8> {
    seq![
        140u8, 151, 37, 143, 78, 36, 137, 241, 187, 61, 16, 41, 20, 142, 13, 131, 11, 90, 19, 153,
        218, 255, 16, 132, 4, 142, 123, 216, 219, 233, 248, 89,
    ]
}

/// Calls `spl_associated_token_account::id`: the address of the associated
/// token account program.
#[verifier::external_body]
pub(crate) fn associated_token_program_id() -> (id: Pubkey)
    ensures
        id@ == associated_token_program_bytes(),
{
    Pubkey { bytes: spl_associated_token_account::id().to_bytes() }
}

/// The size of a mint account, in bytes.
pub const MINT_ACCOUNT_LEN: u64 = 82;

/// Reads `spl_token::state::Mint::LEN`: the size of a mint account.
#[verifier::external_body]
pub(crate) fn mint_account_len() -> (len: u64)
    ensures
        len == MINT_ACCOUNT_LEN,
{
    <spl_token::state::Mint as anchor_lang::solana_program::program_pack::Pack>::LEN as u64
}

/// The data of the system program's request to create an account, as
/// `system_instruction::create_account` writes it: the number of the
/// request in four bytes, the balance, the size, and the owner.
pub open spec fn create_account_data(lamports: u64, space: u64, owner: Seq<u8>) -> Seq<u8> {
    spec_u32_to_le_bytes(0) + spec_u64_to_le_bytes(lamports) + spec_u64_to_le_bytes(space) + owner
}

/// The data of the system program's request to move lamports, as
/// `system_instruction::transfer` writes it: the number of the request in
/// four bytes, and the amount.
pub open spec fn lamport_transfer_data(lamports: u64) -> Seq<u8> {
    spec_u32_to_le_bytes(2) + spec_u64_to_le_bytes(lamports)
}

/// The data of the token program's request to set up a mint, as
/// `spl_token::instruction::initialize_mint` writes it: the number of the
/// request, the decimals, the mint's authority, and the freeze authority
/// where there is one.
pub open spec fn initialize_mint_data(
    mint_authority: Seq<u8>,
    freeze_authority: Option<Seq<u8>>,
    decimals: u8,
) -> Seq<u8> {
    seq![0u8, decimals] + mint_authority + optional_key_encoding(freeze_authority)
}

/// The data of the token program's request to mint tokens, as
/// `spl_token::instruction::mint_to` writes it: the number of the request
/// and the amount.
pub open spec fn mint_to_data(amount: u64) -> Seq<u8> {
    seq![7u8] + spec_u64_to_le_bytes(amount)
}

/// The data of the token program's request to move tokens, as
/// `spl_token::instruction::transfer` writes it: the number of the request
/// and the amount.
pub open spec fn moved_tokens_data(amount: u64) -> Seq<u8> {
    seq![3u8] + spec_u64_to_le_bytes(amount)
}

/// The stored form of the creators of a token with at most one creator:
/// absent, or a list of one, with the address, whether it is verified, and
/// the share.
pub open spec fn creators_encoding(creator: Option<(Seq<u8>, bool, u8)>) -> Seq<u8> {
    match creator {
        Some((address, verified, share)) => seq![1u8] + spec_u32_to_le_bytes(1) + address
            + bool_encoding(verified) + seq![share],
        None => seq![0u8],
    }
}

/// The data of the metadata program's request to create a metadata
/// account, as `create_metadata_accounts_v3` writes it for a token with at
/// most one creator, outside any collection and without uses: the number
/// of the request, the name, the symbol, the uri, the seller's fee, the
/// creators, no collection, no uses, whether the metadata may change, and
/// no collection details.
pub open spec fn create_metadata_data(
    name: Seq<char>,
    symbol: Seq<char>,
    uri: Seq<char>,
    creator: Option<(Seq<u8>, bool, u8)>,
    seller_fee_basis_points: u16,
    is_mutable: bool,
) -> Seq<u8> {
    seq![33u8] + text_encoding(name) + text_encoding(symbol) + text_encoding(uri)
        + spec_u16_to_le_bytes(seller_fee_basis_points) + creators_encoding(creator) + seq![
        0u8,
        0u8,
    ] + bool_encoding(is_mutable) + seq![0u8]
}

/// The seeds of a wallet's token account for a mint.
pub open spec fn token_account_seeds(wallet: Pubkey, nft_mint: Pubkey) -> Seq<Seq<u8>> {
    seq![wallet@, token_program_bytes(), nft_mint@]
}

/// The address of a wallet's token account for a mint: the one derived
/// from the wallet, the token program and the mint, for the associated
/// token account program.
pub open spec fn token_account_address(wallet: Pubkey, nft_mint: Pubkey) -> Option<
    (Seq<u8>, u8),
> {
    program_address(token_account_seeds(wallet, nft_mint), associated_token_program_bytes())
}

/// A creator of a token: the address, whether it is verified, and the
/// share of the royalty in percent.
#[derive(Clone, Copy, Debug)]
pub struct CreatorShare {
    pub address: Pubkey,
    pub verified: bool,
    pub share: u8,
}

/// A creator that may be absent, as plain values.
pub open spec fn creator_view(creator: Option<CreatorShare>) -> Option<(Seq<u8>, bool, u8)> {
    match creator {
        Some(c) => Some((c.address@, c.verified, c.share)),
        None => None,
    }
}

/// A request that may be absent, as plain values.
pub open spec fn plain_request(built: Option<Instruction>) -> Option<
    (Seq<u8>, Seq<(Seq<u8>, bool, bool)>, Seq<u8>),
> {
    match built {
        Some(request) => Some(request.plain()),
        None => None,
    }
}

/// Calls `system_instruction::create_account`: a request to the system
/// program, signed by the payer and by the new account, both of which it
/// may change, with the balance, the size and the owner as its data.
#[verifier::external_body]
pub(crate) fn system_create_account(
    from: &Pubkey,
    to: &Pubkey,
    lamports: u64,
    space: u64,
    owner: &Pubkey,
) -> (request: Instruction)
    ensures
        request.plain() == (
            system_program_bytes(),
            seq![writable(*from, true), writable(*to, true)],
            create_account_data(lamports, space, owner@),
        ),
{
    let key = |k: &Pubkey| ProgramKey::new_from_array(k.bytes);
    let ix = system_instruction::create_account(&key(from), &key(to), lamports, space, &key(owner));
    let accounts = ix.accounts.iter().map(|m| (m.pubkey.to_bytes(), m.is_signer, m.is_writable));
    Instruction::from_parts(ix.program_id.to_bytes(), accounts.collect(), ix.data)
}

/// Calls `system_instruction::transfer`: a request to the system program,
/// signed by the payer, which may change the payer and the payee, with the
/// amount as its data.
#[verifier::external_body]
pub(crate) fn system_transfer(from: &Pubkey, to: &Pubkey, lamports: u64) -> (request: Instruction)
    ensures
        request.plain() == (
            system_program_bytes(),
            seq![writable(*from, true), writable(*to, false)],
            lamport_transfer_data(lamports),
        ),
{
    let key = |k: &Pubkey| ProgramKey::new_from_array(k.bytes);
    let ix = system_instruction::transfer(&key(from), &key(to), lamports);
    let accounts = ix.accounts.iter().map(|m| (m.pubkey.to_bytes(), m.is_signer, m.is_writable));
    Instruction::from_parts(ix.program_id.to_bytes(), accounts.collect(), ix.data)
}

/// Calls `spl_token::instruction::initialize_mint` for the token program
/// itself, for which it succeeds: a request that may change the mint and
/// reads the rent sysvar, with the decimals and the two authorities as its
/// data.
#[verifier::external_body]
pub(crate) fn token_initialize_mint(
    mint: &Pubkey,
    mint_authority: &Pubkey,
    freeze_authority: Option<Pubkey>,
    decimals: u8,
) -> (built: Option<Instruction>)
    ensures
        plain_request(built) == Some(
            (
            token_program_bytes(),
            seq![writable(*mint, false), readonly(rent_sysvar_bytes(), false)],
            initialize_mint_data(mint_authority@, optional_key_view(freeze_authority), decimals),
        )),
{
    let key = |k: &Pubkey| ProgramKey::new_from_array(k.bytes);
    let freeze = freeze_authority.as_ref().map(key);
    let ix = spl_token::instruction::initialize_mint(
        &spl_token::id(),
        &key(mint),
        &key(mint_authority),
        freeze.as_ref(),
        decimals,
    ).ok()?;
    let accounts = ix.accounts.iter().map(|m| (m.pubkey.to_bytes(), m.is_signer, m.is_writable));
    Some(Instruction::from_parts(ix.program_id.to_bytes(), accounts.collect(), ix.data))
}

/// Calls `spl_token::instruction::mint_to` for the token program itself
/// and no further signers, for which it succeeds: a request signed by the
/// mint's authority, which may change the mint and the token account, with
/// the amount as its data.
#[verifier::external_body]
pub(crate) fn token_mint_to(mint: &Pubkey, account: &Pubkey, owner: &Pubkey, amount: u64) -> (built:
    Option<Instruction>)
    ensures
        plain_request(built) == Some(
            (
            token_program_bytes(),
            seq![writable(*mint, false), writable(*account, false), readonly(owner@, true)],
            mint_to_data(amount),
        )),
{
    let key = |k: &Pubkey| ProgramKey::new_from_array(k.bytes);
    let ix = spl_token::instruction::mint_to(
        &spl_token::id(),
        &key(mint),
        &key(account),
        &key(owner),
        &[],
        amount,
    ).ok()?;
    let accounts = ix.accounts.iter().map(|m| (m.pubkey.to_bytes(), m.is_signer, m.is_writable));
    Some(Instruction::from_parts(ix.program_id.to_bytes(), accounts.collect(), ix.data))
}

/// Calls `spl_token::instruction::transfer` for the token program itself
/// and no further signers, for which it succeeds: a request signed by the
/// authority, which may change the two token accounts, with the amount as
/// its data.
#[verifier::external_body]
pub(crate) fn token_transfer(
    source: &Pubkey,
    destination: &Pubkey,
    authority: &Pubkey,
    amount: u64,
) -> (built: Option<Instruction>)
    ensures
        plain_request(built) == Some(
            (
            token_program_bytes(),
            seq![
                writable(*source, false),
                writable(*destination, false),
                readonly(authority@, true),
            ],
            moved_tokens_data(amount),
        )),
{
    let key = |k: &Pubkey| ProgramKey::new_from_array(k.bytes);
    let ix = spl_token::instruction::transfer(
        &spl_token::id(),
        &key(source),
        &key(destination),
        &key(authority),
        &[],
        amount,
    ).ok()?;
    let accounts = ix.accounts.iter().map(|m| (m.pubkey.to_bytes(), m.is_signer, m.is_writable));
    Some(Instruction::from_parts(ix.program_id.to_bytes(), accounts.collect(), ix.data))
}

/// Calls `create_associated_token_account` for the token program, where
/// the address of the token account can be derived: a request to the
/// associated token account program, signed by the payer, which may change
/// the payer and the token account at the derived address, and reads the
/// wallet, the mint, the system program and the token program. Its data is
/// the one byte that stands for creation.
#[verifier::external_body]
pub(crate) fn create_token_account(funding: &Pubkey, wallet: &Pubkey, nft_mint: &Pubkey) -> (request:
    Instruction)
    requires
        token_account_address(*wallet, *nft_mint) is Some,
    ensures
        request.plain() == (
            associated_token_program_bytes(),
            seq![
                writable(*funding, true),
                (token_account_address(*wallet, *nft_mint)->Some_0.0, false, true),
                readonly(wallet@, false),
                readonly(nft_mint@, false),
                readonly(system_program_bytes(), false),
                readonly(token_program_bytes(), false),
            ],
            seq![0u8],
        ),
{
    let key = |k: &Pubkey| ProgramKey::new_from_array(k.bytes);
    let ix = create_associated_token_account(
        &key(funding),
        &key(wallet),
        &key(nft_mint),
        &spl_token::id(),
    );
    let accounts = ix.accounts.iter().map(|m| (m.pubkey.to_bytes(), m.is_signer, m.is_writable));
    Instruction::from_parts(ix.program_id.to_bytes(), accounts.collect(), ix.data)
}

/// Calls `create_metadata_accounts_v3` for a token with at most one
/// creator, outside any collection and without uses: a request to the
/// metadata program, signed by the mint's authority and by the payer,
/// which may change the metadata account and the payer. `keys` holds the
/// metadata account, the mint, the mint's authority, the payer and the
/// update authority, in this order. The three texts must be storable:
/// the outside function writes them with their counts in four bytes.
#[verifier::external_body]
pub(crate) fn create_metadata_account(
    program_id: &Pubkey,
    keys: &[Pubkey; 5],
    name: String,
    symbol: String,
    uri: String,
    creator: Option<CreatorShare>,
    seller_fee_basis_points: u16,
    update_authority_is_signer: bool,
    is_mutable: bool,
) -> (request: Instruction)
    requires
        text_storable(name@),
        text_storable(symbol@),
        text_storable(uri@),
    ensures
        request.plain() == (
            program_id@,
            seq![
                writable(keys@[0], false),
                readonly(keys@[1]@, false),
                readonly(keys@[2]@, true),
                writable(keys@[3], true),
                readonly(keys@[4]@, update_authority_is_signer),
                readonly(system_program_bytes(), false),
            ],
            create_metadata_data(
                name@,
                symbol@,
                uri@,
                creator_view(creator),
                seller_fee_basis_points,
                is_mutable,
            ),
        ),
{
    let k = |i: usize| ProgramKey::new_from_array(keys[i].bytes);
    let creators = creator.map(|c| {
        vec![Creator { address: ProgramKey::new_from_array(c.address.bytes), verified: c.verified, share: c.share }]
    });
    let ix = create_metadata_accounts_v3(
        ProgramKey::new_from_array(program_id.bytes), k(0), k(1), k(2), k(3), k(4),
        name, symbol, uri, creators, seller_fee_basis_points,
        update_authority_is_signer, is_mutable, None, None, None,
    );
    let accounts = ix.accounts.iter().map(|m| (m.pubkey.to_bytes(), m.is_signer, m.is_writable));
    Instruction::from_parts(ix.program_id.to_bytes(), accounts.collect(), ix.data)
}

} // verus!
