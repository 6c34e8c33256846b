//! Instruction builders of the Solana SDK, wrapped with exact contracts.
//!
//! Each wrapper calls one SDK builder on validated addresses and hands back
//! the raw parts of the resulting instruction: program id, account list and
//! data bytes.  What each builder produces is stated byte for byte, as the
//! SDK source shows it.

use crate::types::Address;
use vstd::prelude::*;

verus! {

/// The SPL token program id (`TokenkegQfeZyiNwAJbNbGKPFXCWuBvf9Ss623VQ5DA`).
pub open spec fn spl_token_program_id() -> Seq<u8> {
    seq![
        6u8, 221u8, 246u8, 225u8, 215u8, 101u8, 161u8, 147u8, 217u8, 203u8, 225u8, 70u8, 206u8,
        235u8, 121u8, 172u8, 28u8, 180u8, 133u8, 237u8, 95u8, 91u8, 55u8, 145u8, 58u8, 140u8,
        245u8, 133u8, 126u8, 255u8, 0u8, 169u8,
    ]
}

/// The rent sysvar id (`SysvarRent111111111111111111111111111111111`).
pub open spec fn rent_sysvar_id() -> Seq<u8> {
    seq![
        6u8, 167u8, 213u8, 23u8, 25u8, 44u8, 92u8, 81u8, 33u8, 140u8, 201u8, 76u8, 61u8, 74u8,
        241u8, 127u8, 88u8, 218u8, 238u8, 8u8, 155u8, 161u8, 253u8, 68u8, 227u8, 219u8, 217u8,
        138u8, 0u8, 0u8, 0u8, 0u8,
    ]
}

/// The system program id (`11111111111111111111111111111111`): 32 zero
/// bytes.
pub open spec fn system_program_id() -> Seq<u8> {
    Seq::new(32, |i: int| 0u8)
}

/// A `u64` in little-endian byte order.
pub open spec fn u64_le_bytes(v: u64) -> Seq<u8> {
    seq![
        (v & 0xFF) as u8,
        ((v >> 8) & 0xFF) as u8,
        ((v >> 16) & 0xFF) as u8,
        ((v >> 24) & 0xFF) as u8,
        ((v >> 32) & 0xFF) as u8,
        ((v >> 40) & 0xFF) as u8,
        ((v >> 48) & 0xFF) as u8,
        ((v >> 56) & 0xFF) as u8,
    ]
}

/// The packed `InitializeMint` token instruction: tag 0, the decimals, the
/// mint authority, and an absent freeze authority.
pub open spec fn initialize_mint_data(decimals: u8, authority: Seq<u8>) -> Seq<u8> {
    seq![0u8, decimals] + authority + seq![0u8]
}

/// The packed `MintTo` token instruction: tag 7 and the amount.
pub open spec fn mint_to_data(amount: u64) -> Seq<u8> {
    seq![7u8] + u64_le_bytes(amount)
}

/// The packed `Transfer` token instruction: tag 3 and the amount.
pub open spec fn token_transfer_data(amount: u64) -> Seq<u8> {
    seq![3u8] + u64_le_bytes(amount)
}

/// The system `Transfer` instruction under bincode: variant index 2 as a
/// little-endian `u32`, then the lamports.
pub open spec fn system_transfer_data(lamports: u64) -> Seq<u8> {
    seq![2u8, 0u8, 0u8, 0u8] + u64_le_bytes(lamports)
}

/// One account of a built instruction, as raw bytes and flags.
pub struct RawAccountMeta {
    pub pubkey: Vec<u8>,
    pub is_signer: bool,
    pub is_writable: bool,
}

/// The raw parts of a built instruction.
pub struct RawInstruction {
    pub program_id: Vec<u8>,
    pub accounts: Vec<RawAccountMeta>,
    pub data: Vec<u8>,
}

/// What one raw account holds, stated over plain values.
pub open spec fn raw_account_is(m: RawAccountMeta, key: Seq<u8>, signer: bool, writable: bool) -> bool {
    m.pubkey@ == key && m.is_signer == signer && m.is_writable == writable
}

/// Relies on `spl_token::instruction::initialize_mint`, called on the SPL
/// token program id (its only failure is a different program id): a
/// writable mint account, the read-only rent sysvar, and the packed
/// `InitializeMint` data with no freeze authority.
#[verifier::external_body]
pub(crate) fn build_initialize_mint(mint: &Address, authority: &Address, decimals: u8) -> (r:
    RawInstruction)
    requires
        mint.wf(),
        authority.wf(),
    ensures
        r.program_id@ == spl_token_program_id(),
        r.accounts@.len() == 2,
        raw_account_is(r.accounts@[0], mint@, false, true),
        raw_account_is(r.accounts@[1], rent_sysvar_id(), false, false),
        r.data@ == initialize_mint_data(decimals, authority@),
{
    let ix = spl_token::instruction::initialize_mint(
        &spl_token::id(),
        &solana_sdk::pubkey::Pubkey::try_from(mint.bytes.as_slice()).unwrap(),
        &solana_sdk::pubkey::Pubkey::try_from(authority.bytes.as_slice()).unwrap(),
        None,
        decimals,
    ).unwrap();
    let accounts = ix.accounts.iter().map(|a| RawAccountMeta { pubkey: a.pubkey.to_bytes().to_vec(), is_signer: a.is_signer, is_writable: a.is_writable }).collect();
    RawInstruction { program_id: ix.program_id.to_bytes().to_vec(), accounts, data: ix.data }
}

/// Relies on `spl_token::instruction::mint_to`, called on the SPL token
/// program id with no multisig signers: writable mint and destination
/// accounts, the read-only signing authority, and the packed `MintTo`
/// data.
#[verifier::external_body]
pub(crate) fn build_mint_to(mint: &Address, destination: &Address, authority: &Address, amount:
    u64) -> (r: RawInstruction)
    requires
        mint.wf(),
        destination.wf(),
        authority.wf(),
    ensures
        r.program_id@ == spl_token_program_id(),
        r.accounts@.len() == 3,
        raw_account_is(r.accounts@[0], mint@, false, true),
        raw_account_is(r.accounts@[1], destination@, false, true),
        raw_account_is(r.accounts@[2], authority@, true, false),
        r.data@ == mint_to_data(amount),
{
    let ix = spl_token::instruction::mint_to(
        &spl_token::id(),
        &solana_sdk::pubkey::Pubkey::try_from(mint.bytes.as_slice()).unwrap(),
        &solana_sdk::pubkey::Pubkey::try_from(destination.bytes.as_slice()).unwrap(),
        &solana_sdk::pubkey::Pubkey::try_from(authority.bytes.as_slice()).unwrap(),
        &[],
        amount,
    ).unwrap();
    let accounts = ix.accounts.iter().map(|a| RawAccountMeta { pubkey: a.pubkey.to_bytes().to_vec(), is_signer: a.is_signer, is_writable: a.is_writable }).collect();
    RawInstruction { program_id: ix.program_id.to_bytes().to_vec(), accounts, data: ix.data }
}

/// Relies on `spl_token::instruction::transfer`, called on the SPL token
/// program id with no multisig signers: writable source and destination
/// accounts, the read-only signing owner, and the packed `Transfer` data.
#[verifier::external_body]
pub(crate) fn build_token_transfer(source: &Address, destination: &Address, owner: &Address,
    amount: u64) -> (r: RawInstruction)
    requires
        source.wf(),
        destination.wf(),
        owner.wf(),
    ensures
        r.program_id@ == spl_token_program_id(),
        r.accounts@.len() == 3,
        raw_account_is(r.accounts@[0], source@, false, true),
        raw_account_is(r.accounts@[1], destination@, false, true),
        raw_account_is(r.accounts@[2], owner@, true, false),
        r.data@ == token_transfer_data(amount),
{
    let ix = spl_token::instruction::transfer(
        &spl_token::id(),
        &solana_sdk::pubkey::Pubkey::try_from(source.bytes.as_slice()).unwrap(),
        &solana_sdk::pubkey::Pubkey::try_from(destination.bytes.as_slice()).unwrap(),
        &solana_sdk::pubkey::Pubkey::try_from(owner.bytes.as_slice()).unwrap(),
        &[],
        amount,
    ).unwrap();
    let accounts = ix.accounts.iter().map(|a| RawAccountMeta { pubkey: a.pubkey.to_bytes().to_vec(), is_signer: a.is_signer, is_writable: a.is_writable }).collect();
    RawInstruction { program_id: ix.program_id.to_bytes().to_vec(), accounts, data: ix.data }
}

/// Relies on `solana_program::system_instruction::transfer`: the system
/// program, a writable signing source, a writable destination, and the
/// bincode-serialized `Transfer` data.
#[verifier::external_body]
pub(crate) fn build_system_transfer(from: &Address, to: &Address, lamports: u64) -> (r:
    RawInstruction)
    requires
        from.wf(),
        to.wf(),
    ensures
        r.program_id@ == system_program_id(),
        r.accounts@.len() == 2,
        raw_account_is(r.accounts@[0], from@, true, true),
        raw_account_is(r.accounts@[1], to@, false, true),
        r.data@ == system_transfer_data(lamports),
{
    let ix = solana_program::system_instruction::transfer(
        &solana_program::pubkey::Pubkey::try_from(from.bytes.as_slice()).unwrap(),
        &solana_program::pubkey::Pubkey::try_from(to.bytes.as_slice()).unwrap(),
        lamports,
    );
    let accounts = ix.accounts.iter().map(|a| RawAccountMeta { pubkey: a.pubkey.to_bytes().to_vec(), is_signer: a.is_signer, is_writable: a.is_writable }).collect();
    RawInstruction { program_id: ix.program_id.to_bytes().to_vec(), accounts, data: ix.data }
}

/// The associated token account address derived for a wallet and a mint
/// under the SPL token program.
pub uninterp spec fn associated_token_address_of(wallet: Seq<u8>, mint: Seq<u8>) -> Seq<u8>;

/// Relies on `spl_associated_token_account::get_associated_token_address`:
/// a 32-byte program-derived address, a function of the wallet and mint
/// alone.
#[verifier::external_body]
pub(crate) fn derive_associated_token_address(wallet: &Address, mint: &Address) -> (r: Address)
    requires
        wallet.wf(),
        mint.wf(),
    ensures
        r.wf(),
        r@ == associated_token_address_of(wallet@, mint@),
{
    let key = spl_associated_token_account::get_associated_token_address(
        &solana_sdk::pubkey::Pubkey::try_from(wallet.bytes.as_slice()).unwrap(),
        &solana_sdk::pubkey::Pubkey::try_from(mint.bytes.as_slice()).unwrap(),
    );
    Address { bytes: key.to_bytes().to_vec() }
}

} // verus!
