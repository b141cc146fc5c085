//! The calls of other programs that the fund's operations ask the host to
//! make: creating accounts with the system program, and creating, minting,
//! moving and burning shares with the token programs.
//!
//! The instructions are built by the crates of those programs; this module
//! states what they build.

use crate::account::{
    readonly, writable, AccountMeta, AccountMetaView, Instruction, InstructionView,
};
use crate::address::{
    associated_token_program_bytes, found_address, rent_sysvar_bytes, system_program_bytes,
    token_program_bytes, Address,
};
use solana_program::pubkey::Pubkey;
use vstd::bytes::spec_u64_to_le_bytes;
use vstd::prelude::*;

verus! {

/// The size of a share mint's account.
pub const MINT_SPACE: u64 = 82;

/// The number of decimal places of a share.
pub const SHARE_DECIMALS: u8 = 6;

/// The request by which the system program creates an account with this
/// balance and this much space, owned by this program.
pub uninterp spec fn create_account_data(lamports: u64, space: u64, owner: Seq<u8>) -> Seq<u8>;

/// An instruction, if one was built, over bytes.
pub open spec fn instruction_view(r: Option<Instruction>) -> Option<InstructionView> {
    match r {
        Some(instruction) => Some(instruction@),
        None => None,
    }
}

/// What the token program's crate builds: an instruction for the token
/// program, and none when asked for one for another program.
pub open spec fn token_instruction(
    token_program: Seq<u8>,
    accounts: Seq<AccountMetaView>,
    data: Seq<u8>,
) -> Option<InstructionView> {
    if token_program == token_program_bytes() {
        Some(InstructionView { program_id: token_program, accounts, data })
    } else {
        None
    }
}

/// The request that sets up a mint with this many decimals, this authority
/// to mint and, if any, this authority to freeze.
pub open spec fn initialize_mint_data(
    decimals: u8,
    mint_authority: Seq<u8>,
    freeze_authority: Option<Seq<u8>>,
) -> Seq<u8> {
    seq![0u8, decimals] + mint_authority + match freeze_authority {
        Some(authority) => seq![1u8] + authority,
        None => seq![0u8],
    }
}

/// The authority to freeze, over bytes.
pub open spec fn authority_view(authority: Option<Address>) -> Option<Seq<u8>> {
    match authority {
        Some(a) => Some(a@),
        None => None,
    }
}

/// The request that mints this many shares.
pub open spec fn mint_to_data(amount: u64) -> Seq<u8> {
    seq![7u8] + spec_u64_to_le_bytes(amount)
}

/// The request that moves this many shares.
pub open spec fn transfer_data(amount: u64) -> Seq<u8> {
    seq![3u8] + spec_u64_to_le_bytes(amount)
}

/// The request that burns this many shares.
pub open spec fn burn_data(amount: u64) -> Seq<u8> {
    seq![8u8] + spec_u64_to_le_bytes(amount)
}

/// The accounts of an instruction that one authority signs for alone: the
/// two accounts it changes, the authority, and the authority again as the
/// signer.
pub open spec fn signed_accounts(
    first: Seq<u8>,
    second: Seq<u8>,
    authority: Seq<u8>,
    signer: Seq<u8>,
) -> Seq<AccountMetaView> {
    seq![
        writable(first, false),
        writable(second, false),
        readonly(authority, false),
        readonly(signer, true),
    ]
}

/// Calls `system_instruction::create_account` of `solana_program`.
///
/// Believed of it: the instruction is for the system program, names the
/// funding account and the new account, both writable and signing, and its
/// request depends on the balance, the space and the owner alone.
#[verifier::external_body]
pub(crate) fn create_account(from: &Address, to: &Address, lamports: u64, space: u64, owner: &Address) -> (r: Instruction)
    ensures
        r@.program_id == system_program_bytes(),
        r@.accounts == seq![writable(from@, true), writable(to@, true)],
        r@.data == create_account_data(lamports, space, owner@),
{
    let ix = solana_program::system_instruction::create_account(
        &Pubkey::new_from_array(from.bytes),
        &Pubkey::new_from_array(to.bytes),
        lamports,
        space,
        &Pubkey::new_from_array(owner.bytes),
    );
    let metas = ix.accounts.iter().map(
        |m| AccountMeta::new(Address::new(m.pubkey.to_bytes()), m.is_signer, m.is_writable),
    );
    Instruction::new(Address::new(ix.program_id.to_bytes()), metas.collect(), ix.data)
}

/// Calls `instruction::initialize_mint` of `spl_token`.
///
/// Believed of it: asked for another program than the token program it
/// fails, for which this gives none; else the instruction names the mint,
/// writable, and the rent sysvar, and its request is the tag 0, the
/// decimals, the minting authority and the freezing authority behind a byte
/// that says whether there is one.
#[verifier::external_body]
pub(crate) fn initialize_mint(token_program: &Address, mint: &Address, mint_authority: &Address, freeze_authority: Option<Address>, decimals: u8) -> (r: Option<Instruction>)
    ensures
        instruction_view(r) == token_instruction(
            token_program@,
            seq![writable(mint@, false), readonly(rent_sysvar_bytes(), false)],
            initialize_mint_data(decimals, mint_authority@, authority_view(freeze_authority)),
        ),
{
    let freeze = freeze_authority.map(|a| Pubkey::new_from_array(a.bytes));
    let ix = spl_token::instruction::initialize_mint(
        &Pubkey::new_from_array(token_program.bytes),
        &Pubkey::new_from_array(mint.bytes),
        &Pubkey::new_from_array(mint_authority.bytes),
        freeze.as_ref(),
        decimals,
    ).ok()?;
    let metas = ix.accounts.iter().map(
        |m| AccountMeta::new(Address::new(m.pubkey.to_bytes()), m.is_signer, m.is_writable),
    );
    Some(Instruction::new(Address::new(ix.program_id.to_bytes()), metas.collect(), ix.data))
}

/// Calls `instruction::mint_to` of `spl_token`, with one signer.
///
/// Believed of it: asked for another program than the token program it
/// fails, for which this gives none; else the instruction names the mint
/// and the receiving account, both writable, the authority, and the signer
/// as signing, and its request is the tag 7 and the amount.
#[verifier::external_body]
pub(crate) fn mint_to(token_program: &Address, mint: &Address, account: &Address, authority: &Address, signer: &Address, amount: u64) -> (r: Option<Instruction>)
    ensures
        instruction_view(r) == token_instruction(
            token_program@,
            signed_accounts(mint@, account@, authority@, signer@),
            mint_to_data(amount),
        ),
{
    let ix = spl_token::instruction::mint_to(
        &Pubkey::new_from_array(token_program.bytes),
        &Pubkey::new_from_array(mint.bytes),
        &Pubkey::new_from_array(account.bytes),
        &Pubkey::new_from_array(authority.bytes),
        &[&Pubkey::new_from_array(signer.bytes)],
        amount,
    ).ok()?;
    let metas = ix.accounts.iter().map(
        |m| AccountMeta::new(Address::new(m.pubkey.to_bytes()), m.is_signer, m.is_writable),
    );
    Some(Instruction::new(Address::new(ix.program_id.to_bytes()), metas.collect(), ix.data))
}

/// Calls `instruction::transfer` of `spl_token`, with one signer.
///
/// Believed of it: asked for another program than the token program it
/// fails, for which this gives none; else the instruction names the source
/// and the destination, both writable, the authority, and the signer as
/// signing, and its request is the tag 3 and the amount.
#[verifier::external_body]
pub(crate) fn transfer(token_program: &Address, source: &Address, destination: &Address, authority: &Address, signer: &Address, amount: u64) -> (r: Option<Instruction>)
    ensures
        instruction_view(r) == token_instruction(
            token_program@,
            signed_accounts(source@, destination@, authority@, signer@),
            transfer_data(amount),
        ),
{
    let ix = spl_token::instruction::transfer(
        &Pubkey::new_from_array(token_program.bytes),
        &Pubkey::new_from_array(source.bytes),
        &Pubkey::new_from_array(destination.bytes),
        &Pubkey::new_from_array(authority.bytes),
        &[&Pubkey::new_from_array(signer.bytes)],
        amount,
    ).ok()?;
    let metas = ix.accounts.iter().map(
        |m| AccountMeta::new(Address::new(m.pubkey.to_bytes()), m.is_signer, m.is_writable),
    );
    Some(Instruction::new(Address::new(ix.program_id.to_bytes()), metas.collect(), ix.data))
}

/// Calls `instruction::burn` of `spl_token`, with one signer.
///
/// Believed of it: asked for another program than the token program it
/// fails, for which this gives none; else the instruction names the account
/// that holds the shares and the mint, both writable, the authority, and
/// the signer as signing, and its request is the tag 8 and the amount.
#[verifier::external_body]
pub(crate) fn burn(token_program: &Address, account: &Address, mint: &Address, authority: &Address, signer: &Address, amount: u64) -> (r: Option<Instruction>)
    ensures
        instruction_view(r) == token_instruction(
            token_program@,
            signed_accounts(account@, mint@, authority@, signer@),
            burn_data(amount),
        ),
{
    let ix = spl_token::instruction::burn(
        &Pubkey::new_from_array(token_program.bytes),
        &Pubkey::new_from_array(account.bytes),
        &Pubkey::new_from_array(mint.bytes),
        &Pubkey::new_from_array(authority.bytes),
        &[&Pubkey::new_from_array(signer.bytes)],
        amount,
    ).ok()?;
    let metas = ix.accounts.iter().map(
        |m| AccountMeta::new(Address::new(m.pubkey.to_bytes()), m.is_signer, m.is_writable),
    );
    Some(Instruction::new(Address::new(ix.program_id.to_bytes()), metas.collect(), ix.data))
}

/// The accounts of the instruction that creates the token account
/// associated with a wallet and a mint.
pub open spec fn associated_token_accounts(
    funding: Seq<u8>,
    associated: Seq<u8>,
    wallet: Seq<u8>,
    mint: Seq<u8>,
    token_program: Seq<u8>,
) -> Seq<AccountMetaView> {
    seq![
        writable(funding, true),
        writable(associated, false),
        readonly(wallet, false),
        readonly(mint, false),
        readonly(system_program_bytes(), false),
        readonly(token_program, false),
    ]
}

/// Calls `instruction::create_associated_token_account` of
/// `spl_associated_token_account`.
///
/// It derives the associated address itself and panics where there is none,
/// so it is called only for a wallet and a mint for which the search finds
/// one. Believed of it: the instruction is for the associated-token-account
/// program, names the funding account, writable and signing, the associated
/// account, writable, and the wallet, the mint, the system program and the
/// token program, and its request is the single byte 0.
#[verifier::external_body]
pub(crate) fn create_associated_token_account(funding: &Address, wallet: &Address, mint: &Address, token_program: &Address) -> (r: Instruction)
    requires
        found_address(
            seq![wallet@, token_program@, mint@],
            associated_token_program_bytes(),
        ) is Some,
    ensures
        r@.program_id == associated_token_program_bytes(),
        r@.accounts == associated_token_accounts(
            funding@,
            found_address(
                seq![wallet@, token_program@, mint@],
                associated_token_program_bytes(),
            ).unwrap().0,
            wallet@,
            mint@,
            token_program@,
        ),
        r@.data == seq![0u8],
{
    let ix = spl_associated_token_account::instruction::create_associated_token_account(
        &Pubkey::new_from_array(funding.bytes),
        &Pubkey::new_from_array(wallet.bytes),
        &Pubkey::new_from_array(mint.bytes),
        &Pubkey::new_from_array(token_program.bytes),
    );
    let metas = ix.accounts.iter().map(
        |m| AccountMeta::new(Address::new(m.pubkey.to_bytes()), m.is_signer, m.is_writable),
    );
    Instruction::new(Address::new(ix.program_id.to_bytes()), metas.collect(), ix.data)
}

/// The instruction by which the system program creates an account.
pub open spec fn create_account_view(
    from: Seq<u8>,
    to: Seq<u8>,
    lamports: u64,
    space: u64,
    owner: Seq<u8>,
) -> InstructionView {
    InstructionView {
        program_id: system_program_bytes(),
        accounts: seq![writable(from, true), writable(to, true)],
        data: create_account_data(lamports, space, owner),
    }
}

/// An instruction for the token program.
pub open spec fn token_view(accounts: Seq<AccountMetaView>, data: Seq<u8>) -> InstructionView {
    InstructionView { program_id: token_program_bytes(), accounts, data }
}

/// The instruction that creates the token account associated with a wallet
/// and a mint.
pub open spec fn create_associated_view(
    funding: Seq<u8>,
    associated: Seq<u8>,
    wallet: Seq<u8>,
    mint: Seq<u8>,
) -> InstructionView {
    InstructionView {
        program_id: associated_token_program_bytes(),
        accounts: associated_token_accounts(
            funding,
            associated,
            wallet,
            mint,
            token_program_bytes(),
        ),
        data: seq![0u8],
    }
}

} // verus!
