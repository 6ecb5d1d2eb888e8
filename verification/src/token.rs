//! The custody service's instructions.

use crate::account::{readonly, writable, Address, OperationDescriptor, DescriptorView};
use crate::bridge::{from_outside, outside_key};
use crate::invocation::InvokeError;
use solana_program::program_error::ProgramError;
use vstd::bytes::spec_u64_to_le_bytes;
use vstd::prelude::*;

verus! {

/// The address of the custody program.
pub open spec fn token_program_id() -> Seq<u8> {
    seq![
        6u8, 221, 246, 225, 215, 101, 161, 147, 217, 203, 225, 70, 206, 235, 121, 172,
        28, 180, 133, 237, 95, 91, 55, 145, 58, 140, 245, 133, 126, 255, 0, 169,
    ]
}

/// The address of the program that creates associated custody accounts.
pub open spec fn associated_token_program_id() -> Seq<u8> {
    seq![
        140u8, 151, 37, 143, 78, 36, 137, 241, 187, 61, 16, 41, 20, 142, 13, 131,
        11, 90, 19, 153, 218, 255, 16, 132, 4, 142, 123, 216, 219, 233, 248, 89,
    ]
}

/// The address of the ledger's system program.
pub open spec fn system_program_id() -> Seq<u8> {
    Seq::new(32, |i: int| 0u8)
}

/// The role of an authority over a mint or a custody account.
#[derive(Clone, Copy, Debug, PartialEq, Eq)]
pub enum AuthorityType {
    /// May mint new units.
    MintTokens,
    /// May freeze the mint's accounts.
    FreezeAccount,
    /// Owns the custody account.
    AccountOwner,
    /// May close the custody account.
    CloseAccount,
}

impl AuthorityType {
    /// The byte that stands for the role on the wire.
    pub open spec fn code(self) -> u8 {
        match self {
            AuthorityType::MintTokens => 0u8,
            AuthorityType::FreezeAccount => 1u8,
            AuthorityType::AccountOwner => 2u8,
            AuthorityType::CloseAccount => 3u8,
        }
    }
}

/// An instruction over two writable accounts and the authority that signs
/// for them, with an operation code and an amount.
pub open spec fn amount_instruction(
    code: u8,
    program: Seq<u8>,
    first: Seq<u8>,
    second: Seq<u8>,
    authority: Seq<u8>,
    amount: u64,
) -> DescriptorView {
    DescriptorView {
        program_id: program,
        accounts: seq![writable(first, false), writable(second, false), readonly(authority, true)],
        data: seq![code] + spec_u64_to_le_bytes(amount),
    }
}

/// The `Transfer` instruction: from `source` to `destination`.
pub open spec fn transfer_instruction(
    program: Seq<u8>,
    source: Seq<u8>,
    destination: Seq<u8>,
    authority: Seq<u8>,
    amount: u64,
) -> DescriptorView {
    amount_instruction(3u8, program, source, destination, authority, amount)
}

/// The `MintTo` instruction: new units of `mint` into `account`.
pub open spec fn mint_to_instruction(
    program: Seq<u8>,
    mint: Seq<u8>,
    account: Seq<u8>,
    authority: Seq<u8>,
    amount: u64,
) -> DescriptorView {
    amount_instruction(7u8, program, mint, account, authority, amount)
}

/// The `Burn` instruction: units of `mint` out of `account`.
pub open spec fn burn_instruction(
    program: Seq<u8>,
    account: Seq<u8>,
    mint: Seq<u8>,
    authority: Seq<u8>,
    amount: u64,
) -> DescriptorView {
    amount_instruction(8u8, program, account, mint, authority, amount)
}

/// The `CloseAccount` instruction: the reserve of `account` to `destination`.
pub open spec fn close_account_instruction(
    program: Seq<u8>,
    account: Seq<u8>,
    destination: Seq<u8>,
    owner: Seq<u8>,
) -> DescriptorView {
    DescriptorView {
        program_id: program,
        accounts: seq![writable(account, false), writable(destination, false), readonly(owner, true)],
        data: seq![9u8],
    }
}

/// The `SetAuthority` instruction: the role over `owned` passes from
/// `owner` to `new_authority`, or to nobody.
pub open spec fn set_authority_instruction(
    program: Seq<u8>,
    owned: Seq<u8>,
    new_authority: Option<Seq<u8>>,
    role: AuthorityType,
    owner: Seq<u8>,
) -> DescriptorView {
    DescriptorView {
        program_id: program,
        accounts: seq![writable(owned, false), readonly(owner, true)],
        data: seq![6u8, role.code()] + match new_authority {
            Some(key) => seq![1u8] + key,
            None => seq![0u8],
        },
    }
}

/// A transfer and the transfer back carry the same amount between the same
/// two accounts under the same authority, with source and destination
/// exchanged. What the custody service then does to the balances is its own.
pub proof fn transfer_back_exchanges_accounts(
    program: Seq<u8>,
    source: Seq<u8>,
    destination: Seq<u8>,
    authority: Seq<u8>,
    amount: u64,
)
    ensures
        ({
            let there = transfer_instruction(program, source, destination, authority, amount);
            let back = transfer_instruction(program, destination, source, authority, amount);
            &&& there.data == back.data
            &&& there.program_id == back.program_id
            &&& there.accounts.len() == 3 && back.accounts.len() == 3
            &&& there.accounts[0] == back.accounts[1]
            &&& there.accounts[1] == back.accounts[0]
            &&& there.accounts[2] == back.accounts[2]
        }),
{
}

/// The address of the custody account bound to a wallet and a mint under a
/// custody program, as `get_associated_token_address_with_program_id`
/// derives it.
pub uninterp spec fn associated_token_address(
    wallet: Seq<u8>,
    mint: Seq<u8>,
    token_program: Seq<u8>,
) -> Seq<u8>;

/// The instruction that creates the custody account at `associated`, bound
/// to a wallet and a mint and paid for by `funding`.
pub open spec fn create_associated_instruction(
    funding: Seq<u8>,
    associated: Seq<u8>,
    wallet: Seq<u8>,
    mint: Seq<u8>,
    token_program: Seq<u8>,
) -> DescriptorView {
    DescriptorView {
        program_id: associated_token_program_id(),
        accounts: seq![
            writable(funding, true),
            writable(associated, false),
            readonly(wallet, false),
            readonly(mint, false),
            readonly(system_program_id(), false),
            readonly(token_program, false),
        ],
        data: seq![0u8],
    }
}

/// Tells the reasons of `ProgramError` apart: `IncorrectProgramId` becomes
/// the library's reason of that name, and any other is carried on as it
/// came. Nothing is stated of it here; the builders that use it state which
/// reason they return.
#[verifier::external_body]
pub(crate) fn custody_refusal(reason: ProgramError) -> InvokeError {
    match reason {
        ProgramError::IncorrectProgramId => InvokeError::IncorrectProgramId,
        other => InvokeError::Token(other),
    }
}

/// `spl_token::instruction::transfer` with no further signers. It refuses
/// any program but the custody program, as an incorrect program id; else it
/// returns the `Transfer` instruction, whose data is the code 3 and the
/// amount in little-endian bytes.
#[verifier::external_body]
pub(crate) fn transfer(
    program: &Address,
    source: &Address,
    destination: &Address,
    authority: &Address,
    amount: u64,
) -> (built: Result<OperationDescriptor, InvokeError>)
    ensures
        built is Ok <==> program@ == token_program_id(),
        built matches Err(reason) ==> reason == InvokeError::IncorrectProgramId,
        built matches Ok(ix) ==> ix@ == transfer_instruction(
            program@,
            source@,
            destination@,
            authority@,
            amount,
        ),
{
    let (program, source, destination) = (outside_key(program), outside_key(source), outside_key(destination));
    let authority = outside_key(authority);
    spl_token::instruction::transfer(&program, &source, &destination, &authority, &[], amount)
        .map(from_outside)
        .map_err(custody_refusal)
}

/// `spl_token::instruction::mint_to` with no further signers. It refuses
/// any program but the custody program, as an incorrect program id; else it
/// returns the `MintTo` instruction, whose data is the code 7 and the
/// amount in little-endian bytes.
#[verifier::external_body]
pub(crate) fn mint_to(
    program: &Address,
    mint: &Address,
    account: &Address,
    authority: &Address,
    amount: u64,
) -> (built: Result<OperationDescriptor, InvokeError>)
    ensures
        built is Ok <==> program@ == token_program_id(),
        built matches Err(reason) ==> reason == InvokeError::IncorrectProgramId,
        built matches Ok(ix) ==> ix@ == mint_to_instruction(
            program@,
            mint@,
            account@,
            authority@,
            amount,
        ),
{
    let (program, mint, account) = (outside_key(program), outside_key(mint), outside_key(account));
    let authority = outside_key(authority);
    spl_token::instruction::mint_to(&program, &mint, &account, &authority, &[], amount)
        .map(from_outside)
        .map_err(custody_refusal)
}

/// `spl_token::instruction::burn` with no further signers. It refuses any
/// program but the custody program, as an incorrect program id; else it
/// returns the `Burn` instruction, whose data is the code 8 and the amount
/// in little-endian bytes.
#[verifier::external_body]
pub(crate) fn burn(
    program: &Address,
    account: &Address,
    mint: &Address,
    authority: &Address,
    amount: u64,
) -> (built: Result<OperationDescriptor, InvokeError>)
    ensures
        built is Ok <==> program@ == token_program_id(),
        built matches Err(reason) ==> reason == InvokeError::IncorrectProgramId,
        built matches Ok(ix) ==> ix@ == burn_instruction(
            program@,
            account@,
            mint@,
            authority@,
            amount,
        ),
{
    let (program, account, mint) = (outside_key(program), outside_key(account), outside_key(mint));
    let authority = outside_key(authority);
    spl_token::instruction::burn(&program, &account, &mint, &authority, &[], amount)
        .map(from_outside)
        .map_err(custody_refusal)
}

/// `spl_token::instruction::close_account` with no further signers. It
/// refuses any program but the custody program, as an incorrect program
/// id; else it returns the `CloseAccount` instruction, whose data is the
/// code 9.
#[verifier::external_body]
pub(crate) fn close_account(
    program: &Address,
    account: &Address,
    destination: &Address,
    owner: &Address,
) -> (built: Result<OperationDescriptor, InvokeError>)
    ensures
        built is Ok <==> program@ == token_program_id(),
        built matches Err(reason) ==> reason == InvokeError::IncorrectProgramId,
        built matches Ok(ix) ==> ix@ == close_account_instruction(
            program@,
            account@,
            destination@,
            owner@,
        ),
{
    let (program, account, destination) = (outside_key(program), outside_key(account), outside_key(destination));
    let owner = outside_key(owner);
    spl_token::instruction::close_account(&program, &account, &destination, &owner, &[])
        .map(from_outside)
        .map_err(custody_refusal)
}

/// `spl_token::instruction::set_authority` with no further signers. It
/// refuses any program but the custody program, as an incorrect program
/// id; else it returns the `SetAuthority` instruction, whose data is the
/// code 6, the role's byte, and the new authority behind a byte 1, or a
/// byte 0 for none.
#[verifier::external_body]
pub(crate) fn set_authority(
    program: &Address,
    owned: &Address,
    new_authority: Option<Address>,
    role: AuthorityType,
    owner: &Address,
) -> (built: Result<OperationDescriptor, InvokeError>)
    ensures
        built is Ok <==> program@ == token_program_id(),
        built matches Err(reason) ==> reason == InvokeError::IncorrectProgramId,
        built matches Ok(ix) ==> ix@ == set_authority_instruction(
            program@,
            owned@,
            match new_authority {
                Some(key) => Some(key@),
                None => None,
            },
            role,
            owner@,
        ),
{
    let role = match role {
        AuthorityType::MintTokens => spl_token::instruction::AuthorityType::MintTokens,
        AuthorityType::FreezeAccount => spl_token::instruction::AuthorityType::FreezeAccount,
        AuthorityType::AccountOwner => spl_token::instruction::AuthorityType::AccountOwner,
        AuthorityType::CloseAccount => spl_token::instruction::AuthorityType::CloseAccount,
    };
    let (program, owned, owner) = (outside_key(program), outside_key(owned), outside_key(owner));
    let new_authority = new_authority.map(|key| outside_key(&key));
    spl_token::instruction::set_authority(&program, &owned, new_authority.as_ref(), role, &owner, &[])
        .map(from_outside)
        .map_err(custody_refusal)
}

/// `spl_associated_token_account::instruction::create_associated_token_account`:
/// the instruction to the account-creating program over the payer, the
/// derived address of the new account, the wallet, the mint, the system
/// program and the custody program, with the one data byte 0. The
/// derivation gives up only where none of its 256 bump seeds yields an
/// address off the curve.
#[verifier::external_body]
pub(crate) fn create_associated_token_account(
    funding: &Address,
    wallet: &Address,
    mint: &Address,
    token_program: &Address,
) -> (built: OperationDescriptor)
    ensures
        built@ == create_associated_instruction(
            funding@,
            associated_token_address(wallet@, mint@, token_program@),
            wallet@,
            mint@,
            token_program@,
        ),
{
    let (funding, wallet, mint) = (outside_key(funding), outside_key(wallet), outside_key(mint));
    let program = outside_key(token_program);
    from_outside(
        spl_associated_token_account::instruction::create_associated_token_account(
            &funding, &wallet, &mint, &program,
        ),
    )
}

} // verus!
