//! The runtime's own types, and the conversions between them and the
//! library's plain values.

use crate::account::{AccountMeta, Address, OperationDescriptor};
use vstd::prelude::*;

verus! {

/// The runtime's address type.
#[verifier::external_type_specification]
#[verifier::external_body]
pub struct ExPubkey(solana_program::pubkey::Pubkey);

/// The runtime's instruction type.
#[verifier::external_type_specification]
#[verifier::external_body]
pub struct ExOutsideInstruction(solana_program::instruction::Instruction);

/// The runtime's error type.
#[verifier::external_type_specification]
#[verifier::external_body]
pub struct ExProgramError(solana_program::program_error::ProgramError);

/// `Pubkey::new_from_array`: the runtime address made of an address's 32
/// bytes. Nothing is stated of it here; the builders that use it state what
/// they return over the library's own values.
#[verifier::external_body]
pub(crate) fn outside_key(address: &Address) -> solana_program::pubkey::Pubkey {
    solana_program::pubkey::Pubkey::new_from_array(address.bytes)
}

/// `Pubkey::to_bytes`, field by field: the library's instruction with the
/// program, entries and data of a runtime instruction. Nothing is stated of
/// it here; the builders that use it state what they return.
#[verifier::external_body]
pub(crate) fn from_outside(outside: solana_program::instruction::Instruction) -> OperationDescriptor {
    let mut accounts = Vec::with_capacity(outside.accounts.len());
    for meta in outside.accounts.iter() {
        let key = Address { bytes: meta.pubkey.to_bytes() };
        accounts.push(AccountMeta { pubkey: key, is_signer: meta.is_signer, is_writable: meta.is_writable });
    }
    OperationDescriptor { program_id: Address { bytes: outside.program_id.to_bytes() }, accounts, data: outside.data }
}

} // verus!
