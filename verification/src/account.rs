//! Addresses, account handles and instructions as plain values.

use vstd::prelude::*;

verus! {

/// A 32-byte ledger address.
#[derive(Clone, Copy, Debug, Default, PartialEq, Eq, Hash)]
pub struct Address {
    pub bytes: [u8; 32],
}

impl View for Address {
    type V = Seq<u8>;

    open spec fn view(&self) -> Seq<u8> {
        self.bytes@
    }
}

/// What contracts say of an account: its address and its two privileges.
pub struct AccountView {
    pub key: Seq<u8>,
    pub is_signer: bool,
    pub is_writable: bool,
}

/// A writable account entry of an instruction.
pub open spec fn writable(key: Seq<u8>, is_signer: bool) -> AccountView {
    AccountView { key, is_signer, is_writable: true }
}

/// A read-only account entry of an instruction.
pub open spec fn readonly(key: Seq<u8>, is_signer: bool) -> AccountView {
    AccountView { key, is_signer, is_writable: false }
}

/// A handle on an account that the caller resolved: the address and the
/// privileges the account entered the transaction with. The account's data
/// stays with the runtime.
#[derive(Clone, Copy, Debug, PartialEq, Eq)]
pub struct AccountRef {
    pub key: Address,
    pub is_signer: bool,
    pub is_writable: bool,
}

impl View for AccountRef {
    type V = AccountView;

    open spec fn view(&self) -> AccountView {
        AccountView { key: self.key@, is_signer: self.is_signer, is_writable: self.is_writable }
    }
}

/// One account entry of an instruction.
#[derive(Clone, Copy, Debug, PartialEq, Eq)]
pub struct AccountMeta {
    pub pubkey: Address,
    pub is_signer: bool,
    pub is_writable: bool,
}

impl View for AccountMeta {
    type V = AccountView;

    open spec fn view(&self) -> AccountView {
        AccountView { key: self.pubkey@, is_signer: self.is_signer, is_writable: self.is_writable }
    }
}

/// The entries that a list of account entries stands for.
pub open spec fn meta_views(metas: Seq<AccountMeta>) -> Seq<AccountView> {
    metas.map_values(|m: AccountMeta| m@)
}

/// The accounts that a list of handles stands for.
pub open spec fn account_views(accounts: Seq<AccountRef>) -> Seq<AccountView> {
    accounts.map_values(|a: AccountRef| a@)
}

impl AccountMeta {
    /// A writable entry.
    pub fn new(pubkey: Address, is_signer: bool) -> (meta: Self)
        ensures
            meta@ == writable(pubkey@, is_signer),
    {
        AccountMeta { pubkey, is_signer, is_writable: true }
    }

    /// A read-only entry.
    pub fn new_readonly(pubkey: Address, is_signer: bool) -> (meta: Self)
        ensures
            meta@ == readonly(pubkey@, is_signer),
    {
        AccountMeta { pubkey, is_signer, is_writable: false }
    }
}

/// What contracts say of an instruction.
pub struct DescriptorView {
    pub program_id: Seq<u8>,
    pub accounts: Seq<AccountView>,
    pub data: Seq<u8>,
}

/// An operation addressed to another program: the program, the accounts in
/// the order its protocol fixes, and the encoded operation.
#[derive(Clone, Debug, PartialEq, Eq)]
pub struct OperationDescriptor {
    pub program_id: Address,
    pub accounts: Vec<AccountMeta>,
    pub data: Vec<u8>,
}

impl View for OperationDescriptor {
    type V = DescriptorView;

    open spec fn view(&self) -> DescriptorView {
        DescriptorView {
            program_id: self.program_id@,
            accounts: meta_views(self.accounts@),
            data: self.data@,
        }
    }
}

} // verus!
