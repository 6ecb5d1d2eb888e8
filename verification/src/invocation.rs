//! A composed cross-program call, ready to be performed.

use crate::account::{account_views, AccountRef, AccountView, OperationDescriptor, DescriptorView};
use crate::authority::SigningAuthority;
use vstd::prelude::*;

verus! {

/// The order-book venue's error type.
#[verifier::external_type_specification]
#[verifier::external_body]
pub struct ExDexError(serum_dex::error::DexError);

/// Why a call could not be composed. The reason is the collaborator's own
/// and is handed on as it came.
#[derive(Debug)]
pub enum InvokeError {
    /// The custody service's instruction builder refused the program it was
    /// to address: it is not the custody program.
    IncorrectProgramId,
    /// The custody service's instruction builder refused for another reason.
    Token(solana_program::program_error::ProgramError),
    /// The order-book venue's instruction builder refused.
    Dex(serum_dex::error::DexError),
}

/// What contracts say of a call.
pub struct InvocationView {
    pub instruction: DescriptorView,
    pub accounts: Seq<AccountView>,
    /// The signer seeds, where the program's own authority signs.
    pub signer: Option<Seq<Seq<u8>>>,
}

/// One cross-program call: the instruction, the account handles to pass
/// with it in this order, and the authority that signs, if the program's
/// own does.
#[derive(Debug)]
pub struct Invocation {
    pub instruction: OperationDescriptor,
    pub accounts: Vec<AccountRef>,
    pub signer: Option<SigningAuthority>,
}

impl View for Invocation {
    type V = InvocationView;

    open spec fn view(&self) -> InvocationView {
        InvocationView {
            instruction: self.instruction@,
            accounts: account_views(self.accounts@),
            signer: match self.signer {
                Some(authority) => Some(authority.seeds()),
                None => None,
            },
        }
    }
}

impl Invocation {
    /// Whether every account that the instruction names is among the handles
    /// passed with it, and the called program too. The runtime refuses a call
    /// that lacks one of them.
    pub open spec fn is_complete(&self) -> bool {
        &&& forall|i: int|
            0 <= i < self@.instruction.accounts.len() ==> exists|j: int|
                0 <= j < self@.accounts.len() && (#[trigger] self@.accounts[j]).key
                    == (#[trigger] self@.instruction.accounts[i]).key
        &&& exists|j: int|
            0 <= j < self@.accounts.len() && (#[trigger] self@.accounts[j]).key
                == self@.instruction.program_id
    }

    /// A call is complete where the handles hold the instruction's accounts
    /// in the instruction's order from `offset` on, and the program at
    /// `program_at`.
    pub proof fn aligned_is_complete(&self, offset: int, program_at: int)
        requires
            0 <= offset,
            self@.instruction.accounts.len() + offset <= self@.accounts.len(),
            forall|i: int|
                0 <= i < self@.instruction.accounts.len() ==> (
                #[trigger] self@.instruction.accounts[i]).key == self@.accounts[i + offset].key,
            0 <= program_at < self@.accounts.len(),
            self@.accounts[program_at].key == self@.instruction.program_id,
        ensures
            self.is_complete(),
    {
        assert forall|i: int| 0 <= i < self@.instruction.accounts.len() implies exists|j: int|
            0 <= j < self@.accounts.len() && (#[trigger] self@.accounts[j]).key == (
            #[trigger] self@.instruction.accounts[i]).key by {
            assert(self@.accounts[i + offset].key == self@.instruction.accounts[i].key);
        }
        assert(self@.accounts[program_at].key == self@.instruction.program_id);
    }
}

} // verus!
