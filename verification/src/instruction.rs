//! Outbound cross-contract invocations, as plain data.
//!
//! The custody logic never executes a transfer itself. Each withdrawal yields an
//! [`Invocation`]: the instruction to hand to the target contract, the accounts to pass
//! along with it, and the seeds by which the vault signs.

use crate::encoding::byte_strings;
use crate::error::Errors;
use crate::key::Pubkey;
use vstd::prelude::*;

verus! {

/// One account reference of an instruction.
#[derive(Clone, Copy, Debug, PartialEq, Eq)]
pub struct AccountMeta {
    pub pubkey: Pubkey,
    /// Whether the account signs the instruction.
    pub is_signer: bool,
    /// Whether the instruction may modify the account.
    pub is_writable: bool,
}

/// A reference to an account that the instruction may modify.
pub open spec fn writable(pubkey: Pubkey, is_signer: bool) -> AccountMeta {
    AccountMeta { pubkey, is_signer, is_writable: true }
}

/// A reference to an account that the instruction only reads.
pub open spec fn readonly(pubkey: Pubkey, is_signer: bool) -> AccountMeta {
    AccountMeta { pubkey, is_signer, is_writable: false }
}

impl AccountMeta {
    /// A reference to an account that the instruction may modify.
    pub fn new(pubkey: Pubkey, is_signer: bool) -> (r: AccountMeta)
        ensures
            r == writable(pubkey, is_signer),
    {
        AccountMeta { pubkey, is_signer, is_writable: true }
    }

    /// A reference to an account that the instruction only reads.
    pub fn new_readonly(pubkey: Pubkey, is_signer: bool) -> (r: AccountMeta)
        ensures
            r == readonly(pubkey, is_signer),
    {
        AccountMeta { pubkey, is_signer, is_writable: false }
    }
}

/// An instruction addressed to another contract.
#[derive(Clone, Debug, PartialEq, Eq)]
pub struct Instruction {
    /// The contract that executes the instruction.
    pub program_id: Pubkey,
    /// Ordered account references.
    pub accounts: Vec<AccountMeta>,
    /// Opaque payload, in the target contract's own encoding.
    pub data: Vec<u8>,
}

/// Mathematical content of an [`Instruction`].
pub struct InstructionView {
    pub program_id: Pubkey,
    pub accounts: Seq<AccountMeta>,
    pub data: Seq<u8>,
}

impl View for Instruction {
    type V = InstructionView;

    open spec fn view(&self) -> InstructionView {
        InstructionView { program_id: self.program_id, accounts: self.accounts@, data: self.data@ }
    }
}

/// One outbound invocation that a vault authorises.
#[derive(Clone, Debug, PartialEq, Eq)]
pub struct Invocation {
    pub instruction: Instruction,
    /// Addresses of the accounts handed to the runtime with the instruction, in order.
    pub account_infos: Vec<Pubkey>,
    /// Seeds from which the runtime re-derives the vault's address to accept it as signer.
    pub signer_seeds: Vec<Vec<u8>>,
}

/// Mathematical content of an [`Invocation`].
pub struct InvocationView {
    pub instruction: InstructionView,
    pub account_infos: Seq<Pubkey>,
    pub signer_seeds: Seq<Seq<u8>>,
}

impl View for Invocation {
    type V = InvocationView;

    open spec fn view(&self) -> InvocationView {
        InvocationView {
            instruction: self.instruction@,
            account_infos: self.account_infos@,
            signer_seeds: byte_strings(self.signer_seeds@),
        }
    }
}

/// The content of an invocation that was issued, or the refusal.
pub open spec fn outcome(r: Result<Invocation, Errors>) -> Result<InvocationView, Errors> {
    match r {
        Ok(invocation) => Ok(invocation@),
        Err(e) => Err(e),
    }
}

} // verus!
