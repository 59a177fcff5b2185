//! Instruction payloads: the program to call, the accounts it gets, and its argument bytes.

use crate::pubkey::Pubkey;
use vstd::prelude::*;

verus! {

/// A reference to an account in an instruction: its address, whether it signs the
/// transaction, and whether the instruction may write to it.
#[derive(Clone, Copy, Debug, PartialEq, Eq)]
pub struct AccountMeta {
    pub pubkey: Pubkey,
    pub is_signer: bool,
    pub is_writable: bool,
}

/// An account reference with the address as its bytes.
pub struct AccountMetaView {
    pub pubkey: Seq<u8>,
    pub is_signer: bool,
    pub is_writable: bool,
}

impl View for AccountMeta {
    type V = AccountMetaView;

    open spec fn view(&self) -> AccountMetaView {
        AccountMetaView {
            pubkey: self.pubkey@,
            is_signer: self.is_signer,
            is_writable: self.is_writable,
        }
    }
}

/// A reference to an account that the instruction may write to.
pub open spec fn writable(pubkey: Seq<u8>, is_signer: bool) -> AccountMetaView {
    AccountMetaView { pubkey, is_signer, is_writable: true }
}

/// A reference to an account that the instruction only reads.
pub open spec fn readonly(pubkey: Seq<u8>, is_signer: bool) -> AccountMetaView {
    AccountMetaView { pubkey, is_signer, is_writable: false }
}

impl AccountMeta {
    /// A reference to an account that the instruction may write to.
    pub fn new(pubkey: Pubkey, is_signer: bool) -> (meta: AccountMeta)
        ensures
            meta@ == writable(pubkey@, is_signer),
            meta.pubkey == pubkey,
    {
        AccountMeta { pubkey, is_signer, is_writable: true }
    }

    /// A reference to an account that the instruction only reads.
    pub fn new_readonly(pubkey: Pubkey, is_signer: bool) -> (meta: AccountMeta)
        ensures
            meta@ == readonly(pubkey@, is_signer),
            meta.pubkey == pubkey,
    {
        AccountMeta { pubkey, is_signer, is_writable: false }
    }
}

/// A list of account references, each by its view.
pub open spec fn metas_view(metas: Seq<AccountMeta>) -> Seq<AccountMetaView> {
    Seq::new(metas.len(), |i: int| metas[i]@)
}

/// One instruction of a transaction.
#[derive(Clone, Debug, PartialEq, Eq)]
pub struct Instruction {
    /// The program that executes the instruction.
    pub program_id: Pubkey,
    /// The accounts handed to the program, in the order it expects them.
    pub accounts: Vec<AccountMeta>,
    /// The encoded arguments.
    pub data: Vec<u8>,
}

/// An instruction with its addresses as bytes and its lists as sequences.
pub struct InstructionView {
    pub program_id: Seq<u8>,
    pub accounts: Seq<AccountMetaView>,
    pub data: Seq<u8>,
}

impl View for Instruction {
    type V = InstructionView;

    open spec fn view(&self) -> InstructionView {
        InstructionView {
            program_id: self.program_id@,
            accounts: metas_view(self.accounts@),
            data: self.data@,
        }
    }
}

/// A list of instructions, each by its view.
pub open spec fn instructions_view(instructions: Seq<Instruction>) -> Seq<InstructionView> {
    Seq::new(instructions.len(), |i: int| instructions[i]@)
}

/// An optional instruction by its view.
pub open spec fn optional_view(instruction: Option<Instruction>) -> Option<InstructionView> {
    match instruction {
        Some(ix) => Some(ix@),
        None => None,
    }
}

/// Pushing a reference onto a list pushes its view onto the list's view.
pub proof fn lemma_metas_view_push(metas: Seq<AccountMeta>, meta: AccountMeta)
    ensures
        metas_view(metas.push(meta)) == metas_view(metas).push(meta@),
{
    assert(metas_view(metas.push(meta)) =~= metas_view(metas).push(meta@));
}

/// Pushing an instruction onto a list pushes its view onto the list's view.
pub proof fn lemma_instructions_view_push(instructions: Seq<Instruction>, ix: Instruction)
    ensures
        instructions_view(instructions.push(ix)) == instructions_view(instructions).push(ix@),
{
    assert(instructions_view(instructions.push(ix)) =~= instructions_view(instructions).push(
        ix@,
    ));
}

} // verus!
