//! The transaction composer: orders the instructions of an operation into one transaction.
//!
//! A transaction is executed whole or not at all, its instructions in their order. So the
//! order is part of what is composed: the compute budget first, then the operation's own
//! instructions as the operation fixes them, then the caller's priority fee if there is one,
//! and last the cleanup of the wrapped-native account if it is due.

use crate::codec::le_bytes;
use crate::instruction::{
    instructions_view, lemma_instructions_view_push, optional_view, readonly, writable,
    AccountMeta, Instruction, InstructionView,
};
use crate::pubkey::{Pubkey, COMPUTE_BUDGET_PROGRAM_ID, TOKEN_PROGRAM_ID};
use vstd::prelude::*;

verus! {

/// The compute units that every composed transaction asks for: enough for an operation
/// that touches every bin of a position.
pub const COMPUTE_UNIT_LIMIT: u32 = 1_400_000;

/// How far a transaction must have got for the sender to take it as done.
#[derive(Clone, Copy, Debug, PartialEq, Eq, Structural)]
pub enum CommitmentLevel {
    Processed,
    Confirmed,
    Finalized,
}

/// How a transaction is to be submitted: whether it is simulated first and against which
/// state, how often it is sent again, and from which slot on. The composer hands it on as
/// it is given.
#[derive(Clone, Copy, Debug, PartialEq, Eq)]
pub struct TransactionConfig {
    pub skip_preflight: bool,
    pub preflight_commitment: Option<CommitmentLevel>,
    pub max_retries: Option<usize>,
    pub min_context_slot: Option<u64>,
}

/// A transaction ready to be signed and submitted.
#[derive(Clone, Debug, PartialEq, Eq)]
pub struct TransactionBundle {
    /// The instructions, in the order of their execution.
    pub instructions: Vec<Instruction>,
    /// The accounts that must sign besides the payer.
    pub signers: Vec<Pubkey>,
    pub config: TransactionConfig,
}

/// A transaction with its instructions and addresses by their views.
pub struct TransactionBundleView {
    pub instructions: Seq<InstructionView>,
    pub signers: Seq<Seq<u8>>,
    pub config: TransactionConfig,
}

/// A list of addresses, each by its bytes.
pub open spec fn keys_view(keys: Seq<Pubkey>) -> Seq<Seq<u8>> {
    Seq::new(keys.len(), |i: int| keys[i]@)
}

impl View for TransactionBundle {
    type V = TransactionBundleView;

    open spec fn view(&self) -> TransactionBundleView {
        TransactionBundleView {
            instructions: instructions_view(self.instructions@),
            signers: keys_view(self.signers@),
            config: self.config,
        }
    }
}

/// The instruction that sets a transaction's compute-unit limit to `units`: for the
/// compute-budget program, without accounts, the byte 2 and then `units`.
pub open spec fn spec_compute_unit_limit_ix(units: u32) -> InstructionView {
    InstructionView {
        program_id: COMPUTE_BUDGET_PROGRAM_ID@,
        accounts: Seq::empty(),
        data: seq![2u8] + le_bytes(units as nat, 4),
    }
}

/// The instruction that closes token account `account` of `owner` and sends what it holds
/// to `owner`: for the token program, the byte 9 as its data. The account and the
/// destination are written; the owner is named once as the authority and once as the signer.
pub open spec fn spec_close_account_ix(account: Seq<u8>, owner: Seq<u8>) -> InstructionView {
    InstructionView {
        program_id: TOKEN_PROGRAM_ID@,
        accounts: seq![
            writable(account, false),
            writable(owner, false),
            readonly(owner, false),
            readonly(owner, true),
        ],
        data: seq![9u8],
    }
}

/// Calls `ComputeBudgetInstruction::set_compute_unit_limit`. The contract states the
/// instruction that it builds: program, no accounts, and the five bytes of data.
#[verifier::external_body]
fn set_compute_unit_limit(units: u32) -> (ix: Instruction)
    ensures
        ix@ == spec_compute_unit_limit_ix(units),
{
    let ix = solana_compute_budget_interface::ComputeBudgetInstruction::set_compute_unit_limit(
        units,
    );
    Instruction {
        program_id: Pubkey { bytes: ix.program_id.to_bytes() },
        accounts: ix.accounts.iter().map(
            |m| AccountMeta {
                pubkey: Pubkey { bytes: m.pubkey.to_bytes() },
                is_signer: m.is_signer,
                is_writable: m.is_writable,
            },
        ).collect(),
        data: ix.data,
    }
}

/// Calls `spl_token::instruction::close_account` for the token program itself, with `owner`
/// as destination, authority and only signer. With the token program's own address the call
/// does not fail. The contract states the instruction that it builds.
#[verifier::external_body]
fn close_account(account: &Pubkey, owner: &Pubkey) -> (ix: Instruction)
    ensures
        ix@ == spec_close_account_ix(account@, owner@),
{
    let from = anchor_lang::solana_program::pubkey::Pubkey::new_from_array(account.bytes);
    let to = anchor_lang::solana_program::pubkey::Pubkey::new_from_array(owner.bytes);
    let token = anchor_spl::token::spl_token::ID;
    let ix = anchor_spl::token::spl_token::instruction::close_account(
        &token, &from, &to, &to, &[&to],
    ).unwrap();
    Instruction {
        program_id: Pubkey { bytes: ix.program_id.to_bytes() },
        accounts: ix.accounts.iter().map(|m| AccountMeta {
            pubkey: Pubkey { bytes: m.pubkey.to_bytes() },
            is_signer: m.is_signer,
            is_writable: m.is_writable,
        }).collect(),
        data: ix.data,
    }
}

/// An optional instruction as a list of none or one.
pub open spec fn optional_seq(ix: Option<InstructionView>) -> Seq<InstructionView> {
    match ix {
        Some(ix) => seq![ix],
        None => Seq::empty(),
    }
}

/// The cleanup at the end of a transaction: closes the payer's wrapped-native account where
/// one is named, which hands its balance and rent back to the payer.
pub open spec fn spec_cleanup(payer: Seq<u8>, wrapped_native: Option<Seq<u8>>) -> Option<
    InstructionView,
> {
    match wrapped_native {
        Some(account) => Some(spec_close_account_ix(account, payer)),
        None => None,
    }
}

/// The composed transaction: the compute budget, then `body`, then the priority fee if
/// there is one, then the cleanup if there is one.
pub open spec fn spec_compose(
    body: Seq<InstructionView>,
    compute_unit_price: Option<InstructionView>,
    cleanup: Option<InstructionView>,
    signers: Seq<Seq<u8>>,
    config: TransactionConfig,
) -> TransactionBundleView {
    TransactionBundleView {
        instructions: seq![spec_compute_unit_limit_ix(COMPUTE_UNIT_LIMIT)] + body + optional_seq(
            compute_unit_price,
        ) + optional_seq(cleanup),
        signers,
        config,
    }
}

/// The instruction that fixes the compute-unit limit of a composed transaction.
pub fn compute_budget_ix() -> (ix: Instruction)
    ensures
        ix@ == spec_compute_unit_limit_ix(COMPUTE_UNIT_LIMIT),
{
    set_compute_unit_limit(COMPUTE_UNIT_LIMIT)
}

/// The cleanup instruction for the payer's wrapped-native account, where one is named.
pub fn cleanup_ix(payer: &Pubkey, wrapped_native: Option<Pubkey>) -> (ix: Option<Instruction>)
    ensures
        optional_view(ix) == spec_cleanup(
            payer@,
            match wrapped_native {
                Some(account) => Some(account@),
                None => None,
            },
        ),
{
    match wrapped_native {
        Some(account) => Some(close_account(&account, payer)),
        None => None,
    }
}

/// Composes a transaction from the instructions of an operation.
///
/// The compute budget comes first and `body` keeps its order. A priority fee follows the
/// body, and a cleanup comes last.
pub fn compose(
    body: Vec<Instruction>,
    compute_unit_price: Option<Instruction>,
    cleanup: Option<Instruction>,
    signers: Vec<Pubkey>,
    config: TransactionConfig,
) -> (bundle: TransactionBundle)
    ensures
        bundle@ == spec_compose(
            instructions_view(body@),
            optional_view(compute_unit_price),
            optional_view(cleanup),
            keys_view(signers@),
            config,
        ),
{
    let mut instructions: Vec<Instruction> = vec![compute_budget_ix()];
    let mut body = body;
    let ghost body_seq = body@;
    assert(instructions_view(instructions@) =~= seq![
        spec_compute_unit_limit_ix(COMPUTE_UNIT_LIMIT),
    ]);
    assert(instructions_view(instructions@ + body_seq) =~= instructions_view(instructions@)
        + instructions_view(body_seq));
    instructions.append(&mut body);
    match compute_unit_price {
        Some(ix) => {
            proof {
                lemma_instructions_view_push(instructions@, ix);
            }
            instructions.push(ix);
        },
        None => {},
    }
    assert(instructions_view(instructions@) =~= seq![
        spec_compute_unit_limit_ix(COMPUTE_UNIT_LIMIT),
    ] + instructions_view(body_seq) + optional_seq(optional_view(compute_unit_price)));
    match cleanup {
        Some(ix) => {
            proof {
                lemma_instructions_view_push(instructions@, ix);
            }
            instructions.push(ix);
        },
        None => {},
    }
    assert(instructions_view(instructions@) =~= seq![
        spec_compute_unit_limit_ix(COMPUTE_UNIT_LIMIT),
    ] + instructions_view(body_seq) + optional_seq(optional_view(compute_unit_price))
        + optional_seq(optional_view(cleanup)));
    TransactionBundle { instructions, signers, config }
}

} // verus!
