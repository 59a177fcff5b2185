//! The life of a position, as far as the order of operations depends on it: opened, holding
//! liquidity or fees, emptied, closed.
//!
//! The liquidity program alone decides what it executes. This is a model of what it decides
//! about one position, small enough to state what the composed transactions rely on: that a
//! position is closed only when it holds nothing, that nothing follows a close, and that a
//! transaction is executed whole or not at all.

use crate::args::{
    ADD_LIQUIDITY_BY_STRATEGY_DISCRIMINATOR, CLAIM_FEE_DISCRIMINATOR,
    CLOSE_POSITION_DISCRIMINATOR, INITIALIZE_POSITION_DISCRIMINATOR,
    REMOVE_ALL_LIQUIDITY_DISCRIMINATOR,
};
use crate::instruction::{instructions_view, Instruction, InstructionView};
use crate::pubkey::{lb_clmm_program, lemma_same_bytes_same_key, LB_CLMM_PROGRAM_ID};
use vstd::prelude::*;

verus! {

/// What a position holds while it holds anything.
#[derive(Clone, Copy, Debug, PartialEq, Eq, Structural)]
pub enum Holdings {
    /// Liquidity, and no unclaimed fees.
    Liquidity,
    /// Unclaimed fees, and no liquidity.
    Fees,
    /// Liquidity and unclaimed fees.
    Both,
}

/// Where a position is in its life.
#[derive(Clone, Copy, Debug, PartialEq, Eq, Structural)]
pub enum Phase {
    /// Created, and never deposited into.
    Open,
    /// Holds liquidity, unclaimed fees, or both.
    Liquid(Holdings),
    /// Held something once; all of it is withdrawn and claimed.
    Empty,
    /// The account is given back. Nothing follows.
    Closed,
}

/// An instruction of the liquidity program, by what it asks for.
#[derive(Clone, Copy, Debug, PartialEq, Eq, Structural)]
pub enum Operation {
    InitializePosition,
    AddLiquidity,
    RemoveAllLiquidity,
    ClaimFee,
    ClosePosition,
}

/// Why the liquidity program refuses an instruction.
#[derive(Clone, Copy, Debug, PartialEq, Eq, Structural)]
pub enum Rejection {
    /// The position to open is there already.
    PositionExists,
    /// The position to work on was never opened.
    PositionMissing,
    /// The position is closed.
    PositionClosed,
    /// The position to close still holds liquidity or fees.
    PositionNotEmpty,
}

/// The position after one instruction, or why the instruction is refused. `None` stands for
/// a position that was never opened.
pub open spec fn spec_step(position: Option<Phase>, operation: Operation) -> Result<
    Option<Phase>,
    Rejection,
> {
    match position {
        None => match operation {
            Operation::InitializePosition => Ok(Some(Phase::Open)),
            _ => Err(Rejection::PositionMissing),
        },
        Some(Phase::Closed) => Err(Rejection::PositionClosed),
        Some(phase) => match operation {
            Operation::InitializePosition => Err(Rejection::PositionExists),
            Operation::AddLiquidity => Ok(
                Some(
                    match phase {
                        Phase::Liquid(Holdings::Fees) | Phase::Liquid(Holdings::Both) => {
                            Phase::Liquid(Holdings::Both)
                        },
                        _ => Phase::Liquid(Holdings::Liquidity),
                    },
                ),
            ),
            Operation::RemoveAllLiquidity => Ok(
                Some(
                    match phase {
                        Phase::Liquid(Holdings::Liquidity) => Phase::Empty,
                        Phase::Liquid(_) => Phase::Liquid(Holdings::Fees),
                        other => other,
                    },
                ),
            ),
            Operation::ClaimFee => Ok(
                Some(
                    match phase {
                        Phase::Liquid(Holdings::Fees) => Phase::Empty,
                        Phase::Liquid(_) => Phase::Liquid(Holdings::Liquidity),
                        other => other,
                    },
                ),
            ),
            Operation::ClosePosition => match phase {
                Phase::Liquid(_) => Err(Rejection::PositionNotEmpty),
                _ => Ok(Some(Phase::Closed)),
            },
        },
    }
}

/// The position after trades in its bins have earned it fees: a position that holds
/// liquidity then holds fees too; any other is as before.
pub open spec fn spec_accrue_fees(position: Option<Phase>) -> Option<Phase> {
    match position {
        Some(Phase::Liquid(Holdings::Liquidity)) => Some(Phase::Liquid(Holdings::Both)),
        other => other,
    }
}

/// Whether `data` begins with the eight bytes `discriminator`.
pub open spec fn has_discriminator(data: Seq<u8>, discriminator: Seq<u8>) -> bool {
    data.len() >= 8 && data.subrange(0, 8) == discriminator
}

/// What an instruction asks of the liquidity program; `None` for an instruction of another
/// program, or one that names no operation on a position.
pub open spec fn spec_operation_of(ix: InstructionView) -> Option<Operation> {
    if ix.program_id != LB_CLMM_PROGRAM_ID@ {
        None
    } else if has_discriminator(ix.data, INITIALIZE_POSITION_DISCRIMINATOR@) {
        Some(Operation::InitializePosition)
    } else if has_discriminator(ix.data, ADD_LIQUIDITY_BY_STRATEGY_DISCRIMINATOR@) {
        Some(Operation::AddLiquidity)
    } else if has_discriminator(ix.data, REMOVE_ALL_LIQUIDITY_DISCRIMINATOR@) {
        Some(Operation::RemoveAllLiquidity)
    } else if has_discriminator(ix.data, CLAIM_FEE_DISCRIMINATOR@) {
        Some(Operation::ClaimFee)
    } else if has_discriminator(ix.data, CLOSE_POSITION_DISCRIMINATOR@) {
        Some(Operation::ClosePosition)
    } else {
        None
    }
}

/// The position after a transaction: its instructions take effect in their order, and the
/// first refusal refuses the whole transaction.
pub open spec fn spec_execute(position: Option<Phase>, instructions: Seq<InstructionView>) -> Result<
    Option<Phase>,
    Rejection,
>
    decreases instructions.len(),
{
    if instructions.len() == 0 {
        Ok(position)
    } else {
        match spec_operation_of(instructions[0]) {
            None => spec_execute(position, instructions.drop_first()),
            Some(operation) => match spec_step(position, operation) {
                Ok(next) => spec_execute(next, instructions.drop_first()),
                Err(rejection) => Err(rejection),
            },
        }
    }
}

/// The position after one instruction, or why the instruction is refused.
pub fn step(position: Option<Phase>, operation: Operation) -> (result: Result<
    Option<Phase>,
    Rejection,
>)
    ensures
        result == spec_step(position, operation),
{
    match position {
        None => match operation {
            Operation::InitializePosition => Ok(Some(Phase::Open)),
            _ => Err(Rejection::PositionMissing),
        },
        Some(Phase::Closed) => Err(Rejection::PositionClosed),
        Some(phase) => match operation {
            Operation::InitializePosition => Err(Rejection::PositionExists),
            Operation::AddLiquidity => match phase {
                Phase::Liquid(Holdings::Fees) | Phase::Liquid(Holdings::Both) => Ok(
                    Some(Phase::Liquid(Holdings::Both)),
                ),
                _ => Ok(Some(Phase::Liquid(Holdings::Liquidity))),
            },
            Operation::RemoveAllLiquidity => match phase {
                Phase::Liquid(Holdings::Liquidity) => Ok(Some(Phase::Empty)),
                Phase::Liquid(_) => Ok(Some(Phase::Liquid(Holdings::Fees))),
                other => Ok(Some(other)),
            },
            Operation::ClaimFee => match phase {
                Phase::Liquid(Holdings::Fees) => Ok(Some(Phase::Empty)),
                Phase::Liquid(_) => Ok(Some(Phase::Liquid(Holdings::Liquidity))),
                other => Ok(Some(other)),
            },
            Operation::ClosePosition => match phase {
                Phase::Liquid(_) => Err(Rejection::PositionNotEmpty),
                _ => Ok(Some(Phase::Closed)),
            },
        },
    }
}

/// The position after trades in its bins have earned it fees.
pub fn accrue_fees(position: Option<Phase>) -> (after: Option<Phase>)
    ensures
        after == spec_accrue_fees(position),
{
    match position {
        Some(Phase::Liquid(Holdings::Liquidity)) => Some(Phase::Liquid(Holdings::Both)),
        other => other,
    }
}

/// Whether `data` begins with the eight bytes `discriminator`.
fn starts_with(data: &Vec<u8>, discriminator: &[u8; 8]) -> (r: bool)
    ensures
        r == has_discriminator(data@, discriminator@),
{
    if data.len() < 8 {
        return false;
    }
    let mut i: usize = 0;
    while i < 8
        invariant
            i <= 8,
            data@.len() >= 8,
            forall|j: int| 0 <= j < i ==> data@[j] == discriminator@[j],
        decreases 8 - i,
    {
        if data[i] != discriminator[i] {
            assert(data@.subrange(0, 8)[i as int] != discriminator@[i as int]);
            return false;
        }
        i += 1;
    }
    assert(data@.subrange(0, 8) =~= discriminator@);
    true
}

/// What an instruction asks of the liquidity program.
pub fn operation_of(ix: &Instruction) -> (operation: Option<Operation>)
    ensures
        operation == spec_operation_of(ix@),
{
    let program = lb_clmm_program();
    proof {
        lemma_same_bytes_same_key(ix.program_id, program);
    }
    if ix.program_id != program {
        None
    } else if starts_with(&ix.data, &INITIALIZE_POSITION_DISCRIMINATOR) {
        Some(Operation::InitializePosition)
    } else if starts_with(&ix.data, &ADD_LIQUIDITY_BY_STRATEGY_DISCRIMINATOR) {
        Some(Operation::AddLiquidity)
    } else if starts_with(&ix.data, &REMOVE_ALL_LIQUIDITY_DISCRIMINATOR) {
        Some(Operation::RemoveAllLiquidity)
    } else if starts_with(&ix.data, &CLAIM_FEE_DISCRIMINATOR) {
        Some(Operation::ClaimFee)
    } else if starts_with(&ix.data, &CLOSE_POSITION_DISCRIMINATOR) {
        Some(Operation::ClosePosition)
    } else {
        None
    }
}

/// Executes a transaction on a position: all of its instructions in their order, or none.
/// On a refusal the position is as it was.
pub fn execute(position: Option<Phase>, instructions: &Vec<Instruction>) -> (result: Result<
    Option<Phase>,
    Rejection,
>)
    ensures
        result == spec_execute(position, instructions_view(instructions@)),
{
    let ghost all = instructions_view(instructions@);
    let mut current = position;
    let mut i: usize = 0;
    assert(all.skip(0) =~= all);
    while i < instructions.len()
        invariant
            i <= instructions.len(),
            all == instructions_view(instructions@),
            spec_execute(position, all) == spec_execute(current, all.skip(i as int)),
        decreases instructions.len() - i,
    {
        let ghost rest = all.skip(i as int);
        assert(rest[0] == instructions@[i as int]@);
        assert(rest.drop_first() =~= all.skip(i + 1));
        match operation_of(&instructions[i]) {
            None => {},
            Some(operation) => match step(current, operation) {
                Ok(next) => {
                    current = next;
                },
                Err(rejection) => {
                    return Err(rejection);
                },
            },
        }
        i += 1;
    }
    Ok(current)
}

/// Nothing follows a close: a closed position refuses every instruction.
pub proof fn lemma_closed_is_terminal(operation: Operation)
    ensures
        spec_step(Some(Phase::Closed), operation) == Err::<Option<Phase>, Rejection>(
            Rejection::PositionClosed,
        ),
{
}

/// A position is closed exactly from the phases in which it holds nothing: a close of a
/// position that holds liquidity or fees is refused, and a close of an open or empty one
/// closes it.
pub proof fn lemma_close_needs_empty_position(phase: Phase)
    ensures
        phase is Liquid ==> spec_step(Some(phase), Operation::ClosePosition) == Err::<
            Option<Phase>,
            Rejection,
        >(Rejection::PositionNotEmpty),
        phase is Open || phase is Empty ==> spec_step(Some(phase), Operation::ClosePosition)
            == Ok::<Option<Phase>, Rejection>(Some(Phase::Closed)),
        spec_step(Some(phase), Operation::ClosePosition) is Ok <==> phase is Open
            || phase is Empty,
{
}

/// A position reaches `Closed` by a close only, and leaves no phase but by the instruction
/// that the life of a position names for it: a deposit makes it liquid, and it is empty only
/// after a withdrawal or a fee claim took the last of what it held.
pub proof fn lemma_transitions(phase: Phase, operation: Operation)
    requires
        spec_step(Some(phase), operation) is Ok,
    ensures
        spec_step(Some(phase), operation) matches Ok(Some(next)) && {
            &&& next is Closed <==> operation == Operation::ClosePosition
            &&& operation == Operation::AddLiquidity ==> next is Liquid
            &&& next is Empty && !(phase is Empty) ==> phase is Liquid && (operation
                == Operation::RemoveAllLiquidity || operation == Operation::ClaimFee)
            &&& next is Open ==> phase is Open
        },
{
}

} // verus!
