//! Finding the system call pointer of Cairo 1 code.
//!
//! A system call hint of Cairo 1 code names the place of its request by an
//! operand: a cell that holds a pointer, with or without a distance to add.
use crate::felt::Felt;
use crate::syscalls::deprecated_syscall_handler::HintFailure;
use crate::syscalls::deprecated_syscall_request::Relocatable;
use vstd::prelude::*;

verus! {

/// The registers that a cell can be named from.
#[derive(Clone, Copy, Debug, PartialEq, Eq, Hash, Structural)]
pub enum Register {
    AP,
    FP,
}

/// A cell, named by its distance from a register.
#[derive(Clone, Copy, Debug, PartialEq, Eq, Hash, Structural)]
pub struct CellRef {
    pub register: Register,
    pub offset: i16,
}

/// What the second operand of a binary operation is.
#[derive(Clone, Copy, Debug, PartialEq, Eq)]
pub enum DerefOrImmediate {
    Deref(CellRef),
    Immediate(Felt),
}

/// The operands that a hint can name a value by.
#[derive(Clone, Copy, Debug, PartialEq, Eq)]
pub enum ResOperand {
    Deref(CellRef),
    DoubleDeref(CellRef, i16),
    Immediate(Felt),
    BinOp { a: CellRef, b: DerefOrImmediate },
}

/// Why a place in memory cannot be computed.
#[derive(Clone, Copy, Debug, PartialEq, Eq, Structural)]
pub enum MathError {
    /// The place lies beyond what an offset can hold.
    RelocatableAddUsizeOffsetExceeded,
    /// The place lies before the start of its segment.
    RelocatableSubUsizeNegOffset,
    /// The distance is too large to add to an offset.
    RelocatableAddFelt252OffsetExceeded,
}

/// The place at a signed distance from a place, within the segment.
pub open spec fn moved(base: Relocatable, distance: int) -> Result<Relocatable, MathError> {
    if base.offset + distance > usize::MAX {
        Err(MathError::RelocatableAddUsizeOffsetExceeded)
    } else if base.offset + distance < 0 {
        Err(MathError::RelocatableSubUsizeNegOffset)
    } else {
        Ok(Relocatable { segment_index: base.segment_index, offset: (base.offset + distance) as usize })
    }
}

/// The place at a distance, given as a field element, after a place.
pub open spec fn moved_by_felt(base: Relocatable, distance: nat) -> Result<Relocatable, MathError> {
    if base.offset + distance > usize::MAX || base.offset + distance > u64::MAX {
        Err(MathError::RelocatableAddFelt252OffsetExceeded)
    } else {
        Ok(Relocatable { segment_index: base.segment_index, offset: (base.offset + distance) as usize })
    }
}

/// Gives the place at a signed distance from a place.
pub fn add_offset(base: Relocatable, distance: i32) -> (r: Result<Relocatable, MathError>)
    ensures
        r == moved(base, distance as int),
{
    if distance >= 0 {
        match base.offset.checked_add(distance as usize) {
            Some(offset) => Ok(Relocatable { segment_index: base.segment_index, offset }),
            None => Err(MathError::RelocatableAddUsizeOffsetExceeded),
        }
    } else {
        let back = (0 - distance as i64) as usize;
        if base.offset < back {
            Err(MathError::RelocatableSubUsizeNegOffset)
        } else {
            Ok(Relocatable { segment_index: base.segment_index, offset: base.offset - back })
        }
    }
}

/// The cell and the distance that an operand names a buffer by.
pub open spec fn buffer_of(buffer: ResOperand) -> Option<(CellRef, nat)> {
    match buffer {
        ResOperand::Deref(cell) => Some((cell, 0nat)),
        ResOperand::BinOp { a, b: DerefOrImmediate::Immediate(value) } => Some((a, value@)),
        _ => None,
    }
}

/// Takes the cell and the distance out of an operand that names a buffer:
/// a cell by itself, or a cell with a fixed distance to add.
pub fn extract_buffer(buffer: &ResOperand) -> (r: Result<(CellRef, Felt), HintFailure>)
    ensures
        match buffer_of(*buffer) {
            Some((cell, distance)) => r matches Ok((c, d)) && c == cell && d@ == distance,
            None => r matches Err(HintFailure::CustomHint(m)) && m@ == (if buffer is BinOp {
                "Failed to extract buffer, expected ResOperand of BinOp type to have Inmediate b value"@
            } else {
                "Illegal argument for a buffer."@
            }),
        },
{
    match buffer {
        ResOperand::Deref(cell) => Ok((*cell, Felt::zero())),
        ResOperand::BinOp { a, b } => match b {
            DerefOrImmediate::Immediate(value) => Ok((*a, *value)),
            DerefOrImmediate::Deref(_) => Err(
                HintFailure::CustomHint(
                    "Failed to extract buffer, expected ResOperand of BinOp type to have Inmediate b value".to_owned(),
                ),
            ),
        },
        _ => Err(HintFailure::CustomHint("Illegal argument for a buffer.".to_owned())),
    }
}

/// Gives the place of a cell, from where its register points.
pub fn cell_ref_to_relocatable(cell_ref: &CellRef, ap: Relocatable, fp: Relocatable) -> (r: Result<
    Relocatable,
    MathError,
>)
    ensures
        r == moved(
            match cell_ref.register {
                Register::AP => ap,
                Register::FP => fp,
            },
            cell_ref.offset as int,
        ),
{
    let base = match cell_ref.register {
        Register::AP => ap,
        Register::FP => fp,
    };
    add_offset(base, cell_ref.offset as i32)
}

/// Gives the place at a distance after the pointer that a cell holds.
pub fn get_ptr(pointer: Relocatable, offset: &Felt) -> (r: Result<Relocatable, MathError>)
    ensures
        r == moved_by_felt(pointer, offset@),
{
    match offset.to_u64() {
        Some(distance) => match (pointer.offset as u64).checked_add(distance) {
            Some(sum) => if sum <= usize::MAX as u64 {
                Ok(Relocatable { segment_index: pointer.segment_index, offset: sum as usize })
            } else {
                Err(MathError::RelocatableAddFelt252OffsetExceeded)
            },
            None => Err(MathError::RelocatableAddFelt252OffsetExceeded),
        },
        None => Err(MathError::RelocatableAddFelt252OffsetExceeded),
    }
}

/// What a hint of Cairo 1 code is.
#[derive(Clone, Copy, Debug, PartialEq, Eq)]
pub enum Cairo1Hint {
    /// A hint of the language core, which the machine carries out itself.
    Core,
    /// A system call, with the operand that names its request.
    SystemCall { system: ResOperand },
    /// Another hint of the chain, which nobody carries out.
    Other,
}

/// What is to be done with a hint of Cairo 1 code.
#[derive(Clone, Copy, Debug, PartialEq, Eq)]
pub enum Cairo1HintAction {
    /// Hand it to the hint processor of the machine.
    RunCore,
    /// Read the pointer that this cell holds and carry out the system call
    /// at the place this far after it.
    Syscall { cell: CellRef, offset: Felt },
}

/// Decides what is to be done with a hint of Cairo 1 code. A hint of the
/// chain that is no system call is turned down by the name handed in.
pub fn execute_hint(hint: &Cairo1Hint, name: String) -> (r: Result<Cairo1HintAction, HintFailure>)
    ensures
        match *hint {
            Cairo1Hint::Core => r == Ok::<Cairo1HintAction, HintFailure>(Cairo1HintAction::RunCore),
            Cairo1Hint::SystemCall { system } => match buffer_of(system) {
                Some((cell, distance)) => r matches Ok(Cairo1HintAction::Syscall { cell: c, offset })
                    && c == cell && offset@ == distance,
                None => r matches Err(HintFailure::CustomHint(m)) && m@ == (if system is BinOp {
                    "Failed to extract buffer, expected ResOperand of BinOp type to have Inmediate b value"@
                } else {
                    "Illegal argument for a buffer."@
                }),
            },
            Cairo1Hint::Other => r == Err::<Cairo1HintAction, HintFailure>(
                HintFailure::UnknownHint(name),
            ),
        },
{
    match hint {
        Cairo1Hint::Core => Ok(Cairo1HintAction::RunCore),
        Cairo1Hint::SystemCall { system } => match extract_buffer(system) {
            Ok((cell, offset)) => Ok(Cairo1HintAction::Syscall { cell, offset }),
            Err(e) => Err(e),
        },
        Cairo1Hint::Other => Err(HintFailure::UnknownHint(name)),
    }
}

} // verus!
