//! Telling the hints of Cairo 0 code apart and carrying out those that are
//! no system calls.
use crate::definitions::constants::{spec_two_pow_250, spec_two_pow_251, two_pow_250, two_pow_251};
use crate::error::SyscallHandlerError;
use crate::felt::{prime, Felt};
use crate::syscalls::deprecated_syscall_request::{
    cell_pointer, cells_view, MaybeRelocatable, Relocatable,
};
use crate::syscalls::hint_code::{
    ADDR_BOUND_PRIME, ADDR_IS_250, CALL_CONTRACT, DELEGATE_CALL, DEPLOY, EMIT_EVENT_CODE,
    GET_BLOCK_NUMBER, GET_BLOCK_TIMESTAMP, GET_CALLER_ADDRESS, GET_CONTRACT_ADDRESS,
    GET_SEQUENCER_ADDRESS, GET_TX_INFO, GET_TX_SIGNATURE, LIBRARY_CALL, LIBRARY_CALL_L1_HANDLER,
    REPLACE_CLASS, SEND_MESSAGE_TO_L1, STORAGE_READ, STORAGE_WRITE,
};
use crate::syscalls::syscall_request::SyscallKind;
use vstd::prelude::*;

verus! {

/// What a hint of Cairo 0 code asks the host to do.
#[derive(Clone, Copy, Debug, PartialEq, Eq, Structural)]
pub enum DeprecatedHint {
    /// To say whether an address is under the bound of `normalize_address`.
    AddrBoundPrime,
    /// To say whether an address is under `2^250`.
    AddrIs250,
    /// To carry out the system call at the system call pointer.
    Syscall(SyscallKind),
}

/// What the code of a hint asks for, if the host knows the code.
pub open spec fn hint_of_code(code: Seq<char>) -> Option<DeprecatedHint> {
    if code == ADDR_BOUND_PRIME@ {
        Some(DeprecatedHint::AddrBoundPrime)
    } else if code == ADDR_IS_250@ {
        Some(DeprecatedHint::AddrIs250)
    } else if code == DEPLOY@ {
        Some(DeprecatedHint::Syscall(SyscallKind::Deploy))
    } else if code == EMIT_EVENT_CODE@ {
        Some(DeprecatedHint::Syscall(SyscallKind::EmitEvent))
    } else if code == GET_BLOCK_NUMBER@ {
        Some(DeprecatedHint::Syscall(SyscallKind::GetBlockNumber))
    } else if code == GET_BLOCK_TIMESTAMP@ {
        Some(DeprecatedHint::Syscall(SyscallKind::GetBlockTimestamp))
    } else if code == GET_CALLER_ADDRESS@ {
        Some(DeprecatedHint::Syscall(SyscallKind::GetCallerAddress))
    } else if code == GET_SEQUENCER_ADDRESS@ {
        Some(DeprecatedHint::Syscall(SyscallKind::GetSequencerAddress))
    } else if code == LIBRARY_CALL@ {
        Some(DeprecatedHint::Syscall(SyscallKind::LibraryCall))
    } else if code == LIBRARY_CALL_L1_HANDLER@ {
        Some(DeprecatedHint::Syscall(SyscallKind::LibraryCallL1Handler))
    } else if code == CALL_CONTRACT@ {
        Some(DeprecatedHint::Syscall(SyscallKind::CallContract))
    } else if code == STORAGE_READ@ {
        Some(DeprecatedHint::Syscall(SyscallKind::StorageRead))
    } else if code == STORAGE_WRITE@ {
        Some(DeprecatedHint::Syscall(SyscallKind::StorageWrite))
    } else if code == SEND_MESSAGE_TO_L1@ {
        Some(DeprecatedHint::Syscall(SyscallKind::SendMessageToL1))
    } else if code == GET_TX_SIGNATURE@ {
        Some(DeprecatedHint::Syscall(SyscallKind::GetTxSignature))
    } else if code == GET_TX_INFO@ {
        Some(DeprecatedHint::Syscall(SyscallKind::GetTxInfo))
    } else if code == GET_CONTRACT_ADDRESS@ {
        Some(DeprecatedHint::Syscall(SyscallKind::GetContractAddress))
    } else if code == DELEGATE_CALL@ {
        Some(DeprecatedHint::Syscall(SyscallKind::DelegateCall))
    } else if code == REPLACE_CLASS@ {
        Some(DeprecatedHint::Syscall(SyscallKind::ReplaceClass))
    } else {
        None
    }
}

/// Whether two texts are the same.
pub fn same_text(a: &str, b: &str) -> (r: bool)
    ensures
        r == (a@ == b@),
{
    a.to_owned() == b.to_owned()
}

/// Tells what a hint asks the host to do, by its code. A code that the host
/// does not know is turned down by name.
pub fn execute_syscall_hint(code: &str) -> (r: Result<DeprecatedHint, SyscallHandlerError>)
    ensures
        match hint_of_code(code@) {
            Some(hint) => r == Ok::<DeprecatedHint, SyscallHandlerError>(hint),
            None => r matches Err(SyscallHandlerError::NotImplemented(c)) && c@ == code@,
        },
{
    if same_text(code, ADDR_BOUND_PRIME) {
        Ok(DeprecatedHint::AddrBoundPrime)
    } else if same_text(code, ADDR_IS_250) {
        Ok(DeprecatedHint::AddrIs250)
    } else if same_text(code, DEPLOY) {
        Ok(DeprecatedHint::Syscall(SyscallKind::Deploy))
    } else if same_text(code, EMIT_EVENT_CODE) {
        Ok(DeprecatedHint::Syscall(SyscallKind::EmitEvent))
    } else if same_text(code, GET_BLOCK_NUMBER) {
        Ok(DeprecatedHint::Syscall(SyscallKind::GetBlockNumber))
    } else if same_text(code, GET_BLOCK_TIMESTAMP) {
        Ok(DeprecatedHint::Syscall(SyscallKind::GetBlockTimestamp))
    } else if same_text(code, GET_CALLER_ADDRESS) {
        Ok(DeprecatedHint::Syscall(SyscallKind::GetCallerAddress))
    } else if same_text(code, GET_SEQUENCER_ADDRESS) {
        Ok(DeprecatedHint::Syscall(SyscallKind::GetSequencerAddress))
    } else if same_text(code, LIBRARY_CALL) {
        Ok(DeprecatedHint::Syscall(SyscallKind::LibraryCall))
    } else if same_text(code, LIBRARY_CALL_L1_HANDLER) {
        Ok(DeprecatedHint::Syscall(SyscallKind::LibraryCallL1Handler))
    } else if same_text(code, CALL_CONTRACT) {
        Ok(DeprecatedHint::Syscall(SyscallKind::CallContract))
    } else if same_text(code, STORAGE_READ) {
        Ok(DeprecatedHint::Syscall(SyscallKind::StorageRead))
    } else if same_text(code, STORAGE_WRITE) {
        Ok(DeprecatedHint::Syscall(SyscallKind::StorageWrite))
    } else if same_text(code, SEND_MESSAGE_TO_L1) {
        Ok(DeprecatedHint::Syscall(SyscallKind::SendMessageToL1))
    } else if same_text(code, GET_TX_SIGNATURE) {
        Ok(DeprecatedHint::Syscall(SyscallKind::GetTxSignature))
    } else if same_text(code, GET_TX_INFO) {
        Ok(DeprecatedHint::Syscall(SyscallKind::GetTxInfo))
    } else if same_text(code, GET_CONTRACT_ADDRESS) {
        Ok(DeprecatedHint::Syscall(SyscallKind::GetContractAddress))
    } else if same_text(code, DELEGATE_CALL) {
        Ok(DeprecatedHint::Syscall(SyscallKind::DelegateCall))
    } else if same_text(code, REPLACE_CLASS) {
        Ok(DeprecatedHint::Syscall(SyscallKind::ReplaceClass))
    } else {
        Err(SyscallHandlerError::NotImplemented(code.to_owned()))
    }
}

/// What the hint processor of the machine made of a hint.
#[derive(Debug, PartialEq, Eq)]
pub enum BuiltinHintOutcome {
    /// It carried the hint out.
    Done,
    /// It does not know the hint.
    UnknownHint,
    /// It failed on the hint, with its message.
    Failed(String),
}

/// The failure of a hint as the machine is told of it.
#[derive(Debug, PartialEq, Eq)]
pub enum HintFailure {
    /// Nobody knows the hint, with its code.
    UnknownHint(String),
    /// The hint failed, with a message.
    CustomHint(String),
}

/// Decides whether a hint is the host's to carry out: it is if the hint
/// processor of the machine does not know it. A failure of that processor
/// is the failure of the hint.
pub fn should_run_syscall_hint(outcome: BuiltinHintOutcome) -> (r: Result<bool, HintFailure>)
    ensures
        r == (match outcome {
            BuiltinHintOutcome::Done => Ok::<bool, HintFailure>(false),
            BuiltinHintOutcome::UnknownHint => Ok::<bool, HintFailure>(true),
            BuiltinHintOutcome::Failed(message) => Err::<bool, HintFailure>(
                HintFailure::CustomHint(message),
            ),
        }),
{
    match outcome {
        BuiltinHintOutcome::Done => Ok(false),
        BuiltinHintOutcome::UnknownHint => Ok(true),
        BuiltinHintOutcome::Failed(message) => Err(HintFailure::CustomHint(message)),
    }
}

/// Gives the place that the system call pointer points to, from the cell
/// that holds the pointer.
pub fn get_syscall_ptr(cell: Option<MaybeRelocatable>) -> (r: Result<
    Relocatable,
    SyscallHandlerError,
>)
    ensures
        r == cell_pointer(cells_view(seq![cell]), 0),
{
    match cell {
        None => Err(SyscallHandlerError::MissingValue(0)),
        Some(MaybeRelocatable::Int(_)) => Err(SyscallHandlerError::ExpectedRelocatable(0)),
        Some(MaybeRelocatable::RelocatableValue(r)) => Ok(r),
    }
}

/// Whether the constants of `normalize_address` are those that it was
/// written for: the bound lies over `2^250` and at most at `2^251`, and
/// twice the bound is over the prime.
pub open spec fn address_bound_fits(addr_bound: nat) -> bool {
    spec_two_pow_250() < addr_bound <= spec_two_pow_251() && addr_bound * 2 > prime()
}

/// Says whether an address is under the bound of `normalize_address`, as
/// one or zero, once it has checked the bound.
pub fn addr_bound_prime(addr: &Felt, addr_bound: &Felt) -> (r: Result<Felt, SyscallHandlerError>)
    ensures
        match r {
            Ok(is_small) => address_bound_fits(addr_bound@) && is_small@ == (if addr@
                < addr_bound@ {
                1nat
            } else {
                0nat
            }),
            Err(e) => !address_bound_fits(addr_bound@) && e == SyscallHandlerError::AddressBound,
        },
{
    let low = two_pow_250();
    let high = two_pow_251();
    let doubled = addr_bound.plus(addr_bound);
    proof {
        use_type_invariant(addr_bound);
    }
    // Twice the bound is over the prime exactly where the sum in the field
    // comes out under the bound.
    if !(low.lt(addr_bound) && !high.lt(addr_bound) && doubled.lt(addr_bound)) {
        return Err(SyscallHandlerError::AddressBound);
    }
    if addr.lt(addr_bound) {
        Ok(Felt::one())
    } else {
        Ok(Felt::zero())
    }
}

/// Says whether an address is under `2^250`, as one or zero.
pub fn addr_is_250(addr: &Felt) -> (r: Felt)
    ensures
        r@ == (if addr@ < spec_two_pow_250() {
            1nat
        } else {
            0nat
        }),
{
    if addr.lt(&two_pow_250()) {
        Felt::one()
    } else {
        Felt::zero()
    }
}

} // verus!
