//! What can go wrong.
use crate::execution::EntryPointType;
use crate::utils::{Address, ClassHash};
use vstd::prelude::*;

verus! {

/// A failure of the state store.
#[derive(Clone, Debug, PartialEq, Eq)]
pub enum StateError {
    /// A deploy aimed at an address that already holds a contract.
    ContractAddressUnavailable(Address),
    /// No class is known under this hash.
    NoneContractClass(ClassHash),
    /// The class was declared in the other format.
    WrongClassFormat(ClassHash),
}

/// A failure of a transaction or of one of its entry-point runs.
#[derive(Clone, Debug, PartialEq, Eq)]
pub enum TransactionError {
    /// A version-0 invoke came with a nonce.
    InvokeFunctionZeroHasNonce,
    /// An invoke of a later version came without a nonce.
    InvokeFunctionNonZeroMissingNonce,
    /// The transaction needs a nonce and has none.
    MissingNonce,
    /// The account's nonce (first, in decimal) is not the transaction's (second).
    InvalidTransactionNonce(String, String),
    /// The state store refused an operation.
    State(StateError),
    /// No contract is deployed at the called address.
    ClassHashNotFound(Address),
    /// The class has no entry point of the asked type and selector.
    EntryPointNotFound,
    /// A validation run left the account's own contract.
    InvalidContractCall,
    /// A call tree that must stay within one contract holds a call to another.
    UnauthorizedActionOnValidate,
    /// The class has no constructor and constructor arguments were given.
    EmptyConstructorCalldata,
    /// The run spent its step budget.
    OutOfSteps,
    /// The run spent its gas.
    OutOfGas,
    /// A storage request named an address domain other than zero.
    UnsupportedAddressDomain,
    /// The virtual machine failed, with its message.
    VmError(String),
    /// The fee could not be charged, with the reason.
    FeeError(String),
    /// The resources that the transaction used could not be added up.
    ResourcesCalculation,
    /// Something was reported of a running call while no call was running.
    NoRunningCall,
    /// Something was asked that can only be done while no call is running.
    CallStillRunning,
}

/// A failure to take a system call from the memory of the machine or to put
/// its answer there.
#[derive(Clone, Debug, PartialEq, Eq)]
pub enum SyscallHandlerError {
    /// The hint is none that the handler knows, with its code.
    NotImplemented(String),
    /// The name is that of no system call.
    UnknownSyscall(String),
    /// The request has fewer cells than its kind asks for.
    MissingCells,
    /// The cell at this place of the request holds no value.
    MissingValue(usize),
    /// The cell at this place of the request holds a pointer where a number
    /// is due.
    ExpectedInteger(usize),
    /// The cell at this place of the request holds a number where a pointer
    /// is due.
    ExpectedRelocatable(usize),
    /// The number at this place of the request is too large for a length or
    /// a flag.
    FeltToUsize(usize),
    /// The arrays handed in are not those that the request points to.
    WrongArrays,
    /// The answer cannot be laid out for the code that asked.
    NoLayout,
    /// The constants of `normalize_address` are not those it was written for.
    AddressBound,
}

/// A failure to make sense of a request to the command-line front end.
#[derive(Clone, Debug, PartialEq, Eq)]
pub enum ParserError {
    /// The text is not a field element in the expected base.
    ParseFelt(String),
    /// The interface description names no such function.
    FunctionEntryPoint(String),
    /// The class has no table for this kind of entry point.
    EntryPointType(EntryPointType),
    /// The table of the class has no entry at this index.
    EntryPointIndex(usize),
    /// Running the request failed.
    Transaction(TransactionError),
    /// The state store refused an operation.
    State(StateError),
}

} // verus!
