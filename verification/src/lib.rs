//! Transaction execution core of a Starknet-compatible contract runtime.
//!
//! The crate validates transactions, tracks the layered state they run
//! against, interprets the system calls of running contracts and accounts for
//! the resources and fees of an execution. Running Cairo bytecode itself is
//! left to the caller, who reports what the virtual machine did.
pub mod class_hash;
pub mod contract_class;
pub mod definitions;
pub mod error;
pub mod execution;
pub mod felt;
pub mod hash_utils;
pub mod parser;
pub mod state;
pub mod syscalls;
pub mod transaction;
pub mod utils;
