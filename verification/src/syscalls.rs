//! The system calls of running contracts.
pub mod business_logic_syscall_handler;
pub mod deprecated_syscall_handler;
pub mod deprecated_syscall_request;
pub mod hint_code;
pub mod syscall_handler;
pub mod syscall_layout;
pub mod syscall_request;
