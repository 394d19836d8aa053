//! The kinds of transaction and how each is executed.
pub mod declare;
pub mod deploy_account;
pub mod fee;
pub mod invoke_function;
