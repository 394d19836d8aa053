//! Fixed numbers and the context that a block gives its transactions.
pub mod block_context;
pub mod constants;
pub mod transaction_type;
