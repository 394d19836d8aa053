//! The state that transactions read and change.
pub mod cached_state;
pub mod contract_storage_state;
pub mod execution_resources_manager;
pub mod in_memory_state_reader;
pub mod list_map;
pub mod state_api;
pub mod state_diff;
