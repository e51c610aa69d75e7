pub mod channel;
pub mod commands;
pub mod envs;
pub mod error;
pub mod ipc;
pub mod keys;
pub mod records;
pub mod registry;
pub mod ssh_client;
pub mod ssh_manager;
pub mod text;
