//! The operations of the core, one module each.
pub mod admin;
pub mod banned_account;
pub mod global_config;
pub mod initialize;
pub mod quote;
pub mod send;
pub mod set_remote;
pub mod token_list;
