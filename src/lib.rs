pub mod app_error;
pub mod config;
pub mod contract;
pub mod cors;
pub mod escrow;
pub mod index;
pub mod laws;
pub mod payment;
pub mod registry;
pub mod security;
pub mod table;
pub mod types;
