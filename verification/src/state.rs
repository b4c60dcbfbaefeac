//! The oracle's durable state, one module per record.
pub mod config;
pub mod contract;
pub mod pair_price;
pub mod self_account;
