//! The tool that registers an identity with the EVM canister.
pub mod cli;
pub mod constant;
pub mod error;
pub mod registration;
pub mod transaction;
pub mod wallet;
