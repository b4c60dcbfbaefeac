//! A price oracle: bounded per-pair price series, the rules for relaying
//! them to an EVM-side aggregator contract, and the registration of the
//! oracle's own EVM account.
pub mod canister;
pub mod did;
pub mod encoding;
pub mod error;
pub mod principal;
pub mod register;
pub mod state;
pub mod timer;
