//! The names of the EVM canister's methods that the registration calls.
use vstd::prelude::*;

verus! {

/// Registers an agent on the EVM canister.
pub const METHOD_REGISTER_IC_AGENT: &'static str = "register_ic_agent";

/// Verifies the registration of an agent on the EVM canister.
pub const METHOD_VERIFY_REGISTRATION: &'static str = "verify_registration";

/// Tells whether an address is registered already.
pub const METHOD_ADDRESS_REGISTERED: &'static str = "is_address_registered";

/// Mints native tokens, on test networks.
pub const METHOD_MINT_NATIVE_TOKENS: &'static str = "mint_native_tokens";

/// Gives the balance and the transaction count of an address.
pub const METHOD_ACCOUNT_BASIC: &'static str = "account_basic";

/// Gives the minter address and the registration fee.
pub const METHOD_REGISTRATION_IC_AGENT_INFO: &'static str = "registration_ic_agent_info";

} // verus!
