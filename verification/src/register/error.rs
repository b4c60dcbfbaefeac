//! The errors of the registration tool.
use vstd::prelude::*;
use crate::principal::Principal;

verus! {

/// Why a registration did not go through.
#[derive(Debug, Clone, PartialEq, Eq)]
pub enum Error {
    /// The address is registered already; the identity is the caller's own.
    AlreadyRegistered(Principal),
    /// The EVM canister's answer on the address could not be read; the
    /// fields are the address in hexadecimal and the caller's identity.
    CouldNotCheckRegistrationStatus(String, Principal),
    /// The EVM canister's answer on the registration terms could not be
    /// read; the field is what the decoder said.
    CouldNotGetRegistrationInfo(String),
    /// The signing key is not hexadecimal text.
    InvalidHex,
    /// The signing key is not a secret key of the curve.
    InvalidSigningKey,
    /// The chain id is too large for the recovery value of a signature.
    ChainIdTooLarge,
    /// The EVM canister rejected a call; the field is its own error.
    Evm(String),
    /// The call did not reach the EVM canister or its answer could not be
    /// read; the field is what the transport or the decoder said.
    Agent(String),
    /// An answer arrived that the step in progress does not wait for.
    UnexpectedReply,
    /// The signer or the codec failed on values that the tool itself made.
    Internal,
}

/// The result of a step of the registration tool.
pub type Result<T> = std::result::Result<T, Error>;

} // verus!
