//! The errors that the oracle's operations report.
use vstd::prelude::*;
use crate::did::H160;

verus! {

/// Why an operation of the oracle was refused or failed.
#[derive(Debug, Clone, PartialEq, Eq)]
pub enum Error {
    /// The caller is not the owner.
    NotAuthorized,
    /// The pair to add is already known.
    PairExists,
    /// The pair to remove is not known.
    PairNotFound,
    /// The pair to read or to write a price for is not known.
    PairNotExist,
    /// The oracle's own account is registered already, with this address.
    AlreadyRegistered(H160),
    /// The oracle's own account has not been registered.
    NotRegistered,
    /// The aggregator contract has no confirmed address.
    ContractNotDeployed,
    /// No deployment of the aggregator contract has been submitted.
    NotInitialized,
    /// A deployment of the aggregator contract was submitted before.
    AlreadyInitialized,
    /// The EVM side, or the transport to it, rejected a call.
    RemoteCallFailed(String),
    /// An argument is malformed.
    InvalidArgument(String),
    /// The oracle's state is not what its own rules allow.
    Internal(String),
}

/// The result of an operation of the oracle.
pub type Result<T> = std::result::Result<T, Error>;

} // verus!
