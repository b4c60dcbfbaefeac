//! The life of the aggregator contract on the EVM side: deployed once,
//! confirmed once, and only then written to.
use vstd::prelude::*;
use crate::did::{H160, H256, U256};
use crate::error::{Error, Result};

verus! {

/// Where the aggregator contract stands. The state only ever moves forward.
#[derive(Debug, Clone, Copy, PartialEq, Eq)]
pub enum ContractState {
    /// No deployment has been submitted.
    Uninitialized,
    /// A deployment was submitted in the transaction `tx_hash`.
    DeployPending { tx_hash: H256 },
    /// The contract lives at `address`.
    Confirmed { address: H160 },
}

/// A call that the oracle wants made on the EVM side.
#[derive(Debug, Clone, PartialEq, Eq)]
pub enum ContractRequest {
    /// Submit the transaction that deploys the aggregator contract.
    Deploy,
    /// Ask for the address of the contract that `tx_hash` created.
    QueryAddress { tx_hash: H256 },
    /// Register a pair in the contract.
    AddPair { contract: H160, pair: String, decimal: U256, description: String, version: U256 },
    /// Push one batch of answers: `pairs`, `timestamps` and `prices` run in
    /// parallel.
    UpdateAnswers { contract: H160, pairs: Vec<String>, timestamps: Vec<U256>, prices: Vec<U256> },
}

/// What the EVM side answered to a call: a value, or the text of its
/// rejection.
pub type Reply<T> = std::result::Result<T, String>;

/// Something that happened on the EVM side and that the contract's state
/// follows.
pub enum ContractEvent {
    /// The answer to a deployment.
    Deployed(Reply<H256>),
    /// The answer to a query for the deployed address.
    AddressFound(Reply<H160>),
}

/// How far a state is along the contract's life.
pub open spec fn rank(state: ContractState) -> nat {
    match state {
        ContractState::Uninitialized => 0,
        ContractState::DeployPending { .. } => 1,
        ContractState::Confirmed { .. } => 2,
    }
}

/// Whether a deployment may be submitted, and what to call for it.
pub open spec fn init_request(state: ContractState) -> Result<ContractRequest> {
    match state {
        ContractState::Uninitialized => Ok(ContractRequest::Deploy),
        _ => Err(Error::AlreadyInitialized),
    }
}

/// Whether the deployed address may be asked for, and what to call for it.
pub open spec fn confirm_request(state: ContractState) -> Result<ContractRequest> {
    match state {
        ContractState::Uninitialized => Err(Error::NotInitialized),
        ContractState::DeployPending { tx_hash } => Ok(ContractRequest::QueryAddress { tx_hash }),
        ContractState::Confirmed { .. } => Err(Error::AlreadyInitialized),
    }
}

/// What a caller is told once a deployment was answered.
pub open spec fn deployed_result(state: ContractState, reply: Reply<H256>) -> Result<H256> {
    match reply {
        Err(text) => Err(Error::RemoteCallFailed(text)),
        Ok(tx_hash) => match state {
            ContractState::Uninitialized => Ok(tx_hash),
            _ => Err(Error::AlreadyInitialized),
        },
    }
}

/// What a caller is told once a query for the address was answered.
pub open spec fn confirmed_result(state: ContractState, reply: Reply<H160>) -> Result<H160> {
    match reply {
        Err(text) => Err(Error::RemoteCallFailed(text)),
        Ok(address) => match state {
            ContractState::Uninitialized => Err(Error::NotInitialized),
            ContractState::DeployPending { .. } => Ok(address),
            ContractState::Confirmed { .. } => Err(Error::AlreadyInitialized),
        },
    }
}

/// The state after an event: an accepted deployment moves `Uninitialized` to
/// `DeployPending`, a found address moves `DeployPending` to `Confirmed`, and
/// everything else leaves the state as it is.
pub open spec fn next_state(state: ContractState, event: ContractEvent) -> ContractState {
    match (state, event) {
        (ContractState::Uninitialized, ContractEvent::Deployed(Ok(tx_hash))) => {
            ContractState::DeployPending { tx_hash }
        },
        (ContractState::DeployPending { .. }, ContractEvent::AddressFound(Ok(address))) => {
            ContractState::Confirmed { address }
        },
        _ => state,
    }
}

/// The state after a run of events.
pub open spec fn run(state: ContractState, events: Seq<ContractEvent>) -> ContractState
    decreases events.len(),
{
    if events.len() == 0 {
        state
    } else {
        run(next_state(state, events[0]), events.drop_first())
    }
}

/// What a caller is told of a call that changes nothing here.
pub open spec fn relayed_result(reply: Reply<H256>) -> Result<H256> {
    match reply {
        Err(text) => Err(Error::RemoteCallFailed(text)),
        Ok(tx_hash) => Ok(tx_hash),
    }
}

/// No event moves the contract backwards.
pub proof fn lemma_step_is_forward(state: ContractState, event: ContractEvent)
    ensures
        rank(next_state(state, event)) >= rank(state),
        rank(next_state(state, event)) <= rank(state) + 1,
{
}

/// No run of events moves the contract backwards.
pub proof fn lemma_run_is_forward(state: ContractState, events: Seq<ContractEvent>)
    ensures
        rank(run(state, events)) >= rank(state),
    decreases events.len(),
{
    if events.len() > 0 {
        lemma_step_is_forward(state, events[0]);
        lemma_run_is_forward(next_state(state, events[0]), events.drop_first());
    }
}

/// Before any deployment, a confirmation is refused as not initialized, and
/// an answer to one changes nothing.
pub proof fn lemma_confirm_needs_deployment(reply: Reply<H160>)
    ensures
        confirm_request(ContractState::Uninitialized) == Err::<ContractRequest, Error>(
            Error::NotInitialized,
        ),
        next_state(ContractState::Uninitialized, ContractEvent::AddressFound(reply))
            == ContractState::Uninitialized,
        reply is Ok ==> confirmed_result(ContractState::Uninitialized, reply) == Err::<H160, Error>(
            Error::NotInitialized,
        ),
{
}

/// Once a deployment was accepted, every later attempt to deploy is refused
/// as already initialized, whatever happened in between.
pub proof fn lemma_deploys_once(tx_hash: H256, events: Seq<ContractEvent>, again: H256)
    ensures
        ({
            let deployed = next_state(
                ContractState::Uninitialized,
                ContractEvent::Deployed(Ok(tx_hash)),
            );
            let later = run(deployed, events);
            &&& deployed == ContractState::DeployPending { tx_hash }
            &&& init_request(later) == Err::<ContractRequest, Error>(Error::AlreadyInitialized)
            &&& deployed_result(later, Ok(again)) == Err::<H256, Error>(Error::AlreadyInitialized)
            &&& next_state(later, ContractEvent::Deployed(Ok(again))) == later
        }),
{
    let deployed = next_state(ContractState::Uninitialized, ContractEvent::Deployed(Ok(tx_hash)));
    lemma_run_is_forward(deployed, events);
}

/// The record of the aggregator contract.
#[derive(Debug, Clone, Copy, PartialEq, Eq)]
pub struct AggregatorContract {
    state: ContractState,
}

impl View for AggregatorContract {
    type V = ContractState;

    closed spec fn view(&self) -> ContractState {
        self.state
    }
}

impl AggregatorContract {
    /// The record of a contract that was never deployed.
    pub fn new() -> (r: AggregatorContract)
        ensures
            r@ == ContractState::Uninitialized,
    {
        AggregatorContract { state: ContractState::Uninitialized }
    }

    /// The record as it was saved.
    pub fn from_state(state: ContractState) -> (r: AggregatorContract)
        ensures
            r@ == state,
    {
        AggregatorContract { state }
    }

    /// Where the contract stands.
    pub fn state(&self) -> (r: ContractState)
        ensures
            r == self@,
    {
        self.state
    }

    /// Asks to deploy the contract: allowed once, before any deployment.
    pub fn init_contract(&self) -> (r: Result<ContractRequest>)
        ensures
            r == init_request(self@),
    {
        match self.state {
            ContractState::Uninitialized => Ok(ContractRequest::Deploy),
            _ => Err(Error::AlreadyInitialized),
        }
    }

    /// Takes the answer to a deployment. An accepted deployment is recorded
    /// as pending unless another one was recorded in the meantime.
    pub fn finish_init_contract(&mut self, reply: Reply<H256>) -> (r: Result<H256>)
        ensures
            final(self)@ == next_state(old(self)@, ContractEvent::Deployed(reply)),
            r == deployed_result(old(self)@, reply),
    {
        match reply {
            Err(text) => Err(Error::RemoteCallFailed(text)),
            Ok(tx_hash) => match self.state {
                ContractState::Uninitialized => {
                    self.state = ContractState::DeployPending { tx_hash };
                    Ok(tx_hash)
                },
                _ => Err(Error::AlreadyInitialized),
            },
        }
    }

    /// Asks to confirm the deployed address: allowed while a deployment is
    /// pending.
    pub fn confirm_contract_address(&self) -> (r: Result<ContractRequest>)
        ensures
            r == confirm_request(self@),
    {
        match self.state {
            ContractState::Uninitialized => Err(Error::NotInitialized),
            ContractState::DeployPending { tx_hash } => Ok(
                ContractRequest::QueryAddress { tx_hash },
            ),
            ContractState::Confirmed { .. } => Err(Error::AlreadyInitialized),
        }
    }

    /// Takes the answer to a query for the deployed address. A found address
    /// is recorded while the deployment is still pending.
    pub fn finish_confirm_contract_address(&mut self, reply: Reply<H160>) -> (r: Result<H160>)
        ensures
            final(self)@ == next_state(old(self)@, ContractEvent::AddressFound(reply)),
            r == confirmed_result(old(self)@, reply),
    {
        match reply {
            Err(text) => Err(Error::RemoteCallFailed(text)),
            Ok(address) => match self.state {
                ContractState::Uninitialized => Err(Error::NotInitialized),
                ContractState::DeployPending { .. } => {
                    self.state = ContractState::Confirmed { address };
                    Ok(address)
                },
                ContractState::Confirmed { .. } => Err(Error::AlreadyInitialized),
            },
        }
    }

    /// The address of the contract, once confirmed.
    pub fn get_contract(&self) -> (r: Result<H160>)
        ensures
            r == match self@ {
                ContractState::Confirmed { address } => Ok(address),
                _ => Err(Error::ContractNotDeployed),
            },
    {
        match self.state {
            ContractState::Confirmed { address } => Ok(address),
            _ => Err(Error::ContractNotDeployed),
        }
    }

    /// Asks to register a pair in the contract: allowed once the contract is
    /// confirmed.
    pub fn add_pair(
        &self,
        pair: String,
        decimal: U256,
        description: String,
        version: U256,
    ) -> (r: Result<ContractRequest>)
        ensures
            r == match self@ {
                ContractState::Confirmed { address } => Ok(
                    ContractRequest::AddPair {
                        contract: address,
                        pair,
                        decimal,
                        description,
                        version,
                    },
                ),
                _ => Err(Error::ContractNotDeployed),
            },
    {
        match self.state {
            ContractState::Confirmed { address } => Ok(
                ContractRequest::AddPair { contract: address, pair, decimal, description, version },
            ),
            _ => Err(Error::ContractNotDeployed),
        }
    }

    /// Asks to push a batch of answers: allowed once the contract is
    /// confirmed, for three lists of one length.
    pub fn update_answers(
        &self,
        pairs: Vec<String>,
        timestamps: Vec<U256>,
        prices: Vec<U256>,
    ) -> (r: Result<ContractRequest>)
        ensures
            match self@ {
                ContractState::Confirmed { address } => if pairs@.len() == timestamps@.len()
                    && pairs@.len() == prices@.len() {
                    r == Ok::<ContractRequest, Error>(
                        ContractRequest::UpdateAnswers {
                            contract: address,
                            pairs,
                            timestamps,
                            prices,
                        },
                    )
                } else {
                    r matches Err(Error::InvalidArgument(text)) && text@ == LENGTH_MISMATCH@
                },
                _ => r == Err::<ContractRequest, Error>(Error::ContractNotDeployed),
            },
    {
        match self.state {
            ContractState::Confirmed { address } => {
                if pairs.len() != timestamps.len() || pairs.len() != prices.len() {
                    return Err(Error::InvalidArgument(LENGTH_MISMATCH.to_string()));
                }
                Ok(ContractRequest::UpdateAnswers { contract: address, pairs, timestamps, prices })
            },
            _ => Err(Error::ContractNotDeployed),
        }
    }

    /// Takes the answer to a call that changes nothing in this record.
    pub fn finish_relay(&self, reply: Reply<H256>) -> (r: Result<H256>)
        ensures
            r == relayed_result(reply),
    {
        match reply {
            Err(text) => Err(Error::RemoteCallFailed(text)),
            Ok(tx_hash) => Ok(tx_hash),
        }
    }
}

/// The text of the error for answer lists of different lengths.
pub const LENGTH_MISMATCH: &'static str = "pairs, timestamps and prices must have the same length";

} // verus!
