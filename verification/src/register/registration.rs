//! The registration itself: which call follows which answer.
//!
//! The caller makes the calls. It starts with the call that `register`
//! names, hands every answer to `advance`, and goes on until `advance` says
//! that the registration is done.
use vstd::prelude::*;
use crate::did::{H160, Transaction, TransactionView, U256};
use crate::principal::Principal;
use crate::register::constant::{
    METHOD_ACCOUNT_BASIC,
    METHOD_ADDRESS_REGISTERED,
    METHOD_MINT_NATIVE_TOKENS,
    METHOD_REGISTER_IC_AGENT,
    METHOD_VERIFY_REGISTRATION,
};
use crate::register::error::{Error, Result};
use crate::register::transaction::{
    registration_request,
    sign_transaction,
    signed_transaction,
    spec_registration_request,
    RegistrationInfo,
};
use crate::register::wallet::Wallet;
use crate::state::contract::Reply;

verus! {

/// A call on the EVM canister.
#[derive(Debug, Clone, PartialEq, Eq)]
pub enum RegistrationCall {
    /// Ask whether the address is registered for the canister.
    AddressRegistered { address: H160, canister: Principal },
    /// Ask for the transaction count of the address.
    AccountBasic { address: H160 },
    /// Mint native tokens to the address.
    MintNativeTokens { address: H160, amount: U256 },
    /// Submit the registration transaction for the canister.
    RegisterIcAgent { transaction: Transaction, canister: Principal },
    /// Prove the registration of the canister with the signing key.
    VerifyRegistration { signing_key: Vec<u8>, canister: Principal },
}

/// The answer to a call, as far as it could be read.
#[derive(Debug, PartialEq, Eq)]
pub enum RegistrationReply {
    /// Whether the address is registered; nothing if the answer is unreadable.
    AddressRegistered(Option<bool>),
    /// The transaction count of the address.
    AccountBasic(U256),
    /// The minted amount, or the EVM canister's error.
    Minted(Reply<U256>),
    /// The EVM canister's verdict on the registration transaction.
    AgentRegistered(Reply<()>),
    /// The EVM canister's verdict on the proof of registration.
    Verified(Reply<()>),
}

/// The call whose answer the registration waits for.
#[derive(Debug, Clone, PartialEq, Eq)]
pub enum RegistrationStep {
    CheckingAddress,
    FetchingNonce,
    Minting { transaction: Transaction },
    Registering,
    Verifying,
}

/// What follows an answer: another call, or the end.
#[derive(Debug, PartialEq, Eq)]
pub enum Progress {
    Call { step: RegistrationStep, call: RegistrationCall },
    Done(Result<()>),
}

/// A registration that is set up and ready to run.
#[derive(Debug, PartialEq, Eq)]
pub struct RegistrationService {
    /// The native tokens to mint first, on test networks.
    pub amount_to_mint: Option<u64>,
    /// The chain that the transaction is signed for.
    pub chain_id: u64,
    /// The EVM canister.
    pub evmc_canister_id: Principal,
    /// The canister to register.
    pub register_canister_id: Principal,
    /// The terms of the registration.
    pub registration_info: RegistrationInfo,
    /// The wallet that pays and signs.
    pub wallet: Wallet,
    /// The caller's own identity.
    pub principal: Principal,
}

impl RegistrationCall {
    /// The method of the EVM canister that the call goes to.
    pub fn method(&self) -> (r: &'static str)
        ensures
            r@ == match self {
                RegistrationCall::AddressRegistered { .. } => METHOD_ADDRESS_REGISTERED@,
                RegistrationCall::AccountBasic { .. } => METHOD_ACCOUNT_BASIC@,
                RegistrationCall::MintNativeTokens { .. } => METHOD_MINT_NATIVE_TOKENS@,
                RegistrationCall::RegisterIcAgent { .. } => METHOD_REGISTER_IC_AGENT@,
                RegistrationCall::VerifyRegistration { .. } => METHOD_VERIFY_REGISTRATION@,
            },
    {
        match self {
            RegistrationCall::AddressRegistered { .. } => METHOD_ADDRESS_REGISTERED,
            RegistrationCall::AccountBasic { .. } => METHOD_ACCOUNT_BASIC,
            RegistrationCall::MintNativeTokens { .. } => METHOD_MINT_NATIVE_TOKENS,
            RegistrationCall::RegisterIcAgent { .. } => METHOD_REGISTER_IC_AGENT,
            RegistrationCall::VerifyRegistration { .. } => METHOD_VERIFY_REGISTRATION,
        }
    }

    /// Whether the call changes the EVM canister.
    pub fn is_update(&self) -> (r: bool)
        ensures
            r == !(self is AddressRegistered || self is AccountBasic),
    {
        match self {
            RegistrationCall::AddressRegistered { .. } => false,
            RegistrationCall::AccountBasic { .. } => false,
            _ => true,
        }
    }
}

/// Whether `progress` submits exactly this transaction for this canister.
pub open spec fn submits(progress: Progress, transaction: TransactionView, canister: Principal) -> bool {
    progress matches Progress::Call {
        step: RegistrationStep::Registering,
        call: RegistrationCall::RegisterIcAgent { transaction: t, canister: c },
    } && t@ == transaction && c == canister
}

impl RegistrationService {
    /// A registration with the terms that the EVM canister stated.
    pub fn new(
        amount_to_mint: Option<u64>,
        chain_id: u64,
        evmc_canister_id: Principal,
        register_canister_id: Principal,
        principal: Principal,
        registration_info: RegistrationInfo,
        wallet: Wallet,
    ) -> (r: RegistrationService)
        ensures
            r == (RegistrationService {
                amount_to_mint,
                chain_id,
                evmc_canister_id,
                register_canister_id,
                registration_info,
                wallet,
                principal,
            }),
    {
        RegistrationService {
            amount_to_mint,
            chain_id,
            evmc_canister_id,
            register_canister_id,
            registration_info,
            wallet,
            principal,
        }
    }

    /// Reads the EVM canister's answer on the registration terms.
    pub fn get_registration_info(decoded: Reply<RegistrationInfo>) -> (r: Result<RegistrationInfo>)
        ensures
            r == match decoded {
                Ok(info) => Ok(info),
                Err(text) => Err(Error::CouldNotGetRegistrationInfo(text)),
            },
    {
        match decoded {
            Ok(info) => Ok(info),
            Err(text) => Err(Error::CouldNotGetRegistrationInfo(text)),
        }
    }

    /// The registration transaction for the transaction count `nonce`, as
    /// it is after signing.
    pub open spec fn spec_registration_transaction(&self, nonce: U256) -> Result<TransactionView> {
        signed_transaction(
            spec_registration_request(
                self.registration_info,
                self.wallet.spec_address(),
                self.chain_id,
                nonce,
            ),
            self.wallet.spec_signer(),
        )
    }

    /// Builds and signs the registration transaction for the transaction
    /// count `nonce`.
    pub fn registration_transaction(&self, nonce: U256) -> (r: Result<Transaction>)
        ensures
            match r {
                Ok(tx) => self.spec_registration_transaction(nonce) == Ok::<TransactionView, Error>(
                    tx@,
                ),
                Err(e) => self.spec_registration_transaction(nonce) == Err::<
                    TransactionView,
                    Error,
                >(e),
            },
    {
        let address = self.wallet.address();
        let request = registration_request(&self.registration_info, address, self.chain_id, nonce);
        sign_transaction(&request, &self.wallet)
    }

    /// The call that submits the registration transaction.
    pub fn register_ic_agent(&self, transaction: Transaction) -> (r: RegistrationCall)
        ensures
            r == (RegistrationCall::RegisterIcAgent {
                transaction,
                canister: self.register_canister_id,
            }),
    {
        RegistrationCall::RegisterIcAgent { transaction, canister: self.register_canister_id }
    }

    /// The call that proves the registration with the signing key.
    pub fn verify_registration(&self) -> (r: RegistrationCall)
        ensures
            r matches RegistrationCall::VerifyRegistration { signing_key, canister }
                && signing_key@ == self.wallet.spec_signer() && canister
                == self.register_canister_id,
    {
        RegistrationCall::VerifyRegistration {
            signing_key: self.wallet.signer(),
            canister: self.register_canister_id,
        }
    }

    /// The call that mints `amount_to_mint` native tokens to the wallet.
    pub fn mint_native_tokens_to_address(&self, amount_to_mint: u64) -> (r: RegistrationCall)
        ensures
            r == (RegistrationCall::MintNativeTokens {
                address: self.wallet.spec_address(),
                amount: U256::spec_from_u64(amount_to_mint),
            }),
    {
        RegistrationCall::MintNativeTokens {
            address: self.wallet.address(),
            amount: U256::from_u64(amount_to_mint),
        }
    }

    /// Starts a registration: the first call asks whether the address is
    /// registered already.
    pub fn register(&self) -> (r: Progress)
        ensures
            r == (Progress::Call {
                step: RegistrationStep::CheckingAddress,
                call: RegistrationCall::AddressRegistered {
                    address: self.wallet.spec_address(),
                    canister: self.register_canister_id,
                },
            }),
    {
        Progress::Call {
            step: RegistrationStep::CheckingAddress,
            call: RegistrationCall::AddressRegistered {
                address: self.wallet.address(),
                canister: self.register_canister_id,
            },
        }
    }

    /// Reads the answer on whether the address is registered: an unreadable
    /// answer is an error that names the address and the caller.
    pub fn is_address_registered(&self, decoded: Option<bool>) -> (r: Result<bool>)
        ensures
            match decoded {
                Some(registered) => r == Ok::<bool, Error>(registered),
                None => r matches Err(Error::CouldNotCheckRegistrationStatus(address, caller))
                    && address@ == self.wallet.spec_address().spec_hex_str() && caller
                    == self.principal,
            },
    {
        match decoded {
            Some(registered) => Ok(registered),
            None => Err(
                Error::CouldNotCheckRegistrationStatus(
                    self.wallet.address().to_hex_str(),
                    self.principal,
                ),
            ),
        }
    }

    /// What follows the answer `reply` to the call of `step`.
    pub open spec fn follows(&self, step: RegistrationStep, reply: RegistrationReply, r: Progress) -> bool {
        match (step, reply) {
            (RegistrationStep::CheckingAddress, RegistrationReply::AddressRegistered(None)) => {
                r matches Progress::Done(Err(Error::CouldNotCheckRegistrationStatus(address, caller)))
                    && address@ == self.wallet.spec_address().spec_hex_str() && caller
                    == self.principal
            },
            (RegistrationStep::CheckingAddress, RegistrationReply::AddressRegistered(Some(true))) => {
                r == Progress::Done(Err(Error::AlreadyRegistered(self.principal)))
            },
            (RegistrationStep::CheckingAddress, RegistrationReply::AddressRegistered(Some(false))) => {
                r == (Progress::Call {
                    step: RegistrationStep::FetchingNonce,
                    call: RegistrationCall::AccountBasic { address: self.wallet.spec_address() },
                })
            },
            (RegistrationStep::FetchingNonce, RegistrationReply::AccountBasic(nonce)) => {
                match self.spec_registration_transaction(nonce) {
                    Err(e) => r == Progress::Done(Err(e)),
                    Ok(signed) => match self.amount_to_mint {
                        Some(amount) => {
                            r matches Progress::Call {
                                step: RegistrationStep::Minting { transaction },
                                call: RegistrationCall::MintNativeTokens { address, amount: minted },
                            } && transaction@ == signed && address == self.wallet.spec_address()
                                && minted == U256::spec_from_u64(amount)
                        },
                        None => submits(r, signed, self.register_canister_id),
                    },
                }
            },
            (RegistrationStep::Minting { transaction }, RegistrationReply::Minted(Ok(_))) => {
                submits(r, transaction@, self.register_canister_id)
            },
            (RegistrationStep::Minting { .. }, RegistrationReply::Minted(Err(text))) => {
                r == Progress::Done(Err(Error::Evm(text)))
            },
            (RegistrationStep::Registering, RegistrationReply::AgentRegistered(Ok(_))) => {
                r matches Progress::Call {
                    step: RegistrationStep::Verifying,
                    call: RegistrationCall::VerifyRegistration { signing_key, canister },
                } && signing_key@ == self.wallet.spec_signer() && canister
                    == self.register_canister_id
            },
            (RegistrationStep::Registering, RegistrationReply::AgentRegistered(Err(text))) => {
                r == Progress::Done(Err(Error::Evm(text)))
            },
            (RegistrationStep::Verifying, RegistrationReply::Verified(Ok(_))) => {
                r == Progress::Done(Ok(()))
            },
            (RegistrationStep::Verifying, RegistrationReply::Verified(Err(text))) => {
                r == Progress::Done(Err(Error::Evm(text)))
            },
            _ => r == Progress::Done(Err(Error::UnexpectedReply)),
        }
    }

    /// Takes the answer to the call of `step` and says what follows.
    pub fn advance(&self, step: RegistrationStep, reply: RegistrationReply) -> (r: Progress)
        ensures
            self.follows(step, reply, r),
    {
        match (step, reply) {
            (RegistrationStep::CheckingAddress, RegistrationReply::AddressRegistered(decoded)) => {
                match self.is_address_registered(decoded) {
                    Err(e) => Progress::Done(Err(e)),
                    Ok(true) => Progress::Done(Err(Error::AlreadyRegistered(self.principal))),
                    Ok(false) => Progress::Call {
                        step: RegistrationStep::FetchingNonce,
                        call: RegistrationCall::AccountBasic { address: self.wallet.address() },
                    },
                }
            },
            (RegistrationStep::FetchingNonce, RegistrationReply::AccountBasic(nonce)) => {
                match self.registration_transaction(nonce) {
                    Err(e) => Progress::Done(Err(e)),
                    Ok(transaction) => match self.amount_to_mint {
                        Some(amount) => Progress::Call {
                            step: RegistrationStep::Minting { transaction },
                            call: self.mint_native_tokens_to_address(amount),
                        },
                        None => Progress::Call {
                            step: RegistrationStep::Registering,
                            call: self.register_ic_agent(transaction),
                        },
                    },
                }
            },
            (RegistrationStep::Minting { transaction }, RegistrationReply::Minted(minted)) => {
                match minted {
                    Ok(_) => Progress::Call {
                        step: RegistrationStep::Registering,
                        call: self.register_ic_agent(transaction),
                    },
                    Err(text) => Progress::Done(Err(Error::Evm(text))),
                }
            },
            (RegistrationStep::Registering, RegistrationReply::AgentRegistered(verdict)) => {
                match verdict {
                    Ok(_) => Progress::Call {
                        step: RegistrationStep::Verifying,
                        call: self.verify_registration(),
                    },
                    Err(text) => Progress::Done(Err(Error::Evm(text))),
                }
            },
            (RegistrationStep::Verifying, RegistrationReply::Verified(verdict)) => {
                match verdict {
                    Ok(_) => Progress::Done(Ok(())),
                    Err(text) => Progress::Done(Err(Error::Evm(text))),
                }
            },
            _ => Progress::Done(Err(Error::UnexpectedReply)),
        }
    }
}

/// A registration never submits its transaction for an address that the EVM
/// canister reports as registered, nor without having asked: the first call
/// is the question, and only the answer "not registered" leads on.
pub proof fn lemma_asks_before_submitting(
    service: RegistrationService,
    decoded: Option<bool>,
    r: Progress,
)
    requires
        service.follows(
            RegistrationStep::CheckingAddress,
            RegistrationReply::AddressRegistered(decoded),
            r,
        ),
    ensures
        decoded == Some(true) ==> r == Progress::Done(
            Err(Error::AlreadyRegistered(service.principal)),
        ),
        r is Call ==> decoded == Some(false) && r->call is AccountBasic,
{
}

} // verus!
