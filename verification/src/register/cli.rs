//! What the registration tool is asked to do, and what it answers.
use vstd::prelude::*;
use crate::did::H160;
use crate::encoding::{hex_decode, hex_decoded, hex_encode, hex_encoded, is_hex};
use crate::principal::Principal;
use crate::register::error::{Error, Result};
use crate::register::wallet::{key_address, key_public, random_wallet, secret_key, Wallet};

verus! {

/// The chain that is used unless another is named.
pub const DEFAULT_CHAIN_ID: u64 = 355113;

/// The name of the production network.
pub const NETWORK_IC: &'static str = "ic";

/// The name of the local replica.
pub const NETWORK_LOCAL: &'static str = "local";

/// The address of the local replica.
pub const URL_LOCAL: &'static str = "http://localhost:8000";

/// The address of the production network.
pub const URL_IC: &'static str = "https://ic0.app";

/// The tool's command line.
#[derive(Debug, Clone, PartialEq, Eq)]
pub struct RegisterMinterCli {
    pub command: Commands,
}

/// What the tool can be asked for.
#[derive(Debug, Clone, PartialEq, Eq)]
pub enum Commands {
    /// Make a wallet with a fresh key.
    GenerateWallet,
    /// Register an identity with the EVM canister.
    Register(RegisterArgs),
}

/// The arguments of a registration.
#[derive(Debug, Clone, PartialEq, Eq)]
pub struct RegisterArgs {
    /// The native tokens to mint for the wallet first, on test networks.
    pub amount_to_mint: Option<u64>,
    /// The chain that the transaction is signed for.
    pub chain_id: u64,
    /// The path of the caller's identity file.
    pub identity: String,
    /// The EVM canister.
    pub evmc: Principal,
    /// The network: `ic`, `local`, or an address.
    pub network: String,
    /// The canister to register.
    pub register_canister_id: Principal,
    /// The signing key of the wallet, as hexadecimal text.
    pub signing_key: String,
}

/// What a registration needs before the network is touched.
#[derive(Debug, PartialEq, Eq)]
pub struct ExecPlan {
    /// The wallet that signs.
    pub wallet: Wallet,
    /// The address of the network.
    pub network: String,
}

/// How a registration ended where it did not fail.
#[derive(Debug, Clone, PartialEq, Eq)]
pub enum Registration {
    /// The identity is registered now.
    Registered { wallet_address: String, principal: Principal },
    /// The address was registered before; the identity is the caller's own.
    AlreadyRegistered { wallet_address: String, principal: Principal },
}

/// The keys and the address of a wallet as text.
#[derive(Debug, Clone, PartialEq, Eq)]
pub struct WalletSummary {
    /// The signing key, in hexadecimal.
    pub private_key: String,
    /// The public key in SEC1 form, in hexadecimal.
    pub public_key: String,
    /// The address, as `0x` and hexadecimal digits.
    pub address: String,
}

/// The address of a network: that of a named network, or the name itself
/// where it is no such name.
pub open spec fn spec_network_url(network: Seq<char>) -> Seq<char> {
    if network == NETWORK_LOCAL@ {
        URL_LOCAL@
    } else if network == NETWORK_IC@ {
        URL_IC@
    } else {
        network
    }
}

/// The address of a network, from its name.
pub fn network_url(network: &str) -> (r: &str)
    ensures
        r@ == spec_network_url(network@),
{
    let name = network.to_owned();
    if name == NETWORK_LOCAL.to_owned() {
        URL_LOCAL
    } else if name == NETWORK_IC.to_owned() {
        URL_IC
    } else {
        network
    }
}

/// The wallet of a signing key that is given as hexadecimal text.
pub fn get_wallet(signing_key: &str) -> (r: Result<Wallet>)
    ensures
        !is_hex(signing_key@) ==> r == Err::<Wallet, Error>(Error::InvalidHex),
        is_hex(signing_key@) && secret_key(hex_decoded(signing_key@)) is None ==> r == Err::<
            Wallet,
            Error,
        >(Error::InvalidSigningKey),
        is_hex(signing_key@) && secret_key(hex_decoded(signing_key@)) is Some ==> (r matches Ok(
            wallet,
        ) && secret_key(hex_decoded(signing_key@)) == Some(wallet.spec_signer()) && key_address(
            wallet.spec_signer(),
        ) == Some(wallet.spec_address()@)),
{
    let key_bytes = match hex_decode(signing_key) {
        Ok(bytes) => bytes,
        Err(_) => {
            return Err(Error::InvalidHex);
        },
    };
    Wallet::from_bytes(key_bytes.as_slice())
}

/// Whether a summary holds the keys and the address of a wallet as text.
pub open spec fn summarizes(summary: WalletSummary, wallet: Wallet) -> bool {
    &&& summary.private_key@ == hex_encoded(wallet.spec_signer())
    &&& key_public(wallet.spec_signer()) matches Some(public)
    &&& summary.public_key@ == hex_encoded(public)
    &&& summary.address@ == wallet.spec_address().spec_hex_str()
}

/// The keys and the address of a wallet as text.
pub fn wallet_summary(wallet: &Wallet) -> (r: WalletSummary)
    ensures
        summarizes(r, *wallet),
{
    let public = wallet.public_key();
    let signer = wallet.signer();
    WalletSummary {
        private_key: hex_encode(signer.as_slice()),
        public_key: hex_encode(public.as_slice()),
        address: wallet.address().to_hex_str(),
    }
}

/// A wallet with a fresh random key, and its keys and address as text.
pub fn generate_wallet() -> (r: Result<(Wallet, WalletSummary)>)
    ensures
        r matches Ok((wallet, summary)) && summarizes(summary, wallet)
            && wallet.spec_signer().len() == 32,
{
    let wallet = random_wallet();
    let summary = wallet_summary(&wallet);
    Ok((wallet, summary))
}

impl RegisterArgs {
    /// The first half of a registration: reads the signing key and finds the
    /// address of the network.
    pub fn exec(&self) -> (r: Result<ExecPlan>)
        ensures
            !is_hex(self.signing_key@) ==> r == Err::<ExecPlan, Error>(Error::InvalidHex),
            is_hex(self.signing_key@) && secret_key(hex_decoded(self.signing_key@)) is None ==> r
                == Err::<ExecPlan, Error>(Error::InvalidSigningKey),
            is_hex(self.signing_key@) && secret_key(hex_decoded(self.signing_key@)) is Some ==> (
            r matches Ok(plan) && secret_key(hex_decoded(self.signing_key@)) == Some(
                plan.wallet.spec_signer(),
            ) && plan.network@ == spec_network_url(self.network@)),
    {
        let wallet = get_wallet(self.signing_key.as_str())?;
        let network = network_url(self.network.as_str()).to_string();
        Ok(ExecPlan { wallet, network })
    }

    /// The second half of a registration: an address that was registered
    /// before counts as success, every other error stands.
    pub fn finish_exec(&self, address: H160, outcome: Result<()>) -> (r: Result<Registration>)
        ensures
            match outcome {
                Ok(_) => r matches Ok(Registration::Registered { wallet_address, principal })
                    && wallet_address@ == address.spec_hex_str() && principal
                    == self.register_canister_id,
                Err(Error::AlreadyRegistered(caller)) => r matches Ok(
                    Registration::AlreadyRegistered { wallet_address, principal },
                ) && wallet_address@ == address.spec_hex_str() && principal == caller,
                Err(e) => r == Err::<Registration, Error>(e),
            },
    {
        match outcome {
            Ok(_) => Ok(
                Registration::Registered {
                    wallet_address: address.to_hex_str(),
                    principal: self.register_canister_id,
                },
            ),
            Err(Error::AlreadyRegistered(caller)) => Ok(
                Registration::AlreadyRegistered {
                    wallet_address: address.to_hex_str(),
                    principal: caller,
                },
            ),
            Err(e) => Err(e),
        }
    }
}

} // verus!
