//! The registration transaction: what it says, and how it is signed.
use vstd::prelude::*;
use crate::did::{H160, H256, Transaction, TransactionView, U256};
use crate::register::error::{Error, Result};
use crate::register::wallet::Wallet;
use ethers_core::types as eth;
use ethers_core::types::transaction::eip2718::TypedTransaction;

verus! {

/// The gas limit of a registration transaction.
pub const REGISTRATION_GAS: u64 = 53000;

/// The terms of a registration, as the EVM canister states them.
#[derive(Debug, Clone, Copy, PartialEq, Eq)]
pub struct RegistrationInfo {
    /// The address that the registration fee is paid to.
    pub minter_address: H160,
    /// The fee.
    pub registration_fee: U256,
}

/// A legacy transaction before it is signed.
#[derive(Debug, Clone, Copy, PartialEq, Eq)]
pub struct TransactionRequest {
    pub from: H160,
    pub to: H160,
    pub value: U256,
    pub chain_id: u64,
    pub nonce: U256,
    pub gas_price: U256,
    pub gas: U256,
}

/// The hash that is signed for a request: what
/// `ethers_core::types::transaction::eip2718::TypedTransaction::sighash`
/// gives for the legacy transaction with these fields.
pub uninterp spec fn request_sighash(request: TransactionRequest) -> Seq<u8>;

/// The signature that `k256::ecdsa::SigningKey::sign_prehash_recoverable`
/// makes with a key over a hash, as `r`, `s` and the recovery id; nothing
/// where the key or the signing is refused.
pub uninterp spec fn ecdsa_signature(key: Seq<u8>, hash: Seq<u8>) -> Option<(U256, U256, u8)>;

/// The bytes that `TypedTransaction::rlp_signed` writes for a request and a
/// signature.
pub uninterp spec fn signed_encoding(request: TransactionRequest, v: u64, r: U256, s: U256) -> Seq<
    u8,
>;

/// The transaction that `rlp::decode` reads from bytes as an
/// `ethers_core::types::Transaction`, or nothing where it refuses them.
pub uninterp spec fn decoded_transaction(bytes: Seq<u8>) -> Option<TransactionView>;

/// `TypedTransaction::sighash` of the legacy transaction that the builder of
/// `ethers_core::types::TransactionRequest` makes from the fields.
#[verifier::external_body]
fn sighash(request: &TransactionRequest) -> (r: H256)
    ensures
        r@ == request_sighash(*request),
{
    let tx = eth::TransactionRequest::new()
        .from(eth::H160(request.from.0))
        .to(eth::H160(request.to.0))
        .value(eth::U256(request.value.0))
        .chain_id(request.chain_id)
        .nonce(eth::U256(request.nonce.0))
        .gas_price(eth::U256(request.gas_price.0))
        .gas(eth::U256(request.gas.0));
    H256(TypedTransaction::Legacy(tx).sighash().0)
}

/// `SigningKey::from_slice` and `sign_prehash_recoverable`: the signature,
/// with `r` and `s` read as big-endian numbers, and the recovery id.
#[verifier::external_body]
fn sign_prehash(key: &[u8], hash: &H256) -> (r: Option<(U256, U256, u8)>)
    ensures
        r == ecdsa_signature(key@, hash@),
{
    let signer = ethers_core::k256::ecdsa::SigningKey::from_slice(key).ok()?;
    let (signature, recovery) = signer.sign_prehash_recoverable(&hash.0).ok()?;
    let r = eth::U256::from_big_endian(&signature.r().to_bytes());
    let s = eth::U256::from_big_endian(&signature.s().to_bytes());
    Some((U256(r.0), U256(s.0), recovery.to_byte()))
}

/// `TypedTransaction::rlp_signed` of the legacy transaction with the fields
/// of the request, under the signature.
#[verifier::external_body]
fn encode_signed(request: &TransactionRequest, v: u64, r: U256, s: U256) -> (bytes: Vec<u8>)
    ensures
        bytes@ == signed_encoding(*request, v, r, s),
{
    let tx = eth::TransactionRequest::new()
        .from(eth::H160(request.from.0))
        .to(eth::H160(request.to.0))
        .value(eth::U256(request.value.0))
        .chain_id(request.chain_id)
        .nonce(eth::U256(request.nonce.0))
        .gas_price(eth::U256(request.gas_price.0))
        .gas(eth::U256(request.gas.0));
    let signature = eth::Signature { r: eth::U256(r.0), s: eth::U256(s.0), v };
    TypedTransaction::Legacy(tx).rlp_signed(&signature).to_vec()
}

/// `rlp::decode` to an `ethers_core::types::Transaction`, field by field.
#[verifier::external_body]
fn decode_transaction(bytes: &[u8]) -> (r: Option<Transaction>)
    ensures
        match r {
            Some(tx) => decoded_transaction(bytes@) == Some(tx@),
            None => decoded_transaction(bytes@) is None,
        },
{
    let tx: eth::Transaction = rlp::decode(bytes).ok()?;
    Some(Transaction {
        hash: H256(tx.hash.0),
        nonce: U256(tx.nonce.0),
        from: H160(tx.from.0),
        to: tx.to.map(|a| H160(a.0)),
        value: U256(tx.value.0),
        gas_price: tx.gas_price.map(|p| U256(p.0)),
        gas: U256(tx.gas.0),
        input: tx.input.to_vec(),
        v: tx.v.0[0],
        r: U256(tx.r.0),
        s: U256(tx.s.0),
    })
}

/// The recovery value of a signature that is bound to a chain.
pub open spec fn chain_bound_v(recovery: u8, chain_id: u64) -> int {
    recovery + 35 + 2 * chain_id
}

/// The recovery value of a signature with the chain folded in; refused where
/// it does not fit in 64 bits.
pub fn recovery_value(recovery: u8, chain_id: u64) -> (r: Result<u64>)
    ensures
        r == if chain_bound_v(recovery, chain_id) <= u64::MAX {
            Ok(chain_bound_v(recovery, chain_id) as u64)
        } else {
            Err::<u64, Error>(Error::ChainIdTooLarge)
        },
{
    let doubled = match chain_id.checked_mul(2) {
        Some(doubled) => doubled,
        None => {
            return Err(Error::ChainIdTooLarge);
        },
    };
    match doubled.checked_add(35 + recovery as u64) {
        Some(v) => Ok(v),
        None => Err(Error::ChainIdTooLarge),
    }
}

/// The signed transaction of a request under a key: the request is hashed,
/// the hash signed, the recovery value bound to the chain, the whole encoded
/// and read back, and the sender set to the one of the request.
pub open spec fn signed_transaction(request: TransactionRequest, key: Seq<u8>) -> Result<
    TransactionView,
> {
    match ecdsa_signature(key, request_sighash(request)) {
        None => Err(Error::Internal),
        Some((r, s, recovery)) => {
            let v = chain_bound_v(recovery, request.chain_id);
            if v > u64::MAX {
                Err(Error::ChainIdTooLarge)
            } else {
                match decoded_transaction(signed_encoding(request, v as u64, r, s)) {
                    None => Err(Error::Internal),
                    Some(tx) => Ok(TransactionView { from: request.from, ..tx }),
                }
            }
        },
    }
}

/// The request that pays the registration fee from `from` to the minter:
/// at no gas price, with the gas limit of a registration.
pub open spec fn spec_registration_request(
    info: RegistrationInfo,
    from: H160,
    chain_id: u64,
    nonce: U256,
) -> TransactionRequest {
    TransactionRequest {
        from,
        to: info.minter_address,
        value: info.registration_fee,
        chain_id,
        nonce,
        gas_price: U256::spec_from_u64(0),
        gas: U256::spec_from_u64(REGISTRATION_GAS),
    }
}

/// The request that pays the registration fee from `from` to the minter.
pub fn registration_request(
    info: &RegistrationInfo,
    from: H160,
    chain_id: u64,
    nonce: U256,
) -> (r: TransactionRequest)
    ensures
        r == spec_registration_request(*info, from, chain_id, nonce),
        r.gas_price@ == 0,
        r.gas@ == REGISTRATION_GAS,
{
    TransactionRequest {
        from,
        to: info.minter_address,
        value: info.registration_fee,
        chain_id,
        nonce,
        gas_price: U256::zero(),
        gas: U256::from_u64(REGISTRATION_GAS),
    }
}

/// Signs a request with the key of a wallet.
pub fn sign_transaction(request: &TransactionRequest, wallet: &Wallet) -> (r: Result<Transaction>)
    ensures
        match r {
            Ok(tx) => signed_transaction(*request, wallet.spec_signer()) == Ok::<
                TransactionView,
                Error,
            >(tx@),
            Err(e) => signed_transaction(*request, wallet.spec_signer()) == Err::<
                TransactionView,
                Error,
            >(e),
        },
{
    let key = wallet.signer();
    let hash = sighash(request);
    match sign_prehash(key.as_slice(), &hash) {
        None => Err(Error::Internal),
        Some((r, s, recovery)) => {
            let v: u64 = recovery_value(recovery, request.chain_id)?;
            let bytes = encode_signed(request, v, r, s);
            match decode_transaction(bytes.as_slice()) {
                None => Err(Error::Internal),
                Some(tx) => Ok(
                    Transaction {
                        hash: tx.hash,
                        nonce: tx.nonce,
                        from: request.from,
                        to: tx.to,
                        value: tx.value,
                        gas_price: tx.gas_price,
                        gas: tx.gas,
                        input: tx.input,
                        v: tx.v,
                        r: tx.r,
                        s: tx.s,
                    },
                ),
            }
        },
    }
}

} // verus!
