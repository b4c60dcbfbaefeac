//! Signing keys and the addresses that belong to them.
use vstd::prelude::*;
use vstd::pervasive::unreached;
use crate::did::H160;
use crate::register::error::{Error, Result};

verus! {

/// The secret key that `k256::ecdsa::SigningKey::from_slice` reads from
/// bytes, as `to_bytes` writes it back: 32 bytes, the given ones padded with
/// zeros in front where they are fewer; nothing where the bytes are refused.
pub uninterp spec fn secret_key(bytes: Seq<u8>) -> Option<Seq<u8>>;

/// The address that `ethers_core::utils::secret_key_to_address` gives for a
/// secret key of secp256k1, or nothing where
/// `k256::ecdsa::SigningKey::from_slice` refuses the bytes.
pub uninterp spec fn key_address(key: Seq<u8>) -> Option<Seq<u8>>;

/// The public key of a secret key in SEC1 form, as
/// `k256::ecdsa::VerifyingKey::to_sec1_bytes` writes it, or nothing where
/// `k256::ecdsa::SigningKey::from_slice` refuses the bytes.
pub uninterp spec fn key_public(key: Seq<u8>) -> Option<Seq<u8>>;

/// `SigningKey::from_slice` followed by `to_bytes`: the secret key in its
/// full length of 32 bytes, or nothing for bytes that are no secret key.
/// What `to_bytes` wrote, `from_slice` reads as the same key.
#[verifier::external_body]
fn secret_key_of(bytes: &[u8]) -> (r: Option<Vec<u8>>)
    ensures
        match r {
            Some(key) => secret_key(bytes@) == Some(key@) && key@.len() == 32 && secret_key(key@)
                == Some(key@),
            None => secret_key(bytes@) is None,
        },
{
    let signer = ethers_core::k256::ecdsa::SigningKey::from_slice(bytes).ok()?;
    Some(signer.to_bytes().to_vec())
}

/// `SigningKey::from_slice` followed by `secret_key_to_address`: the
/// address of the key, 20 bytes long; nothing exactly where `from_slice`
/// refuses the bytes. A key that has an address has a public key, since
/// both are made from what `from_slice` accepted.
#[verifier::external_body]
fn address_of(key: &[u8]) -> (r: Option<H160>)
    ensures
        match r {
            Some(address) => key_address(key@) == Some(address@),
            None => key_address(key@) is None,
        },
        r is Some <==> secret_key(key@) is Some,
        r is Some ==> key_public(key@) is Some,
{
    let signer = ethers_core::k256::ecdsa::SigningKey::from_slice(key).ok()?;
    Some(H160(ethers_core::utils::secret_key_to_address(&signer).0))
}

/// `SigningKey::from_slice` followed by `verifying_key().to_sec1_bytes()`:
/// the public key of the secret key, or nothing where `from_slice` refuses
/// the bytes.
#[verifier::external_body]
fn public_key_of(key: &[u8]) -> (r: Option<Vec<u8>>)
    ensures
        match r {
            Some(public) => key_public(key@) == Some(public@),
            None => key_public(key@) is None,
        },
{
    let signer = ethers_core::k256::ecdsa::SigningKey::from_slice(key).ok()?;
    Some(signer.verifying_key().to_sec1_bytes().to_vec())
}

/// `SigningKey::random` on the thread's generator, as `to_bytes` writes the
/// key: 32 bytes that `from_slice` reads as the same key, whatever was drawn.
#[verifier::external_body]
fn random_key() -> (r: Vec<u8>)
    ensures
        r@.len() == 32,
        secret_key(r@) == Some(r@),
{
    ethers_core::k256::ecdsa::SigningKey::random(&mut rand::thread_rng()).to_bytes().to_vec()
}

/// A signing key together with the address that belongs to it.
#[derive(Debug, PartialEq, Eq)]
pub struct Wallet {
    signing_key: Vec<u8>,
    address: H160,
}

impl Wallet {
    #[verifier::type_invariant]
    spec fn well_formed(&self) -> bool {
        &&& secret_key(self.signing_key@) == Some(self.signing_key@)
        &&& key_address(self.signing_key@) == Some(self.address@)
        &&& key_public(self.signing_key@) is Some
    }

    /// The bytes of the signing key.
    pub closed spec fn spec_signer(&self) -> Seq<u8> {
        self.signing_key@
    }

    /// The address of the wallet.
    pub closed spec fn spec_address(&self) -> H160 {
        self.address
    }

    /// The wallet of a secret key; refused exactly for bytes that are no
    /// secret key.
    pub fn from_bytes(key: &[u8]) -> (r: Result<Wallet>)
        ensures
            match r {
                Ok(wallet) => {
                    &&& secret_key(key@) == Some(wallet.spec_signer())
                    &&& key_address(wallet.spec_signer()) == Some(wallet.spec_address()@)
                    &&& key_public(wallet.spec_signer()) is Some
                },
                Err(e) => e == Error::InvalidSigningKey && secret_key(key@) is None,
            },
    {
        let signing_key = match secret_key_of(key) {
            Some(signing_key) => signing_key,
            None => {
                return Err(Error::InvalidSigningKey);
            },
        };
        match address_of(signing_key.as_slice()) {
            Some(address) => Ok(Wallet { signing_key, address }),
            None => unreached(),
        }
    }

    /// The bytes of the signing key.
    pub fn signer(&self) -> (r: Vec<u8>)
        ensures
            r@ == self.spec_signer(),
            secret_key(r@) == Some(r@),
            key_address(r@) == Some(self.spec_address()@),
    {
        proof {
            use_type_invariant(self);
        }
        self.signing_key.clone()
    }

    /// The address of the wallet.
    pub fn address(&self) -> (r: H160)
        ensures
            r == self.spec_address(),
            key_address(self.spec_signer()) == Some(r@),
            key_public(self.spec_signer()) is Some,
    {
        proof {
            use_type_invariant(self);
        }
        self.address
    }

    /// The public key of the wallet, in SEC1 form.
    pub fn public_key(&self) -> (r: Vec<u8>)
        ensures
            key_public(self.spec_signer()) == Some(r@),
    {
        proof {
            use_type_invariant(self);
        }
        match public_key_of(self.signing_key.as_slice()) {
            Some(public) => public,
            None => unreached(),
        }
    }
}

/// A wallet with a fresh random key.
pub fn random_wallet() -> (r: Wallet)
    ensures
        r.spec_signer().len() == 32,
        key_public(r.spec_signer()) is Some,
{
    let key = random_key();
    match Wallet::from_bytes(key.as_slice()) {
        Ok(wallet) => wallet,
        Err(_) => unreached(),
    }
}

} // verus!
