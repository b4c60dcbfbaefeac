//! Plain-value forms of the EVM-side data that the oracle handles.
use vstd::prelude::*;
use vstd::string::StringExecFns;
use crate::encoding::{hex_encode, hex_encoded};

verus! {

/// Two to the power of 64.
pub open spec fn limb_base() -> nat {
    0x1_0000_0000_0000_0000
}

/// A 20-byte EVM address.
#[derive(Debug, Clone, Copy, PartialEq, Eq, Hash)]
pub struct H160(pub [u8; 20]);

/// A 32-byte hash, used as a transaction reference.
#[derive(Debug, Clone, Copy, PartialEq, Eq, Hash)]
pub struct H256(pub [u8; 32]);

/// An unsigned 256-bit integer, as four 64-bit limbs, least significant first.
#[derive(Debug, Clone, Copy, PartialEq, Eq, Hash)]
pub struct U256(pub [u64; 4]);

/// A signed EVM transaction, as the fields that the signed encoding carries
/// and the sender that signed it.
#[derive(Debug, Clone, PartialEq, Eq)]
pub struct Transaction {
    /// The hash of the signed encoding.
    pub hash: H256,
    /// The sender's transaction count.
    pub nonce: U256,
    /// The sender.
    pub from: H160,
    /// The recipient; none for a contract creation.
    pub to: Option<H160>,
    /// The amount transferred.
    pub value: U256,
    /// The price offered per unit of gas.
    pub gas_price: Option<U256>,
    /// The gas limit.
    pub gas: U256,
    /// The call data.
    pub input: Vec<u8>,
    /// The recovery value of the signature, with the chain folded in.
    pub v: u64,
    /// The first half of the signature.
    pub r: U256,
    /// The second half of the signature.
    pub s: U256,
}

/// A signed transaction as plain values.
pub struct TransactionView {
    pub hash: H256,
    pub nonce: U256,
    pub from: H160,
    pub to: Option<H160>,
    pub value: U256,
    pub gas_price: Option<U256>,
    pub gas: U256,
    pub input: Seq<u8>,
    pub v: u64,
    pub r: U256,
    pub s: U256,
}

impl View for Transaction {
    type V = TransactionView;

    open spec fn view(&self) -> TransactionView {
        TransactionView {
            hash: self.hash,
            nonce: self.nonce,
            from: self.from,
            to: self.to,
            value: self.value,
            gas_price: self.gas_price,
            gas: self.gas,
            input: self.input@,
            v: self.v,
            r: self.r,
            s: self.s,
        }
    }
}

impl View for H160 {
    type V = Seq<u8>;

    open spec fn view(&self) -> Seq<u8> {
        self.0@
    }
}

impl View for H256 {
    type V = Seq<u8>;

    open spec fn view(&self) -> Seq<u8> {
        self.0@
    }
}

impl View for U256 {
    type V = nat;

    open spec fn view(&self) -> nat {
        let b = limb_base();
        (self.0[0] + b * (self.0[1] + b * (self.0[2] + b * self.0[3]))) as nat
    }
}

impl H160 {
    /// The address as text: `0x` and forty lower-case hexadecimal digits.
    pub open spec fn spec_hex_str(&self) -> Seq<char> {
        "0x"@ + hex_encoded(self@)
    }

    /// The address as text: `0x` and forty lower-case hexadecimal digits.
    pub fn to_hex_str(&self) -> (r: String)
        ensures
            r@ == self.spec_hex_str(),
    {
        let digits = hex_encode(self.0.as_slice());
        let mut out = String::from_str("0x");
        out.append(digits.as_str());
        out
    }
}

impl U256 {
    /// The 256-bit form of a 64-bit number.
    pub open spec fn spec_from_u64(value: u64) -> U256 {
        U256([value, 0, 0, 0])
    }

    /// The number zero.
    pub fn zero() -> (r: U256)
        ensures
            r == Self::spec_from_u64(0),
            r@ == 0,
    {
        U256([0, 0, 0, 0])
    }

    /// The 256-bit form of a 64-bit number.
    pub fn from_u64(value: u64) -> (r: U256)
        ensures
            r == Self::spec_from_u64(value),
            r@ == value,
    {
        U256([value, 0, 0, 0])
    }
}

} // verus!
