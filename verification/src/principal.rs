//! Identities of callers and canisters.
use vstd::prelude::*;

verus! {

/// The longest byte string an identity can hold.
pub const MAX_LENGTH_IN_BYTES: usize = 29;

/// The byte string of the anonymous identity.
pub open spec fn anonymous_id() -> Seq<u8> {
    seq![4u8]
}

/// An identity: an opaque byte string of at most 29 bytes.
///
/// The unused tail of the buffer is always zero, so two identities with the
/// same byte string are the same value.
#[derive(Debug, Clone, Copy, PartialEq, Eq, Hash)]
pub struct Principal {
    len: u8,
    bytes: [u8; 29],
}

impl View for Principal {
    type V = Seq<u8>;

    closed spec fn view(&self) -> Seq<u8> {
        self.bytes@.take(self.len as int)
    }
}

impl Principal {
    #[verifier::type_invariant]
    spec fn well_formed(&self) -> bool {
        &&& self.len <= 29
        &&& forall|i: int| self.len <= i < 29 ==> self.bytes[i] == 0
    }

    /// The anonymous identity, which stands for "no owner yet".
    pub fn anonymous() -> (r: Principal)
        ensures
            r@ == anonymous_id(),
    {
        let mut bytes = [0u8; 29];
        bytes[0] = 4;
        let r = Principal { len: 1, bytes };
        assert(r@ =~= anonymous_id());
        r
    }

    /// Builds an identity from its byte string, if that is short enough.
    pub fn try_from_slice(slice: &[u8]) -> (r: Option<Principal>)
        ensures
            r is Some <==> slice@.len() <= MAX_LENGTH_IN_BYTES,
            r matches Some(p) ==> p@ == slice@,
    {
        let n: usize = slice.len();
        if n > MAX_LENGTH_IN_BYTES {
            return None;
        }
        let mut bytes = [0u8; 29];
        let mut i: usize = 0;
        while i < n
            invariant
                n == slice@.len(),
                n <= 29,
                i <= n,
                forall|j: int| 0 <= j < i ==> bytes[j] == slice@[j],
                forall|j: int| i <= j < 29 ==> bytes[j] == 0,
            decreases n - i,
        {
            bytes[i] = slice[i];
            i += 1;
        }
        let r = Principal { len: n as u8, bytes };
        assert(r@ =~= slice@);
        Some(r)
    }

    /// The byte string of the identity.
    pub fn as_slice(&self) -> (r: Vec<u8>)
        ensures
            r@ == self@,
    {
        proof {
            use_type_invariant(self);
        }
        let mut out: Vec<u8> = Vec::new();
        let mut i: usize = 0;
        while i < self.len as usize
            invariant
                self.len <= 29,
                i <= self.len,
                out@ == self.bytes@.take(i as int),
            decreases self.len - i,
        {
            out.push(self.bytes[i]);
            assert(self.bytes@.take(i + 1) =~= self.bytes@.take(i as int).push(self.bytes[i as int]));
            i += 1;
        }
        out
    }

    /// Whether two identities hold the same byte string.
    pub fn same_as(&self, other: &Principal) -> (r: bool)
        ensures
            r == (self@ == other@),
            r == (*self == *other),
    {
        proof {
            use_type_invariant(self);
            use_type_invariant(other);
        }
        if self.len != other.len {
            assert(self@.len() != other@.len());
            return false;
        }
        let mut i: usize = 0;
        while i < self.len as usize
            invariant
                self.len == other.len,
                self.len <= 29,
                i <= self.len,
                forall|j: int| 0 <= j < i ==> self.bytes[j] == other.bytes[j],
            decreases self.len - i,
        {
            if self.bytes[i] != other.bytes[i] {
                assert(self@[i as int] != other@[i as int]);
                return false;
            }
            i += 1;
        }
        assert(self@ =~= other@);
        assert(self.bytes =~= other.bytes);
        true
    }

    /// Whether this is the anonymous identity.
    pub fn is_anonymous(&self) -> (r: bool)
        ensures
            r == (self@ == anonymous_id()),
    {
        proof {
            use_type_invariant(self);
        }
        let r = self.len == 1 && self.bytes[0] == 4;
        proof {
            if r {
                assert(self@ =~= anonymous_id());
            } else if self.len == 1 {
                assert(self@[0] != anonymous_id()[0]);
            } else {
                assert(self@.len() != anonymous_id().len());
            }
        }
        r
    }
}

} // verus!
