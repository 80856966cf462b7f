//! Opaque identities of developers and apps.

use vstd::prelude::*;

verus! {

/// Longest identity, in bytes.
pub const MAX_LENGTH_IN_BYTES: usize = 29;

/// An opaque identity of at most 29 bytes.
#[derive(Clone, Copy, Debug, PartialEq, Eq, Hash)]
pub struct PrincipalId {
    len: u8,
    bytes: [u8; 29],
}

impl View for PrincipalId {
    type V = Seq<u8>;

    closed spec fn view(&self) -> Seq<u8> {
        self.bytes@.take(self.len as int)
    }
}

impl DeepView for PrincipalId {
    type V = Seq<u8>;

    open spec fn deep_view(&self) -> Seq<u8> {
        self@
    }
}

impl PrincipalId {
    #[verifier::type_invariant]
    spec fn inv(self) -> bool {
        &&& self.len <= 29
        &&& forall|i: int| self.len <= i < 29 ==> self.bytes@[i] == 0
    }

    pub fn try_from_slice(bytes: &[u8]) -> (id: Option<PrincipalId>)
        ensures
            id is Some <==> bytes@.len() <= 29,
            id is Some ==> id->0@ == bytes@,
    {
        if bytes.len() > 29 {
            return None;
        }
        let mut buffer: [u8; 29] = [0u8; 29];
        let mut i: usize = 0;
        while i < bytes.len()
            invariant
                i <= bytes.len() <= 29,
                forall|j: int| 0 <= j < i ==> buffer@[j] == bytes@[j],
                forall|j: int| i <= j < 29 ==> buffer@[j] == 0,
            decreases bytes.len() - i,
        {
            buffer[i] = bytes[i];
            i += 1;
        }
        let id = PrincipalId { len: bytes.len() as u8, bytes: buffer };
        assert(id@ =~= bytes@);
        Some(id)
    }

    /// The identity made of the first 29 of 32 bytes.
    pub fn from_leading_bytes(bytes: &[u8; 32]) -> (id: PrincipalId)
        ensures
            id@ == bytes@.take(29),
    {
        let mut buffer: [u8; 29] = [0u8; 29];
        let mut i: usize = 0;
        while i < 29
            invariant
                i <= 29,
                forall|j: int| 0 <= j < i ==> buffer@[j] == bytes@[j],
            decreases 29 - i,
        {
            buffer[i] = bytes[i];
            i += 1;
        }
        let id = PrincipalId { len: 29, bytes: buffer };
        assert(id@ =~= bytes@.take(29));
        id
    }

    /// Number of bytes of the identity.
    pub fn len(&self) -> (n: usize)
        ensures
            n == self@.len(),
            n <= 29,
    {
        proof {
            use_type_invariant(self);
        }
        self.len as usize
    }

    /// The bytes of the identity.
    pub fn to_vec(&self) -> (bytes: Vec<u8>)
        ensures
            bytes@ == self@,
            bytes@.len() <= 29,
    {
        proof {
            use_type_invariant(self);
        }
        let n: usize = self.len as usize;
        let mut bytes: Vec<u8> = Vec::new();
        let mut i: usize = 0;
        while i < n
            invariant
                i <= n == self.len <= 29,
                bytes@ == self.bytes@.take(i as int),
            decreases n - i,
        {
            bytes.push(self.bytes[i]);
            i += 1;
            assert(self.bytes@.take(i as int) =~= self.bytes@.take(i - 1).push(self.bytes@[i - 1]));
        }
        bytes
    }

    /// Whether two identities hold the same bytes.
    pub fn same(&self, other: &PrincipalId) -> (r: bool)
        ensures
            r == (self@ == other@),
    {
        proof {
            use_type_invariant(self);
            use_type_invariant(other);
        }
        if self.len != other.len {
            assert(self@.len() != other@.len());
            return false;
        }
        let n: usize = self.len as usize;
        let mut i: usize = 0;
        while i < n
            invariant
                i <= n == self.len == other.len <= 29,
                self.bytes@.take(i as int) == other.bytes@.take(i as int),
            decreases n - i,
        {
            if self.bytes[i] != other.bytes[i] {
                assert(self@[i as int] != other@[i as int]);
                return false;
            }
            i += 1;
            assert(self.bytes@.take(i as int) =~= self.bytes@.take(i - 1).push(self.bytes@[i - 1]));
            assert(other.bytes@.take(i as int) =~= other.bytes@.take(i - 1).push(other.bytes@[i - 1]));
        }
        true
    }
}

} // verus!
