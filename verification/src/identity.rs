//! Thirty-two byte identities of accounts, principals and programs.

use vstd::prelude::*;

verus! {

/// Number of bytes in an identity.
pub const IDENTITY_LEN: usize = 32;

/// A 32-byte identity: an account address, a principal or a program.
///
/// Its view is the sequence of its bytes, which identifies it: two identities are the same
/// exactly when their views are equal.
#[derive(Clone, Copy, Debug, PartialEq, Eq)]
pub struct Identity {
    pub bytes: [u8; 32],
}

impl View for Identity {
    type V = Seq<u8>;

    open spec fn view(&self) -> Seq<u8> {
        self.bytes@
    }
}

/// The zero identity, which stands for "nobody": 32 bytes, all of them zero.
pub open spec fn zero_identity() -> Seq<u8> {
    Seq::new(32, |i: int| 0u8)
}

/// An identity is determined by its bytes.
pub proof fn lemma_identity_by_view(a: Identity, b: Identity)
    ensures
        a@.len() == 32,
        (a@ == b@) <==> (a == b),
{
    if a@ == b@ {
        assert(a.bytes =~= b.bytes);
    }
}

impl Identity {
    /// Wraps 32 bytes as an identity.
    pub fn new(bytes: [u8; 32]) -> (id: Identity)
        ensures
            id.bytes == bytes,
    {
        Identity { bytes }
    }

    /// The zero identity, which stands for "nobody".
    pub fn zero() -> (id: Identity)
        ensures
            id@ == zero_identity(),
    {
        let id = Identity { bytes: [0u8; 32] };
        assert(id@ =~= zero_identity());
        id
    }

    /// Tells whether two identities have the same bytes.
    pub fn equals(&self, other: &Identity) -> (same: bool)
        ensures
            same == (self@ == other@),
    {
        let mut i: usize = 0;
        while i < 32
            invariant
                i <= 32,
                forall|j: int| 0 <= j < i ==> self.bytes[j] == other.bytes[j],
            decreases 32 - i,
        {
            if self.bytes[i] != other.bytes[i] {
                return false;
            }
            i += 1;
        }
        assert(self@ =~= other@);
        true
    }

    /// Tells whether this is the zero identity.
    pub fn is_zero(&self) -> (zero: bool)
        ensures
            zero == (self@ == zero_identity()),
    {
        let mut i: usize = 0;
        while i < 32
            invariant
                i <= 32,
                forall|j: int| 0 <= j < i ==> self.bytes[j] == 0,
            decreases 32 - i,
        {
            if self.bytes[i] != 0 {
                assert(zero_identity()[i as int] == 0);
                return false;
            }
            i += 1;
        }
        assert(self@ =~= zero_identity());
        true
    }

    /// Reads the identity that occupies the 32 bytes of `data` from `start` on.
    pub fn read_from(data: &[u8], start: usize) -> (id: Identity)
        requires
            start + 32 <= data.len(),
        ensures
            id@ == data@.subrange(start as int, start + 32),
    {
        let mut bytes = [0u8; 32];
        let mut i: usize = 0;
        while i < 32
            invariant
                i <= 32,
                start + 32 <= data.len(),
                forall|j: int| 0 <= j < i ==> bytes[j] == data@[start + j],
            decreases 32 - i,
        {
            bytes[i] = data[start + i];
            i += 1;
        }
        let id = Identity { bytes };
        assert(id@ =~= data@.subrange(start as int, start + 32));
        id
    }

    /// Appends the 32 bytes of the identity to `out`.
    pub fn append_to(&self, out: &mut Vec<u8>)
        ensures
            final(out)@ == old(out)@ + self@,
    {
        let ghost before = out@;
        let mut i: usize = 0;
        while i < 32
            invariant
                i <= 32,
                out@ == before + self@.subrange(0, i as int),
            decreases 32 - i,
        {
            out.push(self.bytes[i]);
            i += 1;
        }
        assert(self@.subrange(0, 32) =~= self@);
    }
}

} // verus!
