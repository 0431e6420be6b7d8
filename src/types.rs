use vstd::prelude::*;

verus! {

/// Number of bytes in a content digest.
pub const DIGEST_LEN: usize = 32;

/// A fixed-size content fingerprint, compared byte for byte.
#[derive(Clone, Copy, Debug, PartialEq, Eq)]
pub struct Digest {
    pub bytes: [u8; 32],
}

impl View for Digest {
    type V = Seq<u8>;

    open spec fn view(&self) -> Seq<u8> {
        self.bytes@
    }
}

impl Digest {
    pub fn new(bytes: [u8; 32]) -> (d: Digest)
        ensures
            d@ == bytes@,
    {
        Digest { bytes }
    }

    /// Byte-exact equality of two digests.
    pub fn same_as(&self, other: &Digest) -> (r: bool)
        ensures
            r == (self@ == other@),
    {
        let mut i: usize = 0;
        while i < DIGEST_LEN
            invariant
                i <= DIGEST_LEN,
                self@.len() == DIGEST_LEN,
                other@.len() == DIGEST_LEN,
                forall|j: int| 0 <= j < i ==> self@[j] == other@[j],
            decreases DIGEST_LEN - i,
        {
            if self.bytes[i] != other.bytes[i] {
                assert(self@[i as int] != other@[i as int]);
                return false;
            }
            i = i + 1;
        }
        assert(self@ =~= other@);
        true
    }
}

/// An account identifier, stored verbatim and compared byte for byte.
#[derive(Debug, PartialEq, Eq)]
pub struct Owner {
    pub id: Vec<u8>,
}

impl View for Owner {
    type V = Seq<u8>;

    open spec fn view(&self) -> Seq<u8> {
        self.id@
    }
}

impl Owner {
    pub fn new(id: Vec<u8>) -> (o: Owner)
        ensures
            o@ == id@,
    {
        Owner { id }
    }

    /// An owner with the same identifier.
    pub fn duplicate(&self) -> (o: Owner)
        ensures
            o@ == self@,
    {
        let mut id: Vec<u8> = Vec::new();
        let mut i: usize = 0;
        while i < self.id.len()
            invariant
                i <= self.id@.len(),
                id@ == self.id@.subrange(0, i as int),
            decreases self.id@.len() - i,
        {
            id.push(self.id[i]);
            i = i + 1;
            assert(id@ =~= self.id@.subrange(0, i as int));
        }
        assert(id@ =~= self.id@);
        Owner { id }
    }
}

} // verus!
