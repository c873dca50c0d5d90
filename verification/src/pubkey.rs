//! Opaque 32-byte account identifiers, compared only for equality and
//! carried verbatim through the binary codecs.

use vstd::prelude::*;

verus! {

/// A 32-byte account id. The core never interprets it; it only compares
/// ids and round-trips them through the account layouts.
#[derive(Clone, Copy, Debug)]
pub struct Pubkey {
    pub bytes: [u8; 32],
}

impl Pubkey {
    /// The sequence of the id's 32 bytes.
    pub open spec fn view(&self) -> Seq<u8> {
        self.bytes@
    }

    /// An id from its raw bytes.
    pub fn new(bytes: [u8; 32]) -> (r: Pubkey)
        ensures
            r.bytes == bytes,
    {
        Pubkey { bytes }
    }

    /// The all-zero id.
    pub fn zeroed() -> (r: Pubkey)
        ensures
            r@ == Seq::new(32, |i: int| 0u8),
    {
        let bytes = [0u8; 32];
        proof {
            assert forall|i: int| 0 <= i < 32 implies bytes@[i] == 0u8 by {
            }
            assert(bytes@ =~= Seq::new(32, |i: int| 0u8));
        }
        Pubkey { bytes }
    }

    /// An id read back from 32 raw bytes.
    pub fn from_slice(data: &[u8]) -> (r: Pubkey)
        requires
            data@.len() == 32,
        ensures
            r@ == data@,
    {
        let mut bytes = [0u8; 32];
        let mut i: usize = 0;
        while i < 32
            invariant
                i <= 32,
                data@.len() == 32,
                forall|j: int| 0 <= j < i ==> bytes@[j] == data@[j],
            decreases 32 - i,
        {
            bytes[i] = data[i];
            i = i + 1;
        }
        proof {
            assert(bytes@ =~= data@);
        }
        Pubkey { bytes }
    }

    /// Append the id's 32 bytes to a byte buffer.
    pub fn append_to(&self, out: &mut Vec<u8>)
        ensures
            final(out)@ == old(out)@ + self@,
    {
        let ghost base: Seq<u8> = out@;
        let mut i: usize = 0;
        while i < 32
            invariant
                i <= 32,
                out@ == base + self@.subrange(0, i as int),
            decreases 32 - i,
        {
            out.push(self.bytes[i]);
            proof {
                assert(out@ =~= base + self@.subrange(0, i + 1));
            }
            i = i + 1;
        }
        proof {
            assert(base + self@.subrange(0, 32) =~= base + self@);
        }
    }

    /// Whether two ids hold the same bytes.
    pub fn key_eq(&self, other: &Pubkey) -> (r: bool)
        ensures
            r == (self@ =~= other@),
    {
        let mut i: usize = 0;
        while i < 32
            invariant
                i <= 32,
                forall|j: int| 0 <= j < i ==> self.bytes@[j] == other.bytes@[j],
            decreases 32 - i,
        {
            if self.bytes[i] != other.bytes[i] {
                return false;
            }
            i = i + 1;
        }
        true
    }
}

} // verus!
