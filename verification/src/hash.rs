//! Content digests over proposal bytes.

use vstd::prelude::*;

verus! {

/// A 32-byte content digest.  Collision resistance of the underlying hash is
/// assumed; the engines only compare digests and bind them into signed bytes.
#[derive(Debug, Clone, Copy, PartialEq, Eq)]
pub struct Hash32 {
    pub bytes: [u8; 32],
}

impl View for Hash32 {
    type V = Seq<u8>;

    open spec fn view(&self) -> Seq<u8> {
        self.bytes@
    }
}

/// The digest the hash function assigns to `data`; it depends on the bytes
/// alone and is 32 bytes long.
pub uninterp spec fn digest_of(data: Seq<u8>) -> Seq<u8>;

impl Hash32 {
    /// Relies on sha2's `Sha256::digest`: a deterministic 32-byte digest of
    /// the input bytes.
    #[verifier::external_body]
    pub fn calculate(data: &[u8]) -> (r: Hash32)
        ensures
            r@ == digest_of(data@),
            r@.len() == 32,
    {
        let d = <sha2::Sha256 as sha2::Digest>::digest(data);
        Hash32 { bytes: d.into() }
    }

    /// Relies on `<&[u8] as TryInto<[u8; 32]>>::try_into`: it copies exactly
    /// the 32 bytes of the slice.
    #[verifier::external_body]
    pub(crate) fn from_slice(s: &[u8]) -> (r: Hash32)
        requires
            s@.len() == 32,
        ensures
            r@ == s@,
    {
        Hash32 { bytes: s.try_into().unwrap_or([0u8; 32]) }
    }

    /// Compares two digests byte for byte.
    pub fn eq_digest(&self, other: &Hash32) -> (r: bool)
        ensures
            r == (self@ == other@),
    {
        let mut i: usize = 0;
        while i < 32
            invariant
                i <= 32,
                forall|k: int| 0 <= k < i ==> self.bytes@[k] == other.bytes@[k],
            decreases 32 - i,
        {
            if self.bytes[i] != other.bytes[i] {
                proof {
                    assert(self@[i as int] != other@[i as int]);
                }
                return false;
            }
            i = i + 1;
        }
        proof {
            assert(self@ =~= other@);
        }
        true
    }
}

/// Reads a raw 32-byte digest at `pos`.
pub fn read_hash(buf: &Vec<u8>, pos: usize) -> (r: Option<(Hash32, usize)>)
    ensures
        match r {
            Some(hp) => {
                &&& pos + 32 <= buf@.len()
                &&& hp.1 == pos + 32
                &&& buf@.subrange(pos as int, hp.1 as int) == hp.0@
            },
            None => true,
        },
{
    if pos > buf.len() || buf.len() - pos < 32 {
        return None;
    }
    let s = vstd::slice::slice_subrange(buf.as_slice(), pos, pos + 32);
    let h = Hash32::from_slice(s);
    Some((h, pos + 32))
}

} // verus!
