//! The framing a transport carries: who sent a payload, and for which module.

use crate::codec::{enc_bytes, push_bytes, read_bytes, read_u64};
use crate::crypto::clone_bytes;
use crate::NodeId;
use vstd::bytes::spec_u64_to_le_bytes;
use vstd::prelude::*;

verus! {

/// One queued transport unit: the sending node, the engine it belongs to,
/// and the encoded message.
#[derive(Debug, PartialEq, Eq)]
pub struct Bundle {
    pub initiator: NodeId,
    pub module: Vec<u8>,
    pub payload: Vec<u8>,
}

/// Mathematical model of a `Bundle`.
pub struct BundleV {
    pub initiator: NodeId,
    pub module: Seq<u8>,
    pub payload: Seq<u8>,
}

impl View for Bundle {
    type V = BundleV;

    open spec fn view(&self) -> BundleV {
        BundleV { initiator: self.initiator, module: self.module@, payload: self.payload@ }
    }
}

impl Clone for Bundle {
    fn clone(&self) -> (r: Self)
        ensures
            r@ == self@,
    {
        Bundle {
            initiator: self.initiator,
            module: clone_bytes(&self.module),
            payload: clone_bytes(&self.payload),
        }
    }
}

/// The canonical byte encoding of a bundle.
pub open spec fn enc_bundle(b: BundleV) -> Seq<u8> {
    spec_u64_to_le_bytes(b.initiator as u64) + enc_bytes(b.module) + enc_bytes(b.payload)
}

/// Encodes `bundle` into stable, deterministic bytes.
pub fn encode_bundle(bundle: &Bundle) -> (r: Vec<u8>)
    ensures
        r@ == enc_bundle(bundle@),
{
    let mut out: Vec<u8> = Vec::new();
    crate::codec::push_u64(&mut out, bundle.initiator as u64);
    push_bytes(&mut out, bundle.module.as_slice());
    push_bytes(&mut out, bundle.payload.as_slice());
    proof {
        assert(out@ =~= enc_bundle(bundle@));
    }
    out
}

/// Decodes a bundle from `buf`; succeeds only if the whole buffer is one
/// canonical bundle encoding, and then yields the bundle it encodes.
pub fn decode_bundle(buf: &Vec<u8>) -> (r: Option<Bundle>)
    ensures
        (r matches Some(b) ==> enc_bundle(b@) == buf@),
{
    let (initiator, p0) = match read_u64(buf, 0) {
        Some(x) => x,
        None => {
            return None;
        },
    };
    if initiator > usize::MAX as u64 {
        return None;
    }
    let (module, p1) = match read_bytes(buf, p0) {
        Some(x) => x,
        None => {
            return None;
        },
    };
    let (payload, p2) = match read_bytes(buf, p1) {
        Some(x) => x,
        None => {
            return None;
        },
    };
    if p2 != buf.len() {
        return None;
    }
    let b = Bundle { initiator: initiator as usize, module, payload };
    proof {
        assert(enc_bundle(b@) =~= buf@.subrange(0, p0 as int) + buf@.subrange(p0 as int, p1 as int)
            + buf@.subrange(p1 as int, p2 as int));
        assert(enc_bundle(b@) =~= buf@);
    }
    Some(b)
}

} // verus!
