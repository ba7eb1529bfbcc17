//! Deterministic byte encoding primitives.
//!
//! Every structured value that is signed or put on the wire is laid out as a
//! concatenation of three primitive forms: a little-endian `u64`, a
//! length-prefixed byte string, and single marker bytes.  The encoders append
//! to a buffer; the decoders read at a position and report exactly the bytes
//! they consumed, so that parsed values re-encode to their input.

use vstd::bytes::{spec_u64_from_le_bytes, spec_u64_to_le_bytes};
use vstd::bytes::{lemma_auto_spec_u64_to_from_le_bytes, u64_from_le_bytes, u64_to_le_bytes};
use vstd::prelude::*;
use vstd::slice::slice_subrange;

verus! {

/// Encoding of a length-prefixed byte string: the length as a little-endian
/// `u64`, then the bytes themselves.
pub open spec fn enc_bytes(b: Seq<u8>) -> Seq<u8> {
    spec_u64_to_le_bytes(b.len() as u64) + b
}

/// Appends the little-endian encoding of `v` to `out`.
pub fn push_u64(out: &mut Vec<u8>, v: u64)
    ensures
        final(out)@ == old(out)@ + spec_u64_to_le_bytes(v),
{
    proof {
        lemma_auto_spec_u64_to_from_le_bytes();
    }
    let mut enc = u64_to_le_bytes(v);
    out.append(&mut enc);
}

/// Appends the raw bytes of `b` to `out`.
pub fn push_slice(out: &mut Vec<u8>, b: &[u8])
    ensures
        final(out)@ == old(out)@ + b@,
{
    let mut i: usize = 0;
    while i < b.len()
        invariant
            i <= b@.len(),
            out@ == old(out)@ + b@.subrange(0, i as int),
        decreases b@.len() - i,
    {
        let x = *vstd::slice::slice_index_get(b, i);
        out.push(x);
        proof {
            assert(out@ == old(out)@ + b@.subrange(0, i + 1 as int));
        }
        i = i + 1;
    }
    proof {
        assert(b@.subrange(0, b@.len() as int) == b@);
    }
}

/// Appends the length-prefixed encoding of `b` to `out`.
pub fn push_bytes(out: &mut Vec<u8>, b: &[u8])
    ensures
        final(out)@ == old(out)@ + enc_bytes(b@),
{
    let n = b.len();
    proof {
        assert(b@.len() <= u64::MAX);
    }
    push_u64(out, n as u64);
    push_slice(out, b);
    proof {
        assert(out@ == old(out)@ + enc_bytes(b@));
    }
}

/// Reads a little-endian `u64` at `pos`; consumes exactly eight bytes.
pub fn read_u64(buf: &Vec<u8>, pos: usize) -> (r: Option<(u64, usize)>)
    ensures
        match r {
            Some(vp) => {
                &&& pos + 8 <= buf@.len()
                &&& vp.1 == pos + 8
                &&& buf@.subrange(pos as int, vp.1 as int) == spec_u64_to_le_bytes(vp.0)
            },
            None => pos + 8 > buf@.len(),
        },
{
    proof {
        lemma_auto_spec_u64_to_from_le_bytes();
    }
    if pos > buf.len() || buf.len() - pos < 8 {
        return None;
    }
    let s = slice_subrange(buf.as_slice(), pos, pos + 8);
    let v = u64_from_le_bytes(s);
    proof {
        assert(s@ == spec_u64_to_le_bytes(v));
    }
    Some((v, pos + 8))
}

/// Reads a length-prefixed byte string at `pos`.
pub fn read_bytes(buf: &Vec<u8>, pos: usize) -> (r: Option<(Vec<u8>, usize)>)
    ensures
        match r {
            Some(vp) => {
                &&& pos <= vp.1 <= buf@.len()
                &&& buf@.subrange(pos as int, vp.1 as int) == enc_bytes(vp.0@)
            },
            None => true,
        },
{
    let (len, p) = match read_u64(buf, pos) {
        Some(x) => x,
        None => {
            return None;
        },
    };
    if len > usize::MAX as u64 {
        return None;
    }
    let len_u: usize = len as usize;
    if p > buf.len() || buf.len() - p < len_u {
        return None;
    }
    let s = slice_subrange(buf.as_slice(), p, p + len_u);
    let body = vstd::slice::slice_to_vec(s);
    proof {
        assert(body@ == buf@.subrange(p as int, (p + len_u) as int));
        assert(buf@.subrange(pos as int, (p + len_u) as int) == buf@.subrange(
            pos as int,
            p as int,
        ) + buf@.subrange(p as int, (p + len_u) as int));
        assert(body@.len() == len);
        assert(buf@.subrange(pos as int, (p + len_u) as int) == enc_bytes(body@));
    }
    Some((body, p + len_u))
}

/// Reads one marker byte at `pos`.
pub fn read_byte(buf: &Vec<u8>, pos: usize) -> (r: Option<(u8, usize)>)
    ensures
        match r {
            Some(vp) => {
                &&& pos + 1 <= buf@.len()
                &&& vp.1 == pos + 1
                &&& buf@.subrange(pos as int, vp.1 as int) == seq![vp.0]
            },
            None => pos + 1 > buf@.len(),
        },
{
    if pos >= buf.len() {
        return None;
    }
    let b = buf[pos];
    proof {
        assert(buf@.subrange(pos as int, pos + 1 as int) =~= seq![b]);
    }
    Some((b, pos + 1))
}

/// A length-prefixed byte string determines its contents and anything that
/// follows it: the encoding is prefix-free.
pub proof fn lemma_enc_bytes_prefix_free(a: Seq<u8>, b: Seq<u8>, ra: Seq<u8>, rb: Seq<u8>)
    requires
        a.len() <= u64::MAX,
        b.len() <= u64::MAX,
        enc_bytes(a) + ra == enc_bytes(b) + rb,
    ensures
        a == b,
        ra == rb,
{
    lemma_auto_spec_u64_to_from_le_bytes();
    let la = spec_u64_to_le_bytes(a.len() as u64);
    let lb = spec_u64_to_le_bytes(b.len() as u64);
    let whole = enc_bytes(a) + ra;
    assert(la =~= whole.subrange(0, 8));
    assert(lb =~= whole.subrange(0, 8));
    assert(spec_u64_from_le_bytes(la) == a.len() as u64);
    assert(spec_u64_from_le_bytes(lb) == b.len() as u64);
    assert(a.len() == b.len());
    assert(a =~= whole.subrange(8, 8 + a.len() as int));
    assert(b =~= whole.subrange(8, 8 + b.len() as int));
    assert(ra =~= whole.subrange(8 + a.len() as int, whole.len() as int));
    assert(rb =~= whole.subrange(8 + b.len() as int, whole.len() as int));
}

/// A little-endian `u64` determines its value and anything that follows it.
pub proof fn lemma_enc_u64_prefix_free(a: u64, b: u64, ra: Seq<u8>, rb: Seq<u8>)
    requires
        spec_u64_to_le_bytes(a) + ra == spec_u64_to_le_bytes(b) + rb,
    ensures
        a == b,
        ra == rb,
{
    lemma_auto_spec_u64_to_from_le_bytes();
    let la = spec_u64_to_le_bytes(a);
    let lb = spec_u64_to_le_bytes(b);
    let whole = la + ra;
    assert(la =~= whole.subrange(0, 8));
    assert(lb =~= whole.subrange(0, 8));
    assert(spec_u64_from_le_bytes(la) == a);
    assert(spec_u64_from_le_bytes(lb) == b);
    assert(ra =~= whole.subrange(8, whole.len() as int));
    assert(rb =~= whole.subrange(8, whole.len() as int));
}

} // verus!
