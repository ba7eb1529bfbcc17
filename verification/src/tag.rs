//! Instance tags: the domain and proposer a protocol instance is bound to.

use crate::codec::{enc_bytes, lemma_enc_bytes_prefix_free, lemma_enc_u64_prefix_free, push_bytes,
    push_u64};
use crate::crypto::{bytes_eq, clone_bytes};
use crate::text::{dec_digits, push_dec_u64};
use crate::NodeId;
use vstd::bytes::spec_u64_to_le_bytes;
use vstd::string::StringSliceAdditionalSpecFns;
use vstd::prelude::*;

verus! {

/// The domain an agreement instance runs under: a label and a numeric id.
#[derive(Debug, PartialEq, Eq)]
pub struct Domain {
    pub label: Vec<u8>,
    pub id: u64,
}

/// Mathematical model of a `Domain`.
pub struct DomainV {
    pub label: Seq<u8>,
    pub id: u64,
}

impl View for Domain {
    type V = DomainV;

    open spec fn view(&self) -> DomainV {
        DomainV { label: self.label@, id: self.id }
    }
}

impl Domain {
    /// Builds a domain from a label and an id; the label is kept as its
    /// UTF-8 bytes.
    pub fn new(label: &str, id: u64) -> (r: Domain)
        ensures
            r@.label == label.spec_bytes(),
            r@.id == id,
    {
        let bytes = label.as_bytes();
        Domain { label: vstd::slice::slice_to_vec(bytes), id }
    }
}

impl Clone for Domain {
    fn clone(&self) -> (r: Self)
        ensures
            r@ == self@,
    {
        Domain { label: clone_bytes(&self.label), id: self.id }
    }
}

/// The tag that binds an instance: a domain plus the proposer this instance
/// concerns.  Two messages belong to the same instance iff their tags are
/// equal component-wise.
#[derive(Debug, PartialEq, Eq)]
pub struct Tag {
    pub domain: Domain,
    pub proposer: NodeId,
}

/// Mathematical model of a `Tag`.
pub struct TagV {
    pub domain: DomainV,
    pub proposer: NodeId,
}

impl View for Tag {
    type V = TagV;

    open spec fn view(&self) -> TagV {
        TagV { domain: self.domain@, proposer: self.proposer }
    }
}

impl Tag {
    /// Builds the tag of the instance `proposer` runs under `domain`.
    pub fn new(domain: Domain, proposer: NodeId) -> (r: Tag)
        ensures
            r@.domain == domain@,
            r@.proposer == proposer,
    {
        Tag { domain, proposer }
    }

    /// Compares two tags component-wise.
    pub fn eq_tag(&self, other: &Tag) -> (r: bool)
        ensures
            r == (self@ == other@),
    {
        let r = bytes_eq(&self.domain.label, &other.domain.label) && self.domain.id
            == other.domain.id && self.proposer == other.proposer;
        proof {
            if self@.domain.label == other@.domain.label && self@.domain.id == other@.domain.id
                && self@.proposer == other@.proposer {
                assert(self@ == other@);
            }
        }
        r
    }
}

impl Clone for Tag {
    fn clone(&self) -> (r: Self)
        ensures
            r@ == self@,
    {
        Tag { domain: self.domain.clone(), proposer: self.proposer }
    }
}

/// The canonical byte encoding of a tag inside signed bytes: the
/// length-prefixed label, then the domain id, then the proposer.
pub open spec fn enc_tag(t: TagV) -> Seq<u8> {
    enc_bytes(t.domain.label) + spec_u64_to_le_bytes(t.domain.id) + spec_u64_to_le_bytes(
        t.proposer as u64,
    )
}

/// Appends the canonical encoding of `tag` to `out`.
pub fn push_tag(out: &mut Vec<u8>, tag: &Tag)
    ensures
        final(out)@ == old(out)@ + enc_tag(tag@),
{
    push_bytes(out, tag.domain.label.as_slice());
    push_u64(out, tag.domain.id);
    push_u64(out, tag.proposer as u64);
    proof {
        assert(out@ =~= old(out)@ + enc_tag(tag@));
    }
}

/// Reads a tag at `pos`; consumes exactly its canonical encoding.
pub fn read_tag(buf: &Vec<u8>, pos: usize) -> (r: Option<(Tag, usize)>)
    ensures
        match r {
            Some(tp) => {
                &&& pos <= tp.1 <= buf@.len()
                &&& buf@.subrange(pos as int, tp.1 as int) == enc_tag(tp.0@)
            },
            None => true,
        },
{
    let (label, p1) = match crate::codec::read_bytes(buf, pos) {
        Some(x) => x,
        None => {
            return None;
        },
    };
    let (id, p2) = match crate::codec::read_u64(buf, p1) {
        Some(x) => x,
        None => {
            return None;
        },
    };
    let (prop, p3) = match crate::codec::read_u64(buf, p2) {
        Some(x) => x,
        None => {
            return None;
        },
    };
    if prop > usize::MAX as u64 {
        return None;
    }
    let tag = Tag { domain: Domain { label, id }, proposer: prop as usize };
    proof {
        assert(buf@.subrange(pos as int, p3 as int) =~= buf@.subrange(pos as int, p1 as int)
            + buf@.subrange(p1 as int, p2 as int) + buf@.subrange(p2 as int, p3 as int));
        assert(buf@.subrange(pos as int, p3 as int) == enc_tag(tag@));
    }
    Some((tag, p3))
}

/// A tag encoding determines the tag and whatever follows it.
pub proof fn lemma_enc_tag_prefix_free(a: TagV, b: TagV, ra: Seq<u8>, rb: Seq<u8>)
    requires
        a.domain.label.len() <= u64::MAX,
        b.domain.label.len() <= u64::MAX,
        enc_tag(a) + ra == enc_tag(b) + rb,
    ensures
        a == b,
        ra == rb,
{
    let ta = spec_u64_to_le_bytes(a.domain.id) + spec_u64_to_le_bytes(a.proposer as u64) + ra;
    let tb = spec_u64_to_le_bytes(b.domain.id) + spec_u64_to_le_bytes(b.proposer as u64) + rb;
    assert(enc_bytes(a.domain.label) + ta =~= enc_tag(a) + ra);
    assert(enc_bytes(b.domain.label) + tb =~= enc_tag(b) + rb);
    lemma_enc_bytes_prefix_free(a.domain.label, b.domain.label, ta, tb);
    let ua = spec_u64_to_le_bytes(a.proposer as u64) + ra;
    let ub = spec_u64_to_le_bytes(b.proposer as u64) + rb;
    assert(spec_u64_to_le_bytes(a.domain.id) + ua =~= ta);
    assert(spec_u64_to_le_bytes(b.domain.id) + ub =~= tb);
    lemma_enc_u64_prefix_free(a.domain.id, b.domain.id, ua, ub);
    lemma_enc_u64_prefix_free(a.proposer as u64, b.proposer as u64, ra, rb);
}

/// The human-readable rendering of a tag: `label[id].proposer`.
pub open spec fn tag_text(t: TagV) -> Seq<u8> {
    t.domain.label + seq![91u8] + dec_digits(t.domain.id as nat) + seq![93u8, 46u8] + dec_digits(
        t.proposer as nat,
    )
}

/// Appends the rendering of `tag` to `out`.
pub fn push_tag_text(out: &mut Vec<u8>, tag: &Tag)
    ensures
        final(out)@ == old(out)@ + tag_text(tag@),
{
    crate::codec::push_slice(out, tag.domain.label.as_slice());
    out.push(91u8);
    push_dec_u64(out, tag.domain.id);
    out.push(93u8);
    out.push(46u8);
    push_dec_u64(out, tag.proposer as u64);
    proof {
        assert(out@ =~= old(out)@ + tag_text(tag@));
    }
}

} // verus!
