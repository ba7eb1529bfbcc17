//! Canonical signing bytes.
//!
//! Every signature share and aggregate signature is bound to one
//! (instance, phase, round, value) tuple.  The encoding is injective over the
//! three tuple shapes and includes the instance tag, so instances under
//! different domains or proposers cannot cross-verify; the lemmas at the end
//! state exactly that.

use crate::abba::message::{main_vote_value_byte, value_byte, MainVoteValue, Value};
use crate::codec::lemma_enc_u64_prefix_free;
use crate::tag::{enc_tag, lemma_enc_tag_prefix_free, TagV};
use vstd::bytes::spec_u64_to_le_bytes;
use vstd::prelude::*;

verus! {

/// The bytes a witness signs to acknowledge a broadcast proposal:
/// phase marker, tag, digest.
pub open spec fn c_ready_bytes(tag: TagV, digest: Seq<u8>) -> Seq<u8> {
    seq![1u8] + enc_tag(tag) + digest
}

/// The bytes signed for a pre-vote: phase marker, tag, round, value.
pub open spec fn pre_vote_bytes(tag: TagV, round: usize, value: Value) -> Seq<u8> {
    seq![2u8] + enc_tag(tag) + spec_u64_to_le_bytes(round as u64) + seq![value_byte(value)]
}

/// The bytes signed for a main-vote: phase marker, tag, round, value.
pub open spec fn main_vote_bytes(tag: TagV, round: usize, value: MainVoteValue) -> Seq<u8> {
    seq![3u8] + enc_tag(tag) + spec_u64_to_le_bytes(round as u64) + seq![
        main_vote_value_byte(value),
    ]
}

/// Equal c-ready bytes come from equal tags and equal digests.
pub proof fn lemma_c_ready_bytes_injective(t1: TagV, d1: Seq<u8>, t2: TagV, d2: Seq<u8>)
    requires
        t1.domain.label.len() <= u64::MAX,
        t2.domain.label.len() <= u64::MAX,
        c_ready_bytes(t1, d1) == c_ready_bytes(t2, d2),
    ensures
        t1 == t2,
        d1 == d2,
{
    let w1 = c_ready_bytes(t1, d1);
    let w2 = c_ready_bytes(t2, d2);
    assert(enc_tag(t1) + d1 =~= w1.subrange(1, w1.len() as int));
    assert(enc_tag(t2) + d2 =~= w2.subrange(1, w2.len() as int));
    lemma_enc_tag_prefix_free(t1, t2, d1, d2);
}

/// Equal pre-vote bytes come from equal tags, rounds and values.
pub proof fn lemma_pre_vote_bytes_injective(
    t1: TagV,
    r1: usize,
    v1: Value,
    t2: TagV,
    r2: usize,
    v2: Value,
)
    requires
        t1.domain.label.len() <= u64::MAX,
        t2.domain.label.len() <= u64::MAX,
        pre_vote_bytes(t1, r1, v1) == pre_vote_bytes(t2, r2, v2),
    ensures
        t1 == t2,
        r1 == r2,
        v1 == v2,
{
    let w1 = pre_vote_bytes(t1, r1, v1);
    let w2 = pre_vote_bytes(t2, r2, v2);
    let s1 = spec_u64_to_le_bytes(r1 as u64) + seq![value_byte(v1)];
    let s2 = spec_u64_to_le_bytes(r2 as u64) + seq![value_byte(v2)];
    assert(enc_tag(t1) + s1 =~= w1.subrange(1, w1.len() as int));
    assert(enc_tag(t2) + s2 =~= w2.subrange(1, w2.len() as int));
    lemma_enc_tag_prefix_free(t1, t2, s1, s2);
    lemma_enc_u64_prefix_free(r1 as u64, r2 as u64, seq![value_byte(v1)], seq![value_byte(v2)]);
    assert(seq![value_byte(v1)][0] == seq![value_byte(v2)][0]);
}

/// Equal main-vote bytes come from equal tags, rounds and values.
pub proof fn lemma_main_vote_bytes_injective(
    t1: TagV,
    r1: usize,
    v1: MainVoteValue,
    t2: TagV,
    r2: usize,
    v2: MainVoteValue,
)
    requires
        t1.domain.label.len() <= u64::MAX,
        t2.domain.label.len() <= u64::MAX,
        main_vote_bytes(t1, r1, v1) == main_vote_bytes(t2, r2, v2),
    ensures
        t1 == t2,
        r1 == r2,
        v1 == v2,
{
    let w1 = main_vote_bytes(t1, r1, v1);
    let w2 = main_vote_bytes(t2, r2, v2);
    let s1 = spec_u64_to_le_bytes(r1 as u64) + seq![main_vote_value_byte(v1)];
    let s2 = spec_u64_to_le_bytes(r2 as u64) + seq![main_vote_value_byte(v2)];
    assert(enc_tag(t1) + s1 =~= w1.subrange(1, w1.len() as int));
    assert(enc_tag(t2) + s2 =~= w2.subrange(1, w2.len() as int));
    lemma_enc_tag_prefix_free(t1, t2, s1, s2);
    lemma_enc_u64_prefix_free(
        r1 as u64,
        r2 as u64,
        seq![main_vote_value_byte(v1)],
        seq![main_vote_value_byte(v2)],
    );
    assert(seq![main_vote_value_byte(v1)][0] == seq![main_vote_value_byte(v2)][0]);
}

/// The three signing-byte shapes never collide: their phase markers differ.
pub proof fn lemma_sign_bytes_phases_disjoint(
    t1: TagV,
    d: Seq<u8>,
    t2: TagV,
    r2: usize,
    v2: Value,
    t3: TagV,
    r3: usize,
    v3: MainVoteValue,
)
    ensures
        c_ready_bytes(t1, d) != pre_vote_bytes(t2, r2, v2),
        c_ready_bytes(t1, d) != main_vote_bytes(t3, r3, v3),
        pre_vote_bytes(t2, r2, v2) != main_vote_bytes(t3, r3, v3),
{
    assert(c_ready_bytes(t1, d)[0] == 1u8);
    assert(pre_vote_bytes(t2, r2, v2)[0] == 2u8);
    assert(main_vote_bytes(t3, r3, v3)[0] == 3u8);
}

} // verus!
