//! Asynchronous binary Byzantine agreement with external validity: every
//! party inputs zero or one (one only with a broadcast certificate) and all
//! honest parties decide the same bit.

pub mod message;

use crate::broadcaster::Broadcaster;
use crate::crypto::{
    agg_verified, combine_shares, pks_threshold, share_sign_of, share_verified, sign_share,
    threshold_of, verify_agg, verify_share, Sig, SigShare,
};
use crate::error::{Error, ErrorV};
use crate::hash::Hash32;
use crate::sign::{c_ready_bytes, main_vote_bytes, pre_vote_bytes};
use crate::tag::{tag_text, Tag, TagV};
use crate::abba::message::{
    decision_action_eq, enc_message, pre_vote_action_eq, main_vote_action_eq, Action,
    DecisionAction,
    DecisionActionV, MainVoteAction, MainVoteJustification, MainVoteJustV, MainVoteValue, Message,
    PreVoteAction, PreVoteActionV, PreVoteJustification, PreVoteJustV, Value,
};
use crate::text::{ascii_chars, dec_digits, is_ascii_bytes};
use crate::NodeId;
use vstd::prelude::*;
use vstd::string::StringSliceAdditionalSpecFns;

verus! {

/// The module label under which agreement traffic is framed.
pub const MODULE_NAME: &'static str = "abba";

/// The bytes of the error text for a message whose tag is foreign.
pub open spec fn invalid_tag_text(expected: TagV, got: TagV) -> Seq<u8> {
    "invalid tag. expected: ".spec_bytes() + tag_text(expected) + ", got ".spec_bytes()
        + tag_text(got)
}

/// The bytes of the error text for a second differing pre-vote.
pub open spec fn double_pre_vote_text(sender: NodeId) -> Seq<u8> {
    "double pre-vote detected from ".spec_bytes() + dec_digits(sender as nat)
}

/// The bytes of the error text for a second differing main-vote.
pub open spec fn double_main_vote_text(sender: NodeId) -> Seq<u8> {
    "double main-vote detected from ".spec_bytes() + dec_digits(sender as nat)
}

/// The double-vote error texts render as ASCII.
pub proof fn lemma_double_vote_texts_ascii(sender: NodeId)
    ensures
        is_ascii_bytes(double_pre_vote_text(sender)),
        is_ascii_bytes(double_main_vote_text(sender)),
{
    reveal_strlit("double pre-vote detected from ");
    reveal_strlit("double main-vote detected from ");
    broadcast use vstd::string::is_ascii_spec_bytes;

    crate::text::lemma_dec_digits_ascii(sender as nat);
    assert(vstd::string::is_ascii("double pre-vote detected from "));
    assert(vstd::string::is_ascii("double main-vote detected from "));
    assert(is_ascii_bytes("double pre-vote detected from ".spec_bytes()));
    assert(is_ascii_bytes("double main-vote detected from ".spec_bytes()));
}

/// Whether a justification admits a pre-vote for `value` in `round`.
///
/// A first-round zero needs no evidence; a vote for one may carry a verified
/// broadcast certificate in any round; a later round may instead carry an
/// aggregate over the previous round's pre-votes for the same value (hard) or
/// over the previous round's abstain main-votes (soft).
pub open spec fn pre_vote_just_ok(
    keys: blsttc::PublicKeySet,
    tag: TagV,
    round: usize,
    value: Value,
    j: PreVoteJustV,
) -> bool {
    match j {
        PreVoteJustV::FirstRoundZero => round == 1 && value == Value::Zero,
        PreVoteJustV::WithValidity(d, s) => value == Value::One && agg_verified(
            keys,
            s,
            c_ready_bytes(tag, d),
        ),
        PreVoteJustV::Hard(s) => round >= 2 && agg_verified(
            keys,
            s,
            pre_vote_bytes(tag, (round - 1) as usize, value),
        ),
        PreVoteJustV::Soft(s) => round >= 2 && agg_verified(
            keys,
            s,
            main_vote_bytes(tag, (round - 1) as usize, MainVoteValue::Abstain),
        ),
    }
}

/// Whether a justification admits a main-vote for `value` in `round`.
pub open spec fn main_vote_just_ok(
    keys: blsttc::PublicKeySet,
    tag: TagV,
    round: usize,
    value: MainVoteValue,
    j: MainVoteJustV,
) -> bool {
    match j {
        MainVoteJustV::NoAbstain(s) => (value matches MainVoteValue::Value(b) && agg_verified(
            keys,
            s,
            pre_vote_bytes(tag, round, b),
        )),
        MainVoteJustV::Abstain(j0, j1) => value == MainVoteValue::Abstain && pre_vote_just_ok(
            keys,
            tag,
            round,
            Value::Zero,
            j0,
        ) && pre_vote_just_ok(keys, tag, round, Value::One, j1),
    }
}

/// Whether an inbound action passes every validation: its signature share (or
/// aggregate signature, for a decision) verifies over the canonical bytes of
/// its round and value, and its justification is admissible.
pub open spec fn action_ok(
    keys: blsttc::PublicKeySet,
    tag: TagV,
    sender: NodeId,
    a: crate::abba::message::ActionV,
) -> bool {
    match a {
        crate::abba::message::ActionV::PreVote(v) => v.round >= 1 && share_verified(
            keys,
            sender,
            v.sig_share,
            pre_vote_bytes(tag, v.round, v.value),
        ) && pre_vote_just_ok(keys, tag, v.round, v.value, v.justification),
        crate::abba::message::ActionV::MainVote(v) => v.round >= 1 && share_verified(
            keys,
            sender,
            v.sig_share,
            main_vote_bytes(tag, v.round, v.value),
        ) && main_vote_just_ok(keys, tag, v.round, v.value, v.justification),
        crate::abba::message::ActionV::Decision(v) => agg_verified(
            keys,
            v.sig,
            main_vote_bytes(tag, v.round, MainVoteValue::Value(v.value)),
        ),
    }
}

/// Well-formedness of one pre-vote bucket: senders are distinct and every
/// stored vote belongs to this round and passed every validation.
pub open spec fn pre_bucket_wf(
    keys: blsttc::PublicKeySet,
    tag: TagV,
    round: usize,
    b: Seq<(NodeId, PreVoteAction)>,
) -> bool {
    &&& (forall|j: int, k: int|
        0 <= j < k < b.len() ==> (#[trigger] b[j]).0 != (#[trigger] b[k]).0)
    &&& (forall|k: int|
        0 <= k < b.len() ==> ((#[trigger] b[k]).1.round == round && share_verified(
            keys,
            b[k].0,
            b[k].1.sig_share@,
            pre_vote_bytes(tag, round, b[k].1.value),
        ) && pre_vote_just_ok(keys, tag, round, b[k].1.value, b[k].1.justification@)))
}

/// Well-formedness of one main-vote bucket, as for pre-votes.
pub open spec fn main_bucket_wf(
    keys: blsttc::PublicKeySet,
    tag: TagV,
    round: usize,
    b: Seq<(NodeId, MainVoteAction)>,
) -> bool {
    &&& (forall|j: int, k: int|
        0 <= j < k < b.len() ==> (#[trigger] b[j]).0 != (#[trigger] b[k]).0)
    &&& (forall|k: int|
        0 <= k < b.len() ==> ((#[trigger] b[k]).1.round == round && share_verified(
            keys,
            b[k].0,
            b[k].1.sig_share@,
            main_vote_bytes(tag, round, b[k].1.value),
        ) && main_vote_just_ok(keys, tag, round, b[k].1.value, b[k].1.justification@)))
}

/// The agreement engine of one party for one instance.
pub struct Abba {
    /// The instance tag: domain plus proposer.
    pub tag: Tag,
    /// This party's identifier.
    pub i: NodeId,
    /// The current round; starts at one and never decreases.
    pub r: usize,
    /// The decision, once reached.
    pub decided_value: Option<DecisionAction>,
    /// The first verified broadcast certificate observed in a pre-vote.
    pub weak_validity: Option<(Hash32, Sig)>,
    /// The threshold public key set shared by all parties.
    pub pub_key_set: blsttc::PublicKeySet,
    /// This party's secret key share.
    pub sec_key_share: blsttc::SecretKeyShare,
    /// The outbound queue.
    pub broadcaster: Broadcaster,
    /// Pre-votes per round, indexed by round minus one, keyed by sender.
    pub round_pre_votes: Vec<Vec<(NodeId, PreVoteAction)>>,
    /// Main-votes per round, indexed by round minus one, keyed by sender.
    pub round_main_votes: Vec<Vec<(NodeId, MainVoteAction)>>,
}

impl Abba {
    /// The decision, as a mathematical value.
    pub open spec fn decided_view(self) -> Option<DecisionActionV> {
        match self.decided_value {
            Some(d) => Some(d@),
            None => None,
        }
    }

    /// The latched certificate, as digest and signature bytes.
    pub open spec fn weak_validity_view(self) -> Option<(Seq<u8>, Seq<u8>)> {
        match self.weak_validity {
            Some(w) => Some((w.0@, w.1@)),
            None => None,
        }
    }

    /// The identity of the instance: tag, party and keys never change.
    pub open spec fn same_instance(self, other: Self) -> bool {
        &&& other.tag@ == self.tag@
        &&& other.i == self.i
        &&& other.pub_key_set == self.pub_key_set
        &&& other.sec_key_share == self.sec_key_share
    }

    /// The stored pre-votes of `round`.
    pub open spec fn pre_bucket(self, round: usize) -> Seq<(NodeId, PreVoteAction)> {
        if 1 <= round && round <= self.round_pre_votes@.len() {
            self.round_pre_votes@[round - 1]@
        } else {
            Seq::empty()
        }
    }

    /// The stored main-votes of `round`.
    pub open spec fn main_bucket(self, round: usize) -> Seq<(NodeId, MainVoteAction)> {
        if 1 <= round && round <= self.round_main_votes@.len() {
            self.round_main_votes@[round - 1]@
        } else {
            Seq::empty()
        }
    }

    /// Whether `sender` already has a pre-vote stored for `round`.
    pub open spec fn has_pre_vote(self, round: usize, sender: NodeId) -> bool {
        exists|k: int|
            0 <= k < self.pre_bucket(round).len() && (#[trigger] self.pre_bucket(round)[k]).0
                == sender
    }

    /// Whether exactly `a` is stored as `sender`'s pre-vote for `round`.
    pub open spec fn pre_vote_stored(
        self,
        round: usize,
        sender: NodeId,
        a: PreVoteActionV,
    ) -> bool {
        exists|k: int|
            0 <= k < self.pre_bucket(round).len() && (#[trigger] self.pre_bucket(round)[k]).0
                == sender && self.pre_bucket(round)[k].1@ == a
    }

    /// Whether `sender` already has a main-vote stored for `round`.
    pub open spec fn has_main_vote(self, round: usize, sender: NodeId) -> bool {
        exists|k: int|
            0 <= k < self.main_bucket(round).len() && (#[trigger] self.main_bucket(round)[k]).0
                == sender
    }

    /// Whether exactly `a` is stored as `sender`'s main-vote for `round`.
    pub open spec fn main_vote_stored(
        self,
        round: usize,
        sender: NodeId,
        a: crate::abba::message::MainVoteActionV,
    ) -> bool {
        exists|k: int|
            0 <= k < self.main_bucket(round).len() && (#[trigger] self.main_bucket(round)[k]).0
                == sender && self.main_bucket(round)[k].1@ == a
    }

    /// Well-formedness of the engine state.
    ///
    /// The round counter starts at one; every stored vote passed every
    /// validation for its bucket's round and each (round, sender) holds at
    /// most one vote; a decision's signature verifies over its round's
    /// no-abstain main-vote bytes; a latched certificate verifies over its
    /// digest's c-ready bytes.
    pub open spec fn wf(self) -> bool {
        &&& self.r >= 1
        &&& (forall|ri: int|
            0 <= ri < self.round_pre_votes@.len() ==> pre_bucket_wf(
                self.pub_key_set,
                self.tag@,
                (ri + 1) as usize,
                (#[trigger] self.round_pre_votes@[ri])@,
            ))
        &&& (forall|ri: int|
            0 <= ri < self.round_main_votes@.len() ==> main_bucket_wf(
                self.pub_key_set,
                self.tag@,
                (ri + 1) as usize,
                (#[trigger] self.round_main_votes@[ri])@,
            ))
        &&& (self.decided_value matches Some(d) ==> agg_verified(
            self.pub_key_set,
            d.sig@,
            main_vote_bytes(self.tag@, d.round, MainVoteValue::Value(d.value)),
        ))
        &&& (self.weak_validity matches Some(w) ==> agg_verified(
            self.pub_key_set,
            w.1@,
            c_ready_bytes(self.tag@, w.0@),
        ))
    }

    /// A new engine for instance `tag`, run by party `self_id`.
    pub fn new(
        tag: Tag,
        self_id: NodeId,
        pub_key_set: blsttc::PublicKeySet,
        sec_key_share: blsttc::SecretKeyShare,
        broadcaster: Broadcaster,
    ) -> (r: Self)
        ensures
            r.tag@ == tag@,
            r.i == self_id,
            r.pub_key_set == pub_key_set,
            r.sec_key_share == sec_key_share,
            r.broadcaster == broadcaster,
            r.r == 1,
            r.decided_value is None,
            r.weak_validity is None,
            r.round_pre_votes@.len() == 0,
            r.round_main_votes@.len() == 0,
            r.wf(),
    {
        Abba {
            tag,
            i: self_id,
            r: 1,
            decided_value: None,
            weak_validity: None,
            pub_key_set,
            sec_key_share,
            broadcaster,
            round_pre_votes: Vec::new(),
            round_main_votes: Vec::new(),
        }
    }

    /// Whether this party has decided.
    pub fn is_decided(&self) -> (r: bool)
        ensures
            r == (self.decided_value is Some),
    {
        self.decided_value.is_some()
    }

    /// The bucket size at which votes act: one more than the key set's
    /// polynomial degree, that is `n - f`.
    pub fn threshold(&self) -> (r: usize)
        ensures
            r == threshold_of(self.pub_key_set) + 1,
    {
        let t = pks_threshold(&self.pub_key_set);
        t + 1
    }

    /// The canonical bytes a pre-vote signature share signs: the pre-vote
    /// phase marker, the instance tag, the round and the value.
    pub fn pre_vote_bytes_to_sign(&self, round: usize, value: &Value) -> (r: Vec<u8>)
        ensures
            r@ == pre_vote_bytes(self.tag@, round, *value),
    {
        let mut out: Vec<u8> = Vec::new();
        out.push(2u8);
        crate::tag::push_tag(&mut out, &self.tag);
        crate::codec::push_u64(&mut out, round as u64);
        crate::abba::message::push_value(&mut out, value);
        proof {
            assert(out@ =~= pre_vote_bytes(self.tag@, round, *value));
        }
        out
    }

    /// The canonical bytes a main-vote signature share signs: the main-vote
    /// phase marker, the instance tag, the round and the value.
    pub fn main_vote_bytes_to_sign(&self, round: usize, value: &MainVoteValue) -> (r: Vec<u8>)
        ensures
            r@ == main_vote_bytes(self.tag@, round, *value),
    {
        let mut out: Vec<u8> = Vec::new();
        out.push(3u8);
        crate::tag::push_tag(&mut out, &self.tag);
        crate::codec::push_u64(&mut out, round as u64);
        crate::abba::message::push_main_vote_value(&mut out, value);
        proof {
            assert(out@ =~= main_vote_bytes(self.tag@, round, *value));
        }
        out
    }

    /// The stored pre-votes of `round`, if that round has a bucket.
    pub fn get_pre_votes_by_round(&self, round: usize) -> (r: Option<
        &Vec<(NodeId, PreVoteAction)>,
    >)
        ensures
            match r {
                Some(b) => 1 <= round <= self.round_pre_votes@.len() && b@ == self.pre_bucket(
                    round,
                ),
                None => round < 1 || round > self.round_pre_votes@.len(),
            },
    {
        if 1 <= round && round <= self.round_pre_votes.len() {
            Some(&self.round_pre_votes[round - 1])
        } else {
            None
        }
    }

    /// The stored main-votes of `round`, if that round has a bucket.
    pub fn get_main_votes_by_round(&self, round: usize) -> (r: Option<
        &Vec<(NodeId, MainVoteAction)>,
    >)
        ensures
            match r {
                Some(b) => 1 <= round <= self.round_main_votes@.len() && b@ == self.main_bucket(
                    round,
                ),
                None => round < 1 || round > self.round_main_votes@.len(),
            },
    {
        if 1 <= round && round <= self.round_main_votes.len() {
            Some(&self.round_main_votes[round - 1])
        } else {
            None
        }
    }

    /// Builds the error for a message whose tag is not this instance's.
    fn invalid_tag_error(&self, got: &Tag) -> (e: Error)
        ensures
            e@ matches ErrorV::InvalidMessage(_),
            is_ascii_bytes(invalid_tag_text(self.tag@, got@)) ==> e@ == ErrorV::InvalidMessage(
                ascii_chars(invalid_tag_text(self.tag@, got@)),
            ),
    {
        let mut b: Vec<u8> = Vec::new();
        crate::codec::push_slice(&mut b, "invalid tag. expected: ".as_bytes());
        crate::tag::push_tag_text(&mut b, &self.tag);
        crate::codec::push_slice(&mut b, ", got ".as_bytes());
        crate::tag::push_tag_text(&mut b, got);
        proof {
            assert(b@ =~= invalid_tag_text(self.tag@, got@));
        }
        Error::InvalidMessage(crate::text::string_from_bytes(&b))
    }

    /// Builds the error for a round-one justification seen outside round one.
    fn invalid_round_error(&self, round: usize) -> (e: Error)
        ensures
            e@ matches ErrorV::InvalidMessage(_),
    {
        let mut b: Vec<u8> = Vec::new();
        crate::codec::push_slice(&mut b, "invalid round. expected 1, got ".as_bytes());
        crate::text::push_dec_u64(&mut b, round as u64);
        Error::InvalidMessage(crate::text::string_from_bytes(&b))
    }

    /// Checks that `just` admits a pre-vote for `value` in `round`.
    ///
    /// Succeeds exactly when the justification is admissible.  A validity
    /// certificate whose signature does not verify over the c-ready bytes of
    /// its digest is refused with exactly the message below.
    pub fn check_pre_vote_just(
        &self,
        round: usize,
        value: &Value,
        just: &PreVoteJustification,
    ) -> (r: Result<(), Error>)
        ensures
            (r is Ok) == pre_vote_just_ok(self.pub_key_set, self.tag@, round, *value, just@),
            (r matches Err(e) ==> e@ matches ErrorV::InvalidMessage(_)),
            ((just@ matches PreVoteJustV::WithValidity(d, s) && !agg_verified(
                self.pub_key_set,
                s,
                c_ready_bytes(self.tag@, d),
            )) ==> (r matches Err(e) && e@ == ErrorV::InvalidMessage(
                "invalid signature for the VCBC proposal"@,
            ))),
            ((round == 1 && (just@ matches PreVoteJustV::FirstRoundZero) && *value != Value::Zero)
                ==> (r matches Err(e) && e@ == ErrorV::InvalidMessage(
                "initial value should be zero"@,
            ))),
            (((just@ matches PreVoteJustV::WithValidity(d, s) && agg_verified(
                self.pub_key_set,
                s,
                c_ready_bytes(self.tag@, d),
            )) && *value != Value::One) ==> (r matches Err(e) && e@ == ErrorV::InvalidMessage(
                "initial value should be one"@,
            ))),
    {
        match just {
            PreVoteJustification::FirstRoundZero => {
                if round != 1 {
                    return Err(self.invalid_round_error(round));
                }
                if !(*value == Value::Zero) {
                    return Err(Error::InvalidMessage("initial value should be zero".to_owned()));
                }
                Ok(())
            },
            PreVoteJustification::WithValidity(d, s) => {
                let sign_bytes = crate::vcbc::c_ready_bytes_to_sign(&self.tag, d);
                if !verify_agg(&self.pub_key_set, s, sign_bytes.as_slice()) {
                    return Err(
                        Error::InvalidMessage("invalid signature for the VCBC proposal".to_owned()),
                    );
                }
                if !(*value == Value::One) {
                    return Err(Error::InvalidMessage("initial value should be one".to_owned()));
                }
                Ok(())
            },
            PreVoteJustification::Hard(s) => {
                if round < 2 {
                    if *value == Value::One {
                        return Err(
                            Error::InvalidMessage("initial value should be one".to_owned()),
                        );
                    }
                    return Err(Error::InvalidMessage("initial value should be zero".to_owned()));
                }
                let sign_bytes = self.pre_vote_bytes_to_sign(round - 1, value);
                if !verify_agg(&self.pub_key_set, s, sign_bytes.as_slice()) {
                    return Err(
                        Error::InvalidMessage("invalid hard-vote justification".to_owned()),
                    );
                }
                Ok(())
            },
            PreVoteJustification::Soft(s) => {
                if round < 2 {
                    if *value == Value::One {
                        return Err(
                            Error::InvalidMessage("initial value should be one".to_owned()),
                        );
                    }
                    return Err(Error::InvalidMessage("initial value should be zero".to_owned()));
                }
                let sign_bytes = self.main_vote_bytes_to_sign(round - 1, &MainVoteValue::Abstain);
                if !verify_agg(&self.pub_key_set, s, sign_bytes.as_slice()) {
                    return Err(
                        Error::InvalidMessage("invalid soft-vote justification".to_owned()),
                    );
                }
                Ok(())
            },
        }
    }

    /// Validates one inbound message: its tag, its signature share or
    /// aggregate signature, and its justification.  The engine state is not
    /// read beyond the instance identity, and never changed.
    ///
    /// Under this instance's tag, the check succeeds exactly when the action
    /// passes every validation.  A first-round pre-vote for one is refused
    /// unless its justification is a validity certificate; a first-round
    /// pre-vote for zero is refused unless its justification is the bare
    /// first-round-zero form; a pre-vote whose signature share does not
    /// verify is refused with exactly the message below.
    pub fn check_message(&self, sender: NodeId, msg: &Message) -> (r: Result<(), Error>)
        ensures
            ((msg.tag@ == self.tag@ && (msg.action@ matches crate::abba::message::ActionV::PreVote(
                a,
            ) && share_verified(
                self.pub_key_set,
                sender,
                a.sig_share,
                pre_vote_bytes(self.tag@, a.round, a.value),
            ) && a.round == 1 && a.value == Value::One && (a.justification
                matches PreVoteJustV::FirstRoundZero))) ==> (r matches Err(e) && e@
                == ErrorV::InvalidMessage("initial value should be zero"@))),
            ((msg.tag@ == self.tag@ && (msg.action@ matches crate::abba::message::ActionV::PreVote(
                a,
            ) && share_verified(
                self.pub_key_set,
                sender,
                a.sig_share,
                pre_vote_bytes(self.tag@, a.round, a.value),
            ) && a.round >= 1 && a.value == Value::Zero && (a.justification
                matches PreVoteJustV::WithValidity(d, sg) && agg_verified(
                self.pub_key_set,
                sg,
                c_ready_bytes(self.tag@, d),
            )))) ==> (r matches Err(e) && e@ == ErrorV::InvalidMessage(
                "initial value should be one"@,
            ))),
            ((msg.tag@ == self.tag@ && (msg.action@
                matches crate::abba::message::ActionV::MainVote(a) && a.round >= 1
                && share_verified(
                self.pub_key_set,
                sender,
                a.sig_share,
                main_vote_bytes(self.tag@, a.round, a.value),
            ) && a.value == MainVoteValue::Abstain && (a.justification
                matches MainVoteJustV::Abstain(j0, j1) && pre_vote_just_ok(
                self.pub_key_set,
                self.tag@,
                a.round,
                Value::Zero,
                j0,
            ) && (j1 matches PreVoteJustV::WithValidity(d, sg) && !agg_verified(
                self.pub_key_set,
                sg,
                c_ready_bytes(self.tag@, d),
            ))))) ==> (r matches Err(e) && e@ == ErrorV::InvalidMessage(
                "invalid signature for the VCBC proposal"@,
            ))),
            ((msg.tag@ == self.tag@ && (msg.action@
                matches crate::abba::message::ActionV::Decision(a) && !agg_verified(
                self.pub_key_set,
                a.sig,
                main_vote_bytes(self.tag@, a.round, MainVoteValue::Value(a.value)),
            ))) ==> (r matches Err(e) && e@ == ErrorV::InvalidMessage("invalid signature"@))),
            (msg.tag@ == self.tag@ ==> ((r is Ok) == action_ok(
                self.pub_key_set,
                self.tag@,
                sender,
                msg.action@,
            ))),
            (r matches Err(e) ==> e@ matches ErrorV::InvalidMessage(_)),
            (msg.tag@ != self.tag@ ==> (r matches Err(e) && e@ matches ErrorV::InvalidMessage(
                _,
            ) && (is_ascii_bytes(invalid_tag_text(self.tag@, msg.tag@)) ==> e@
                == ErrorV::InvalidMessage(ascii_chars(invalid_tag_text(self.tag@, msg.tag@)))))),
            ((msg.tag@ == self.tag@ && (msg.action@ matches crate::abba::message::ActionV::PreVote(
                a,
            ) && a.round == 1 && a.value == Value::One && !(a.justification
                matches PreVoteJustV::WithValidity(_, _)))) ==> r is Err),
            ((msg.tag@ == self.tag@ && (msg.action@ matches crate::abba::message::ActionV::PreVote(
                a,
            ) && a.round == 1 && a.value == Value::Zero && !(a.justification
                matches PreVoteJustV::FirstRoundZero))) ==> r is Err),
            ((msg.tag@ == self.tag@ && (msg.action@ matches crate::abba::message::ActionV::PreVote(
                a,
            ) && !share_verified(
                self.pub_key_set,
                sender,
                a.sig_share,
                pre_vote_bytes(self.tag@, a.round, a.value),
            ))) ==> (r matches Err(e) && e@ == ErrorV::InvalidMessage("invalid signature share"@))),
            ((msg.tag@ == self.tag@ && (msg.action@
                matches crate::abba::message::ActionV::MainVote(a) && a.round >= 1
                && !share_verified(
                self.pub_key_set,
                sender,
                a.sig_share,
                main_vote_bytes(self.tag@, a.round, a.value),
            ))) ==> (r matches Err(e) && e@ == ErrorV::InvalidMessage("invalid signature share"@))),
            ((msg.tag@ == self.tag@ && (msg.action@ matches crate::abba::message::ActionV::PreVote(
                a,
            ) && a.round >= 1 && share_verified(
                self.pub_key_set,
                sender,
                a.sig_share,
                pre_vote_bytes(self.tag@, a.round, a.value),
            ) && (a.justification matches PreVoteJustV::WithValidity(d, s) && !agg_verified(
                self.pub_key_set,
                s,
                c_ready_bytes(self.tag@, d),
            )))) ==> (r matches Err(e) && e@ == ErrorV::InvalidMessage(
                "invalid signature for the VCBC proposal"@,
            ))),
    {
        if !self.tag.eq_tag(&msg.tag) {
            return Err(self.invalid_tag_error(&msg.tag));
        }
        match &msg.action {
            Action::PreVote(a) => {
                let sign_bytes = self.pre_vote_bytes_to_sign(a.round, &a.value);
                if !verify_share(&self.pub_key_set, sender, &a.sig_share, sign_bytes.as_slice()) {
                    return Err(Error::InvalidMessage("invalid signature share".to_owned()));
                }
                if a.round < 1 {
                    return Err(Error::InvalidMessage("invalid round. expected 1 or more".to_owned()));
                }
                self.check_pre_vote_just(a.round, &a.value, &a.justification)
            },
            Action::MainVote(a) => {
                if a.round < 1 {
                    return Err(Error::InvalidMessage("invalid round. expected 1 or more".to_owned()));
                }
                let sign_bytes = self.main_vote_bytes_to_sign(a.round, &a.value);
                if !verify_share(&self.pub_key_set, sender, &a.sig_share, sign_bytes.as_slice()) {
                    return Err(Error::InvalidMessage("invalid signature share".to_owned()));
                }
                match &a.justification {
                    MainVoteJustification::NoAbstain(s) => {
                        let b = match a.value {
                            MainVoteValue::Value(v) => v,
                            MainVoteValue::Abstain => {
                                return Err(
                                    Error::InvalidMessage(
                                        "no-abstain justifications should come with no-abstain value".to_owned(),
                                    ),
                                );
                            },
                        };
                        let jb = self.pre_vote_bytes_to_sign(a.round, &b);
                        if !verify_agg(&self.pub_key_set, s, jb.as_slice()) {
                            return Err(
                                Error::InvalidMessage("invalid main-vote justification".to_owned()),
                            );
                        }
                        Ok(())
                    },
                    MainVoteJustification::Abstain(j0, j1) => {
                        if !(a.value == MainVoteValue::Abstain) {
                            return Err(
                                Error::InvalidMessage(
                                    "abstain justifications should come with abstain value".to_owned(),
                                ),
                            );
                        }
                        match self.check_pre_vote_just(a.round, &Value::Zero, j0) {
                            Ok(()) => {},
                            Err(e) => {
                                return Err(e);
                            },
                        }
                        match self.check_pre_vote_just(a.round, &Value::One, j1) {
                            Ok(()) => {},
                            Err(e) => {
                                return Err(e);
                            },
                        }
                        Ok(())
                    },
                }
            },
            Action::Decision(a) => {
                let sign_bytes = self.main_vote_bytes_to_sign(
                    a.round,
                    &MainVoteValue::Value(a.value),
                );
                if !verify_agg(&self.pub_key_set, &a.sig, sign_bytes.as_slice()) {
                    return Err(Error::InvalidMessage("invalid signature".to_owned()));
                }
                Ok(())
            },
        }
    }
}

/// Grows a bucket list with empty buckets until it covers `round`.
fn grow_buckets<T>(buckets: &mut Vec<Vec<T>>, round: usize)
    ensures
        final(buckets)@.len() >= round,
        final(buckets)@.len() >= old(buckets)@.len(),
        old(buckets)@.len() >= round ==> final(buckets)@.len() == old(buckets)@.len(),
        forall|ri: int|
            0 <= ri < old(buckets)@.len() ==> final(buckets)@[ri] == old(buckets)@[ri],
        forall|ri: int|
            old(buckets)@.len() <= ri < final(buckets)@.len()
                ==> (#[trigger] final(buckets)@[ri])@.len() == 0,
{
    while buckets.len() < round
        invariant
            buckets@.len() >= old(buckets)@.len(),
            old(buckets)@.len() >= round ==> buckets@.len() == old(buckets)@.len(),
            buckets@.len() <= round || buckets@.len() == old(buckets)@.len(),
            forall|ri: int| 0 <= ri < old(buckets)@.len() ==> buckets@[ri] == old(buckets)@[ri],
            forall|ri: int|
                old(buckets)@.len() <= ri < buckets@.len() ==> (#[trigger] buckets@[ri])@.len()
                    == 0,
        decreases round - buckets@.len(),
    {
        let empty: Vec<T> = Vec::new();
        buckets.push(empty);
    }
}

/// Finds the position of `sender`'s entry in a pre-vote bucket.
fn find_pre(bucket: &Vec<(NodeId, PreVoteAction)>, sender: NodeId) -> (r: Option<usize>)
    ensures
        match r {
            Some(k) => k < bucket@.len() && bucket@[k as int].0 == sender,
            None => forall|j: int| 0 <= j < bucket@.len() ==> (#[trigger] bucket@[j]).0 != sender,
        },
{
    let mut k: usize = 0;
    while k < bucket.len()
        invariant
            k <= bucket@.len(),
            forall|j: int| 0 <= j < k ==> (#[trigger] bucket@[j]).0 != sender,
        decreases bucket@.len() - k,
    {
        if bucket[k].0 == sender {
            return Some(k);
        }
        k = k + 1;
    }
    None
}

/// Finds the position of `sender`'s entry in a main-vote bucket.
fn find_main(bucket: &Vec<(NodeId, MainVoteAction)>, sender: NodeId) -> (r: Option<usize>)
    ensures
        match r {
            Some(k) => k < bucket@.len() && bucket@[k as int].0 == sender,
            None => forall|j: int| 0 <= j < bucket@.len() ==> (#[trigger] bucket@[j]).0 != sender,
        },
{
    let mut k: usize = 0;
    while k < bucket.len()
        invariant
            k <= bucket@.len(),
            forall|j: int| 0 <= j < k ==> (#[trigger] bucket@[j]).0 != sender,
        decreases bucket@.len() - k,
    {
        if bucket[k].0 == sender {
            return Some(k);
        }
        k = k + 1;
    }
    None
}

/// How many votes for `value` a pre-vote bucket holds.
pub open spec fn count_pre_votes(b: Seq<(NodeId, PreVoteAction)>, v: Value) -> nat
    decreases b.len(),
{
    if b.len() == 0 {
        0
    } else {
        count_pre_votes(b.drop_last(), v) + if b.last().1.value == v {
            1nat
        } else {
            0nat
        }
    }
}

/// How many votes for `value` a main-vote bucket holds.
pub open spec fn count_main_votes(b: Seq<(NodeId, MainVoteAction)>, v: MainVoteValue) -> nat
    decreases b.len(),
{
    if b.len() == 0 {
        0
    } else {
        count_main_votes(b.drop_last(), v) + if b.last().1.value == v {
            1nat
        } else {
            0nat
        }
    }
}

/// Collects the signature shares of every pre-vote for `value` in a bucket.
fn collect_pre_shares(bucket: &Vec<(NodeId, PreVoteAction)>, value: &Value) -> (r: Vec<
    (NodeId, SigShare),
>)
    ensures
        r@.len() == count_pre_votes(bucket@, *value),
{
    let mut r: Vec<(NodeId, SigShare)> = Vec::new();
    let mut k: usize = 0;
    while k < bucket.len()
        invariant
            k <= bucket@.len(),
            r@.len() == count_pre_votes(bucket@.subrange(0, k as int), *value),
        decreases bucket@.len() - k,
    {
        if bucket[k].1.value == *value {
            r.push((bucket[k].0, bucket[k].1.sig_share.clone()));
        }
        proof {
            assert(bucket@.subrange(0, k + 1 as int).drop_last() =~= bucket@.subrange(
                0,
                k as int,
            ));
            assert(bucket@.subrange(0, k + 1 as int).last() == bucket@[k as int]);
        }
        k = k + 1;
    }
    proof {
        assert(bucket@.subrange(0, bucket@.len() as int) =~= bucket@);
    }
    r
}

/// Collects the signature shares of every main-vote for `value` in a bucket.
fn collect_main_shares(bucket: &Vec<(NodeId, MainVoteAction)>, value: &MainVoteValue) -> (r: Vec<
    (NodeId, SigShare),
>)
    ensures
        r@.len() == count_main_votes(bucket@, *value),
{
    let mut r: Vec<(NodeId, SigShare)> = Vec::new();
    let mut k: usize = 0;
    while k < bucket.len()
        invariant
            k <= bucket@.len(),
            r@.len() == count_main_votes(bucket@.subrange(0, k as int), *value),
        decreases bucket@.len() - k,
    {
        if bucket[k].1.value == *value {
            r.push((bucket[k].0, bucket[k].1.sig_share.clone()));
        }
        proof {
            assert(bucket@.subrange(0, k + 1 as int).drop_last() =~= bucket@.subrange(
                0,
                k as int,
            ));
            assert(bucket@.subrange(0, k + 1 as int).last() == bucket@[k as int]);
        }
        k = k + 1;
    }
    proof {
        assert(bucket@.subrange(0, bucket@.len() as int) =~= bucket@);
    }
    r
}

/// The justification of the first pre-vote for `value` in a bucket.
fn first_pre_just(bucket: &Vec<(NodeId, PreVoteAction)>, value: &Value) -> (r: Option<
    PreVoteJustification,
>)
    ensures
        match r {
            Some(j) => exists|k: int|
                0 <= k < bucket@.len() && (#[trigger] bucket@[k]).1.value == *value && j@
                    == bucket@[k].1.justification@,
            None => true,
        },
{
    let mut k: usize = 0;
    while k < bucket.len()
        invariant
            k <= bucket@.len(),
        decreases bucket@.len() - k,
    {
        if bucket[k].1.value == *value {
            return Some(bucket[k].1.justification.clone());
        }
        k = k + 1;
    }
    None
}

/// The first main-vote for `value` in a bucket, cloned.
fn first_main_action(bucket: &Vec<(NodeId, MainVoteAction)>, value: &MainVoteValue) -> (r: Option<
    MainVoteAction,
>)
    ensures
        match r {
            Some(a) => exists|k: int|
                0 <= k < bucket@.len() && (#[trigger] bucket@[k]).1.value == *value && a@
                    == bucket@[k].1@,
            None => true,
        },
{
    let mut k: usize = 0;
    while k < bucket.len()
        invariant
            k <= bucket@.len(),
        decreases bucket@.len() - k,
    {
        if bucket[k].1.value == *value {
            return Some(bucket[k].1.clone());
        }
        k = k + 1;
    }
    None
}

impl Abba {
    /// Queues `msg` for every peer and for local processing.
    fn publish(&mut self, msg: Message, pending: &mut Vec<Message>)
        ensures
            old(self).same_instance(*final(self)),
            final(self).r == old(self).r,
            final(self).decided_value == old(self).decided_value,
            final(self).weak_validity == old(self).weak_validity,
            final(self).round_pre_votes == old(self).round_pre_votes,
            final(self).round_main_votes == old(self).round_main_votes,
            final(self).broadcaster@.self_id == old(self).broadcaster@.self_id,
            final(self).broadcaster@.direct == old(self).broadcaster@.direct,
            final(self).broadcaster@.gossip == old(self).broadcaster@.gossip.push(
                crate::bundle::BundleV {
                    initiator: old(self).broadcaster@.self_id,
                    module: MODULE_NAME.spec_bytes(),
                    payload: enc_message(msg@),
                },
            ),
            final(pending)@ == old(pending)@.push(msg),
    {
        let data = message::encode_message(&msg);
        self.broadcaster.broadcast(MODULE_NAME, data);
        pending.push(msg);
    }

    /// Latches the first verified broadcast certificate an inbound pre-vote
    /// carries.
    fn latch_validity(&mut self, msg: &Message)
        ensures
            old(self).same_instance(*final(self)),
            final(self).tag == old(self).tag,
            final(self).i == old(self).i,
            final(self).sec_key_share == old(self).sec_key_share,
            final(self).r == old(self).r,
            final(self).decided_value == old(self).decided_value,
            final(self).round_pre_votes == old(self).round_pre_votes,
            final(self).round_main_votes == old(self).round_main_votes,
            final(self).broadcaster == old(self).broadcaster,
            (old(self).weak_validity matches Some(w) ==> final(self).weak_validity == Some(w)),
            (!(msg.action@ matches crate::abba::message::ActionV::PreVote(_))
                ==> final(self).weak_validity == old(self).weak_validity),
            (msg.action@ matches crate::abba::message::ActionV::PreVote(a) ==> (!(a.justification
                matches PreVoteJustV::WithValidity(_, _)) ==> final(self).weak_validity == old(
                self,
            ).weak_validity)),
            old(self).weak_validity is None ==> (msg.action@
                matches crate::abba::message::ActionV::PreVote(a) ==> (a.justification
                matches PreVoteJustV::WithValidity(d, sg)
                ==> final(self).weak_validity_view() == Some((d, sg)))),
            (old(self).wf() && (exists|sender: NodeId|
                action_ok(old(self).pub_key_set, old(self).tag@, sender, msg.action@)))
                ==> final(self).wf(),
    {
        if self.weak_validity.is_some() {
            return ;
        }
        match &msg.action {
            Action::PreVote(a) => {
                match &a.justification {
                    PreVoteJustification::WithValidity(d, s) => {
                        self.weak_validity = Some((*d, s.clone()));
                    },
                    _ => {},
                }
            },
            Action::MainVote(_) => {},
            Action::Decision(_) => {},
        }
    }

    /// Builds the error for a second differing vote from one sender.
    fn double_vote_error(&self, what: &str, sender: NodeId) -> (e: Error)
        ensures
            e@ matches ErrorV::InvalidMessage(_),
            is_ascii_bytes(what.spec_bytes() + dec_digits(sender as nat)) ==> e@
                == ErrorV::InvalidMessage(
                ascii_chars(what.spec_bytes() + dec_digits(sender as nat)),
            ),
    {
        let mut b: Vec<u8> = Vec::new();
        crate::codec::push_slice(&mut b, what.as_bytes());
        crate::text::push_dec_u64(&mut b, sender as u64);
        proof {
            assert(b@ =~= what.spec_bytes() + dec_digits(sender as nat));
        }
        Error::InvalidMessage(crate::text::string_from_bytes(&b))
    }

    /// Admits one message into its round bucket.
    ///
    /// A first vote from a sender is stored and reported fresh; an identical
    /// repeat is reported as a duplicate no-op; a differing second vote from
    /// the same sender for the same round is detected equivocation and
    /// refused.
    fn add_message(&mut self, sender: NodeId, msg: &Message) -> (res: Result<bool, Error>)
        requires
            (msg.action@ matches crate::abba::message::ActionV::PreVote(a) ==> a.round >= 1),
            (msg.action@ matches crate::abba::message::ActionV::MainVote(a) ==> a.round >= 1),
        ensures
            final(self).round_pre_votes@.len() >= old(self).round_pre_votes@.len(),
            forall|ri: int|
                0 <= ri < old(self).round_pre_votes@.len()
                    ==> (#[trigger] final(self).round_pre_votes@[ri])@.len()
                    >= old(self).round_pre_votes@[ri]@.len(),
            forall|ri: int, k: int|
                (0 <= ri < old(self).round_pre_votes@.len() && 0 <= k
                    < old(self).round_pre_votes@[ri]@.len())
                    ==> (#[trigger] final(self).round_pre_votes@[ri]@[k])
                    == old(self).round_pre_votes@[ri]@[k],
            final(self).round_main_votes@.len() >= old(self).round_main_votes@.len(),
            forall|ri: int|
                0 <= ri < old(self).round_main_votes@.len()
                    ==> (#[trigger] final(self).round_main_votes@[ri])@.len()
                    >= old(self).round_main_votes@[ri]@.len(),
            forall|ri: int, k: int|
                (0 <= ri < old(self).round_main_votes@.len() && 0 <= k
                    < old(self).round_main_votes@[ri]@.len())
                    ==> (#[trigger] final(self).round_main_votes@[ri]@[k])
                    == old(self).round_main_votes@[ri]@[k],
            old(self).same_instance(*final(self)),
            final(self).r == old(self).r,
            final(self).decided_value == old(self).decided_value,
            final(self).weak_validity == old(self).weak_validity,
            final(self).broadcaster == old(self).broadcaster,
            (res matches Err(e) ==> e@ matches ErrorV::InvalidMessage(_)),
            (old(self).wf() && action_ok(
                old(self).pub_key_set,
                old(self).tag@,
                sender,
                msg.action@,
            )) ==> final(self).wf(),
            old(self).wf() ==> (msg.action@ matches crate::abba::message::ActionV::PreVote(a)
                ==> {
                &&& (!old(self).has_pre_vote(a.round, sender) ==> (res == Ok::<bool, Error>(true)
                    && final(self).pre_vote_stored(a.round, sender, a)
                    && final(self).pre_bucket(a.round).len() == old(self).pre_bucket(
                    a.round,
                ).len() + 1 && final(self).pre_bucket(a.round).drop_last() == old(
                    self,
                ).pre_bucket(a.round) && final(self).pre_bucket(a.round).last().0 == sender
                    && final(self).pre_bucket(a.round).last().1@ == a))
                &&& (old(self).pre_vote_stored(a.round, sender, a) ==> (res == Ok::<bool, Error>(
                    false,
                ) && final(self).round_pre_votes@ == old(self).round_pre_votes@
                    && final(self).round_main_votes@ == old(self).round_main_votes@))
                &&& ((old(self).has_pre_vote(a.round, sender) && !old(self).pre_vote_stored(
                    a.round,
                    sender,
                    a,
                )) ==> ({
                    &&& (res matches Err(e) && e@ == ErrorV::InvalidMessage(
                        ascii_chars(double_pre_vote_text(sender)),
                    ))
                    &&& final(self).round_pre_votes@ == old(self).round_pre_votes@
                    &&& final(self).round_main_votes@ == old(self).round_main_votes@
                }))
            }),
            old(self).wf() ==> (msg.action@ matches crate::abba::message::ActionV::MainVote(a)
                ==> {
                &&& (!old(self).has_main_vote(a.round, sender) ==> (res == Ok::<bool, Error>(true)
                    && final(self).main_vote_stored(a.round, sender, a)
                    && final(self).main_bucket(a.round).len() == old(self).main_bucket(
                    a.round,
                ).len() + 1 && final(self).main_bucket(a.round).drop_last() == old(
                    self,
                ).main_bucket(a.round) && final(self).main_bucket(a.round).last().0 == sender
                    && final(self).main_bucket(a.round).last().1@ == a))
                &&& (old(self).main_vote_stored(a.round, sender, a) ==> (res == Ok::<bool, Error>(
                    false,
                ) && final(self).round_pre_votes@ == old(self).round_pre_votes@
                    && final(self).round_main_votes@ == old(self).round_main_votes@))
                &&& ((old(self).has_main_vote(a.round, sender) && !old(self).main_vote_stored(
                    a.round,
                    sender,
                    a,
                )) ==> ({
                    &&& (res matches Err(e) && e@ == ErrorV::InvalidMessage(
                        ascii_chars(double_main_vote_text(sender)),
                    ))
                    &&& final(self).round_pre_votes@ == old(self).round_pre_votes@
                    &&& final(self).round_main_votes@ == old(self).round_main_votes@
                }))
            }),
            (msg.action@ matches crate::abba::message::ActionV::Decision(_) ==> (res == Ok::<
                bool,
                Error,
            >(true) && *final(self) == *old(self))),
    {
        match &msg.action {
            Action::PreVote(a) => {
                grow_buckets(&mut self.round_pre_votes, a.round);
                let idx = a.round - 1;
                proof {
                    if old(self).round_pre_votes@.len() >= a.round {
                        assert(self.round_pre_votes@[idx as int] == old(
                            self,
                        ).round_pre_votes@[idx as int]);
                    } else {
                        assert(self.round_pre_votes@[idx as int]@.len() == 0);
                    }
                    assert(self.pre_bucket(a.round) =~= old(self).pre_bucket(a.round));
                    if old(self).wf() {
                        assert((idx + 1) as usize == a.round);
                        if old(self).round_pre_votes@.len() >= a.round {
                            assert(pre_bucket_wf(
                                self.pub_key_set,
                                self.tag@,
                                a.round,
                                self.round_pre_votes@[idx as int]@,
                            ));
                        }
                    }
                }
                let pos = find_pre(&self.round_pre_votes[idx], sender);
                match pos {
                    Some(k) => {
                        let same = pre_vote_action_eq(&self.round_pre_votes[idx][k].1, a);
                        proof {
                            if old(self).has_pre_vote(a.round, sender) {
                                assert(old(self).round_pre_votes@.len() >= a.round);
                                assert(self.round_pre_votes@ =~= old(self).round_pre_votes@);
                            }
                            if old(self).wf() && old(self).pre_vote_stored(a.round, sender, a@) {
                                let b = self.pre_bucket(a.round);
                                let k2 = choose|k2: int|
                                    0 <= k2 < b.len() && (#[trigger] b[k2]).0 == sender && b[k2].1@
                                        == a@;
                                assert(pre_bucket_wf(self.pub_key_set, self.tag@, a.round, b));
                                assert(k2 == k as int);
                            }
                        }
                        if same {
                            Ok(false)
                        } else {
                            proof {
                                lemma_double_vote_texts_ascii(sender);
                            }
                            Err(self.double_vote_error("double pre-vote detected from ", sender))
                        }
                    },
                    None => {
                        let entry = (sender, a.clone());
                        let ghost before = *self;
                        let bucket = &mut self.round_pre_votes[idx];
                        bucket.push(entry);
                        proof {
                            let b = self.pre_bucket(a.round);
                            let last = b.len() - 1;
                            assert(b =~= before.pre_bucket(a.round).push(b[last]));
                            assert(b[last].0 == sender && b[last].1@ == a@);
                            assert(self.pre_vote_stored(a.round, sender, a@));
                            if old(self).wf() && action_ok(
                                old(self).pub_key_set,
                                old(self).tag@,
                                sender,
                                msg.action@,
                            ) {
                                assert forall|ri: int|
                                    0 <= ri < self.round_pre_votes@.len() implies pre_bucket_wf(
                                    self.pub_key_set,
                                    self.tag@,
                                    (ri + 1) as usize,
                                    (#[trigger] self.round_pre_votes@[ri])@,
                                ) by {
                                    if ri != idx as int {
                                        assert(self.round_pre_votes@[ri]
                                            == before.round_pre_votes@[ri]);
                                        if ri < old(self).round_pre_votes@.len() {
                                            assert(pre_bucket_wf(
                                                old(self).pub_key_set,
                                                old(self).tag@,
                                                (ri + 1) as usize,
                                                old(self).round_pre_votes@[ri]@,
                                            ));
                                        } else {
                                            assert(before.round_pre_votes@[ri]@.len() == 0);
                                        }
                                    } else {
                                        assert(pre_vote_just_ok(
                                            self.pub_key_set,
                                            self.tag@,
                                            a.round,
                                            a.value,
                                            a.justification@,
                                        ));
                                    }
                                }
                                assert(self.wf());
                            }
                        }
                        Ok(true)
                    },
                }
            },
            Action::MainVote(a) => {
                grow_buckets(&mut self.round_main_votes, a.round);
                let idx = a.round - 1;
                proof {
                    if old(self).round_main_votes@.len() >= a.round {
                        assert(self.round_main_votes@[idx as int] == old(
                            self,
                        ).round_main_votes@[idx as int]);
                    } else {
                        assert(self.round_main_votes@[idx as int]@.len() == 0);
                    }
                    assert(self.main_bucket(a.round) =~= old(self).main_bucket(a.round));
                    if old(self).wf() {
                        assert((idx + 1) as usize == a.round);
                        if old(self).round_main_votes@.len() >= a.round {
                            assert(main_bucket_wf(
                                self.pub_key_set,
                                self.tag@,
                                a.round,
                                self.round_main_votes@[idx as int]@,
                            ));
                        }
                    }
                }
                let pos = find_main(&self.round_main_votes[idx], sender);
                match pos {
                    Some(k) => {
                        let same = main_vote_action_eq(&self.round_main_votes[idx][k].1, a);
                        proof {
                            if old(self).has_main_vote(a.round, sender) {
                                assert(old(self).round_main_votes@.len() >= a.round);
                                assert(self.round_main_votes@ =~= old(self).round_main_votes@);
                            }
                            if old(self).wf() && old(self).main_vote_stored(a.round, sender, a@) {
                                let b = self.main_bucket(a.round);
                                let k2 = choose|k2: int|
                                    0 <= k2 < b.len() && (#[trigger] b[k2]).0 == sender && b[k2].1@
                                        == a@;
                                assert(main_bucket_wf(self.pub_key_set, self.tag@, a.round, b));
                                assert(k2 == k as int);
                            }
                        }
                        if same {
                            Ok(false)
                        } else {
                            proof {
                                lemma_double_vote_texts_ascii(sender);
                            }
                            Err(self.double_vote_error("double main-vote detected from ", sender))
                        }
                    },
                    None => {
                        let entry = (sender, a.clone());
                        let ghost before = *self;
                        let bucket = &mut self.round_main_votes[idx];
                        bucket.push(entry);
                        proof {
                            let b = self.main_bucket(a.round);
                            let last = b.len() - 1;
                            assert(b =~= before.main_bucket(a.round).push(b[last]));
                            assert(b[last].0 == sender && b[last].1@ == a@);
                            assert(self.main_vote_stored(a.round, sender, a@));
                            if old(self).wf() && action_ok(
                                old(self).pub_key_set,
                                old(self).tag@,
                                sender,
                                msg.action@,
                            ) {
                                assert forall|ri: int|
                                    0 <= ri < self.round_main_votes@.len() implies main_bucket_wf(
                                    self.pub_key_set,
                                    self.tag@,
                                    (ri + 1) as usize,
                                    (#[trigger] self.round_main_votes@[ri])@,
                                ) by {
                                    if ri != idx as int {
                                        assert(self.round_main_votes@[ri]
                                            == before.round_main_votes@[ri]);
                                        if ri < old(self).round_main_votes@.len() {
                                            assert(main_bucket_wf(
                                                old(self).pub_key_set,
                                                old(self).tag@,
                                                (ri + 1) as usize,
                                                old(self).round_main_votes@[ri]@,
                                            ));
                                        } else {
                                            assert(before.round_main_votes@[ri]@.len() == 0);
                                        }
                                    } else {
                                        assert(main_vote_just_ok(
                                            self.pub_key_set,
                                            self.tag@,
                                            a.round,
                                            a.value,
                                            a.justification@,
                                        ));
                                    }
                                }
                                assert(self.wf());
                            }
                        }
                        Ok(true)
                    },
                }
            },
            Action::Decision(_) => Ok(true),
        }
    }
}

impl Abba {
    /// Handles an inbound decision: a repeat of the local decision is a
    /// no-op, a conflicting one is a fatal protocol violation, and a first
    /// decision is latched and amplified to all peers.
    fn process_decision(&mut self, a: DecisionAction, pending: &mut Vec<Message>) -> (res: Result<
        (),
        Error,
    >)
        requires
            agg_verified(
                old(self).pub_key_set,
                a.sig@,
                main_vote_bytes(old(self).tag@, a.round, MainVoteValue::Value(a.value)),
            ),
        ensures
            final(self).broadcaster@.self_id == old(self).broadcaster@.self_id,
            final(self).broadcaster@.direct == old(self).broadcaster@.direct,
            final(self).broadcaster@.gossip.len() >= old(self).broadcaster@.gossip.len(),
            forall|bi: int|
                0 <= bi < old(self).broadcaster@.gossip.len()
                    ==> #[trigger] final(self).broadcaster@.gossip[bi]
                    == old(self).broadcaster@.gossip[bi],
            old(self).same_instance(*final(self)),
            final(self).r == old(self).r,
            final(self).weak_validity == old(self).weak_validity,
            final(self).round_pre_votes == old(self).round_pre_votes,
            final(self).round_main_votes == old(self).round_main_votes,
            (old(self).decided_view() matches Some(dv) ==> final(self).decided_view() == Some(
                dv,
            )),
            old(self).wf() ==> final(self).wf(),
            (old(self).decided_view() == Some(a@) ==> (*final(self) == *old(self)
                && final(pending)@ == old(pending)@ && res is Ok)),
            (old(self).decided_value is None ==> (res is Ok && final(self).decided_view() == Some(
                a@,
            ) && final(self).broadcaster@.gossip == old(self).broadcaster@.gossip.push(
                crate::bundle::BundleV {
                    initiator: old(self).broadcaster@.self_id,
                    module: MODULE_NAME.spec_bytes(),
                    payload: enc_message(
                        crate::abba::message::MessageV {
                            tag: old(self).tag@,
                            action: crate::abba::message::ActionV::Decision(a@),
                        },
                    ),
                },
            ))),
            (old(self).decided_view() matches Some(dv) ==> (dv != a@ ==> (res matches Err(e) && e@
                == ErrorV::Generic("received conflicting decision"@)))),
    {
        if self.decided_value.is_some() {
            let same = match &self.decided_value {
                Some(exist) => decision_action_eq(exist, &a),
                None => false,
            };
            if same {
                return Ok(());
            }
            return Err(Error::Generic("received conflicting decision".to_owned()));
        }
        let m = Message { tag: self.tag.clone(), action: Action::Decision(a.clone()) };
        self.decided_value = Some(a);
        self.publish(m, pending);
        Ok(())
    }

    /// Handles a main-vote of the round that has just completed: decides when
    /// one value holds a full quorum, and otherwise casts the next round's
    /// pre-vote once the bucket itself is full.
    fn process_main_vote(&mut self, a: MainVoteAction, pending: &mut Vec<Message>) -> (res: Result<
        (),
        Error,
    >)
        requires
            a.round >= 1,
        ensures
            old(self).wf() ==> ((a.round < old(self).r && old(self).r - a.round == 1
                && old(self).decided_value is None && count_main_votes(
                old(self).main_bucket(a.round),
                MainVoteValue::Value(Value::Zero),
            ) == threshold_of(old(self).pub_key_set) + 1 && res is Ok)
                ==> (final(self).decided_view() matches Some(d) && d.round == a.round && d.value
                == Value::Zero)),
            old(self).wf() ==> ((a.round < old(self).r && old(self).r - a.round == 1
                && old(self).decided_value is None && count_main_votes(
                old(self).main_bucket(a.round),
                MainVoteValue::Value(Value::Zero),
            ) != threshold_of(old(self).pub_key_set) + 1 && count_main_votes(
                old(self).main_bucket(a.round),
                MainVoteValue::Value(Value::One),
            ) == threshold_of(old(self).pub_key_set) + 1 && res is Ok)
                ==> (final(self).decided_view() matches Some(d) && d.round == a.round && d.value
                == Value::One)),
            final(self).broadcaster@.self_id == old(self).broadcaster@.self_id,
            final(self).broadcaster@.direct == old(self).broadcaster@.direct,
            final(self).broadcaster@.gossip.len() >= old(self).broadcaster@.gossip.len(),
            forall|bi: int|
                0 <= bi < old(self).broadcaster@.gossip.len()
                    ==> #[trigger] final(self).broadcaster@.gossip[bi]
                    == old(self).broadcaster@.gossip[bi],
            old(self).same_instance(*final(self)),
            final(self).r == old(self).r,
            final(self).weak_validity == old(self).weak_validity,
            final(self).round_pre_votes == old(self).round_pre_votes,
            final(self).round_main_votes == old(self).round_main_votes,
            (old(self).decided_view() matches Some(dv) ==> final(self).decided_view() == Some(
                dv,
            )),
            old(self).wf() ==> final(self).wf(),
    {
        if !(a.round < self.r && self.r - a.round == 1) {
            return Ok(());
        }
        let round = a.round;
        if round > self.round_main_votes.len() {
            proof {
                assert(self.main_bucket(round) =~= Seq::<(NodeId, MainVoteAction)>::empty());
            }
            return Ok(());
        }
        proof {
            assert(self.main_bucket(round) == self.round_main_votes@[round - 1]@);
        }
        let quorum = self.threshold();
        let zero_shares = collect_main_shares(
            &self.round_main_votes[round - 1],
            &MainVoteValue::Value(Value::Zero),
        );
        let one_shares = collect_main_shares(
            &self.round_main_votes[round - 1],
            &MainVoteValue::Value(Value::One),
        );
        let abstain_shares = collect_main_shares(
            &self.round_main_votes[round - 1],
            &MainVoteValue::Abstain,
        );
        let blen = self.round_main_votes[round - 1].len();
        proof {
            if self.wf() {
                assert(((round - 1) + 1) as usize == round);
                assert(main_bucket_wf(
                    self.pub_key_set,
                    self.tag@,
                    round,
                    self.round_main_votes@[round - 1]@,
                ));
            }
        }
        if zero_shares.len() == quorum && self.decided_value.is_none() {
            let mvb = self.main_vote_bytes_to_sign(round, &MainVoteValue::zero());
            let sig = match combine_shares(&self.pub_key_set, &zero_shares, mvb.as_slice()) {
                Some(s) => s,
                None => {
                    return Err(Error::Generic("failed to combine signature shares".to_owned()));
                },
            };
            let decision = DecisionAction { round, value: Value::Zero, sig };
            let m = Message { tag: self.tag.clone(), action: Action::Decision(decision.clone()) };
            self.decided_value = Some(decision);
            self.publish(m, pending);
            return Ok(());
        }
        if one_shares.len() == quorum && self.decided_value.is_none() {
            let mvb = self.main_vote_bytes_to_sign(round, &MainVoteValue::one());
            let sig = match combine_shares(&self.pub_key_set, &one_shares, mvb.as_slice()) {
                Some(s) => s,
                None => {
                    return Err(Error::Generic("failed to combine signature shares".to_owned()));
                },
            };
            let decision = DecisionAction { round, value: Value::One, sig };
            let m = Message { tag: self.tag.clone(), action: Action::Decision(decision.clone()) };
            self.decided_value = Some(decision);
            self.publish(m, pending);
            return Ok(());
        }
        if blen == quorum {
            let latched = match &self.weak_validity {
                Some(w) => Some((w.0, w.1.clone())),
                None => None,
            };
            let first_zero = first_main_action(
                &self.round_main_votes[round - 1],
                &MainVoteValue::Value(Value::Zero),
            );
            let first_one = first_main_action(
                &self.round_main_votes[round - 1],
                &MainVoteValue::Value(Value::One),
            );
            let picked: (Value, PreVoteJustification) = match latched {
                Some(w) => (Value::One, PreVoteJustification::WithValidity(w.0, w.1)),
                None => match first_zero {
                Some(mv) => {
                    match mv.justification {
                        MainVoteJustification::NoAbstain(sig) => (
                            Value::Zero,
                            PreVoteJustification::Hard(sig),
                        ),
                        _ => {
                            return Err(
                                Error::Generic(
                                    "protocol violated, invalid main-vote justification".to_owned(),
                                ),
                            );
                        },
                    }
                },
                None => {
                    match first_one {
                        Some(mv) => {
                            match mv.justification {
                                MainVoteJustification::NoAbstain(sig) => (
                                    Value::One,
                                    PreVoteJustification::Hard(sig),
                                ),
                                _ => {
                                    return Err(
                                        Error::Generic(
                                            "protocol violated, invalid main-vote justification".to_owned(),
                                        ),
                                    );
                                },
                            }
                        },
                        None => {
                            if abstain_shares.len() == quorum {
                                let mvb = self.main_vote_bytes_to_sign(
                                    round,
                                    &MainVoteValue::Abstain,
                                );
                                let sig = match combine_shares(
                                    &self.pub_key_set,
                                    &abstain_shares,
                                    mvb.as_slice(),
                                ) {
                                    Some(s) => s,
                                    None => {
                                        return Err(
                                            Error::Generic(
                                                "failed to combine signature shares".to_owned(),
                                            ),
                                        );
                                    },
                                };
                                (Value::One, PreVoteJustification::Soft(sig))
                            } else {
                                return Err(
                                    Error::Generic(
                                        "protocol violated, no pre-vote majority".to_owned(),
                                    ),
                                );
                            }
                        },
                    }
                },
                },
            };
            let (value, justification) = picked;
            let sb = self.pre_vote_bytes_to_sign(self.r, &value);
            let share = sign_share(&self.sec_key_share, sb.as_slice());
            let m = Message {
                tag: self.tag.clone(),
                action: Action::PreVote(
                    PreVoteAction { round: self.r, value, justification, sig_share: share },
                ),
            };
            self.publish(m, pending);
        }
        Ok(())
    }

    /// Handles a pre-vote of the current round: when the round's bucket
    /// reaches the quorum, casts this round's main-vote and advances to the
    /// next round.
    fn process_pre_vote(&mut self, a: PreVoteAction, pending: &mut Vec<Message>) -> (res: Result<
        (),
        Error,
    >)
        requires
            a.round >= 1,
        ensures
            old(self).wf() ==> ((a.round == old(self).r && old(self).pre_bucket(
                old(self).r,
            ).len() == threshold_of(old(self).pub_key_set) + 1 && res is Ok) ==> ({
                &&& final(self).r == old(self).r + 1
                &&& final(self).broadcaster@.gossip == old(self).broadcaster@.gossip.push(
                    final(self).broadcaster@.gossip.last(),
                )
                &&& (exists|v: MainVoteValue, j: MainVoteJustV|
                    main_vote_just_ok(old(self).pub_key_set, old(self).tag@, old(self).r, v, j)
                        && #[trigger] final(self).broadcaster@.gossip.last()
                        == crate::bundle::BundleV {
                        initiator: old(self).broadcaster@.self_id,
                        module: MODULE_NAME.spec_bytes(),
                        payload: enc_message(
                            crate::abba::message::MessageV {
                                tag: old(self).tag@,
                                action: crate::abba::message::ActionV::MainVote(
                                    crate::abba::message::MainVoteActionV {
                                        round: old(self).r,
                                        value: v,
                                        justification: j,
                                        sig_share: share_sign_of(
                                            old(self).sec_key_share,
                                            main_vote_bytes(old(self).tag@, old(self).r, v),
                                        ),
                                    },
                                ),
                            },
                        ),
                    })
            })),
            final(self).broadcaster@.self_id == old(self).broadcaster@.self_id,
            final(self).broadcaster@.direct == old(self).broadcaster@.direct,
            final(self).broadcaster@.gossip.len() >= old(self).broadcaster@.gossip.len(),
            forall|bi: int|
                0 <= bi < old(self).broadcaster@.gossip.len()
                    ==> #[trigger] final(self).broadcaster@.gossip[bi]
                    == old(self).broadcaster@.gossip[bi],
            old(self).same_instance(*final(self)),
            final(self).r >= old(self).r,
            final(self).weak_validity == old(self).weak_validity,
            final(self).decided_value == old(self).decided_value,
            final(self).round_pre_votes == old(self).round_pre_votes,
            final(self).round_main_votes == old(self).round_main_votes,
            old(self).wf() ==> final(self).wf(),
    {
        if a.round != self.r {
            return Ok(());
        }
        if self.r > self.round_pre_votes.len() {
            return Ok(());
        }
        let quorum = self.threshold();
        let blen = self.round_pre_votes[self.r - 1].len();
        if blen != quorum {
            return Ok(());
        }
        proof {
            if self.wf() {
                assert(((self.r - 1) + 1) as usize == self.r);
                assert(pre_bucket_wf(
                    self.pub_key_set,
                    self.tag@,
                    self.r,
                    self.round_pre_votes@[self.r - 1]@,
                ));
            }
        }
        let zero_shares = collect_pre_shares(&self.round_pre_votes[self.r - 1], &Value::Zero);
        let one_shares = collect_pre_shares(&self.round_pre_votes[self.r - 1], &Value::One);
        let picked: (MainVoteValue, MainVoteJustification) = if zero_shares.len() == quorum {
            let pvb = self.pre_vote_bytes_to_sign(self.r, &Value::Zero);
            let sig = match combine_shares(&self.pub_key_set, &zero_shares, pvb.as_slice()) {
                Some(s) => s,
                None => {
                    return Err(Error::Generic("failed to combine signature shares".to_owned()));
                },
            };
            proof {
                assert(main_vote_just_ok(
                    self.pub_key_set,
                    self.tag@,
                    self.r,
                    MainVoteValue::Value(Value::Zero),
                    MainVoteJustV::NoAbstain(sig@),
                ));
            }
            (MainVoteValue::Value(Value::Zero), MainVoteJustification::NoAbstain(sig))
        } else if one_shares.len() == quorum {
            let pvb = self.pre_vote_bytes_to_sign(self.r, &Value::One);
            let sig = match combine_shares(&self.pub_key_set, &one_shares, pvb.as_slice()) {
                Some(s) => s,
                None => {
                    return Err(Error::Generic("failed to combine signature shares".to_owned()));
                },
            };
            proof {
                assert(main_vote_just_ok(
                    self.pub_key_set,
                    self.tag@,
                    self.r,
                    MainVoteValue::Value(Value::One),
                    MainVoteJustV::NoAbstain(sig@),
                ));
            }
            (MainVoteValue::Value(Value::One), MainVoteJustification::NoAbstain(sig))
        } else {
            let j0 = first_pre_just(&self.round_pre_votes[self.r - 1], &Value::Zero);
            let j1 = first_pre_just(&self.round_pre_votes[self.r - 1], &Value::One);
            match (j0, j1) {
                (Some(a0), Some(a1)) => {
                    proof {
                        if old(self).wf() {
                            assert(main_vote_just_ok(
                                self.pub_key_set,
                                self.tag@,
                                self.r,
                                MainVoteValue::Abstain,
                                MainVoteJustV::Abstain(a0@, a1@),
                            ));
                        }
                    }
                    (
                        MainVoteValue::Abstain,
                        MainVoteJustification::Abstain(Box::new(a0), Box::new(a1)),
                    )
                },
                _ => {
                    return Err(
                        Error::Generic("protocol violated, no pre-vote majority".to_owned()),
                    );
                },
            }
        };
        let (value, justification) = picked;
        let ghost jv = justification@;
        let sb = self.main_vote_bytes_to_sign(self.r, &value);
        let share = sign_share(&self.sec_key_share, sb.as_slice());
        let m = Message {
            tag: self.tag.clone(),
            action: Action::MainVote(
                MainVoteAction { round: self.r, value, justification, sig_share: share },
            ),
        };
        proof {
            if old(self).wf() {
                assert(main_vote_just_ok(self.pub_key_set, self.tag@, self.r, value, jv));
            }
        }
        self.publish(m, pending);
        if self.r == usize::MAX {
            return Err(Error::Generic("round counter exhausted".to_owned()));
        }
        self.r = self.r + 1;
        proof {
            if old(self).wf() {
                let g = self.broadcaster@.gossip;
                assert(g.last() == crate::bundle::BundleV {
                    initiator: old(self).broadcaster@.self_id,
                    module: MODULE_NAME.spec_bytes(),
                    payload: enc_message(
                        crate::abba::message::MessageV {
                            tag: old(self).tag@,
                            action: crate::abba::message::ActionV::MainVote(
                                crate::abba::message::MainVoteActionV {
                                    round: old(self).r,
                                    value: value,
                                    justification: jv,
                                    sig_share: share_sign_of(
                                        old(self).sec_key_share,
                                        main_vote_bytes(old(self).tag@, old(self).r, value),
                                    ),
                                },
                            ),
                        },
                    ),
                });
            }
        }
        Ok(())
    }
}

impl Abba {
    /// Handles one inbound message: validates it, latches any carried
    /// certificate, admits it to its bucket, and acts on it.
    fn handle_message(&mut self, sender: NodeId, msg: &Message, pending: &mut Vec<Message>) -> (res:
        Result<(), Error>)
        ensures
            ((old(self).wf() && msg.tag@ == old(self).tag@ && action_ok(
                old(self).pub_key_set,
                old(self).tag@,
                sender,
                msg.action@,
            )) ==> (msg.action@ matches crate::abba::message::ActionV::PreVote(a) ==> ((old(
                self,
            ).has_pre_vote(a.round, sender) && !old(self).pre_vote_stored(a.round, sender, a))
                ==> (res matches Err(e) && e@ == ErrorV::InvalidMessage(
                ascii_chars(double_pre_vote_text(sender)),
            ))))),
            ((old(self).wf() && msg.tag@ == old(self).tag@ && action_ok(
                old(self).pub_key_set,
                old(self).tag@,
                sender,
                msg.action@,
            )) ==> (msg.action@ matches crate::abba::message::ActionV::MainVote(a) ==> ((old(
                self,
            ).has_main_vote(a.round, sender) && !old(self).main_vote_stored(a.round, sender, a))
                ==> (res matches Err(e) && e@ == ErrorV::InvalidMessage(
                ascii_chars(double_main_vote_text(sender)),
            ))))),
            (msg.tag@ != old(self).tag@ ==> (res matches Err(e) && (is_ascii_bytes(
                invalid_tag_text(old(self).tag@, msg.tag@),
            ) ==> e@ == ErrorV::InvalidMessage(
                ascii_chars(invalid_tag_text(old(self).tag@, msg.tag@)),
            )))),
            ((msg.tag@ == old(self).tag@ && (msg.action@
                matches crate::abba::message::ActionV::PreVote(a) && share_verified(
                old(self).pub_key_set,
                sender,
                a.sig_share,
                pre_vote_bytes(old(self).tag@, a.round, a.value),
            ) && a.round == 1 && a.value == Value::One && (a.justification
                matches PreVoteJustV::FirstRoundZero))) ==> (res matches Err(e) && e@
                == ErrorV::InvalidMessage("initial value should be zero"@))),
            ((msg.tag@ == old(self).tag@ && (msg.action@
                matches crate::abba::message::ActionV::PreVote(a) && share_verified(
                old(self).pub_key_set,
                sender,
                a.sig_share,
                pre_vote_bytes(old(self).tag@, a.round, a.value),
            ) && a.round >= 1 && a.value == Value::Zero && (a.justification
                matches PreVoteJustV::WithValidity(d, sg) && agg_verified(
                old(self).pub_key_set,
                sg,
                c_ready_bytes(old(self).tag@, d),
            )))) ==> (res matches Err(e) && e@ == ErrorV::InvalidMessage(
                "initial value should be one"@,
            ))),
            ((msg.tag@ == old(self).tag@ && (msg.action@
                matches crate::abba::message::ActionV::PreVote(a) && !share_verified(
                old(self).pub_key_set,
                sender,
                a.sig_share,
                pre_vote_bytes(old(self).tag@, a.round, a.value),
            ))) ==> (res matches Err(e) && e@ == ErrorV::InvalidMessage(
                "invalid signature share"@,
            ))),
            ((msg.tag@ == old(self).tag@ && (msg.action@
                matches crate::abba::message::ActionV::PreVote(a) && share_verified(
                old(self).pub_key_set,
                sender,
                a.sig_share,
                pre_vote_bytes(old(self).tag@, a.round, a.value),
            ) && a.round >= 1 && (a.justification matches PreVoteJustV::WithValidity(d, sg)
                && !agg_verified(old(self).pub_key_set, sg, c_ready_bytes(old(self).tag@, d))))) ==> (res
                matches Err(e) && e@ == ErrorV::InvalidMessage(
                "invalid signature for the VCBC proposal"@,
            ))),
            ((msg.tag@ == old(self).tag@ && (msg.action@
                matches crate::abba::message::ActionV::MainVote(a) && a.round >= 1
                && share_verified(
                old(self).pub_key_set,
                sender,
                a.sig_share,
                main_vote_bytes(old(self).tag@, a.round, a.value),
            ) && a.value == MainVoteValue::Abstain && (a.justification
                matches MainVoteJustV::Abstain(j0, j1) && pre_vote_just_ok(
                old(self).pub_key_set,
                old(self).tag@,
                a.round,
                Value::Zero,
                j0,
            ) && (j1 matches PreVoteJustV::WithValidity(d, sg) && !agg_verified(
                old(self).pub_key_set,
                sg,
                c_ready_bytes(old(self).tag@, d),
            ))))) ==> (res matches Err(e) && e@ == ErrorV::InvalidMessage(
                "invalid signature for the VCBC proposal"@,
            ))),
            ((msg.tag@ == old(self).tag@ && (msg.action@
                matches crate::abba::message::ActionV::Decision(a) && !agg_verified(
                old(self).pub_key_set,
                a.sig,
                main_vote_bytes(old(self).tag@, a.round, MainVoteValue::Value(a.value)),
            ))) ==> (res matches Err(e) && e@ == ErrorV::InvalidMessage("invalid signature"@))),
            (msg.tag@ == old(self).tag@ && action_ok(
                old(self).pub_key_set,
                old(self).tag@,
                sender,
                msg.action@,
            )) ==> (msg.action@ matches crate::abba::message::ActionV::Decision(da) ==> (old(
                self,
            ).decided_view() matches Some(dv) ==> (dv != da ==> (res matches Err(e) && e@
                == ErrorV::Generic("received conflicting decision"@))))),
            (msg.tag@ == old(self).tag@ && action_ok(
                old(self).pub_key_set,
                old(self).tag@,
                sender,
                msg.action@,
            ) && old(self).decided_value is None) ==> (msg.action@
                matches crate::abba::message::ActionV::Decision(da) ==> (res is Ok
                && final(self).decided_view() == Some(da) && final(self).broadcaster@.gossip
                == old(self).broadcaster@.gossip.push(
                crate::bundle::BundleV {
                    initiator: old(self).broadcaster@.self_id,
                    module: MODULE_NAME.spec_bytes(),
                    payload: enc_message(
                        crate::abba::message::MessageV {
                            tag: old(self).tag@,
                            action: crate::abba::message::ActionV::Decision(da),
                        },
                    ),
                },
            ))),
            old(self).wf() ==> ((msg.tag@ == old(self).tag@ && action_ok(
                old(self).pub_key_set,
                old(self).tag@,
                sender,
                msg.action@,
            )) ==> (msg.action@ matches crate::abba::message::ActionV::PreVote(a) ==> ((!old(
                self,
            ).has_pre_vote(a.round, sender) && a.round == old(self).r && old(self).pre_bucket(
                old(self).r,
            ).len() == threshold_of(old(self).pub_key_set) && res is Ok) ==> ({
                &&& final(self).r == old(self).r + 1
                &&& final(self).broadcaster@.gossip.len() == old(self).broadcaster@.gossip.len()
                    + 1
                &&& (exists|v: MainVoteValue, j: MainVoteJustV|
                    main_vote_just_ok(old(self).pub_key_set, old(self).tag@, old(self).r, v, j)
                        && #[trigger] final(self).broadcaster@.gossip.last()
                        == crate::bundle::BundleV {
                        initiator: old(self).broadcaster@.self_id,
                        module: MODULE_NAME.spec_bytes(),
                        payload: enc_message(
                            crate::abba::message::MessageV {
                                tag: old(self).tag@,
                                action: crate::abba::message::ActionV::MainVote(
                                    crate::abba::message::MainVoteActionV {
                                        round: old(self).r,
                                        value: v,
                                        justification: j,
                                        sig_share: share_sign_of(
                                            old(self).sec_key_share,
                                            main_vote_bytes(old(self).tag@, old(self).r, v),
                                        ),
                                    },
                                ),
                            },
                        ),
                    })
            })))),
            old(self).wf() ==> ((msg.tag@ == old(self).tag@ && action_ok(
                old(self).pub_key_set,
                old(self).tag@,
                sender,
                msg.action@,
            )) ==> (msg.action@ matches crate::abba::message::ActionV::MainVote(a) ==> ((!old(
                self,
            ).has_main_vote(a.round, sender) && a.round < old(self).r && old(self).r - a.round
                == 1 && old(self).decided_value is None && a.value == MainVoteValue::Value(
                Value::Zero,
            ) && count_main_votes(
                old(self).main_bucket(a.round),
                MainVoteValue::Value(Value::Zero),
            ) + 1 == threshold_of(old(self).pub_key_set) + 1 && res is Ok)
                ==> (final(self).decided_view() matches Some(d) && d.round == a.round && d.value
                == Value::Zero)))),
            old(self).wf() ==> ((msg.tag@ == old(self).tag@ && action_ok(
                old(self).pub_key_set,
                old(self).tag@,
                sender,
                msg.action@,
            )) ==> (msg.action@ matches crate::abba::message::ActionV::MainVote(a) ==> ((!old(
                self,
            ).has_main_vote(a.round, sender) && a.round < old(self).r && old(self).r - a.round
                == 1 && old(self).decided_value is None && a.value == MainVoteValue::Value(
                Value::One,
            ) && count_main_votes(
                old(self).main_bucket(a.round),
                MainVoteValue::Value(Value::Zero),
            ) != threshold_of(old(self).pub_key_set) + 1 && count_main_votes(
                old(self).main_bucket(a.round),
                MainVoteValue::Value(Value::One),
            ) + 1 == threshold_of(old(self).pub_key_set) + 1 && res is Ok)
                ==> (final(self).decided_view() matches Some(d) && d.round == a.round && d.value
                == Value::One)))),
            old(self).wf() ==> ((msg.tag@ == old(self).tag@ && action_ok(
                old(self).pub_key_set,
                old(self).tag@,
                sender,
                msg.action@,
            )) ==> (msg.action@ matches crate::abba::message::ActionV::PreVote(a) ==> (!old(
                self,
            ).has_pre_vote(a.round, sender) ==> final(self).pre_vote_stored(
                a.round,
                sender,
                a,
            )))),
            old(self).wf() ==> ((msg.tag@ == old(self).tag@ && action_ok(
                old(self).pub_key_set,
                old(self).tag@,
                sender,
                msg.action@,
            )) ==> (msg.action@ matches crate::abba::message::ActionV::MainVote(a) ==> (!old(
                self,
            ).has_main_vote(a.round, sender) ==> final(self).main_vote_stored(
                a.round,
                sender,
                a,
            )))),
            (msg.tag@ == old(self).tag@ && action_ok(
                old(self).pub_key_set,
                old(self).tag@,
                sender,
                msg.action@,
            ) && old(self).weak_validity is None) ==> (msg.action@
                matches crate::abba::message::ActionV::PreVote(a) ==> (a.justification
                matches PreVoteJustV::WithValidity(d, sg)
                ==> final(self).weak_validity_view() == Some((d, sg)))),
            final(self).broadcaster@.self_id == old(self).broadcaster@.self_id,
            final(self).broadcaster@.direct == old(self).broadcaster@.direct,
            final(self).broadcaster@.gossip.len() >= old(self).broadcaster@.gossip.len(),
            forall|bi: int|
                0 <= bi < old(self).broadcaster@.gossip.len()
                    ==> #[trigger] final(self).broadcaster@.gossip[bi]
                    == old(self).broadcaster@.gossip[bi],
            final(self).round_pre_votes@.len() >= old(self).round_pre_votes@.len(),
            forall|ri: int|
                0 <= ri < old(self).round_pre_votes@.len()
                    ==> (#[trigger] final(self).round_pre_votes@[ri])@.len()
                    >= old(self).round_pre_votes@[ri]@.len(),
            forall|ri: int, k: int|
                (0 <= ri < old(self).round_pre_votes@.len() && 0 <= k
                    < old(self).round_pre_votes@[ri]@.len())
                    ==> (#[trigger] final(self).round_pre_votes@[ri]@[k])
                    == old(self).round_pre_votes@[ri]@[k],
            final(self).round_main_votes@.len() >= old(self).round_main_votes@.len(),
            forall|ri: int|
                0 <= ri < old(self).round_main_votes@.len()
                    ==> (#[trigger] final(self).round_main_votes@[ri])@.len()
                    >= old(self).round_main_votes@[ri]@.len(),
            forall|ri: int, k: int|
                (0 <= ri < old(self).round_main_votes@.len() && 0 <= k
                    < old(self).round_main_votes@[ri]@.len())
                    ==> (#[trigger] final(self).round_main_votes@[ri]@[k])
                    == old(self).round_main_votes@[ri]@[k],
            old(self).same_instance(*final(self)),
            final(self).r >= old(self).r,
            (old(self).decided_view() matches Some(dv) ==> final(self).decided_view() == Some(
                dv,
            )),
            (old(self).weak_validity_view() matches Some(wv) ==> final(self).weak_validity_view()
                == Some(wv)),
            old(self).wf() ==> final(self).wf(),
            (msg.tag@ != old(self).tag@ ==> ({
                &&& *final(self) == *old(self)
                &&& (res matches Err(e) && e@ matches ErrorV::InvalidMessage(_))
            })),
            ((msg.tag@ == old(self).tag@ && !action_ok(
                old(self).pub_key_set,
                old(self).tag@,
                sender,
                msg.action@,
            )) ==> ({
                &&& *final(self) == *old(self)
                &&& (res matches Err(e) && e@ matches ErrorV::InvalidMessage(_))
            })),
            old(self).wf() ==> ((msg.tag@ == old(self).tag@ && action_ok(
                old(self).pub_key_set,
                old(self).tag@,
                sender,
                msg.action@,
            ) && (msg.action@ matches crate::abba::message::ActionV::PreVote(a) && old(
                self,
            ).has_pre_vote(a.round, sender) && !old(self).pre_vote_stored(a.round, sender, a)))
                ==> (res matches Err(e) && e@ matches ErrorV::InvalidMessage(_))),
            old(self).wf() ==> ((msg.tag@ == old(self).tag@ && action_ok(
                old(self).pub_key_set,
                old(self).tag@,
                sender,
                msg.action@,
            ) && (msg.action@ matches crate::abba::message::ActionV::MainVote(a) && old(
                self,
            ).has_main_vote(a.round, sender) && !old(self).main_vote_stored(a.round, sender, a)))
                ==> (res matches Err(e) && e@ matches ErrorV::InvalidMessage(_))),
            old(self).wf() ==> ((msg.tag@ == old(self).tag@ && action_ok(
                old(self).pub_key_set,
                old(self).tag@,
                sender,
                msg.action@,
            ) && (msg.action@ matches crate::abba::message::ActionV::PreVote(a) && old(
                self,
            ).pre_vote_stored(a.round, sender, a))) ==> (res is Ok
                && final(self).round_pre_votes@ == old(self).round_pre_votes@
                && final(self).round_main_votes@ == old(self).round_main_votes@
                && final(self).r == old(self).r
                && final(self).decided_value == old(self).decided_value
                && final(self).broadcaster == old(self).broadcaster
                && final(pending)@ == old(pending)@)),
            old(self).wf() ==> ((msg.tag@ == old(self).tag@ && action_ok(
                old(self).pub_key_set,
                old(self).tag@,
                sender,
                msg.action@,
            ) && (msg.action@ matches crate::abba::message::ActionV::MainVote(a) && old(
                self,
            ).main_vote_stored(a.round, sender, a))) ==> (res is Ok
                && final(self).round_pre_votes@ == old(self).round_pre_votes@
                && final(self).round_main_votes@ == old(self).round_main_votes@
                && final(self).r == old(self).r
                && final(self).decided_value == old(self).decided_value
                && final(self).weak_validity == old(self).weak_validity
                && final(self).broadcaster == old(self).broadcaster
                && final(pending)@ == old(pending)@)),
            ((msg.tag@ == old(self).tag@ && action_ok(
                old(self).pub_key_set,
                old(self).tag@,
                sender,
                msg.action@,
            ) && (msg.action@ matches crate::abba::message::ActionV::Decision(da) && old(
                self,
            ).decided_view() == Some(da))) ==> (*final(self) == *old(self) && final(pending)@
                == old(pending)@ && res is Ok)),
            (msg.tag@ == old(self).tag@ ==> (msg.action@
                matches crate::abba::message::ActionV::Decision(da) ==> ((old(self).decided_value
                is None && action_ok(old(self).pub_key_set, old(self).tag@, sender, msg.action@)
                && res is Ok) ==> final(self).decided_view() == Some(da)))),
    {
        match self.check_message(sender, msg) {
            Ok(()) => {},
            Err(e) => {
                return Err(e);
            },
        }
        self.latch_validity(msg);
        proof {
            match msg.action@ {
                crate::abba::message::ActionV::PreVote(a) => {
                    assert(self.pre_bucket(a.round) == old(self).pre_bucket(a.round));
                },
                crate::abba::message::ActionV::MainVote(a) => {
                    assert(self.main_bucket(a.round) == old(self).main_bucket(a.round));
                },
                crate::abba::message::ActionV::Decision(_) => {},
            }
        }
        let fresh = match self.add_message(sender, msg) {
            Ok(b) => b,
            Err(e) => {
                return Err(e);
            },
        };
        if !fresh {
            return Ok(());
        }
        let ghost stored_state: Abba = *self;
        let res2 = match &msg.action {
            Action::Decision(a) => self.process_decision(a.clone(), pending),
            Action::MainVote(a) => self.process_main_vote(a.clone(), pending),
            Action::PreVote(a) => self.process_pre_vote(a.clone(), pending),
        };
        proof {
            match msg.action@ {
                crate::abba::message::ActionV::PreVote(a) => {
                    assert(self.pre_bucket(a.round) == stored_state.pre_bucket(a.round));
                },
                crate::abba::message::ActionV::MainVote(a) => {
                    assert(self.main_bucket(a.round) == stored_state.main_bucket(a.round));
                    if old(self).wf() && !old(self).has_main_vote(a.round, sender) {
                        let bpost = stored_state.main_bucket(a.round);
                        let bold = old(self).main_bucket(a.round);
                        assert(bpost.len() == bold.len() + 1 && bpost.drop_last() == bold);
                        assert(bpost.last().1.value == a.value);
                        assert(count_main_votes(bpost, MainVoteValue::Value(Value::Zero))
                            == count_main_votes(bold, MainVoteValue::Value(Value::Zero)) + (
                        if a.value == MainVoteValue::Value(Value::Zero) {
                            1nat
                        } else {
                            0nat
                        }));
                        assert(count_main_votes(bpost, MainVoteValue::Value(Value::One))
                            == count_main_votes(bold, MainVoteValue::Value(Value::One)) + (
                        if a.value == MainVoteValue::Value(Value::One) {
                            1nat
                        } else {
                            0nat
                        }));
                    }
                },
                crate::abba::message::ActionV::Decision(_) => {},
            }
        }
        res2
    }

    /// Processes the queued local copies of outbound messages until none are
    /// left.
    fn drain(&mut self, pending: &mut Vec<Message>) -> (res: Result<(), Error>)
        ensures
            final(self).broadcaster@.self_id == old(self).broadcaster@.self_id,
            final(self).broadcaster@.direct == old(self).broadcaster@.direct,
            final(self).broadcaster@.gossip.len() >= old(self).broadcaster@.gossip.len(),
            forall|bi: int|
                0 <= bi < old(self).broadcaster@.gossip.len()
                    ==> #[trigger] final(self).broadcaster@.gossip[bi]
                    == old(self).broadcaster@.gossip[bi],
            final(self).round_pre_votes@.len() >= old(self).round_pre_votes@.len(),
            forall|ri: int|
                0 <= ri < old(self).round_pre_votes@.len()
                    ==> (#[trigger] final(self).round_pre_votes@[ri])@.len()
                    >= old(self).round_pre_votes@[ri]@.len(),
            forall|ri: int, k: int|
                (0 <= ri < old(self).round_pre_votes@.len() && 0 <= k
                    < old(self).round_pre_votes@[ri]@.len())
                    ==> (#[trigger] final(self).round_pre_votes@[ri]@[k])
                    == old(self).round_pre_votes@[ri]@[k],
            final(self).round_main_votes@.len() >= old(self).round_main_votes@.len(),
            forall|ri: int|
                0 <= ri < old(self).round_main_votes@.len()
                    ==> (#[trigger] final(self).round_main_votes@[ri])@.len()
                    >= old(self).round_main_votes@[ri]@.len(),
            forall|ri: int, k: int|
                (0 <= ri < old(self).round_main_votes@.len() && 0 <= k
                    < old(self).round_main_votes@[ri]@.len())
                    ==> (#[trigger] final(self).round_main_votes@[ri]@[k])
                    == old(self).round_main_votes@[ri]@[k],
            old(self).same_instance(*final(self)),
            final(self).r >= old(self).r,
            (old(self).decided_view() matches Some(dv) ==> final(self).decided_view() == Some(
                dv,
            )),
            (old(self).weak_validity_view() matches Some(wv) ==> final(self).weak_validity_view()
                == Some(wv)),
            old(self).wf() ==> final(self).wf(),
            old(pending)@.len() == 0 ==> (*final(self) == *old(self) && res is Ok),
    {
        if pending.is_empty() {
            return Ok(());
        }
        // The cascade settles after a handful of steps; the fuel only makes
        // termination checkable and is never exhausted by a real run.
        let mut fuel: usize = usize::MAX;
        loop
            invariant
                old(pending)@.len() != 0,
                old(self).same_instance(*self),
                self.broadcaster@.self_id == old(self).broadcaster@.self_id,
                self.broadcaster@.direct == old(self).broadcaster@.direct,
                self.broadcaster@.gossip.len() >= old(self).broadcaster@.gossip.len(),
                forall|bi: int|
                    0 <= bi < old(self).broadcaster@.gossip.len()
                        ==> #[trigger] self.broadcaster@.gossip[bi]
                        == old(self).broadcaster@.gossip[bi],

                self.round_pre_votes@.len() >= old(self).round_pre_votes@.len(),
                forall|ri: int|
                    0 <= ri < old(self).round_pre_votes@.len()
                        ==> (#[trigger] self.round_pre_votes@[ri])@.len()
                        >= old(self).round_pre_votes@[ri]@.len(),
                forall|ri: int, k: int|
                    (0 <= ri < old(self).round_pre_votes@.len() && 0 <= k
                        < old(self).round_pre_votes@[ri]@.len())
                        ==> (#[trigger] self.round_pre_votes@[ri]@[k])
                        == old(self).round_pre_votes@[ri]@[k],
                self.round_main_votes@.len() >= old(self).round_main_votes@.len(),
                forall|ri: int|
                    0 <= ri < old(self).round_main_votes@.len()
                        ==> (#[trigger] self.round_main_votes@[ri])@.len()
                        >= old(self).round_main_votes@[ri]@.len(),
                forall|ri: int, k: int|
                    (0 <= ri < old(self).round_main_votes@.len() && 0 <= k
                        < old(self).round_main_votes@[ri]@.len())
                        ==> (#[trigger] self.round_main_votes@[ri]@[k])
                        == old(self).round_main_votes@[ri]@[k],

                self.r >= old(self).r,
                (old(self).decided_view() matches Some(dv) ==> self.decided_view() == Some(dv)),
                (old(self).weak_validity_view() matches Some(wv) ==> self.weak_validity_view()
                    == Some(wv)),
                old(self).wf() ==> self.wf(),
            decreases fuel,
        {
            if pending.is_empty() {
                return Ok(());
            }
            if fuel == 0 {
                return Err(Error::Generic("message cascade did not settle".to_owned()));
            }
            fuel = fuel - 1;
            let msg = pending.remove(0);
            let me = self.i;
            let step = self.handle_message(me, &msg, pending);
            match step {
                Ok(()) => {},
                Err(e) => {
                    return Err(e);
                },
            }
        }
    }

    /// Casts this party's pre-vote for the current round: broadcasts the
    /// message to every peer and processes the cascade it triggers.
    fn pre_vote(&mut self, value: Value, justification: PreVoteJustification) -> (res: Result<
        (),
        Error,
    >)
        ensures
            old(self).same_instance(*final(self)),
            final(self).r >= old(self).r,
            (old(self).decided_view() matches Some(dv) ==> final(self).decided_view() == Some(
                dv,
            )),
            (old(self).weak_validity_view() matches Some(wv) ==> final(self).weak_validity_view()
                == Some(wv)),
            old(self).wf() ==> final(self).wf(),
            final(self).broadcaster@.self_id == old(self).broadcaster@.self_id,
            final(self).broadcaster@.direct == old(self).broadcaster@.direct,
            final(self).broadcaster@.gossip.len() > old(self).broadcaster@.gossip.len(),
            forall|bi: int|
                0 <= bi < old(self).broadcaster@.gossip.len()
                    ==> #[trigger] final(self).broadcaster@.gossip[bi]
                    == old(self).broadcaster@.gossip[bi],
            (final(self).broadcaster@.gossip[old(self).broadcaster@.gossip.len() as int]
                == crate::bundle::BundleV {
                initiator: old(self).broadcaster@.self_id,
                module: MODULE_NAME.spec_bytes(),
                payload: enc_message(
                    crate::abba::message::MessageV {
                        tag: old(self).tag@,
                        action: crate::abba::message::ActionV::PreVote(
                            crate::abba::message::PreVoteActionV {
                                round: old(self).r,
                                value: value,
                                justification: justification@,
                                sig_share: share_sign_of(
                                    old(self).sec_key_share,
                                    pre_vote_bytes(old(self).tag@, old(self).r, value),
                                ),
                            },
                        ),
                    },
                ),
            }),
            old(self).wf() ==> (res is Ok ==> final(self).pre_vote_stored(
                old(self).r,
                old(self).i,
                crate::abba::message::PreVoteActionV {
                    round: old(self).r,
                    value: value,
                    justification: justification@,
                    sig_share: share_sign_of(
                        old(self).sec_key_share,
                        pre_vote_bytes(old(self).tag@, old(self).r, value),
                    ),
                },
            )),
    {
        let sb = self.pre_vote_bytes_to_sign(self.r, &value);
        let share = sign_share(&self.sec_key_share, sb.as_slice());
        let m = Message {
            tag: self.tag.clone(),
            action: Action::PreVote(
                PreVoteAction { round: self.r, value, justification, sig_share: share },
            ),
        };
        let data = message::encode_message(&m);
        self.broadcaster.broadcast(MODULE_NAME, data);
        let ghost pre_call: Abba = *self;
        proof {
            if old(self).wf() {
                assert(pre_call.wf());
            }
        }
        let mut pending: Vec<Message> = Vec::new();
        let me = self.i;
        let step = self.handle_message(me, &m, &mut pending);
        match step {
            Ok(()) => {},
            Err(e) => {
                return Err(e);
            },
        }
        let ghost mid: Abba = *self;
        proof {
            if old(self).wf() {
                let a = m@.action->PreVote_0;
                assert(m.tag@ == pre_call.tag@);
                assert(a.round == pre_call.r);
                assert(action_ok(pre_call.pub_key_set, pre_call.tag@, me, m@.action));
                assert(pre_call.pre_bucket(a.round) == old(self).pre_bucket(a.round));
                if !pre_call.has_pre_vote(a.round, me) {
                    assert(mid.pre_vote_stored(a.round, me, a));
                } else {
                    assert(!(pre_call.has_pre_vote(a.round, me) && !pre_call.pre_vote_stored(
                        a.round,
                        me,
                        a,
                    )));
                    assert(pre_call.pre_vote_stored(a.round, me, a));
                    assert(mid.round_pre_votes@ == pre_call.round_pre_votes@);
                    assert(mid.pre_bucket(a.round) == pre_call.pre_bucket(a.round));
                    assert(mid.pre_vote_stored(a.round, me, a));
                }
                assert(mid.pre_vote_stored(old(self).r, old(self).i, a));
            }
        }
        let dres = self.drain(&mut pending);
        proof {
            if old(self).wf() {
                let a = m@.action->PreVote_0;
                let b0 = mid.pre_bucket(old(self).r);
                let k = choose|k: int|
                    0 <= k < b0.len() && (#[trigger] b0[k]).0 == old(self).i && b0[k].1@ == a;
                assert(1 <= old(self).r && old(self).r <= mid.round_pre_votes@.len());
                assert(self.round_pre_votes@[old(self).r - 1]@[k]
                    == mid.round_pre_votes@[old(self).r - 1]@[k]);
                assert((#[trigger] self.pre_bucket(old(self).r)[k]).0 == old(self).i
                    && self.pre_bucket(old(self).r)[k].1@ == a);
                assert(self.pre_vote_stored(old(self).r, old(self).i, a));
            }
        }
        dres
    }

    /// Starts the agreement by broadcasting a pre-vote for zero under the
    /// bare first-round justification: the message, signed over the current
    /// round's canonical pre-vote bytes, is queued for every peer, and this
    /// party's own vote is admitted to its bucket.
    pub fn pre_vote_zero(&mut self) -> (res: Result<(), Error>)
        ensures
            old(self).same_instance(*final(self)),
            final(self).r >= old(self).r,
            (old(self).decided_view() matches Some(dv) ==> final(self).decided_view() == Some(
                dv,
            )),
            old(self).wf() ==> final(self).wf(),
            final(self).broadcaster@.self_id == old(self).broadcaster@.self_id,
            final(self).broadcaster@.direct == old(self).broadcaster@.direct,
            final(self).broadcaster@.gossip.len() > old(self).broadcaster@.gossip.len(),
            forall|bi: int|
                0 <= bi < old(self).broadcaster@.gossip.len()
                    ==> #[trigger] final(self).broadcaster@.gossip[bi]
                    == old(self).broadcaster@.gossip[bi],
            (final(self).broadcaster@.gossip[old(self).broadcaster@.gossip.len() as int]
                == crate::bundle::BundleV {
                initiator: old(self).broadcaster@.self_id,
                module: MODULE_NAME.spec_bytes(),
                payload: enc_message(
                    crate::abba::message::MessageV {
                        tag: old(self).tag@,
                        action: crate::abba::message::ActionV::PreVote(
                            crate::abba::message::PreVoteActionV {
                                round: old(self).r,
                                value: Value::Zero,
                                justification: PreVoteJustV::FirstRoundZero,
                                sig_share: share_sign_of(
                                    old(self).sec_key_share,
                                    pre_vote_bytes(old(self).tag@, old(self).r, Value::Zero),
                                ),
                            },
                        ),
                    },
                ),
            }),
            old(self).wf() ==> (res is Ok ==> final(self).pre_vote_stored(
                old(self).r,
                old(self).i,
                crate::abba::message::PreVoteActionV {
                    round: old(self).r,
                    value: Value::Zero,
                    justification: PreVoteJustV::FirstRoundZero,
                    sig_share: share_sign_of(
                        old(self).sec_key_share,
                        pre_vote_bytes(old(self).tag@, old(self).r, Value::Zero),
                    ),
                },
            )),
    {
        self.pre_vote(Value::Zero, PreVoteJustification::FirstRoundZero)
    }

    /// Starts the agreement by broadcasting a pre-vote for one, justified by
    /// a broadcast certificate: the digest of the certified proposal and the
    /// aggregate signature over its c-ready bytes.  A certificate that does
    /// not verify is refused outright and nothing is sent; otherwise the
    /// signed message is queued for every peer and this party's own vote is
    /// admitted to its bucket.
    pub fn pre_vote_one(&mut self, digest: Hash32, sig: Sig) -> (res: Result<(), Error>)
        ensures
            old(self).same_instance(*final(self)),
            final(self).r >= old(self).r,
            (old(self).decided_view() matches Some(dv) ==> final(self).decided_view() == Some(
                dv,
            )),
            old(self).wf() ==> final(self).wf(),
            final(self).broadcaster@.self_id == old(self).broadcaster@.self_id,
            final(self).broadcaster@.direct == old(self).broadcaster@.direct,
            forall|bi: int|
                0 <= bi < old(self).broadcaster@.gossip.len()
                    ==> #[trigger] final(self).broadcaster@.gossip[bi]
                    == old(self).broadcaster@.gossip[bi],
            (!agg_verified(
                old(self).pub_key_set,
                sig@,
                c_ready_bytes(old(self).tag@, digest@),
            ) ==> ({
                &&& *final(self) == *old(self)
                &&& (res matches Err(e) && e@ == ErrorV::InvalidMessage(
                    "invalid signature for the VCBC proposal"@,
                ))
            })),
            (agg_verified(old(self).pub_key_set, sig@, c_ready_bytes(old(self).tag@, digest@))
                ==> ({
                &&& final(self).broadcaster@.gossip.len() > old(self).broadcaster@.gossip.len()
                &&& final(self).broadcaster@.gossip[old(self).broadcaster@.gossip.len() as int]
                    == crate::bundle::BundleV {
                    initiator: old(self).broadcaster@.self_id,
                    module: MODULE_NAME.spec_bytes(),
                    payload: enc_message(
                        crate::abba::message::MessageV {
                            tag: old(self).tag@,
                            action: crate::abba::message::ActionV::PreVote(
                                crate::abba::message::PreVoteActionV {
                                    round: old(self).r,
                                    value: Value::One,
                                    justification: PreVoteJustV::WithValidity(digest@, sig@),
                                    sig_share: share_sign_of(
                                        old(self).sec_key_share,
                                        pre_vote_bytes(old(self).tag@, old(self).r, Value::One),
                                    ),
                                },
                            ),
                        },
                    ),
                }
            })),
            old(self).wf() ==> ((agg_verified(
                old(self).pub_key_set,
                sig@,
                c_ready_bytes(old(self).tag@, digest@),
            ) && res is Ok) ==> final(self).pre_vote_stored(
                old(self).r,
                old(self).i,
                crate::abba::message::PreVoteActionV {
                    round: old(self).r,
                    value: Value::One,
                    justification: PreVoteJustV::WithValidity(digest@, sig@),
                    sig_share: share_sign_of(
                        old(self).sec_key_share,
                        pre_vote_bytes(old(self).tag@, old(self).r, Value::One),
                    ),
                },
            )),
    {
        let sign_bytes = crate::vcbc::c_ready_bytes_to_sign(&self.tag, &digest);
        if !verify_agg(&self.pub_key_set, &sig, sign_bytes.as_slice()) {
            return Err(
                Error::InvalidMessage("invalid signature for the VCBC proposal".to_owned()),
            );
        }
        self.pre_vote(Value::One, PreVoteJustification::WithValidity(digest, sig))
    }

    /// Processes one inbound message from `sender`, with every cascaded
    /// reaction, and reports how the message was disposed of.
    ///
    /// The instance identity never changes and the round never decreases.  A
    /// decision and a latched certificate, once set, keep their values.
    /// Well-formed states stay well-formed, so every stored vote passed every
    /// validation and a decision's signature verifies over its round's
    /// main-vote bytes.  A message whose tag is not this instance's is
    /// refused and the state is left untouched; so is any message that fails
    /// validation, among them a first-round pre-vote for one without a
    /// validity certificate and a first-round pre-vote for zero with any
    /// justification besides the bare first-round form.  A second, differing
    /// vote from a sender who already voted in that round is refused as
    /// detected equivocation, and an exact repeat is an accepted no-op.
    ///
    /// Progress is promised, not just preservation: a fresh valid vote is
    /// admitted to its round's bucket; the first certificate carried by a
    /// pre-vote is latched; the pre-vote that fills the current round's
    /// bucket puts this party's signed main-vote on the outbound queue and
    /// advances the round; the main-vote that completes a one-valued quorum
    /// of the round just ended decides that value; and a fresh valid
    /// decision is latched and amplified to all peers.
    pub fn receive_message(&mut self, sender: NodeId, msg: Message) -> (res: Result<(), Error>)
        ensures
            ((old(self).wf() && msg.tag@ == old(self).tag@ && action_ok(
                old(self).pub_key_set,
                old(self).tag@,
                sender,
                msg.action@,
            )) ==> (msg.action@ matches crate::abba::message::ActionV::PreVote(a) ==> ((old(
                self,
            ).has_pre_vote(a.round, sender) && !old(self).pre_vote_stored(a.round, sender, a))
                ==> (res matches Err(e) && e@ == ErrorV::InvalidMessage(
                ascii_chars(double_pre_vote_text(sender)),
            ))))),
            ((old(self).wf() && msg.tag@ == old(self).tag@ && action_ok(
                old(self).pub_key_set,
                old(self).tag@,
                sender,
                msg.action@,
            )) ==> (msg.action@ matches crate::abba::message::ActionV::MainVote(a) ==> ((old(
                self,
            ).has_main_vote(a.round, sender) && !old(self).main_vote_stored(a.round, sender, a))
                ==> (res matches Err(e) && e@ == ErrorV::InvalidMessage(
                ascii_chars(double_main_vote_text(sender)),
            ))))),
            (msg.tag@ != old(self).tag@ ==> (res matches Err(e) && (is_ascii_bytes(
                invalid_tag_text(old(self).tag@, msg.tag@),
            ) ==> e@ == ErrorV::InvalidMessage(
                ascii_chars(invalid_tag_text(old(self).tag@, msg.tag@)),
            )))),
            ((msg.tag@ == old(self).tag@ && (msg.action@
                matches crate::abba::message::ActionV::PreVote(a) && share_verified(
                old(self).pub_key_set,
                sender,
                a.sig_share,
                pre_vote_bytes(old(self).tag@, a.round, a.value),
            ) && a.round == 1 && a.value == Value::One && (a.justification
                matches PreVoteJustV::FirstRoundZero))) ==> (res matches Err(e) && e@
                == ErrorV::InvalidMessage("initial value should be zero"@))),
            ((msg.tag@ == old(self).tag@ && (msg.action@
                matches crate::abba::message::ActionV::PreVote(a) && share_verified(
                old(self).pub_key_set,
                sender,
                a.sig_share,
                pre_vote_bytes(old(self).tag@, a.round, a.value),
            ) && a.round >= 1 && a.value == Value::Zero && (a.justification
                matches PreVoteJustV::WithValidity(d, sg) && agg_verified(
                old(self).pub_key_set,
                sg,
                c_ready_bytes(old(self).tag@, d),
            )))) ==> (res matches Err(e) && e@ == ErrorV::InvalidMessage(
                "initial value should be one"@,
            ))),
            ((msg.tag@ == old(self).tag@ && (msg.action@
                matches crate::abba::message::ActionV::PreVote(a) && !share_verified(
                old(self).pub_key_set,
                sender,
                a.sig_share,
                pre_vote_bytes(old(self).tag@, a.round, a.value),
            ))) ==> (res matches Err(e) && e@ == ErrorV::InvalidMessage(
                "invalid signature share"@,
            ))),
            ((msg.tag@ == old(self).tag@ && (msg.action@
                matches crate::abba::message::ActionV::PreVote(a) && share_verified(
                old(self).pub_key_set,
                sender,
                a.sig_share,
                pre_vote_bytes(old(self).tag@, a.round, a.value),
            ) && a.round >= 1 && (a.justification matches PreVoteJustV::WithValidity(d, sg)
                && !agg_verified(old(self).pub_key_set, sg, c_ready_bytes(old(self).tag@, d))))) ==> (res
                matches Err(e) && e@ == ErrorV::InvalidMessage(
                "invalid signature for the VCBC proposal"@,
            ))),
            ((msg.tag@ == old(self).tag@ && (msg.action@
                matches crate::abba::message::ActionV::MainVote(a) && a.round >= 1
                && share_verified(
                old(self).pub_key_set,
                sender,
                a.sig_share,
                main_vote_bytes(old(self).tag@, a.round, a.value),
            ) && a.value == MainVoteValue::Abstain && (a.justification
                matches MainVoteJustV::Abstain(j0, j1) && pre_vote_just_ok(
                old(self).pub_key_set,
                old(self).tag@,
                a.round,
                Value::Zero,
                j0,
            ) && (j1 matches PreVoteJustV::WithValidity(d, sg) && !agg_verified(
                old(self).pub_key_set,
                sg,
                c_ready_bytes(old(self).tag@, d),
            ))))) ==> (res matches Err(e) && e@ == ErrorV::InvalidMessage(
                "invalid signature for the VCBC proposal"@,
            ))),
            ((msg.tag@ == old(self).tag@ && (msg.action@
                matches crate::abba::message::ActionV::Decision(a) && !agg_verified(
                old(self).pub_key_set,
                a.sig,
                main_vote_bytes(old(self).tag@, a.round, MainVoteValue::Value(a.value)),
            ))) ==> (res matches Err(e) && e@ == ErrorV::InvalidMessage("invalid signature"@))),
            (msg.tag@ == old(self).tag@ && action_ok(
                old(self).pub_key_set,
                old(self).tag@,
                sender,
                msg.action@,
            )) ==> (msg.action@ matches crate::abba::message::ActionV::Decision(da) ==> (old(
                self,
            ).decided_view() matches Some(dv) ==> (dv != da ==> (res matches Err(e) && e@
                == ErrorV::Generic("received conflicting decision"@))))),
            (msg.tag@ == old(self).tag@ && action_ok(
                old(self).pub_key_set,
                old(self).tag@,
                sender,
                msg.action@,
            ) && old(self).decided_value is None) ==> (msg.action@
                matches crate::abba::message::ActionV::Decision(da) ==> ({
                &&& final(self).decided_view() == Some(da)
                &&& final(self).broadcaster@.gossip.len() > old(self).broadcaster@.gossip.len()
                &&& final(self).broadcaster@.gossip[old(self).broadcaster@.gossip.len() as int]
                    == crate::bundle::BundleV {
                    initiator: old(self).broadcaster@.self_id,
                    module: MODULE_NAME.spec_bytes(),
                    payload: enc_message(
                        crate::abba::message::MessageV {
                            tag: old(self).tag@,
                            action: crate::abba::message::ActionV::Decision(da),
                        },
                    ),
                }
            })),
            old(self).wf() ==> ((msg.tag@ == old(self).tag@ && action_ok(
                old(self).pub_key_set,
                old(self).tag@,
                sender,
                msg.action@,
            )) ==> (msg.action@ matches crate::abba::message::ActionV::PreVote(a) ==> ((!old(
                self,
            ).has_pre_vote(a.round, sender) && a.round == old(self).r && old(self).pre_bucket(
                old(self).r,
            ).len() == threshold_of(old(self).pub_key_set) && res is Ok) ==> ({
                &&& final(self).r > old(self).r
                &&& final(self).broadcaster@.gossip.len() > old(self).broadcaster@.gossip.len()
                &&& (exists|v: MainVoteValue, j: MainVoteJustV|
                    main_vote_just_ok(old(self).pub_key_set, old(self).tag@, old(self).r, v, j)
                        && #[trigger] final(self).broadcaster@.gossip[old(
                        self,
                    ).broadcaster@.gossip.len() as int] == crate::bundle::BundleV {
                        initiator: old(self).broadcaster@.self_id,
                        module: MODULE_NAME.spec_bytes(),
                        payload: enc_message(
                            crate::abba::message::MessageV {
                                tag: old(self).tag@,
                                action: crate::abba::message::ActionV::MainVote(
                                    crate::abba::message::MainVoteActionV {
                                        round: old(self).r,
                                        value: v,
                                        justification: j,
                                        sig_share: share_sign_of(
                                            old(self).sec_key_share,
                                            main_vote_bytes(old(self).tag@, old(self).r, v),
                                        ),
                                    },
                                ),
                            },
                        ),
                    })
            })))),
            old(self).wf() ==> ((msg.tag@ == old(self).tag@ && action_ok(
                old(self).pub_key_set,
                old(self).tag@,
                sender,
                msg.action@,
            )) ==> (msg.action@ matches crate::abba::message::ActionV::MainVote(a) ==> ((!old(
                self,
            ).has_main_vote(a.round, sender) && a.round < old(self).r && old(self).r - a.round
                == 1 && old(self).decided_value is None && a.value == MainVoteValue::Value(
                Value::Zero,
            ) && count_main_votes(
                old(self).main_bucket(a.round),
                MainVoteValue::Value(Value::Zero),
            ) + 1 == threshold_of(old(self).pub_key_set) + 1 && res is Ok)
                ==> (final(self).decided_view() matches Some(d) && d.round == a.round && d.value
                == Value::Zero)))),
            old(self).wf() ==> ((msg.tag@ == old(self).tag@ && action_ok(
                old(self).pub_key_set,
                old(self).tag@,
                sender,
                msg.action@,
            )) ==> (msg.action@ matches crate::abba::message::ActionV::MainVote(a) ==> ((!old(
                self,
            ).has_main_vote(a.round, sender) && a.round < old(self).r && old(self).r - a.round
                == 1 && old(self).decided_value is None && a.value == MainVoteValue::Value(
                Value::One,
            ) && count_main_votes(
                old(self).main_bucket(a.round),
                MainVoteValue::Value(Value::Zero),
            ) != threshold_of(old(self).pub_key_set) + 1 && count_main_votes(
                old(self).main_bucket(a.round),
                MainVoteValue::Value(Value::One),
            ) + 1 == threshold_of(old(self).pub_key_set) + 1 && res is Ok)
                ==> (final(self).decided_view() matches Some(d) && d.round == a.round && d.value
                == Value::One)))),
            old(self).wf() ==> ((msg.tag@ == old(self).tag@ && action_ok(
                old(self).pub_key_set,
                old(self).tag@,
                sender,
                msg.action@,
            )) ==> (msg.action@ matches crate::abba::message::ActionV::PreVote(a) ==> (!old(
                self,
            ).has_pre_vote(a.round, sender) ==> final(self).pre_vote_stored(
                a.round,
                sender,
                a,
            )))),
            old(self).wf() ==> ((msg.tag@ == old(self).tag@ && action_ok(
                old(self).pub_key_set,
                old(self).tag@,
                sender,
                msg.action@,
            )) ==> (msg.action@ matches crate::abba::message::ActionV::MainVote(a) ==> (!old(
                self,
            ).has_main_vote(a.round, sender) ==> final(self).main_vote_stored(
                a.round,
                sender,
                a,
            )))),
            (msg.tag@ == old(self).tag@ && action_ok(
                old(self).pub_key_set,
                old(self).tag@,
                sender,
                msg.action@,
            ) && old(self).weak_validity is None) ==> (msg.action@
                matches crate::abba::message::ActionV::PreVote(a) ==> (a.justification
                matches PreVoteJustV::WithValidity(d, sg)
                ==> final(self).weak_validity_view() == Some((d, sg)))),
            final(self).broadcaster@.self_id == old(self).broadcaster@.self_id,
            final(self).broadcaster@.direct == old(self).broadcaster@.direct,
            final(self).broadcaster@.gossip.len() >= old(self).broadcaster@.gossip.len(),
            forall|bi: int|
                0 <= bi < old(self).broadcaster@.gossip.len()
                    ==> #[trigger] final(self).broadcaster@.gossip[bi]
                    == old(self).broadcaster@.gossip[bi],
            final(self).round_pre_votes@.len() >= old(self).round_pre_votes@.len(),
            forall|ri: int|
                0 <= ri < old(self).round_pre_votes@.len()
                    ==> (#[trigger] final(self).round_pre_votes@[ri])@.len()
                    >= old(self).round_pre_votes@[ri]@.len(),
            forall|ri: int, k: int|
                (0 <= ri < old(self).round_pre_votes@.len() && 0 <= k
                    < old(self).round_pre_votes@[ri]@.len())
                    ==> (#[trigger] final(self).round_pre_votes@[ri]@[k])
                    == old(self).round_pre_votes@[ri]@[k],
            final(self).round_main_votes@.len() >= old(self).round_main_votes@.len(),
            forall|ri: int|
                0 <= ri < old(self).round_main_votes@.len()
                    ==> (#[trigger] final(self).round_main_votes@[ri])@.len()
                    >= old(self).round_main_votes@[ri]@.len(),
            forall|ri: int, k: int|
                (0 <= ri < old(self).round_main_votes@.len() && 0 <= k
                    < old(self).round_main_votes@[ri]@.len())
                    ==> (#[trigger] final(self).round_main_votes@[ri]@[k])
                    == old(self).round_main_votes@[ri]@[k],
            old(self).same_instance(*final(self)),
            final(self).r >= old(self).r,
            (old(self).decided_view() matches Some(dv) ==> final(self).decided_view() == Some(
                dv,
            )),
            (old(self).weak_validity_view() matches Some(wv) ==> final(self).weak_validity_view()
                == Some(wv)),
            old(self).wf() ==> final(self).wf(),
            (msg.tag@ != old(self).tag@ ==> ({
                &&& *final(self) == *old(self)
                &&& (res matches Err(e) && e@ matches ErrorV::InvalidMessage(_))
            })),
            ((msg.tag@ == old(self).tag@ && !action_ok(
                old(self).pub_key_set,
                old(self).tag@,
                sender,
                msg.action@,
            )) ==> ({
                &&& *final(self) == *old(self)
                &&& (res matches Err(e) && e@ matches ErrorV::InvalidMessage(_))
            })),
            ((msg.tag@ == old(self).tag@ && (msg.action@
                matches crate::abba::message::ActionV::PreVote(a) && a.round == 1 && a.value
                == Value::One && !(a.justification matches PreVoteJustV::WithValidity(_, _))))
                ==> res is Err),
            ((msg.tag@ == old(self).tag@ && (msg.action@
                matches crate::abba::message::ActionV::PreVote(a) && a.round == 1 && a.value
                == Value::Zero && !(a.justification matches PreVoteJustV::FirstRoundZero))) ==> res
                is Err),
            old(self).wf() ==> ((msg.tag@ == old(self).tag@ && action_ok(
                old(self).pub_key_set,
                old(self).tag@,
                sender,
                msg.action@,
            ) && (msg.action@ matches crate::abba::message::ActionV::PreVote(a) && old(
                self,
            ).has_pre_vote(a.round, sender) && !old(self).pre_vote_stored(a.round, sender, a)))
                ==> (res matches Err(e) && e@ matches ErrorV::InvalidMessage(_))),
            old(self).wf() ==> ((msg.tag@ == old(self).tag@ && action_ok(
                old(self).pub_key_set,
                old(self).tag@,
                sender,
                msg.action@,
            ) && (msg.action@ matches crate::abba::message::ActionV::MainVote(a) && old(
                self,
            ).has_main_vote(a.round, sender) && !old(self).main_vote_stored(a.round, sender, a)))
                ==> (res matches Err(e) && e@ matches ErrorV::InvalidMessage(_))),
            old(self).wf() ==> ((msg.tag@ == old(self).tag@ && action_ok(
                old(self).pub_key_set,
                old(self).tag@,
                sender,
                msg.action@,
            ) && (msg.action@ matches crate::abba::message::ActionV::PreVote(a) && old(
                self,
            ).pre_vote_stored(a.round, sender, a))) ==> (res is Ok
                && final(self).round_pre_votes@ == old(self).round_pre_votes@
                && final(self).round_main_votes@ == old(self).round_main_votes@
                && final(self).r == old(self).r
                && final(self).decided_value == old(self).decided_value
                && final(self).broadcaster == old(self).broadcaster)),
            old(self).wf() ==> ((msg.tag@ == old(self).tag@ && action_ok(
                old(self).pub_key_set,
                old(self).tag@,
                sender,
                msg.action@,
            ) && (msg.action@ matches crate::abba::message::ActionV::MainVote(a) && old(
                self,
            ).main_vote_stored(a.round, sender, a))) ==> (res is Ok
                && final(self).round_pre_votes@ == old(self).round_pre_votes@
                && final(self).round_main_votes@ == old(self).round_main_votes@
                && final(self).r == old(self).r
                && final(self).decided_value == old(self).decided_value
                && final(self).weak_validity == old(self).weak_validity
                && final(self).broadcaster == old(self).broadcaster)),
            ((msg.tag@ == old(self).tag@ && action_ok(
                old(self).pub_key_set,
                old(self).tag@,
                sender,
                msg.action@,
            ) && (msg.action@ matches crate::abba::message::ActionV::Decision(da) && old(
                self,
            ).decided_view() == Some(da))) ==> (*final(self) == *old(self) && res is Ok)),
            (msg.tag@ == old(self).tag@ ==> (msg.action@
                matches crate::abba::message::ActionV::Decision(da) ==> ((old(self).decided_value
                is None && action_ok(old(self).pub_key_set, old(self).tag@, sender, msg.action@)
                && res is Ok) ==> final(self).decided_view() == Some(da)))),
    {
        let mut pending: Vec<Message> = Vec::new();
        let step = self.handle_message(sender, &msg, &mut pending);
        match step {
            Ok(()) => {
                proof {
                    if old(self).wf() && msg.tag@ == old(self).tag@ && action_ok(
                        old(self).pub_key_set,
                        old(self).tag@,
                        sender,
                        msg.action@,
                    ) {
                        match msg.action@ {
                            crate::abba::message::ActionV::PreVote(a) => {
                                assert(!(old(self).has_pre_vote(a.round, sender) && !old(
                                    self,
                                ).pre_vote_stored(a.round, sender, a)));
                            },
                            crate::abba::message::ActionV::MainVote(a) => {
                                assert(!(old(self).has_main_vote(a.round, sender) && !old(
                                    self,
                                ).main_vote_stored(a.round, sender, a)));
                            },
                            crate::abba::message::ActionV::Decision(_) => {},
                        }
                    }
                }
            },
            Err(e) => {
                proof {
                    if old(self).wf() && msg.tag@ == old(self).tag@ && action_ok(
                        old(self).pub_key_set,
                        old(self).tag@,
                        sender,
                        msg.action@,
                    ) {
                        match msg.action@ {
                            crate::abba::message::ActionV::PreVote(a) => {
                                if old(self).has_pre_vote(a.round, sender) && !old(
                                    self,
                                ).pre_vote_stored(a.round, sender, a) {
                                    assert(e@ matches ErrorV::InvalidMessage(_));
                                }
                            },
                            crate::abba::message::ActionV::MainVote(a) => {
                                if old(self).has_main_vote(a.round, sender) && !old(
                                    self,
                                ).main_vote_stored(a.round, sender, a) {
                                    assert(e@ matches ErrorV::InvalidMessage(_));
                                }
                            },
                            crate::abba::message::ActionV::Decision(_) => {},
                        }
                    }
                }
                return Err(e);
            },
        }
        let ghost mid: Abba = *self;
        let dres = self.drain(&mut pending);
        proof {
            if old(self).wf() && msg.tag@ == old(self).tag@ && action_ok(
                old(self).pub_key_set,
                old(self).tag@,
                sender,
                msg.action@,
            ) {
                match msg.action@ {
                    crate::abba::message::ActionV::PreVote(a) => {
                        if !old(self).has_pre_vote(a.round, sender) {
                            let b0 = mid.pre_bucket(a.round);
                            let k = choose|k: int|
                                0 <= k < b0.len() && (#[trigger] b0[k]).0 == sender && b0[k].1@
                                    == a;
                            assert(1 <= a.round && a.round <= mid.round_pre_votes@.len());
                            assert(mid.round_pre_votes@.len() <= self.round_pre_votes@.len());
                            assert(self.round_pre_votes@[a.round - 1]@.len()
                                >= mid.round_pre_votes@[a.round - 1]@.len());
                            assert(self.round_pre_votes@[a.round - 1]@[k]
                                == mid.round_pre_votes@[a.round - 1]@[k]);
                            assert((#[trigger] self.pre_bucket(a.round)[k]).0 == sender
                                && self.pre_bucket(a.round)[k].1@ == a);
                            assert(self.pre_vote_stored(a.round, sender, a));
                        }
                    },
                    crate::abba::message::ActionV::MainVote(a) => {
                        if !old(self).has_main_vote(a.round, sender) {
                            let b0 = mid.main_bucket(a.round);
                            let k = choose|k: int|
                                0 <= k < b0.len() && (#[trigger] b0[k]).0 == sender && b0[k].1@
                                    == a;
                            assert(1 <= a.round && a.round <= mid.round_main_votes@.len());
                            assert(mid.round_main_votes@.len() <= self.round_main_votes@.len());
                            assert(self.round_main_votes@[a.round - 1]@.len()
                                >= mid.round_main_votes@[a.round - 1]@.len());
                            assert(self.round_main_votes@[a.round - 1]@[k]
                                == mid.round_main_votes@[a.round - 1]@[k]);
                            assert((#[trigger] self.main_bucket(a.round)[k]).0 == sender
                                && self.main_bucket(a.round)[k].1@ == a);
                            assert(self.main_vote_stored(a.round, sender, a));
                        }
                    },
                    crate::abba::message::ActionV::Decision(da) => {
                        if old(self).decided_value is None {
                            assert(mid.broadcaster@.gossip.len() == old(
                                self,
                            ).broadcaster@.gossip.len() + 1);
                            assert(self.broadcaster@.gossip[old(
                                self,
                            ).broadcaster@.gossip.len() as int] == mid.broadcaster@.gossip[old(
                                self,
                            ).broadcaster@.gossip.len() as int]);
                        }
                    },
                }
                match msg.action@ {
                    crate::abba::message::ActionV::PreVote(a) => {
                        if !old(self).has_pre_vote(a.round, sender) && a.round == old(self).r
                            && old(self).pre_bucket(old(self).r).len() == threshold_of(
                            old(self).pub_key_set,
                        ) && dres is Ok {
                            let gl = old(self).broadcaster@.gossip.len() as int;
                            assert(mid.broadcaster@.gossip.len() == gl + 1);
                            assert(mid.broadcaster@.gossip.last()
                                == mid.broadcaster@.gossip[gl]);
                            assert(self.broadcaster@.gossip[gl] == mid.broadcaster@.gossip[gl]);
                        }
                    },
                    _ => {},
                }
            }
        }
        dres
    }
}

} // verus!
