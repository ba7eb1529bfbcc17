//! Verifiable consistent broadcast: one designated proposer makes a proposal
//! persistent and certified by a threshold signature, and every party that
//! delivers obtains the same proposal together with the same certificate.

pub mod message;

use crate::broadcaster::Broadcaster;
use crate::crypto::{
    agg_verified, bytes_eq, clone_bytes, combine_shares, pks_threshold, share_sign_of,
    share_verified, sign_share, threshold_of, verify_agg, verify_share, Sig, SigShare,
};
use crate::error::{Error, ErrorV};
use crate::hash::{digest_of, Hash32};
use crate::sign::c_ready_bytes;
use crate::tag::{tag_text, Tag, TagV};
use crate::vcbc::message::{enc_message, Action, Message};
use crate::text::{ascii_chars, is_ascii_bytes};
use crate::{NodeId, Proposal};
use vstd::prelude::*;
use vstd::string::StringSliceAdditionalSpecFns;

verus! {

/// The module label under which broadcast traffic is framed.
pub const MODULE_NAME: &'static str = "vcbc";

/// The bytes of the error text for a message whose tag is foreign.
pub open spec fn invalid_tag_text(expected: TagV, got: TagV) -> Seq<u8> {
    "invalid tag. expected ".spec_bytes() + tag_text(expected) + ", got ".spec_bytes()
        + tag_text(got)
}

/// Builds the error for a message whose tag is not this instance's.
fn invalid_tag_error(expected: &Tag, got: &Tag) -> (e: Error)
    ensures
        e@ matches ErrorV::InvalidMessage(_),
        is_ascii_bytes(invalid_tag_text(expected@, got@)) ==> e@ == ErrorV::InvalidMessage(
            ascii_chars(invalid_tag_text(expected@, got@)),
        ),
{
    let mut b: Vec<u8> = Vec::new();
    crate::codec::push_slice(&mut b, "invalid tag. expected ".as_bytes());
    crate::tag::push_tag_text(&mut b, expected);
    crate::codec::push_slice(&mut b, ", got ".as_bytes());
    crate::tag::push_tag_text(&mut b, got);
    proof {
        assert(b@ =~= invalid_tag_text(expected@, got@));
    }
    Error::InvalidMessage(crate::text::string_from_bytes(&b))
}

/// Builds the canonical bytes a witness signs to acknowledge a proposal:
/// the c-ready phase marker, the instance tag, and the proposal digest.
pub fn c_ready_bytes_to_sign(tag: &Tag, digest: &Hash32) -> (r: Vec<u8>)
    ensures
        r@ == c_ready_bytes(tag@, digest@),
{
    let mut out: Vec<u8> = Vec::new();
    out.push(1u8);
    crate::tag::push_tag(&mut out, tag);
    crate::codec::push_slice(&mut out, digest.bytes.as_slice());
    proof {
        assert(out@ =~= c_ready_bytes(tag@, digest@));
    }
    out
}

/// The broadcast engine of one party for one instance.
pub struct Vcbc<F: Fn(NodeId, &Proposal) -> bool> {
    /// The instance tag: domain plus proposer.
    pub tag: Tag,
    /// This party's identifier.
    pub i: NodeId,
    /// The threshold public key set shared by all parties.
    pub pub_key_set: blsttc::PublicKeySet,
    /// This party's secret key share.
    pub sec_key_share: blsttc::SecretKeyShare,
    /// The host-supplied proposal-validity predicate.
    pub message_validity: F,
    /// The outbound queue.
    pub broadcaster: Broadcaster,
    /// The proposal this party has accepted for this instance.
    pub m_bar: Option<Proposal>,
    /// The digest this party has committed to.
    pub d: Option<Hash32>,
    /// The final certificate over the c-ready bytes of the accepted proposal.
    pub u_bar: Option<Sig>,
    /// The proposer's pending share accumulator, keyed by sender.
    pub wd: Vec<(NodeId, SigShare)>,
}

impl<F: Fn(NodeId, &Proposal) -> bool> Vcbc<F> {
    /// The accepted proposal, as bytes.
    pub open spec fn m_bar_view(self) -> Option<Seq<u8>> {
        match self.m_bar {
            Some(m) => Some(m@),
            None => None,
        }
    }

    /// The certificate, as bytes.
    pub open spec fn u_bar_view(self) -> Option<Seq<u8>> {
        match self.u_bar {
            Some(u) => Some(u@),
            None => None,
        }
    }

    /// The committed digest, as bytes.
    pub open spec fn d_view(self) -> Option<Seq<u8>> {
        match self.d {
            Some(d) => Some(d@),
            None => None,
        }
    }

    /// The identity of the instance: tag, party and keys never change.
    pub open spec fn same_instance(self, other: Self) -> bool {
        &&& other.tag@ == self.tag@
        &&& other.i == self.i
        &&& other.pub_key_set == self.pub_key_set
        &&& other.sec_key_share == self.sec_key_share
    }

    /// The senders already present in the share accumulator.
    pub open spec fn wd_has_sender(self, sender: NodeId) -> bool {
        exists|k: int| 0 <= k < self.wd@.len() && self.wd@[k].0 == sender
    }

    /// Well-formedness of the engine state.
    ///
    /// An accepted proposal commits its digest; a certificate is only ever
    /// held with a committed digest and verifies over that digest's c-ready
    /// bytes; accumulated shares come from distinct senders and all verify
    /// over the committed digest's c-ready bytes.
    pub open spec fn wf(self) -> bool {
        &&& (self.m_bar matches Some(m) ==> (self.d matches Some(d) && d@ == digest_of(m@)))
        &&& (self.u_bar is Some ==> self.d is Some)
        &&& (self.d is Some ==> (self.m_bar is Some || self.u_bar is Some))
        &&& (self.d is None ==> self.wd@.len() == 0)
        &&& (self.u_bar matches Some(u) ==> (self.d matches Some(dd) ==> agg_verified(
            self.pub_key_set,
            u@,
            c_ready_bytes(self.tag@, dd@),
        )))
        &&& (forall|j: int, k: int|
            0 <= j < k < self.wd@.len() ==> (#[trigger] self.wd@[j]).0 != (
            #[trigger] self.wd@[k]).0)
        &&& (self.d matches Some(d) ==> forall|k: int|
            0 <= k < self.wd@.len() ==> share_verified(
                self.pub_key_set,
                (#[trigger] self.wd@[k]).0,
                self.wd@[k].1@,
                c_ready_bytes(self.tag@, d@),
            ))
    }

    /// A new engine for instance `tag`, run by party `i`.
    pub fn new(
        tag: Tag,
        i: NodeId,
        pub_key_set: blsttc::PublicKeySet,
        sec_key_share: blsttc::SecretKeyShare,
        message_validity: F,
        broadcaster: Broadcaster,
    ) -> (r: Self)
        ensures
            r.tag@ == tag@,
            r.i == i,
            r.pub_key_set == pub_key_set,
            r.sec_key_share == sec_key_share,
            r.broadcaster == broadcaster,
            r.message_validity == message_validity,
            r.m_bar is None,
            r.d is None,
            r.u_bar is None,
            r.wd@.len() == 0,
            r.wf(),
    {
        Vcbc {
            tag,
            i,
            pub_key_set,
            sec_key_share,
            message_validity,
            broadcaster,
            m_bar: None,
            d: None,
            u_bar: None,
            wd: Vec::new(),
        }
    }

    /// The bucket size at which shares combine: one more than the key set's
    /// polynomial degree, that is `n - f`.
    pub fn threshold(&self) -> (r: usize)
        ensures
            r == threshold_of(self.pub_key_set) + 1,
    {
        let t = pks_threshold(&self.pub_key_set);
        t + 1
    }

    /// What this party has delivered: the accepted proposal and its
    /// certificate, once both are known.
    pub fn read_delivered(&self) -> (r: Option<(Proposal, Sig)>)
        ensures
            match r {
                Some(p) => self.m_bar_view() == Some(p.0@) && self.u_bar_view() == Some(p.1@),
                None => self.m_bar is None || self.u_bar is None,
            },
    {
        match (&self.m_bar, &self.u_bar) {
            (Some(m), Some(u)) => Some((clone_bytes(m), u.clone())),
            _ => None,
        }
    }

    /// Queues `msg` for every peer and for local processing.
    fn publish(&mut self, msg: Message, pending: &mut Vec<Message>)
        ensures
            old(self).same_instance(*final(self)),
            final(self).message_validity == old(self).message_validity,
            final(self).m_bar == old(self).m_bar,
            final(self).d == old(self).d,
            final(self).u_bar == old(self).u_bar,
            final(self).wd == old(self).wd,
            final(self).broadcaster@.self_id == old(self).broadcaster@.self_id,
            final(self).broadcaster@.direct == old(self).broadcaster@.direct,
            final(self).broadcaster@.gossip == old(self).broadcaster@.gossip.push(
                crate::bundle::BundleV {
                    initiator: old(self).broadcaster@.self_id,
                    module: MODULE_NAME.spec_bytes(),
                    payload: enc_message(msg@),
                },
            ),
            final(pending)@ == old(pending)@.push(msg),
    {
        let data = message::encode_message(&msg);
        self.broadcaster.broadcast(MODULE_NAME, data);
        pending.push(msg);
    }

    /// Queues `msg` for one peer, and for local processing if that peer is
    /// this party.
    fn send_direct(&mut self, to: NodeId, msg: Message, pending: &mut Vec<Message>)
        ensures
            old(self).same_instance(*final(self)),
            final(self).message_validity == old(self).message_validity,
            final(self).m_bar == old(self).m_bar,
            final(self).d == old(self).d,
            final(self).u_bar == old(self).u_bar,
            final(self).wd == old(self).wd,
            final(self).broadcaster@.self_id == old(self).broadcaster@.self_id,
            final(self).broadcaster@.gossip == old(self).broadcaster@.gossip,
            final(self).broadcaster@.direct == old(self).broadcaster@.direct.push(
                (
                    to,
                    crate::bundle::BundleV {
                        initiator: old(self).broadcaster@.self_id,
                        module: MODULE_NAME.spec_bytes(),
                        payload: enc_message(msg@),
                    },
                ),
            ),
            final(pending)@ == old(pending)@ || final(pending)@ == old(pending)@.push(msg),
    {
        let data = message::encode_message(&msg);
        self.broadcaster.send_to(to, MODULE_NAME, data);
        if to == self.i {
            pending.push(msg);
        }
    }

    /// Handles one inbound message; outbound reactions are queued on the
    /// broadcaster and, where this party must also process them, on
    /// `pending`.
    fn handle_message(&mut self, sender: NodeId, msg: Message, pending: &mut Vec<Message>) -> (r:
        Result<(), Error>)
        requires
            forall|p: NodeId, q: &Proposal|
                #[trigger] call_requires(old(self).message_validity, (p, q)),
        ensures
            old(self).wf() ==> (msg.tag@ == old(self).tag@ ==> (msg.action@
                matches crate::vcbc::message::ActionV::Send(m) ==> (r is Ok ==> ({
                &&& final(self).m_bar_view() == Some(m)
                &&& final(self).d_view() == Some(digest_of(m))
                &&& final(self).broadcaster@.direct.len() > old(self).broadcaster@.direct.len()
                &&& final(self).broadcaster@.direct[old(self).broadcaster@.direct.len() as int]
                    == ((
                    old(self).tag@.proposer,
                    crate::bundle::BundleV {
                        initiator: old(self).broadcaster@.self_id,
                        module: MODULE_NAME.spec_bytes(),
                        payload: enc_message(
                            crate::vcbc::message::MessageV {
                                tag: old(self).tag@,
                                action: crate::vcbc::message::ActionV::Ready(
                                    digest_of(m),
                                    share_sign_of(
                                        old(self).sec_key_share,
                                        c_ready_bytes(old(self).tag@, digest_of(m)),
                                    ),
                                ),
                            },
                        ),
                    },
                ))
            })))),
            old(self).wf() ==> ((msg.tag@ == old(self).tag@ && old(self).i == old(
                self,
            ).tag@.proposer) ==> (msg.action@ matches crate::vcbc::message::ActionV::Ready(d, sh)
                ==> ((old(self).d_view() == Some(d) && share_verified(
                old(self).pub_key_set,
                sender,
                sh,
                c_ready_bytes(old(self).tag@, d),
            ) && !old(self).wd_has_sender(sender)) ==> ({
                &&& final(self).wd@.len() > old(self).wd@.len()
                &&& final(self).wd@[old(self).wd@.len() as int].0 == sender
                &&& final(self).wd@[old(self).wd@.len() as int].1@ == sh
            })))),
            (msg.tag@ == old(self).tag@ && (msg.action@
                matches crate::vcbc::message::ActionV::Request)) ==> (old(self).m_bar_view()
                matches Some(mv) ==> (old(self).u_bar_view() matches Some(uv) ==> ({
                &&& r is Ok
                &&& final(self).broadcaster@.direct.len() > old(self).broadcaster@.direct.len()
                &&& final(self).broadcaster@.direct[old(self).broadcaster@.direct.len() as int]
                    == ((
                    sender,
                    crate::bundle::BundleV {
                        initiator: old(self).broadcaster@.self_id,
                        module: MODULE_NAME.spec_bytes(),
                        payload: enc_message(
                            crate::vcbc::message::MessageV {
                                tag: old(self).tag@,
                                action: crate::vcbc::message::ActionV::Answer(mv, uv),
                            },
                        ),
                    },
                ))
            }))),
            old(self).wf() ==> ((msg.tag@ == old(self).tag@ && old(self).u_bar is None && old(
                self,
            ).d is None) ==> (msg.action@ matches crate::vcbc::message::ActionV::Final(d2, sg)
                ==> (agg_verified(old(self).pub_key_set, sg, c_ready_bytes(old(self).tag@, d2))
                ==> ({
                &&& r is Ok
                &&& final(self).d_view() == Some(d2)
                &&& final(self).u_bar_view() == Some(sg)
                &&& final(self).broadcaster@.direct.len() > old(self).broadcaster@.direct.len()
                &&& final(self).broadcaster@.direct[old(self).broadcaster@.direct.len() as int]
                    == ((
                    sender,
                    crate::bundle::BundleV {
                        initiator: old(self).broadcaster@.self_id,
                        module: MODULE_NAME.spec_bytes(),
                        payload: enc_message(
                            crate::vcbc::message::MessageV {
                                tag: old(self).tag@,
                                action: crate::vcbc::message::ActionV::Request,
                            },
                        ),
                    },
                ))
            })))),
            final(self).broadcaster@.self_id == old(self).broadcaster@.self_id,
            final(self).broadcaster@.gossip.len() >= old(self).broadcaster@.gossip.len(),
            forall|bi: int|
                0 <= bi < old(self).broadcaster@.gossip.len()
                    ==> #[trigger] final(self).broadcaster@.gossip[bi]
                    == old(self).broadcaster@.gossip[bi],
            final(self).broadcaster@.direct.len() >= old(self).broadcaster@.direct.len(),
            forall|bi: int|
                0 <= bi < old(self).broadcaster@.direct.len()
                    ==> #[trigger] final(self).broadcaster@.direct[bi]
                    == old(self).broadcaster@.direct[bi],
            final(self).wd@.len() >= old(self).wd@.len(),
            forall|k: int|
                0 <= k < old(self).wd@.len() ==> final(self).wd@[k] == old(self).wd@[k],
            old(self).same_instance(*final(self)),
            final(self).message_validity == old(self).message_validity,
            old(self).wf() ==> final(self).wf(),
            old(self).wf() ==> (old(self).m_bar_view() matches Some(mv)
                ==> final(self).m_bar_view() == Some(mv)),
            old(self).wf() ==> (old(self).u_bar_view() matches Some(uv)
                ==> final(self).u_bar_view() == Some(uv)),
            old(self).wf() ==> (old(self).d_view() matches Some(dv)
                ==> final(self).d_view() == Some(dv)),
            msg.tag@ != old(self).tag@ ==> ({
                &&& *final(self) == *old(self)
                &&& (r matches Err(e) && e@ matches ErrorV::InvalidMessage(_) && (is_ascii_bytes(
                    invalid_tag_text(old(self).tag@, msg.tag@),
                ) ==> e@ == ErrorV::InvalidMessage(
                    ascii_chars(invalid_tag_text(old(self).tag@, msg.tag@)),
                )))
            }),
            ((msg.tag@ == old(self).tag@ && old(self).u_bar is None && (msg.action@
                matches crate::vcbc::message::ActionV::Final(d, sg) && !agg_verified(
                old(self).pub_key_set,
                sg,
                c_ready_bytes(old(self).tag@, d),
            ))) ==> (r matches Err(e) && e@ matches ErrorV::InvalidMessage(_))),
            ((msg.tag@ == old(self).tag@ && (msg.action@
                matches crate::vcbc::message::ActionV::Answer(m, sg) && !agg_verified(
                old(self).pub_key_set,
                sg,
                c_ready_bytes(old(self).tag@, digest_of(m)),
            ))) ==> (r matches Err(e) && e@ matches ErrorV::InvalidMessage(_))),
            ((msg.tag@ == old(self).tag@ && old(self).i != old(self).tag@.proposer
                && (msg.action@ matches crate::vcbc::message::ActionV::Ready(_, _)))
                ==> (*final(self) == *old(self) && final(pending)@ == old(pending)@ && r is Ok)),
            ((msg.tag@ == old(self).tag@ && (msg.action@
                matches crate::vcbc::message::ActionV::Send(m) && (old(self).m_bar_view()
                matches Some(mv) && mv != m))) ==> r is Err),
            old(self).wf() ==> (msg.tag@ == old(self).tag@ ==> (msg.action@
                matches crate::vcbc::message::ActionV::Send(m) ==> (r is Ok
                ==> final(self).m_bar_view() == Some(m)))),
            old(self).wf() ==> (msg.tag@ == old(self).tag@ ==> (msg.action@
                matches crate::vcbc::message::ActionV::Final(d, sg) ==> ((old(self).u_bar is None
                && old(self).d_view() == Some(d) && agg_verified(
                old(self).pub_key_set,
                sg,
                c_ready_bytes(old(self).tag@, d),
            )) ==> (r is Ok && final(self).u_bar_view() == Some(sg) && final(pending)@ == old(pending)@)))),
            old(self).wf() ==> (msg.tag@ == old(self).tag@ ==> (msg.action@
                matches crate::vcbc::message::ActionV::Answer(m, sg) ==> ((old(self).m_bar is None
                && old(self).d is None && agg_verified(
                old(self).pub_key_set,
                sg,
                c_ready_bytes(old(self).tag@, digest_of(m)),
            )) ==> (r is Ok && final(self).m_bar_view() == Some(m) && final(self).u_bar_view()
                == Some(sg) && final(pending)@ == old(pending)@)))),
    {
        if !self.tag.eq_tag(&msg.tag) {
            return Err(invalid_tag_error(&self.tag, &msg.tag));
        }
        match msg.action {
            Action::Send(m) => {
                if sender != self.tag.proposer {
                    return Err(
                        Error::InvalidMessage("send messages come from the proposer".to_owned()),
                    );
                }
                let accepted = (self.message_validity)(self.tag.proposer, &m);
                if !accepted {
                    return Err(Error::InvalidMessage("invalid proposal".to_owned()));
                }
                match &self.m_bar {
                    Some(mb) => {
                        if !bytes_eq(mb, &m) {
                            return Err(
                                Error::InvalidMessage("duplicated proposal detected".to_owned()),
                            );
                        }
                    },
                    None => {},
                }
                let digest = Hash32::calculate(m.as_slice());
                match &self.d {
                    Some(dd) => {
                        if !dd.eq_digest(&digest) {
                            return Err(Error::Generic("conflicting proposal digest".to_owned()));
                        }
                    },
                    None => {},
                }
                let sign_bytes = c_ready_bytes_to_sign(&self.tag, &digest);
                let share = sign_share(&self.sec_key_share, sign_bytes.as_slice());
                self.m_bar = Some(m);
                self.d = Some(digest);
                let ready = Message {
                    tag: self.tag.clone(),
                    action: Action::Ready(digest, share),
                };
                let proposer = self.tag.proposer;
                self.send_direct(proposer, ready, pending);
                Ok(())
            },
            Action::Ready(d, share) => {
                if self.i != self.tag.proposer {
                    return Ok(());
                }
                let dd = match &self.d {
                    Some(x) => *x,
                    None => {
                        return Ok(());
                    },
                };
                if !dd.eq_digest(&d) {
                    return Err(Error::InvalidMessage("invalid digest".to_owned()));
                }
                let sign_bytes = c_ready_bytes_to_sign(&self.tag, &dd);
                if !verify_share(&self.pub_key_set, sender, &share, sign_bytes.as_slice()) {
                    // An invalid share is dropped; honest peers supply enough.
                    return Ok(());
                }
                if self.wd_contains(sender) {
                    return Ok(());
                }
                self.wd.push((sender, share));
                let quorum = self.threshold();
                if self.wd.len() == quorum && self.u_bar.is_none() {
                    let sig = match combine_shares(&self.pub_key_set, &self.wd, sign_bytes.as_slice()) {
                        Some(s) => s,
                        None => {
                            return Err(
                                Error::Generic("failed to combine signature shares".to_owned()),
                            );
                        },
                    };
                    self.u_bar = Some(sig.clone());
                    let final_msg = Message {
                        tag: self.tag.clone(),
                        action: Action::Final(dd, sig),
                    };
                    self.publish(final_msg, pending);
                }
                Ok(())
            },
            Action::Final(d, sig) => {
                if self.u_bar.is_some() {
                    return Ok(());
                }
                let sign_bytes = c_ready_bytes_to_sign(&self.tag, &d);
                if !verify_agg(&self.pub_key_set, &sig, sign_bytes.as_slice()) {
                    return Err(Error::InvalidMessage("invalid signature".to_owned()));
                }
                let stored = match &self.d {
                    Some(dd) => Some(*dd),
                    None => None,
                };
                match stored {
                    Some(dd) => {
                        if dd.eq_digest(&d) {
                            self.u_bar = Some(sig);
                            Ok(())
                        } else {
                            Err(Error::Generic("conflicting certified digest".to_owned()))
                        }
                    },
                    None => {
                        // The certificate is latched even before the payload
                        // is known; the payload is recovered from a peer.
                        self.d = Some(d);
                        self.u_bar = Some(sig);
                        let request = Message { tag: self.tag.clone(), action: Action::Request };
                        self.send_direct(sender, request, pending);
                        Ok(())
                    },
                }
            },
            Action::Request => {
                let answer = match (&self.m_bar, &self.u_bar) {
                    (Some(m), Some(u)) => Some(
                        Message {
                            tag: self.tag.clone(),
                            action: Action::Answer(clone_bytes(m), u.clone()),
                        },
                    ),
                    _ => None,
                };
                match answer {
                    Some(a) => {
                        self.send_direct(sender, a, pending);
                    },
                    None => {},
                }
                Ok(())
            },
            Action::Answer(m, sig) => {
                let digest = Hash32::calculate(m.as_slice());
                let sign_bytes = c_ready_bytes_to_sign(&self.tag, &digest);
                if !verify_agg(&self.pub_key_set, &sig, sign_bytes.as_slice()) {
                    return Err(Error::InvalidMessage("invalid signature".to_owned()));
                }
                match &self.m_bar {
                    Some(mb) => {
                        if !bytes_eq(mb, &m) {
                            return Err(Error::Generic("conflicting answered proposal".to_owned()));
                        }
                    },
                    None => {},
                }
                match &self.d {
                    Some(dd) => {
                        if !dd.eq_digest(&digest) {
                            return Err(Error::Generic("conflicting answered digest".to_owned()));
                        }
                    },
                    None => {},
                }
                self.m_bar = Some(m);
                self.d = Some(digest);
                if self.u_bar.is_none() {
                    self.u_bar = Some(sig);
                }
                Ok(())
            },
        }
    }

    /// Whether the accumulator already holds a share from `sender`.
    fn wd_contains(&self, sender: NodeId) -> (r: bool)
        ensures
            r == self.wd_has_sender(sender),
    {
        let mut k: usize = 0;
        while k < self.wd.len()
            invariant
                k <= self.wd@.len(),
                forall|j: int| 0 <= j < k ==> (#[trigger] self.wd@[j]).0 != sender,
            decreases self.wd@.len() - k,
        {
            if self.wd[k].0 == sender {
                return true;
            }
            k = k + 1;
        }
        false
    }

    /// Processes the queued local copies of outbound messages until none are
    /// left.
    fn drain(&mut self, pending: &mut Vec<Message>) -> (r: Result<(), Error>)
        requires
            forall|p: NodeId, q: &Proposal|
                #[trigger] call_requires(old(self).message_validity, (p, q)),
        ensures
            final(self).broadcaster@.self_id == old(self).broadcaster@.self_id,
            final(self).broadcaster@.gossip.len() >= old(self).broadcaster@.gossip.len(),
            forall|bi: int|
                0 <= bi < old(self).broadcaster@.gossip.len()
                    ==> #[trigger] final(self).broadcaster@.gossip[bi]
                    == old(self).broadcaster@.gossip[bi],
            final(self).broadcaster@.direct.len() >= old(self).broadcaster@.direct.len(),
            forall|bi: int|
                0 <= bi < old(self).broadcaster@.direct.len()
                    ==> #[trigger] final(self).broadcaster@.direct[bi]
                    == old(self).broadcaster@.direct[bi],
            final(self).wd@.len() >= old(self).wd@.len(),
            forall|k: int|
                0 <= k < old(self).wd@.len() ==> final(self).wd@[k] == old(self).wd@[k],
            old(self).same_instance(*final(self)),
            final(self).message_validity == old(self).message_validity,
            old(self).wf() ==> final(self).wf(),
            old(self).wf() ==> (old(self).m_bar_view() matches Some(mv)
                ==> final(self).m_bar_view() == Some(mv)),
            old(self).wf() ==> (old(self).u_bar_view() matches Some(uv)
                ==> final(self).u_bar_view() == Some(uv)),
            old(self).wf() ==> (old(self).d_view() matches Some(dv)
                ==> final(self).d_view() == Some(dv)),
            old(pending)@.len() == 0 ==> (*final(self) == *old(self) && r is Ok),
    {
        if pending.is_empty() {
            return Ok(());
        }
        // The cascade settles after a handful of steps; the fuel only makes
        // termination checkable and is never exhausted by a real run.
        let mut fuel: usize = usize::MAX;
        loop
            invariant
                old(pending)@.len() != 0,
                self.broadcaster@.self_id == old(self).broadcaster@.self_id,
                self.broadcaster@.gossip.len() >= old(self).broadcaster@.gossip.len(),
                forall|bi: int|
                    0 <= bi < old(self).broadcaster@.gossip.len()
                        ==> #[trigger] self.broadcaster@.gossip[bi]
                        == old(self).broadcaster@.gossip[bi],
                self.broadcaster@.direct.len() >= old(self).broadcaster@.direct.len(),
                forall|bi: int|
                    0 <= bi < old(self).broadcaster@.direct.len()
                        ==> #[trigger] self.broadcaster@.direct[bi]
                        == old(self).broadcaster@.direct[bi],

                self.wd@.len() >= old(self).wd@.len(),
                forall|k: int| 0 <= k < old(self).wd@.len() ==> self.wd@[k] == old(self).wd@[k],

                forall|p: NodeId, q: &Proposal|
                    #[trigger] call_requires(old(self).message_validity, (p, q)),
                old(self).same_instance(*self),
                self.message_validity == old(self).message_validity,
                old(self).wf() ==> self.wf(),
                old(self).wf() ==> (old(self).m_bar_view() matches Some(mv) ==> self.m_bar_view()
                    == Some(mv)),
                old(self).wf() ==> (old(self).u_bar_view() matches Some(uv) ==> self.u_bar_view()
                    == Some(uv)),
                old(self).wf() ==> (old(self).d_view() matches Some(dv) ==> self.d_view()
                    == Some(dv)),
            decreases fuel,
        {
            if pending.is_empty() {
                return Ok(());
            }
            if fuel == 0 {
                return Err(Error::Generic("message cascade did not settle".to_owned()));
            }
            fuel = fuel - 1;
            let msg = pending.remove(0);
            let me = self.i;
            let step = self.handle_message(me, msg, pending);
            match step {
                Ok(()) => {},
                Err(e) => {
                    return Err(e);
                },
            }
        }
    }

    /// Announces proposal `m` as this instance's proposer: commits to it,
    /// queues the send message for every peer, and processes the cascade it
    /// triggers.  A second announcement, or one made after a certificate was
    /// latched, is refused and changes nothing.
    pub fn c_broadcast(&mut self, m: Proposal) -> (r: Result<(), Error>)
        requires
            forall|p: NodeId, q: &Proposal|
                #[trigger] call_requires(old(self).message_validity, (p, q)),
        ensures
            final(self).broadcaster@.self_id == old(self).broadcaster@.self_id,
            final(self).broadcaster@.gossip.len() >= old(self).broadcaster@.gossip.len(),
            forall|bi: int|
                0 <= bi < old(self).broadcaster@.gossip.len()
                    ==> #[trigger] final(self).broadcaster@.gossip[bi]
                    == old(self).broadcaster@.gossip[bi],
            final(self).broadcaster@.direct.len() >= old(self).broadcaster@.direct.len(),
            forall|bi: int|
                0 <= bi < old(self).broadcaster@.direct.len()
                    ==> #[trigger] final(self).broadcaster@.direct[bi]
                    == old(self).broadcaster@.direct[bi],
            old(self).same_instance(*final(self)),
            ((old(self).m_bar is Some || old(self).u_bar is Some) ==> ({
                &&& *final(self) == *old(self)
                &&& (r matches Err(e) && e@ matches ErrorV::Generic(_))
            })),
            ((old(self).m_bar is None && old(self).u_bar is None) ==> ({
                &&& final(self).broadcaster@.gossip.len() > old(self).broadcaster@.gossip.len()
                &&& final(self).broadcaster@.gossip[old(self).broadcaster@.gossip.len() as int]
                    == crate::bundle::BundleV {
                    initiator: old(self).broadcaster@.self_id,
                    module: MODULE_NAME.spec_bytes(),
                    payload: enc_message(
                        crate::vcbc::message::MessageV {
                            tag: old(self).tag@,
                            action: crate::vcbc::message::ActionV::Send(m@),
                        },
                    ),
                }
            })),
            (old(self).wf() && old(self).m_bar is None && old(self).u_bar is None)
                ==> final(self).wf(),
            (old(self).wf() && old(self).m_bar is None && old(self).u_bar is None)
                ==> final(self).m_bar_view() == Some(m@),
            (old(self).wf() && old(self).m_bar is None && old(self).u_bar is None)
                ==> final(self).d_view() == Some(digest_of(m@)),
    {
        if self.m_bar.is_some() || self.u_bar.is_some() {
            return Err(Error::Generic("proposal already committed".to_owned()));
        }
        self.m_bar = Some(clone_bytes(&m));
        let digest = Hash32::calculate(m.as_slice());
        self.d = Some(digest);
        let msg = Message { tag: self.tag.clone(), action: Action::Send(m) };
        let mut pending: Vec<Message> = Vec::new();
        self.publish(msg, &mut pending);
        self.drain(&mut pending)
    }

    /// Processes one inbound message from `sender`, with every cascaded
    /// reaction, and reports how the message was disposed of.  The caller
    /// guarantees only that the validity predicate may be applied to any
    /// proposal, which holds of any predicate without a precondition.
    ///
    /// The instance identity is never changed.  An accepted proposal, a
    /// committed digest and a certificate are latched: once set, their values
    /// never change, and the share accumulator only grows.  Well-formed
    /// states stay well-formed, so a held certificate always verifies over
    /// the committed digest's c-ready bytes.  A message whose tag is not this
    /// instance's is refused and the engine state is left untouched.
    ///
    /// Progress is promised, not just preservation: an accepted send commits
    /// the proposal and queues the witness share to the proposer; a valid
    /// fresh ready share at the proposer enters the accumulator; a request is
    /// answered with the delivered pair once it is known; and a valid
    /// certificate arriving before the payload is latched and answered with a
    /// recovery request.
    pub fn receive_message(&mut self, sender: NodeId, msg: Message) -> (r: Result<(), Error>)
        requires
            forall|p: NodeId, q: &Proposal|
                #[trigger] call_requires(old(self).message_validity, (p, q)),
        ensures
            old(self).wf() ==> (msg.tag@ == old(self).tag@ ==> (msg.action@
                matches crate::vcbc::message::ActionV::Send(m) ==> (r is Ok ==> ({
                &&& final(self).m_bar_view() == Some(m)
                &&& final(self).d_view() == Some(digest_of(m))
                &&& final(self).broadcaster@.direct.len() > old(self).broadcaster@.direct.len()
                &&& final(self).broadcaster@.direct[old(self).broadcaster@.direct.len() as int]
                    == ((
                    old(self).tag@.proposer,
                    crate::bundle::BundleV {
                        initiator: old(self).broadcaster@.self_id,
                        module: MODULE_NAME.spec_bytes(),
                        payload: enc_message(
                            crate::vcbc::message::MessageV {
                                tag: old(self).tag@,
                                action: crate::vcbc::message::ActionV::Ready(
                                    digest_of(m),
                                    share_sign_of(
                                        old(self).sec_key_share,
                                        c_ready_bytes(old(self).tag@, digest_of(m)),
                                    ),
                                ),
                            },
                        ),
                    },
                ))
            })))),
            old(self).wf() ==> ((msg.tag@ == old(self).tag@ && old(self).i == old(
                self,
            ).tag@.proposer) ==> (msg.action@ matches crate::vcbc::message::ActionV::Ready(d, sh)
                ==> ((old(self).d_view() == Some(d) && share_verified(
                old(self).pub_key_set,
                sender,
                sh,
                c_ready_bytes(old(self).tag@, d),
            ) && !old(self).wd_has_sender(sender)) ==> ({
                &&& final(self).wd@.len() > old(self).wd@.len()
                &&& final(self).wd@[old(self).wd@.len() as int].0 == sender
                &&& final(self).wd@[old(self).wd@.len() as int].1@ == sh
            })))),
            (msg.tag@ == old(self).tag@ && (msg.action@
                matches crate::vcbc::message::ActionV::Request)) ==> (old(self).m_bar_view()
                matches Some(mv) ==> (old(self).u_bar_view() matches Some(uv) ==> ({
                &&& final(self).broadcaster@.direct.len() > old(self).broadcaster@.direct.len()
                &&& final(self).broadcaster@.direct[old(self).broadcaster@.direct.len() as int]
                    == ((
                    sender,
                    crate::bundle::BundleV {
                        initiator: old(self).broadcaster@.self_id,
                        module: MODULE_NAME.spec_bytes(),
                        payload: enc_message(
                            crate::vcbc::message::MessageV {
                                tag: old(self).tag@,
                                action: crate::vcbc::message::ActionV::Answer(mv, uv),
                            },
                        ),
                    },
                ))
            }))),
            old(self).wf() ==> ((msg.tag@ == old(self).tag@ && old(self).u_bar is None && old(
                self,
            ).d is None) ==> (msg.action@ matches crate::vcbc::message::ActionV::Final(d2, sg)
                ==> (agg_verified(old(self).pub_key_set, sg, c_ready_bytes(old(self).tag@, d2))
                ==> ({
                &&& final(self).d_view() == Some(d2)
                &&& final(self).u_bar_view() == Some(sg)
                &&& final(self).broadcaster@.direct.len() > old(self).broadcaster@.direct.len()
                &&& final(self).broadcaster@.direct[old(self).broadcaster@.direct.len() as int]
                    == ((
                    sender,
                    crate::bundle::BundleV {
                        initiator: old(self).broadcaster@.self_id,
                        module: MODULE_NAME.spec_bytes(),
                        payload: enc_message(
                            crate::vcbc::message::MessageV {
                                tag: old(self).tag@,
                                action: crate::vcbc::message::ActionV::Request,
                            },
                        ),
                    },
                ))
            })))),
            final(self).broadcaster@.self_id == old(self).broadcaster@.self_id,
            final(self).broadcaster@.gossip.len() >= old(self).broadcaster@.gossip.len(),
            forall|bi: int|
                0 <= bi < old(self).broadcaster@.gossip.len()
                    ==> #[trigger] final(self).broadcaster@.gossip[bi]
                    == old(self).broadcaster@.gossip[bi],
            final(self).broadcaster@.direct.len() >= old(self).broadcaster@.direct.len(),
            forall|bi: int|
                0 <= bi < old(self).broadcaster@.direct.len()
                    ==> #[trigger] final(self).broadcaster@.direct[bi]
                    == old(self).broadcaster@.direct[bi],
            final(self).wd@.len() >= old(self).wd@.len(),
            forall|k: int|
                0 <= k < old(self).wd@.len() ==> final(self).wd@[k] == old(self).wd@[k],
            old(self).same_instance(*final(self)),
            old(self).wf() ==> final(self).wf(),
            old(self).wf() ==> (old(self).m_bar_view() matches Some(mv)
                ==> final(self).m_bar_view() == Some(mv)),
            old(self).wf() ==> (old(self).u_bar_view() matches Some(uv)
                ==> final(self).u_bar_view() == Some(uv)),
            old(self).wf() ==> (old(self).d_view() matches Some(dv)
                ==> final(self).d_view() == Some(dv)),
            msg.tag@ != old(self).tag@ ==> ({
                &&& *final(self) == *old(self)
                &&& (r matches Err(e) && e@ matches ErrorV::InvalidMessage(_) && (is_ascii_bytes(
                    invalid_tag_text(old(self).tag@, msg.tag@),
                ) ==> e@ == ErrorV::InvalidMessage(
                    ascii_chars(invalid_tag_text(old(self).tag@, msg.tag@)),
                )))
            }),
            ((msg.tag@ == old(self).tag@ && old(self).u_bar is None && (msg.action@
                matches crate::vcbc::message::ActionV::Final(d, sg) && !agg_verified(
                old(self).pub_key_set,
                sg,
                c_ready_bytes(old(self).tag@, d),
            ))) ==> (r matches Err(e) && e@ matches ErrorV::InvalidMessage(_))),
            ((msg.tag@ == old(self).tag@ && (msg.action@
                matches crate::vcbc::message::ActionV::Answer(m, sg) && !agg_verified(
                old(self).pub_key_set,
                sg,
                c_ready_bytes(old(self).tag@, digest_of(m)),
            ))) ==> (r matches Err(e) && e@ matches ErrorV::InvalidMessage(_))),
            ((msg.tag@ == old(self).tag@ && old(self).i != old(self).tag@.proposer
                && (msg.action@ matches crate::vcbc::message::ActionV::Ready(_, _)))
                ==> (*final(self) == *old(self) && r is Ok)),
            ((msg.tag@ == old(self).tag@ && (msg.action@
                matches crate::vcbc::message::ActionV::Send(m) && (old(self).m_bar_view()
                matches Some(mv) && mv != m))) ==> r is Err),
            old(self).wf() ==> (msg.tag@ == old(self).tag@ ==> (msg.action@
                matches crate::vcbc::message::ActionV::Send(m) ==> (r is Ok
                ==> final(self).m_bar_view() == Some(m)))),
            old(self).wf() ==> (msg.tag@ == old(self).tag@ ==> (msg.action@
                matches crate::vcbc::message::ActionV::Final(d, sg) ==> ((old(self).u_bar is None
                && old(self).d_view() == Some(d) && agg_verified(
                old(self).pub_key_set,
                sg,
                c_ready_bytes(old(self).tag@, d),
            )) ==> (r is Ok && final(self).u_bar_view() == Some(sg))))),
            old(self).wf() ==> (msg.tag@ == old(self).tag@ ==> (msg.action@
                matches crate::vcbc::message::ActionV::Answer(m, sg) ==> ((old(self).m_bar is None
                && old(self).d is None && agg_verified(
                old(self).pub_key_set,
                sg,
                c_ready_bytes(old(self).tag@, digest_of(m)),
            )) ==> (r is Ok && final(self).m_bar_view() == Some(m) && final(self).u_bar_view()
                == Some(sg))))),
    {
        let ghost msnap = msg;
        let mut pending: Vec<Message> = Vec::new();
        let step = self.handle_message(sender, msg, &mut pending);
        match step {
            Ok(()) => {},
            Err(e) => {
                return Err(e);
            },
        }
        let ghost mid = *self;
        let dres = self.drain(&mut pending);
        proof {
            if msnap.tag@ == old(self).tag@ {
                let dl = old(self).broadcaster@.direct.len() as int;
                if mid.broadcaster@.direct.len() > dl {
                    assert(self.broadcaster@.direct[dl] == mid.broadcaster@.direct[dl]);
                }
                if old(self).wf() {
                    match msnap.action@ {
                        crate::vcbc::message::ActionV::Ready(d, sh) => {
                            let wl = old(self).wd@.len() as int;
                            if mid.wd@.len() > wl {
                                assert(self.wd@[wl] == mid.wd@[wl]);
                            }
                        },
                        _ => {},
                    }
                }
            }
        }
        dres
    }
}

} // verus!
