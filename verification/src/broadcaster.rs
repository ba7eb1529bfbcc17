//! The outbound queue an engine writes to.
//!
//! The broadcaster only buffers bytes: the host drains it and puts the
//! bundles on a transport.  Nothing is sent from here.

use crate::bundle::{enc_bundle, encode_bundle, Bundle, BundleV};
use crate::crypto::{bytes_eq, clone_bytes};
use crate::NodeId;
use vstd::prelude::*;
use vstd::string::StringSliceAdditionalSpecFns;

verus! {

/// Buffers the messages an engine wants delivered, either to every peer or
/// to a single one.
#[derive(Debug)]
pub struct Broadcaster {
    pub self_id: NodeId,
    pub gossip: Vec<Bundle>,
    pub direct: Vec<(NodeId, Bundle)>,
}

/// Mathematical model of a `Broadcaster`.
pub struct BroadcasterV {
    pub self_id: NodeId,
    pub gossip: Seq<BundleV>,
    pub direct: Seq<(NodeId, BundleV)>,
}

impl View for Broadcaster {
    type V = BroadcasterV;

    open spec fn view(&self) -> BroadcasterV {
        BroadcasterV {
            self_id: self.self_id,
            gossip: self.gossip@.map_values(|b: Bundle| b@),
            direct: self.direct@.map_values(|p: (NodeId, Bundle)| (p.0, p.1@)),
        }
    }
}

impl Broadcaster {
    /// A fresh, empty queue owned by `self_id`.
    pub fn new(self_id: NodeId) -> (r: Broadcaster)
        ensures
            r@.self_id == self_id,
            r@.gossip.len() == 0,
            r@.direct.len() == 0,
    {
        let r = Broadcaster { self_id, gossip: Vec::new(), direct: Vec::new() };
        proof {
            assert(r@.gossip =~= Seq::<BundleV>::empty());
            assert(r@.direct =~= Seq::<(NodeId, BundleV)>::empty());
        }
        r
    }

    /// Queues `payload` for every peer, framed under `module` and this node's
    /// id.
    pub fn broadcast(&mut self, module: &str, payload: Vec<u8>)
        ensures
            final(self)@.self_id == old(self)@.self_id,
            final(self)@.direct == old(self)@.direct,
            final(self)@.gossip == old(self)@.gossip.push(
                BundleV {
                    initiator: old(self)@.self_id,
                    module: module.spec_bytes(),
                    payload: payload@,
                },
            ),
    {
        let bundle = Bundle {
            initiator: self.self_id,
            module: vstd::slice::slice_to_vec(module.as_bytes()),
            payload,
        };
        self.gossip.push(bundle);
        proof {
            assert(self@.gossip =~= old(self)@.gossip.push(
                BundleV {
                    initiator: old(self)@.self_id,
                    module: module.spec_bytes(),
                    payload: payload@,
                },
            ));
            assert(self@.direct =~= old(self)@.direct);
        }
    }

    /// Queues `payload` for `recipient` alone, framed under `module` and this
    /// node's id.
    pub fn send_to(&mut self, recipient: NodeId, module: &str, payload: Vec<u8>)
        ensures
            final(self)@.self_id == old(self)@.self_id,
            final(self)@.gossip == old(self)@.gossip,
            final(self)@.direct == old(self)@.direct.push(
                (
                    recipient,
                    BundleV {
                        initiator: old(self)@.self_id,
                        module: module.spec_bytes(),
                        payload: payload@,
                    },
                ),
            ),
    {
        let bundle = Bundle {
            initiator: self.self_id,
            module: vstd::slice::slice_to_vec(module.as_bytes()),
            payload,
        };
        self.direct.push((recipient, bundle));
        proof {
            assert(self@.direct =~= old(self)@.direct.push(
                (
                    recipient,
                    BundleV {
                        initiator: old(self)@.self_id,
                        module: module.spec_bytes(),
                        payload: payload@,
                    },
                ),
            ));
            assert(self@.gossip =~= old(self)@.gossip);
        }
    }

    /// Whether a broadcast with exactly this payload is queued.
    pub fn has_gossip_message(&self, data: &Vec<u8>) -> (r: bool)
        ensures
            r == exists|i: int| 0 <= i < self@.gossip.len() && self@.gossip[i].payload == data@,
    {
        let mut i: usize = 0;
        while i < self.gossip.len()
            invariant
                i <= self@.gossip.len(),
                self@.gossip.len() == self.gossip@.len(),
                forall|k: int| 0 <= k < i ==> self@.gossip[k].payload != data@,
            decreases self.gossip@.len() - i,
        {
            if bytes_eq(&self.gossip[i].payload, data) {
                proof {
                    assert(self@.gossip[i as int].payload == data@);
                }
                return true;
            }
            i = i + 1;
        }
        false
    }

    /// Whether a direct message to `to` with exactly this payload is queued.
    pub fn has_direct_message(&self, to: &NodeId, data: &Vec<u8>) -> (r: bool)
        ensures
            r == exists|i: int|
                0 <= i < self@.direct.len() && self@.direct[i].0 == *to && self@.direct[i].1.payload
                    == data@,
    {
        let mut i: usize = 0;
        while i < self.direct.len()
            invariant
                i <= self@.direct.len(),
                self@.direct.len() == self.direct@.len(),
                forall|k: int|
                    0 <= k < i ==> !(self@.direct[k].0 == *to && self@.direct[k].1.payload
                        == data@),
            decreases self.direct@.len() - i,
        {
            if self.direct[i].0 == *to && bytes_eq(&self.direct[i].1.payload, data) {
                proof {
                    assert(self@.direct[i as int].0 == *to && self@.direct[i as int].1.payload
                        == data@);
                }
                return true;
            }
            i = i + 1;
        }
        false
    }

    /// Drains the queue: the encoded broadcast bundles, then the encoded
    /// direct bundles with their recipients.
    pub fn take_bundles(&mut self) -> (r: (Vec<Vec<u8>>, Vec<(NodeId, Vec<u8>)>))
        ensures
            final(self)@.self_id == old(self)@.self_id,
            final(self)@.gossip.len() == 0,
            final(self)@.direct.len() == 0,
            r.0@.len() == old(self)@.gossip.len(),
            forall|i: int|
                0 <= i < r.0@.len() ==> r.0@[i]@ == enc_bundle(#[trigger] old(self)@.gossip[i]),
            r.1@.len() == old(self)@.direct.len(),
            forall|i: int|
                #![trigger r.1@[i]]
                0 <= i < r.1@.len() ==> r.1@[i].0 == old(self)@.direct[i].0 && r.1@[i].1@
                    == enc_bundle(old(self)@.direct[i].1),
    {
        let mut gossip_out: Vec<Vec<u8>> = Vec::new();
        let mut i: usize = 0;
        while i < self.gossip.len()
            invariant
                i <= self.gossip@.len(),
                self == old(self),
                gossip_out@.len() == i,
                forall|k: int|
                    0 <= k < i ==> gossip_out@[k]@ == enc_bundle(#[trigger] self@.gossip[k]),
            decreases self.gossip@.len() - i,
        {
            gossip_out.push(encode_bundle(&self.gossip[i]));
            i = i + 1;
        }
        let mut direct_out: Vec<(NodeId, Vec<u8>)> = Vec::new();
        let mut j: usize = 0;
        while j < self.direct.len()
            invariant
                j <= self.direct@.len(),
                self == old(self),
                direct_out@.len() == j,
                forall|k: int|
                    #![trigger direct_out@[k]]
                    0 <= k < j ==> direct_out@[k].0 == self@.direct[k].0 && direct_out@[k].1@
                        == enc_bundle(self@.direct[k].1),
            decreases self.direct@.len() - j,
        {
            direct_out.push((self.direct[j].0, encode_bundle(&self.direct[j].1)));
            proof {
                assert(direct_out@[j as int].0 == self@.direct[j as int].0);
                assert(direct_out@[j as int].1@ == enc_bundle(self@.direct[j as int].1));
            }
            j = j + 1;
        }
        self.gossip.clear();
        self.direct.clear();
        proof {
            assert(self@.gossip =~= Seq::<BundleV>::empty());
            assert(self@.direct =~= Seq::<(NodeId, BundleV)>::empty());
        }
        (gossip_out, direct_out)
    }
}

} // verus!
