//! Messages of the verifiable consistent broadcast.

use crate::codec::{enc_bytes, push_bytes, push_slice, read_byte, read_bytes};
use crate::hash::read_hash;
use crate::tag::read_tag;
use crate::crypto::{clone_bytes, Sig, SigShare};
use crate::hash::Hash32;
use crate::tag::{enc_tag, push_tag, Tag, TagV};
use crate::Proposal;
use vstd::prelude::*;

verus! {

/// One step of the broadcast protocol.
#[derive(Debug, PartialEq, Eq)]
pub enum Action {
    /// The proposer announces its proposal.
    Send(Proposal),
    /// A witness share over the c-ready bytes, sent only to the proposer.
    Ready(Hash32, SigShare),
    /// The proposer's aggregate certificate, broadcast to all.
    Final(Hash32, Sig),
    /// A recovery request after a `Final` was seen without the payload.
    Request,
    /// The payload together with its certificate, sent to a requester.
    Answer(Proposal, Sig),
}

/// Mathematical model of an `Action`.
pub enum ActionV {
    Send(Seq<u8>),
    Ready(Seq<u8>, Seq<u8>),
    Final(Seq<u8>, Seq<u8>),
    Request,
    Answer(Seq<u8>, Seq<u8>),
}

impl View for Action {
    type V = ActionV;

    open spec fn view(&self) -> ActionV {
        match self {
            Action::Send(m) => ActionV::Send(m@),
            Action::Ready(d, s) => ActionV::Ready(d@, s@),
            Action::Final(d, s) => ActionV::Final(d@, s@),
            Action::Request => ActionV::Request,
            Action::Answer(m, s) => ActionV::Answer(m@, s@),
        }
    }
}

impl Clone for Action {
    fn clone(&self) -> (r: Self)
        ensures
            r@ == self@,
    {
        match self {
            Action::Send(m) => Action::Send(clone_bytes(m)),
            Action::Ready(d, s) => Action::Ready(*d, s.clone()),
            Action::Final(d, s) => Action::Final(*d, s.clone()),
            Action::Request => Action::Request,
            Action::Answer(m, s) => Action::Answer(clone_bytes(m), s.clone()),
        }
    }
}

/// A broadcast message: the instance tag and one protocol step.
#[derive(Debug, PartialEq, Eq)]
pub struct Message {
    pub tag: Tag,
    pub action: Action,
}

/// Mathematical model of a `Message`.
pub struct MessageV {
    pub tag: TagV,
    pub action: ActionV,
}

impl View for Message {
    type V = MessageV;

    open spec fn view(&self) -> MessageV {
        MessageV { tag: self.tag@, action: self.action@ }
    }
}

impl Clone for Message {
    fn clone(&self) -> (r: Self)
        ensures
            r@ == self@,
    {
        Message { tag: self.tag.clone(), action: self.action.clone() }
    }
}

impl Message {
    /// The protocol phase this message belongs to.
    pub fn action_str(&self) -> (r: &str)
        ensures
            match self.action {
                Action::Send(_) => r@ == "c-send"@,
                Action::Ready(_, _) => r@ == "c-ready"@,
                Action::Final(_, _) => r@ == "c-final"@,
                Action::Request => r@ == "c-request"@,
                Action::Answer(_, _) => r@ == "c-answer"@,
            },
    {
        match self.action {
            Action::Send(_) => "c-send",
            Action::Ready(_, _) => "c-ready",
            Action::Final(_, _) => "c-final",
            Action::Request => "c-request",
            Action::Answer(_, _) => "c-answer",
        }
    }
}

/// The canonical byte encoding of an action: a marker byte, then the fields,
/// digests raw and variable-length fields length-prefixed.
pub open spec fn enc_action(a: ActionV) -> Seq<u8> {
    match a {
        ActionV::Send(m) => seq![1u8] + enc_bytes(m),
        ActionV::Ready(d, s) => seq![2u8] + d + enc_bytes(s),
        ActionV::Final(d, s) => seq![3u8] + d + enc_bytes(s),
        ActionV::Request => seq![4u8],
        ActionV::Answer(m, s) => seq![5u8] + enc_bytes(m) + enc_bytes(s),
    }
}

/// The canonical byte encoding of a message: the tag, then the action.
pub open spec fn enc_message(m: MessageV) -> Seq<u8> {
    enc_tag(m.tag) + enc_action(m.action)
}

/// Encodes `msg` into stable, deterministic bytes.
pub fn encode_message(msg: &Message) -> (r: Vec<u8>)
    ensures
        r@ == enc_message(msg@),
{
    let mut out: Vec<u8> = Vec::new();
    push_tag(&mut out, &msg.tag);
    match &msg.action {
        Action::Send(m) => {
            out.push(1u8);
            push_bytes(&mut out, m.as_slice());
        },
        Action::Ready(d, s) => {
            out.push(2u8);
            push_slice(&mut out, d.bytes.as_slice());
            push_bytes(&mut out, s.bytes.as_slice());
        },
        Action::Final(d, s) => {
            out.push(3u8);
            push_slice(&mut out, d.bytes.as_slice());
            push_bytes(&mut out, s.bytes.as_slice());
        },
        Action::Request => {
            out.push(4u8);
        },
        Action::Answer(m, s) => {
            out.push(5u8);
            push_bytes(&mut out, m.as_slice());
            push_bytes(&mut out, s.bytes.as_slice());
        },
    }
    proof {
        assert(out@ =~= enc_message(msg@));
    }
    out
}

/// Decodes a message from `buf`; succeeds only if the whole buffer is one
/// canonical message encoding, and then yields the message it encodes.
pub fn decode_message(buf: &Vec<u8>) -> (r: Option<Message>)
    ensures
        (r matches Some(m) ==> enc_message(m@) == buf@),
{
    let (tag, p0) = match read_tag(buf, 0) {
        Some(x) => x,
        None => {
            return None;
        },
    };
    let (marker, p1) = match read_byte(buf, p0) {
        Some(x) => x,
        None => {
            return None;
        },
    };
    if marker == 1u8 {
        let (m, p2) = match read_bytes(buf, p1) {
            Some(x) => x,
            None => {
                return None;
            },
        };
        if p2 != buf.len() {
            return None;
        }
        let msg = Message { tag, action: Action::Send(m) };
        proof {
            assert(enc_message(msg@) =~= buf@.subrange(0, p0 as int) + buf@.subrange(
                p0 as int,
                p1 as int,
            ) + buf@.subrange(p1 as int, p2 as int));
            assert(enc_message(msg@) =~= buf@);
        }
        Some(msg)
    } else if marker == 2u8 || marker == 3u8 {
        let (d, p2) = match read_hash(buf, p1) {
            Some(x) => x,
            None => {
                return None;
            },
        };
        let (s, p3) = match read_bytes(buf, p1 + 32) {
            Some(x) => x,
            None => {
                return None;
            },
        };
        if p3 != buf.len() {
            return None;
        }
        let action = if marker == 2u8 {
            Action::Ready(d, SigShare::new(s))
        } else {
            Action::Final(d, Sig::new(s))
        };
        let msg = Message { tag, action };
        proof {
            assert(enc_message(msg@) =~= buf@.subrange(0, p0 as int) + buf@.subrange(
                p0 as int,
                p1 as int,
            ) + buf@.subrange(p1 as int, p2 as int) + buf@.subrange(p2 as int, p3 as int));
            assert(enc_message(msg@) =~= buf@);
        }
        Some(msg)
    } else if marker == 4u8 {
        if p1 != buf.len() {
            return None;
        }
        let msg = Message { tag, action: Action::Request };
        proof {
            assert(enc_message(msg@) =~= buf@.subrange(0, p0 as int) + buf@.subrange(
                p0 as int,
                p1 as int,
            ));
            assert(enc_message(msg@) =~= buf@);
        }
        Some(msg)
    } else if marker == 5u8 {
        let (m, p2) = match read_bytes(buf, p1) {
            Some(x) => x,
            None => {
                return None;
            },
        };
        let (s, p3) = match read_bytes(buf, p2) {
            Some(x) => x,
            None => {
                return None;
            },
        };
        if p3 != buf.len() {
            return None;
        }
        let msg = Message { tag, action: Action::Answer(m, Sig::new(s)) };
        proof {
            assert(enc_message(msg@) =~= buf@.subrange(0, p0 as int) + buf@.subrange(
                p0 as int,
                p1 as int,
            ) + buf@.subrange(p1 as int, p2 as int) + buf@.subrange(p2 as int, p3 as int));
            assert(enc_message(msg@) =~= buf@);
        }
        Some(msg)
    } else {
        None
    }
}

} // verus!
