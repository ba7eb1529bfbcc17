//! Messages, votes and justifications of the binary agreement.

use crate::codec::{enc_bytes, push_bytes, read_byte, read_bytes, read_u64};
use crate::codec::push_u64;
use crate::crypto::{Sig, SigShare};
use crate::hash::{read_hash, Hash32};
use crate::tag::{enc_tag, push_tag, read_tag, Tag, TagV};
use vstd::bytes::spec_u64_to_le_bytes;
use vstd::prelude::*;

verus! {

/// A binary protocol value.
#[derive(Debug, Clone, Copy, PartialEq, Eq, Structural)]
pub enum Value {
    Zero,
    One,
}

/// A main-vote value: one of the two binary values, or an abstention.
#[derive(Debug, Clone, Copy, PartialEq, Eq, Structural)]
pub enum MainVoteValue {
    Value(Value),
    Abstain,
}

impl MainVoteValue {
    /// The main-vote value for zero.
    pub fn zero() -> (r: MainVoteValue)
        ensures
            r == MainVoteValue::Value(Value::Zero),
    {
        MainVoteValue::Value(Value::Zero)
    }

    /// The main-vote value for one.
    pub fn one() -> (r: MainVoteValue)
        ensures
            r == MainVoteValue::Value(Value::One),
    {
        MainVoteValue::Value(Value::One)
    }
}

/// Why a pre-vote for a round and value is admissible.
#[derive(Debug, PartialEq, Eq)]
pub enum PreVoteJustification {
    /// A first-round vote for zero needs no evidence.
    FirstRoundZero,
    /// A first-round vote for one carries a broadcast certificate: the digest
    /// of the certified proposal and the aggregate signature over its
    /// c-ready bytes.
    WithValidity(Hash32, Sig),
    /// An aggregate signature over the previous round's pre-vote bytes for
    /// the same value.
    Hard(Sig),
    /// An aggregate signature over the previous round's abstain main-vote
    /// bytes.
    Soft(Sig),
}

/// Mathematical model of a `PreVoteJustification`.
pub enum PreVoteJustV {
    FirstRoundZero,
    WithValidity(Seq<u8>, Seq<u8>),
    Hard(Seq<u8>),
    Soft(Seq<u8>),
}

impl View for PreVoteJustification {
    type V = PreVoteJustV;

    open spec fn view(&self) -> PreVoteJustV {
        match self {
            PreVoteJustification::FirstRoundZero => PreVoteJustV::FirstRoundZero,
            PreVoteJustification::WithValidity(d, s) => PreVoteJustV::WithValidity(d@, s@),
            PreVoteJustification::Hard(s) => PreVoteJustV::Hard(s@),
            PreVoteJustification::Soft(s) => PreVoteJustV::Soft(s@),
        }
    }
}

impl Clone for PreVoteJustification {
    fn clone(&self) -> (r: Self)
        ensures
            r@ == self@,
    {
        match self {
            PreVoteJustification::FirstRoundZero => PreVoteJustification::FirstRoundZero,
            PreVoteJustification::WithValidity(d, s) => PreVoteJustification::WithValidity(
                *d,
                s.clone(),
            ),
            PreVoteJustification::Hard(s) => PreVoteJustification::Hard(s.clone()),
            PreVoteJustification::Soft(s) => PreVoteJustification::Soft(s.clone()),
        }
    }
}

/// Compares two pre-vote justifications by value.
pub fn pre_vote_just_eq(a: &PreVoteJustification, b: &PreVoteJustification) -> (r: bool)
    ensures
        r == (a@ == b@),
{
    match (a, b) {
        (PreVoteJustification::FirstRoundZero, PreVoteJustification::FirstRoundZero) => true,
        (
            PreVoteJustification::WithValidity(d1, s1),
            PreVoteJustification::WithValidity(d2, s2),
        ) => d1.eq_digest(d2) && s1.eq_sig(s2),
        (PreVoteJustification::Hard(s1), PreVoteJustification::Hard(s2)) => s1.eq_sig(s2),
        (PreVoteJustification::Soft(s1), PreVoteJustification::Soft(s2)) => s1.eq_sig(s2),
        _ => false,
    }
}

/// Why a main-vote value is admissible.
#[derive(Debug, PartialEq, Eq)]
pub enum MainVoteJustification {
    /// An aggregate signature over this round's pre-vote bytes for the voted
    /// value.
    NoAbstain(Sig),
    /// Evidence of a split round: a justified pre-vote for zero and a
    /// justified pre-vote for one.
    Abstain(Box<PreVoteJustification>, Box<PreVoteJustification>),
}

/// Mathematical model of a `MainVoteJustification`.
pub enum MainVoteJustV {
    NoAbstain(Seq<u8>),
    Abstain(PreVoteJustV, PreVoteJustV),
}

impl View for MainVoteJustification {
    type V = MainVoteJustV;

    open spec fn view(&self) -> MainVoteJustV {
        match self {
            MainVoteJustification::NoAbstain(s) => MainVoteJustV::NoAbstain(s@),
            MainVoteJustification::Abstain(j0, j1) => MainVoteJustV::Abstain(j0@, j1@),
        }
    }
}

impl Clone for MainVoteJustification {
    fn clone(&self) -> (r: Self)
        ensures
            r@ == self@,
    {
        match self {
            MainVoteJustification::NoAbstain(s) => MainVoteJustification::NoAbstain(s.clone()),
            MainVoteJustification::Abstain(j0, j1) => MainVoteJustification::Abstain(
                Box::new((**j0).clone()),
                Box::new((**j1).clone()),
            ),
        }
    }
}

/// Compares two main-vote justifications by value.
pub fn main_vote_just_eq(a: &MainVoteJustification, b: &MainVoteJustification) -> (r: bool)
    ensures
        r == (a@ == b@),
{
    match (a, b) {
        (MainVoteJustification::NoAbstain(s1), MainVoteJustification::NoAbstain(s2)) => s1.eq_sig(
            s2,
        ),
        (
            MainVoteJustification::Abstain(a0, a1),
            MainVoteJustification::Abstain(b0, b1),
        ) => pre_vote_just_eq(a0, b0) && pre_vote_just_eq(a1, b1),
        _ => false,
    }
}

/// A pre-vote: round, value, its justification, and the sender's signature
/// share over the canonical pre-vote bytes.
#[derive(Debug, PartialEq, Eq)]
pub struct PreVoteAction {
    pub round: usize,
    pub value: Value,
    pub justification: PreVoteJustification,
    pub sig_share: SigShare,
}

/// Mathematical model of a `PreVoteAction`.
pub struct PreVoteActionV {
    pub round: usize,
    pub value: Value,
    pub justification: PreVoteJustV,
    pub sig_share: Seq<u8>,
}

impl View for PreVoteAction {
    type V = PreVoteActionV;

    open spec fn view(&self) -> PreVoteActionV {
        PreVoteActionV {
            round: self.round,
            value: self.value,
            justification: self.justification@,
            sig_share: self.sig_share@,
        }
    }
}

impl Clone for PreVoteAction {
    fn clone(&self) -> (r: Self)
        ensures
            r@ == self@,
    {
        PreVoteAction {
            round: self.round,
            value: self.value,
            justification: self.justification.clone(),
            sig_share: self.sig_share.clone(),
        }
    }
}

/// Compares two pre-votes by value.
pub fn pre_vote_action_eq(a: &PreVoteAction, b: &PreVoteAction) -> (r: bool)
    ensures
        r == (a@ == b@),
{
    let r = a.round == b.round && a.value == b.value && pre_vote_just_eq(
        &a.justification,
        &b.justification,
    ) && a.sig_share.eq_share(&b.sig_share);
    proof {
        if a.round == b.round && a.value == b.value && a.justification@ == b.justification@
            && a.sig_share@ == b.sig_share@ {
            assert(a@ == b@);
        }
    }
    r
}

/// A main-vote: round, value, its justification, and the sender's signature
/// share over the canonical main-vote bytes.
#[derive(Debug, PartialEq, Eq)]
pub struct MainVoteAction {
    pub round: usize,
    pub value: MainVoteValue,
    pub justification: MainVoteJustification,
    pub sig_share: SigShare,
}

/// Mathematical model of a `MainVoteAction`.
pub struct MainVoteActionV {
    pub round: usize,
    pub value: MainVoteValue,
    pub justification: MainVoteJustV,
    pub sig_share: Seq<u8>,
}

impl View for MainVoteAction {
    type V = MainVoteActionV;

    open spec fn view(&self) -> MainVoteActionV {
        MainVoteActionV {
            round: self.round,
            value: self.value,
            justification: self.justification@,
            sig_share: self.sig_share@,
        }
    }
}

impl Clone for MainVoteAction {
    fn clone(&self) -> (r: Self)
        ensures
            r@ == self@,
    {
        MainVoteAction {
            round: self.round,
            value: self.value,
            justification: self.justification.clone(),
            sig_share: self.sig_share.clone(),
        }
    }
}

/// Compares two main-votes by value.
pub fn main_vote_action_eq(a: &MainVoteAction, b: &MainVoteAction) -> (r: bool)
    ensures
        r == (a@ == b@),
{
    let r = a.round == b.round && a.value == b.value && main_vote_just_eq(
        &a.justification,
        &b.justification,
    ) && a.sig_share.eq_share(&b.sig_share);
    proof {
        if a.round == b.round && a.value == b.value && a.justification@ == b.justification@
            && a.sig_share@ == b.sig_share@ {
            assert(a@ == b@);
        }
    }
    r
}

/// A decision: round, value, and the aggregate signature over the round's
/// no-abstain main-vote bytes for that value.
#[derive(Debug, PartialEq, Eq)]
pub struct DecisionAction {
    pub round: usize,
    pub value: Value,
    pub sig: Sig,
}

/// Mathematical model of a `DecisionAction`.
pub struct DecisionActionV {
    pub round: usize,
    pub value: Value,
    pub sig: Seq<u8>,
}

impl View for DecisionAction {
    type V = DecisionActionV;

    open spec fn view(&self) -> DecisionActionV {
        DecisionActionV { round: self.round, value: self.value, sig: self.sig@ }
    }
}

impl Clone for DecisionAction {
    fn clone(&self) -> (r: Self)
        ensures
            r@ == self@,
    {
        DecisionAction { round: self.round, value: self.value, sig: self.sig.clone() }
    }
}

/// Compares two decisions by value.
pub fn decision_action_eq(a: &DecisionAction, b: &DecisionAction) -> (r: bool)
    ensures
        r == (a@ == b@),
{
    let r = a.round == b.round && a.value == b.value && a.sig.eq_sig(&b.sig);
    proof {
        if a.round == b.round && a.value == b.value && a.sig@ == b.sig@ {
            assert(a@ == b@);
        }
    }
    r
}

/// One step of the agreement protocol.
#[derive(Debug, PartialEq, Eq)]
pub enum Action {
    PreVote(PreVoteAction),
    MainVote(MainVoteAction),
    Decision(DecisionAction),
}

/// Mathematical model of an `Action`.
pub enum ActionV {
    PreVote(PreVoteActionV),
    MainVote(MainVoteActionV),
    Decision(DecisionActionV),
}

impl View for Action {
    type V = ActionV;

    open spec fn view(&self) -> ActionV {
        match self {
            Action::PreVote(a) => ActionV::PreVote(a@),
            Action::MainVote(a) => ActionV::MainVote(a@),
            Action::Decision(a) => ActionV::Decision(a@),
        }
    }
}

impl Clone for Action {
    fn clone(&self) -> (r: Self)
        ensures
            r@ == self@,
    {
        match self {
            Action::PreVote(a) => Action::PreVote(a.clone()),
            Action::MainVote(a) => Action::MainVote(a.clone()),
            Action::Decision(a) => Action::Decision(a.clone()),
        }
    }
}

/// An agreement message: the instance tag and one protocol step.
#[derive(Debug, PartialEq, Eq)]
pub struct Message {
    pub tag: Tag,
    pub action: Action,
}

/// Mathematical model of a `Message`.
pub struct MessageV {
    pub tag: TagV,
    pub action: ActionV,
}

impl View for Message {
    type V = MessageV;

    open spec fn view(&self) -> MessageV {
        MessageV { tag: self.tag@, action: self.action@ }
    }
}

impl Clone for Message {
    fn clone(&self) -> (r: Self)
        ensures
            r@ == self@,
    {
        Message { tag: self.tag.clone(), action: self.action.clone() }
    }
}

impl Message {
    /// The protocol phase this message belongs to.
    pub fn action_str(&self) -> (r: &str)
        ensures
            match self.action {
                Action::PreVote(_) => r@ == "pre-vote"@,
                Action::MainVote(_) => r@ == "main-vote"@,
                Action::Decision(_) => r@ == "decision"@,
            },
    {
        match self.action {
            Action::PreVote(_) => "pre-vote",
            Action::MainVote(_) => "main-vote",
            Action::Decision(_) => "decision",
        }
    }
}

/// The marker byte of a binary value inside canonical bytes.
pub open spec fn value_byte(v: Value) -> u8 {
    match v {
        Value::Zero => 0u8,
        Value::One => 1u8,
    }
}

/// The marker byte of a main-vote value inside canonical bytes.
pub open spec fn main_vote_value_byte(v: MainVoteValue) -> u8 {
    match v {
        MainVoteValue::Value(Value::Zero) => 0u8,
        MainVoteValue::Value(Value::One) => 1u8,
        MainVoteValue::Abstain => 2u8,
    }
}

/// Writes the marker byte of a binary value.
pub fn push_value(out: &mut Vec<u8>, v: &Value)
    ensures
        final(out)@ == old(out)@ + seq![value_byte(*v)],
{
    match v {
        Value::Zero => out.push(0u8),
        Value::One => out.push(1u8),
    }
    proof {
        assert(out@ =~= old(out)@ + seq![value_byte(*v)]);
    }
}

/// Writes the marker byte of a main-vote value.
pub fn push_main_vote_value(out: &mut Vec<u8>, v: &MainVoteValue)
    ensures
        final(out)@ == old(out)@ + seq![main_vote_value_byte(*v)],
{
    match v {
        MainVoteValue::Value(Value::Zero) => out.push(0u8),
        MainVoteValue::Value(Value::One) => out.push(1u8),
        MainVoteValue::Abstain => out.push(2u8),
    }
    proof {
        assert(out@ =~= old(out)@ + seq![main_vote_value_byte(*v)]);
    }
}

/// The canonical byte encoding of a pre-vote justification.
pub open spec fn enc_pre_vote_just(j: PreVoteJustV) -> Seq<u8> {
    match j {
        PreVoteJustV::FirstRoundZero => seq![1u8],
        PreVoteJustV::WithValidity(d, s) => seq![2u8] + d + enc_bytes(s),
        PreVoteJustV::Hard(s) => seq![3u8] + enc_bytes(s),
        PreVoteJustV::Soft(s) => seq![4u8] + enc_bytes(s),
    }
}

/// The canonical byte encoding of a main-vote justification.
pub open spec fn enc_main_vote_just(j: MainVoteJustV) -> Seq<u8> {
    match j {
        MainVoteJustV::NoAbstain(s) => seq![1u8] + enc_bytes(s),
        MainVoteJustV::Abstain(j0, j1) => seq![2u8] + enc_pre_vote_just(j0) + enc_pre_vote_just(
            j1,
        ),
    }
}

/// The canonical byte encoding of an action.
pub open spec fn enc_action(a: ActionV) -> Seq<u8> {
    match a {
        ActionV::PreVote(v) => seq![1u8] + spec_u64_to_le_bytes(v.round as u64) + seq![
            value_byte(v.value),
        ] + enc_pre_vote_just(v.justification) + enc_bytes(v.sig_share),
        ActionV::MainVote(v) => seq![2u8] + spec_u64_to_le_bytes(v.round as u64) + seq![
            main_vote_value_byte(v.value),
        ] + enc_main_vote_just(v.justification) + enc_bytes(v.sig_share),
        ActionV::Decision(v) => seq![3u8] + spec_u64_to_le_bytes(v.round as u64) + seq![
            value_byte(v.value),
        ] + enc_bytes(v.sig),
    }
}

/// The canonical byte encoding of a message: the tag, then the action.
pub open spec fn enc_message(m: MessageV) -> Seq<u8> {
    enc_tag(m.tag) + enc_action(m.action)
}

/// Appends the encoding of a pre-vote justification.
pub fn push_pre_vote_just(out: &mut Vec<u8>, j: &PreVoteJustification)
    ensures
        final(out)@ == old(out)@ + enc_pre_vote_just(j@),
{
    match j {
        PreVoteJustification::FirstRoundZero => {
            out.push(1u8);
        },
        PreVoteJustification::WithValidity(d, s) => {
            out.push(2u8);
            crate::codec::push_slice(out, d.bytes.as_slice());
            push_bytes(out, s.bytes.as_slice());
        },
        PreVoteJustification::Hard(s) => {
            out.push(3u8);
            push_bytes(out, s.bytes.as_slice());
        },
        PreVoteJustification::Soft(s) => {
            out.push(4u8);
            push_bytes(out, s.bytes.as_slice());
        },
    }
    proof {
        assert(out@ =~= old(out)@ + enc_pre_vote_just(j@));
    }
}

/// Appends the encoding of a main-vote justification.
pub fn push_main_vote_just(out: &mut Vec<u8>, j: &MainVoteJustification)
    ensures
        final(out)@ == old(out)@ + enc_main_vote_just(j@),
{
    match j {
        MainVoteJustification::NoAbstain(s) => {
            out.push(1u8);
            push_bytes(out, s.bytes.as_slice());
        },
        MainVoteJustification::Abstain(j0, j1) => {
            out.push(2u8);
            push_pre_vote_just(out, j0);
            push_pre_vote_just(out, j1);
        },
    }
    proof {
        assert(out@ =~= old(out)@ + enc_main_vote_just(j@));
    }
}

/// Encodes `msg` into stable, deterministic bytes.
pub fn encode_message(msg: &Message) -> (r: Vec<u8>)
    ensures
        r@ == enc_message(msg@),
{
    let mut out: Vec<u8> = Vec::new();
    push_tag(&mut out, &msg.tag);
    match &msg.action {
        Action::PreVote(a) => {
            out.push(1u8);
            push_u64(&mut out, a.round as u64);
            push_value(&mut out, &a.value);
            push_pre_vote_just(&mut out, &a.justification);
            push_bytes(&mut out, a.sig_share.bytes.as_slice());
        },
        Action::MainVote(a) => {
            out.push(2u8);
            push_u64(&mut out, a.round as u64);
            push_main_vote_value(&mut out, &a.value);
            push_main_vote_just(&mut out, &a.justification);
            push_bytes(&mut out, a.sig_share.bytes.as_slice());
        },
        Action::Decision(a) => {
            out.push(3u8);
            push_u64(&mut out, a.round as u64);
            push_value(&mut out, &a.value);
            push_bytes(&mut out, a.sig.bytes.as_slice());
        },
    }
    proof {
        assert(out@ =~= enc_message(msg@));
    }
    out
}

/// Reads a binary value's marker byte.
pub fn read_value(buf: &Vec<u8>, pos: usize) -> (r: Option<(Value, usize)>)
    ensures
        match r {
            Some(vp) => {
                &&& pos + 1 <= buf@.len()
                &&& vp.1 == pos + 1
                &&& buf@.subrange(pos as int, vp.1 as int) == seq![value_byte(vp.0)]
            },
            None => true,
        },
{
    let (b, p) = match read_byte(buf, pos) {
        Some(x) => x,
        None => {
            return None;
        },
    };
    if b == 0u8 {
        Some((Value::Zero, p))
    } else if b == 1u8 {
        Some((Value::One, p))
    } else {
        None
    }
}

/// Reads a main-vote value's marker byte.
pub fn read_main_vote_value(buf: &Vec<u8>, pos: usize) -> (r: Option<(MainVoteValue, usize)>)
    ensures
        match r {
            Some(vp) => {
                &&& pos + 1 <= buf@.len()
                &&& vp.1 == pos + 1
                &&& buf@.subrange(pos as int, vp.1 as int) == seq![main_vote_value_byte(vp.0)]
            },
            None => true,
        },
{
    let (b, p) = match read_byte(buf, pos) {
        Some(x) => x,
        None => {
            return None;
        },
    };
    if b == 0u8 {
        Some((MainVoteValue::Value(Value::Zero), p))
    } else if b == 1u8 {
        Some((MainVoteValue::Value(Value::One), p))
    } else if b == 2u8 {
        Some((MainVoteValue::Abstain, p))
    } else {
        None
    }
}

/// Reads a pre-vote justification.
pub fn read_pre_vote_just(buf: &Vec<u8>, pos: usize) -> (r: Option<(
    PreVoteJustification,
    usize,
)>)
    ensures
        match r {
            Some(jp) => {
                &&& pos <= jp.1 <= buf@.len()
                &&& buf@.subrange(pos as int, jp.1 as int) == enc_pre_vote_just(jp.0@)
            },
            None => true,
        },
{
    let (b, p) = match read_byte(buf, pos) {
        Some(x) => x,
        None => {
            return None;
        },
    };
    if b == 1u8 {
        Some((PreVoteJustification::FirstRoundZero, p))
    } else if b == 2u8 {
        let (d, p1) = match read_hash(buf, p) {
            Some(x) => x,
            None => {
                return None;
            },
        };
        let (s, p2) = match read_bytes(buf, p1) {
            Some(x) => x,
            None => {
                return None;
            },
        };
        let j = PreVoteJustification::WithValidity(d, Sig::new(s));
        proof {
            assert(buf@.subrange(pos as int, p2 as int) =~= buf@.subrange(pos as int, p as int)
                + buf@.subrange(p as int, p1 as int) + buf@.subrange(p1 as int, p2 as int));
            assert(buf@.subrange(pos as int, p2 as int) == enc_pre_vote_just(j@));
        }
        Some((j, p2))
    } else if b == 3u8 || b == 4u8 {
        let (s, p1) = match read_bytes(buf, p) {
            Some(x) => x,
            None => {
                return None;
            },
        };
        let j = if b == 3u8 {
            PreVoteJustification::Hard(Sig::new(s))
        } else {
            PreVoteJustification::Soft(Sig::new(s))
        };
        proof {
            assert(buf@.subrange(pos as int, p1 as int) =~= buf@.subrange(pos as int, p as int)
                + buf@.subrange(p as int, p1 as int));
            assert(buf@.subrange(pos as int, p1 as int) == enc_pre_vote_just(j@));
        }
        Some((j, p1))
    } else {
        None
    }
}

/// Reads a main-vote justification.
pub fn read_main_vote_just(buf: &Vec<u8>, pos: usize) -> (r: Option<(
    MainVoteJustification,
    usize,
)>)
    ensures
        match r {
            Some(jp) => {
                &&& pos <= jp.1 <= buf@.len()
                &&& buf@.subrange(pos as int, jp.1 as int) == enc_main_vote_just(jp.0@)
            },
            None => true,
        },
{
    let (b, p) = match read_byte(buf, pos) {
        Some(x) => x,
        None => {
            return None;
        },
    };
    if b == 1u8 {
        let (s, p1) = match read_bytes(buf, p) {
            Some(x) => x,
            None => {
                return None;
            },
        };
        let j = MainVoteJustification::NoAbstain(Sig::new(s));
        proof {
            assert(buf@.subrange(pos as int, p1 as int) =~= buf@.subrange(pos as int, p as int)
                + buf@.subrange(p as int, p1 as int));
            assert(buf@.subrange(pos as int, p1 as int) == enc_main_vote_just(j@));
        }
        Some((j, p1))
    } else if b == 2u8 {
        let (j0, p1) = match read_pre_vote_just(buf, p) {
            Some(x) => x,
            None => {
                return None;
            },
        };
        let (j1, p2) = match read_pre_vote_just(buf, p1) {
            Some(x) => x,
            None => {
                return None;
            },
        };
        let j = MainVoteJustification::Abstain(Box::new(j0), Box::new(j1));
        proof {
            assert(buf@.subrange(pos as int, p2 as int) =~= buf@.subrange(pos as int, p as int)
                + buf@.subrange(p as int, p1 as int) + buf@.subrange(p1 as int, p2 as int));
            assert(buf@.subrange(pos as int, p2 as int) == enc_main_vote_just(j@));
        }
        Some((j, p2))
    } else {
        None
    }
}

/// Reads a round number, refusing values that do not fit the host.
pub fn read_round(buf: &Vec<u8>, pos: usize) -> (r: Option<(usize, usize)>)
    ensures
        match r {
            Some(vp) => {
                &&& pos + 8 <= buf@.len()
                &&& vp.1 == pos + 8
                &&& buf@.subrange(pos as int, vp.1 as int) == spec_u64_to_le_bytes(vp.0 as u64)
            },
            None => true,
        },
{
    let (v, p) = match read_u64(buf, pos) {
        Some(x) => x,
        None => {
            return None;
        },
    };
    if v > usize::MAX as u64 {
        return None;
    }
    Some((v as usize, p))
}

/// Decodes a message from `buf`; succeeds only if the whole buffer is one
/// canonical message encoding, and then yields the message it encodes.
#[verifier::rlimit(60)]
pub fn decode_message(buf: &Vec<u8>) -> (r: Option<Message>)
    ensures
        (r matches Some(m) ==> enc_message(m@) == buf@),
{
    let (tag, p0) = match read_tag(buf, 0) {
        Some(x) => x,
        None => {
            return None;
        },
    };
    let (marker, p1) = match read_byte(buf, p0) {
        Some(x) => x,
        None => {
            return None;
        },
    };
    if marker == 1u8 {
        let (round, p2) = match read_round(buf, p1) {
            Some(x) => x,
            None => {
                return None;
            },
        };
        let (value, p3) = match read_value(buf, p2) {
            Some(x) => x,
            None => {
                return None;
            },
        };
        let (just, p4) = match read_pre_vote_just(buf, p3) {
            Some(x) => x,
            None => {
                return None;
            },
        };
        let (share, p5) = match read_bytes(buf, p4) {
            Some(x) => x,
            None => {
                return None;
            },
        };
        if p5 != buf.len() {
            return None;
        }
        let msg = Message {
            tag,
            action: Action::PreVote(
                PreVoteAction { round, value, justification: just, sig_share: SigShare::new(share) },
            ),
        };
        proof {
            assert(enc_message(msg@) =~= buf@.subrange(0, p0 as int) + buf@.subrange(
                p0 as int,
                p1 as int,
            ) + buf@.subrange(p1 as int, p2 as int) + buf@.subrange(p2 as int, p3 as int)
                + buf@.subrange(p3 as int, p4 as int) + buf@.subrange(p4 as int, p5 as int));
            assert(enc_message(msg@) =~= buf@);
        }
        Some(msg)
    } else if marker == 2u8 {
        let (round, p2) = match read_round(buf, p1) {
            Some(x) => x,
            None => {
                return None;
            },
        };
        let (value, p3) = match read_main_vote_value(buf, p2) {
            Some(x) => x,
            None => {
                return None;
            },
        };
        let (just, p4) = match read_main_vote_just(buf, p3) {
            Some(x) => x,
            None => {
                return None;
            },
        };
        let (share, p5) = match read_bytes(buf, p4) {
            Some(x) => x,
            None => {
                return None;
            },
        };
        if p5 != buf.len() {
            return None;
        }
        let msg = Message {
            tag,
            action: Action::MainVote(
                MainVoteAction {
                    round,
                    value,
                    justification: just,
                    sig_share: SigShare::new(share),
                },
            ),
        };
        proof {
            assert(enc_message(msg@) =~= buf@.subrange(0, p0 as int) + buf@.subrange(
                p0 as int,
                p1 as int,
            ) + buf@.subrange(p1 as int, p2 as int) + buf@.subrange(p2 as int, p3 as int)
                + buf@.subrange(p3 as int, p4 as int) + buf@.subrange(p4 as int, p5 as int));
            assert(enc_message(msg@) =~= buf@);
        }
        Some(msg)
    } else if marker == 3u8 {
        let (round, p2) = match read_round(buf, p1) {
            Some(x) => x,
            None => {
                return None;
            },
        };
        let (value, p3) = match read_value(buf, p2) {
            Some(x) => x,
            None => {
                return None;
            },
        };
        let (sig, p4) = match read_bytes(buf, p3) {
            Some(x) => x,
            None => {
                return None;
            },
        };
        if p4 != buf.len() {
            return None;
        }
        let msg = Message {
            tag,
            action: Action::Decision(DecisionAction { round, value, sig: Sig::new(sig) }),
        };
        proof {
            assert(enc_message(msg@) =~= buf@.subrange(0, p0 as int) + buf@.subrange(
                p0 as int,
                p1 as int,
            ) + buf@.subrange(p1 as int, p2 as int) + buf@.subrange(p2 as int, p3 as int)
                + buf@.subrange(p3 as int, p4 as int));
            assert(enc_message(msg@) =~= buf@);
        }
        Some(msg)
    } else {
        None
    }
}

} // verus!
