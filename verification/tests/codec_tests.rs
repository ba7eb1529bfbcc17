use blsttc::SecretKeySet;
use mvba::abba::message::{
    Action as AbbaAction, DecisionAction, MainVoteAction, MainVoteJustification, MainVoteValue,
    Message as AbbaMessage, PreVoteAction, PreVoteJustification, Value,
};
use mvba::abba::Abba;
use mvba::broadcaster::Broadcaster;
use mvba::bundle::{decode_bundle, encode_bundle, Bundle};
use mvba::crypto::{Sig, SigShare};
use mvba::error::Error;
use mvba::hash::Hash32;
use mvba::tag::{Domain, Tag};
use mvba::validity::valid_proposal;
use mvba::vcbc::message::{
    decode_message as decode_vcbc, encode_message as encode_vcbc, Action as VcbcAction,
    Message as VcbcMessage,
};
use mvba::vcbc::{c_ready_bytes_to_sign, Vcbc};
use mvba::NodeId;
use rand::thread_rng;

type Checker = fn(NodeId, &Vec<u8>) -> bool;

fn sig_of(s: &blsttc::Signature) -> Sig {
    Sig::new(s.to_bytes().to_vec())
}

fn sample_tag() -> Tag {
    Tag::new(Domain::new("codec-domain", 7), 3)
}

fn sample_sig() -> Sig {
    Sig::new((0..96).map(|b: u8| b).collect())
}

fn sample_share() -> SigShare {
    SigShare::new((0..96).map(|b: u8| b.wrapping_mul(3)).collect())
}

#[test]
fn test_digest_is_not_the_input() {
    let d = Hash32::calculate("abc".as_bytes());
    assert_eq!(d.bytes.len(), 32);
    let d2 = Hash32::calculate("abd".as_bytes());
    assert_ne!(d.bytes, d2.bytes);
    assert_eq!(d.bytes, Hash32::calculate("abc".as_bytes()).bytes);
    // The well-known digest of the empty input pins the hash function down.
    let empty = Hash32::calculate(&[]);
    assert_eq!(
        empty.bytes[0..4],
        [0xe3, 0xb0, 0xc4, 0x42]
    );
}

#[test]
fn test_vcbc_message_round_trip() {
    let tag = sample_tag();
    let digest = Hash32::calculate("payload".as_bytes());
    let cases = vec![
        VcbcAction::Send("payload".as_bytes().to_vec()),
        VcbcAction::Ready(digest, sample_share()),
        VcbcAction::Final(digest, sample_sig()),
        VcbcAction::Request,
        VcbcAction::Answer("payload".as_bytes().to_vec(), sample_sig()),
    ];
    for action in cases {
        let msg = VcbcMessage { tag: tag.clone(), action };
        let bytes = encode_vcbc(&msg);
        let back = decode_vcbc(&bytes).expect("round trip failed");
        assert_eq!(back, msg);
        // Deterministic, stable bytes: encoding twice gives identical bytes.
        assert_eq!(encode_vcbc(&msg), bytes);
    }
    assert!(decode_vcbc(&vec![1, 2, 3]).is_none());
    assert!(decode_vcbc(&Vec::new()).is_none());
}

#[test]
fn test_abba_message_round_trip() {
    let tag = sample_tag();
    let digest = Hash32::calculate("payload".as_bytes());
    let justs = vec![
        PreVoteJustification::FirstRoundZero,
        PreVoteJustification::WithValidity(digest, sample_sig()),
        PreVoteJustification::Hard(sample_sig()),
        PreVoteJustification::Soft(sample_sig()),
    ];
    for just in justs {
        let msg = AbbaMessage {
            tag: tag.clone(),
            action: AbbaAction::PreVote(PreVoteAction {
                round: 5,
                value: Value::One,
                justification: just,
                sig_share: sample_share(),
            }),
        };
        let bytes = mvba::abba::message::encode_message(&msg);
        let back = mvba::abba::message::decode_message(&bytes).expect("round trip failed");
        assert_eq!(back, msg);
    }
    let main = AbbaMessage {
        tag: tag.clone(),
        action: AbbaAction::MainVote(MainVoteAction {
            round: 2,
            value: MainVoteValue::Abstain,
            justification: MainVoteJustification::Abstain(
                Box::new(PreVoteJustification::FirstRoundZero),
                Box::new(PreVoteJustification::WithValidity(digest, sample_sig())),
            ),
            sig_share: sample_share(),
        }),
    };
    let bytes = mvba::abba::message::encode_message(&main);
    assert_eq!(mvba::abba::message::decode_message(&bytes), Some(main));

    let decision = AbbaMessage {
        tag,
        action: AbbaAction::Decision(DecisionAction {
            round: 1,
            value: Value::Zero,
            sig: sample_sig(),
        }),
    };
    let bytes = mvba::abba::message::encode_message(&decision);
    assert_eq!(mvba::abba::message::decode_message(&bytes), Some(decision));
}

#[test]
fn test_bundle_round_trip() {
    let bundle = Bundle {
        initiator: 42,
        module: "abba".as_bytes().to_vec(),
        payload: vec![9, 8, 7],
    };
    let bytes = encode_bundle(&bundle);
    assert_eq!(decode_bundle(&bytes), Some(bundle));
    assert!(decode_bundle(&vec![0]).is_none());
}

#[test]
fn test_signing_bytes_are_distinct() {
    let tag = sample_tag();
    let other_tag = Tag::new(Domain::new("codec-domain", 7), 4);
    let digest = Hash32::calculate("x".as_bytes());

    let c_ready = c_ready_bytes_to_sign(&tag, &digest);
    let c_ready_other = c_ready_bytes_to_sign(&other_tag, &digest);
    assert_ne!(c_ready, c_ready_other);

    let broadcaster = Broadcaster::new(0);
    let sks = SecretKeySet::random(1, &mut thread_rng());
    let abba = Abba::new(tag.clone(), 0, sks.public_keys(), sks.secret_key_share(0), broadcaster);

    let pv_one = abba.pre_vote_bytes_to_sign(1, &Value::One);
    let pv_zero = abba.pre_vote_bytes_to_sign(1, &Value::Zero);
    let pv_one_r2 = abba.pre_vote_bytes_to_sign(2, &Value::One);
    let mv_one = abba.main_vote_bytes_to_sign(1, &MainVoteValue::one());
    let mv_abstain = abba.main_vote_bytes_to_sign(1, &MainVoteValue::Abstain);

    assert_ne!(pv_one, pv_zero);
    assert_ne!(pv_one, pv_one_r2);
    assert_ne!(pv_one, mv_one);
    assert_ne!(mv_one, mv_abstain);
    assert_ne!(c_ready, pv_one);
    assert_ne!(c_ready, mv_one);
}

#[test]
fn test_threshold_is_degree_plus_one() {
    let sks = SecretKeySet::random(2, &mut thread_rng());
    let vcbc: Vcbc<Checker> = Vcbc::new(
        sample_tag(),
        0,
        sks.public_keys(),
        sks.secret_key_share(0usize),
        valid_proposal as Checker,
        Broadcaster::new(0),
    );
    assert_eq!(vcbc.threshold(), 3);
}

#[test]
fn test_decision_redelivery_is_idempotent() {
    let tag = Tag::new(Domain::new("test-domain", 0), 0);
    let sks = SecretKeySet::random(2, &mut thread_rng());
    let mut abba = Abba::new(
        tag.clone(),
        0,
        sks.public_keys(),
        sks.secret_key_share(0usize),
        Broadcaster::new(0),
    );

    let sign_bytes = abba.main_vote_bytes_to_sign(1, &MainVoteValue::one());
    let sig = sig_of(&sks.secret_key().sign(sign_bytes));
    let decision = DecisionAction { round: 1, value: Value::One, sig };
    let msg = AbbaMessage { tag: tag.clone(), action: AbbaAction::Decision(decision.clone()) };

    assert!(abba.receive_message(3, msg.clone()).is_ok());
    assert!(abba.is_decided());
    assert_eq!(abba.decided_value.clone().unwrap().value, Value::One);

    // Redelivery of the identical decision is a no-op.
    assert!(abba.receive_message(3, msg).is_ok());
    assert_eq!(abba.decided_value.clone().unwrap().value, Value::One);

    // A conflicting decision is a fatal protocol violation.
    let other_bytes = abba.main_vote_bytes_to_sign(1, &MainVoteValue::zero());
    let other_sig = sig_of(&sks.secret_key().sign(other_bytes));
    let other = DecisionAction { round: 1, value: Value::Zero, sig: other_sig };
    let other_msg = AbbaMessage { tag, action: AbbaAction::Decision(other) };
    let result = abba.receive_message(3, other_msg);
    assert!(matches!(result, Err(Error::Generic(_))));
    assert_eq!(abba.decided_value.unwrap().value, Value::One);
}

#[test]
fn test_vcbc_duplicate_send_is_idempotent() {
    let tag = Tag::new(Domain::new("test-domain", 0), 1);
    let sks = SecretKeySet::random(2, &mut thread_rng());
    let mut vcbc: Vcbc<Checker> = Vcbc::new(
        tag.clone(),
        0,
        sks.public_keys(),
        sks.secret_key_share(0usize),
        valid_proposal as Checker,
        Broadcaster::new(0),
    );

    let msg = VcbcMessage { tag, action: VcbcAction::Send(vec![1, 2, 3]) };
    assert!(vcbc.receive_message(1, msg.clone()).is_ok());
    assert_eq!(vcbc.m_bar, Some(vec![1, 2, 3]));
    assert!(vcbc.receive_message(1, msg).is_ok());
    assert_eq!(vcbc.m_bar, Some(vec![1, 2, 3]));

    // An equivocating send for a different value is refused.
    let other = VcbcMessage {
        tag: vcbc.tag.clone(),
        action: VcbcAction::Send(vec![4, 5, 6]),
    };
    let result = vcbc.receive_message(1, other);
    assert!(matches!(result, Err(Error::InvalidMessage(_))));
    assert_eq!(vcbc.m_bar, Some(vec![1, 2, 3]));
}

#[test]
fn test_tag_mismatch_leaves_state_unchanged() {
    let tag = Tag::new(Domain::new("test-domain", 0), 1);
    let sks = SecretKeySet::random(2, &mut thread_rng());
    let mut vcbc: Vcbc<Checker> = Vcbc::new(
        tag,
        0,
        sks.public_keys(),
        sks.secret_key_share(0usize),
        valid_proposal as Checker,
        Broadcaster::new(0),
    );

    let foreign = Tag::new(Domain::new("test-domain", 1), 1);
    let msg = VcbcMessage { tag: foreign, action: VcbcAction::Send(vec![1]) };
    let result = vcbc.receive_message(1, msg);
    assert!(matches!(result, Err(Error::InvalidMessage(m)) if m.starts_with("invalid tag.")));
    assert_eq!(vcbc.m_bar, None);
    assert_eq!(vcbc.u_bar, None);
    assert!(vcbc.read_delivered().is_none());
}

#[test]
fn test_pre_vote_one_rejects_invalid_certificate() {
    let tag = Tag::new(Domain::new("test-domain", 0), 0);
    let sks = SecretKeySet::random(2, &mut thread_rng());
    let mut abba = Abba::new(
        tag.clone(),
        0,
        sks.public_keys(),
        sks.secret_key_share(0usize),
        Broadcaster::new(0),
    );

    let digest = Hash32::calculate("test-data".as_bytes());
    let unrelated = blsttc::SecretKey::random();
    let bad_sig = sig_of(&unrelated.sign(c_ready_bytes_to_sign(&tag, &digest)));

    let result = abba.pre_vote_one(digest, bad_sig);
    assert!(matches!(result, Err(Error::InvalidMessage(m))
        if m == "invalid signature for the VCBC proposal"));
    // Nothing was broadcast and no vote was stored.
    assert!(abba.broadcaster.gossip.is_empty());
    assert!(abba.get_pre_votes_by_round(1).is_none());
}

#[test]
fn test_c_broadcast_refuses_a_second_proposal() {
    let tag = Tag::new(Domain::new("test-domain", 0), 0);
    let sks = SecretKeySet::random(2, &mut thread_rng());
    let mut vcbc: Vcbc<Checker> = Vcbc::new(
        tag,
        0,
        sks.public_keys(),
        sks.secret_key_share(0usize),
        valid_proposal as Checker,
        Broadcaster::new(0),
    );

    vcbc.c_broadcast(vec![1, 2, 3]).unwrap();
    assert_eq!(vcbc.m_bar, Some(vec![1, 2, 3]));

    let result = vcbc.c_broadcast(vec![4, 5, 6]);
    assert!(matches!(result, Err(Error::Generic(_))));
    assert_eq!(vcbc.m_bar, Some(vec![1, 2, 3]));
}
