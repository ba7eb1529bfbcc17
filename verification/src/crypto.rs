//! Threshold-signature values and the trusted boundary to blsttc.
//!
//! The engines treat signatures and signature shares as plain byte strings;
//! blsttc is consulted only to sign, to verify and to combine.  What those
//! calls return is a function of the key material and the bytes alone, so each
//! result is captured by an uninterpreted name that the contracts share.

use vstd::prelude::*;

verus! {

/// An aggregate threshold signature, carried as its serialized bytes.
#[derive(Debug, PartialEq, Eq)]
pub struct Sig {
    pub bytes: Vec<u8>,
}

/// A single party's signature share, carried as its serialized bytes.
#[derive(Debug, PartialEq, Eq)]
pub struct SigShare {
    pub bytes: Vec<u8>,
}

impl View for Sig {
    type V = Seq<u8>;

    open spec fn view(&self) -> Seq<u8> {
        self.bytes@
    }
}

impl View for SigShare {
    type V = Seq<u8>;

    open spec fn view(&self) -> Seq<u8> {
        self.bytes@
    }
}

/// Copies a byte vector element by element.
pub fn clone_bytes(v: &Vec<u8>) -> (r: Vec<u8>)
    ensures
        r@ == v@,
{
    let mut r: Vec<u8> = Vec::new();
    let mut i: usize = 0;
    while i < v.len()
        invariant
            i <= v@.len(),
            r@ == v@.subrange(0, i as int),
        decreases v@.len() - i,
    {
        r.push(v[i]);
        proof {
            assert(r@ =~= v@.subrange(0, i + 1 as int));
        }
        i = i + 1;
    }
    proof {
        assert(v@.subrange(0, v@.len() as int) =~= v@);
    }
    r
}

/// Compares two byte vectors element by element.
pub fn bytes_eq(a: &Vec<u8>, b: &Vec<u8>) -> (r: bool)
    ensures
        r == (a@ == b@),
{
    if a.len() != b.len() {
        return false;
    }
    let mut i: usize = 0;
    while i < a.len()
        invariant
            a@.len() == b@.len(),
            i <= a@.len(),
            forall|k: int| 0 <= k < i ==> a@[k] == b@[k],
        decreases a@.len() - i,
    {
        if a[i] != b[i] {
            proof {
                assert(a@[i as int] != b@[i as int]);
            }
            return false;
        }
        i = i + 1;
    }
    proof {
        assert(a@ =~= b@);
    }
    true
}

impl Sig {
    /// Wraps serialized signature bytes.
    pub fn new(bytes: Vec<u8>) -> (r: Sig)
        ensures
            r@ == bytes@,
    {
        Sig { bytes }
    }

    /// Compares two signatures by their bytes.
    pub fn eq_sig(&self, other: &Sig) -> (r: bool)
        ensures
            r == (self@ == other@),
    {
        bytes_eq(&self.bytes, &other.bytes)
    }
}

impl Clone for Sig {
    fn clone(&self) -> (r: Self)
        ensures
            r@ == self@,
    {
        Sig { bytes: clone_bytes(&self.bytes) }
    }
}

impl SigShare {
    /// Wraps serialized signature-share bytes.
    pub fn new(bytes: Vec<u8>) -> (r: SigShare)
        ensures
            r@ == bytes@,
    {
        SigShare { bytes }
    }

    /// Compares two shares by their bytes.
    pub fn eq_share(&self, other: &SigShare) -> (r: bool)
        ensures
            r == (self@ == other@),
    {
        bytes_eq(&self.bytes, &other.bytes)
    }
}

impl Clone for SigShare {
    fn clone(&self) -> (r: Self)
        ensures
            r@ == self@,
    {
        SigShare { bytes: clone_bytes(&self.bytes) }
    }
}

#[verifier::external_type_specification]
#[verifier::external_body]
pub struct ExPublicKeySet(blsttc::PublicKeySet);

#[verifier::external_type_specification]
#[verifier::external_body]
pub struct ExSecretKeyShare(blsttc::SecretKeyShare);

/// The bytes of the signature share that `key` produces over `msg`.
pub uninterp spec fn share_sign_of(key: blsttc::SecretKeyShare, msg: Seq<u8>) -> Seq<u8>;

/// Whether `share` is `signer`'s valid signature share over `msg` under the
/// key set `keys`.
pub uninterp spec fn share_verified(
    keys: blsttc::PublicKeySet,
    signer: usize,
    share: Seq<u8>,
    msg: Seq<u8>,
) -> bool;

/// Whether `sig` is a valid aggregate signature over `msg` under the main
/// public key of `keys`.
pub uninterp spec fn agg_verified(keys: blsttc::PublicKeySet, sig: Seq<u8>, msg: Seq<u8>) -> bool;

/// The polynomial degree `t` of the key set: `t + 1` valid shares combine
/// into an aggregate signature.
pub uninterp spec fn threshold_of(keys: blsttc::PublicKeySet) -> usize;

/// Relies on blsttc's `SecretKeyShare::sign` and `SignatureShare::to_bytes`:
/// BLS signing is deterministic, so the share depends on the key and the
/// message bytes alone.
#[verifier::external_body]
pub(crate) fn sign_share(key: &blsttc::SecretKeyShare, msg: &[u8]) -> (r: SigShare)
    ensures
        r@ == share_sign_of(*key, msg@),
{
    SigShare { bytes: key.sign(msg).to_bytes().to_vec() }
}

/// Relies on blsttc's `PublicKeySet::public_key_share`,
/// `SignatureShare::from_bytes` and `PublicKeyShare::verify`: whether the
/// bytes are `signer`'s valid share over `msg` is a function of the key set,
/// the signer index and the bytes alone.
#[verifier::external_body]
pub(crate) fn verify_share(
    keys: &blsttc::PublicKeySet,
    signer: usize,
    share: &SigShare,
    msg: &[u8],
) -> (r: bool)
    ensures
        r == share_verified(*keys, signer, share@, msg@),
{
    let arr: Result<[u8; 96], _> = share.bytes.as_slice().try_into();
    match arr.ok().and_then(|a| blsttc::SignatureShare::from_bytes(a).ok()) {
        Some(s) => keys.public_key_share(signer).verify(&s, msg),
        None => false,
    }
}

/// Relies on blsttc's `PublicKeySet::public_key`, `Signature::from_bytes` and
/// `PublicKey::verify`: whether the bytes are a valid aggregate signature over
/// `msg` is a function of the key set and the bytes alone.  A key set whose
/// commitment holds no coefficient at all (key generation never produces one,
/// but it is constructible from empty bytes) verifies nothing; the guard on
/// `PublicKeySet::to_bytes`, whose length is the coefficient count times the
/// key size, avoids the out-of-bounds read `public_key` would make there.
#[verifier::external_body]
pub(crate) fn verify_agg(keys: &blsttc::PublicKeySet, sig: &Sig, msg: &[u8]) -> (r: bool)
    ensures
        r == agg_verified(*keys, sig@, msg@),
{
    if keys.to_bytes().is_empty() {
        return false;
    }
    let arr: Result<[u8; 96], _> = sig.bytes.as_slice().try_into();
    match arr.ok().and_then(|a| blsttc::Signature::from_bytes(a).ok()) {
        Some(s) => keys.public_key().verify(&s, msg),
        None => false,
    }
}

/// Relies on blsttc's `PublicKeySet::threshold`: the degree of the commitment
/// polynomial, one less than its coefficient count, and so strictly below
/// `usize::MAX` whenever a coefficient exists.  A key set whose commitment
/// holds no coefficient at all (key generation never produces one, but it is
/// constructible from empty bytes) is answered with zero, where blsttc's
/// subtraction would underflow.
#[verifier::external_body]
pub(crate) fn pks_threshold(keys: &blsttc::PublicKeySet) -> (r: usize)
    ensures
        r == threshold_of(*keys),
        r < usize::MAX,
{
    if keys.to_bytes().is_empty() {
        return 0;
    }
    keys.threshold()
}

/// Relies on blsttc's `SignatureShare::from_bytes`,
/// `PublicKeySet::combine_signatures`, `PublicKey::verify` and
/// `Signature::to_bytes` (whose output `Signature::from_bytes`, used by the
/// verifying wrapper, decodes back to the same signature).  The combination is
/// handed back only after the main
/// public key has verified it over `msg`, so a returned value is a valid
/// aggregate signature by construction; blsttc's own documentation promises
/// the verification cannot fail when the shares were valid for `msg`.  A key
/// set whose commitment holds no coefficient at all, on which blsttc's
/// interpolation would underflow, yields nothing.
#[verifier::external_body]
pub(crate) fn combine_shares(
    keys: &blsttc::PublicKeySet,
    shares: &Vec<(usize, SigShare)>,
    msg: &[u8],
) -> (r: Option<Sig>)
    ensures
        (r matches Some(sig) ==> agg_verified(*keys, sig@, msg@)),
{
    if keys.to_bytes().is_empty() {
        return None;
    }
    let mut parsed: Vec<(usize, blsttc::SignatureShare)> = Vec::new();
    for (i, s) in shares.iter() {
        let arr: [u8; 96] = s.bytes.as_slice().try_into().ok()?;
        parsed.push((*i, blsttc::SignatureShare::from_bytes(arr).ok()?));
    }
    let sig = keys.combine_signatures(parsed.iter().map(|(i, s)| (*i, s))).ok()?;
    if !keys.public_key().verify(&sig, msg) {
        return None;
    }
    Some(Sig { bytes: sig.to_bytes().to_vec() })
}

} // verus!
