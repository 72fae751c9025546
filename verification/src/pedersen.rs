//! Pedersen commitments and public keys, computed by the secp256k1-zkp library
//! that `grin_util` re-exports. Commitments and keys travel as their 33-byte
//! serialized forms; `None` stands for a failed secp256k1 operation.
use vstd::prelude::*;
use grin_util::secp::key::{PublicKey, SecretKey};
use grin_util::secp::pedersen::Commitment as SecpCommitment;
use grin_util::secp::{ContextFlag, Secp256k1};
use crate::types::{Commitment, PublicKeyBytes};

verus! {

/// The commitment `value*H` (zero blinding factor), if secp256k1 forms it.
pub uninterp spec fn value_commitment(value: u64) -> Option<Commitment>;

/// The commitment `value*H + blind*G`, if secp256k1 forms it.
pub uninterp spec fn blinded_commitment(value: u64, blind: [u8; 32]) -> Option<Commitment>;

/// The sum of the `positive` commitments minus the `negative` ones, if every
/// commitment parses and the sum is a valid commitment.
pub uninterp spec fn commitment_sum(positive: Seq<Commitment>, negative: Seq<Commitment>) -> Option<
    Commitment,
>;

/// The public key that a commitment stands for, if it has one.
pub uninterp spec fn commitment_public_key(commit: Commitment) -> Option<PublicKeyBytes>;

/// The sum of public keys, if every key parses and the sum is a valid key.
pub uninterp spec fn public_key_sum(keys: Seq<PublicKeyBytes>) -> Option<PublicKeyBytes>;

/// Whether 32 bytes form a valid secp256k1 secret key (non-zero, below the group order).
pub uninterp spec fn valid_secret_key(bytes: [u8; 32]) -> bool;

/// Calls `Secp256k1::commit_value` in a context with commitment capabilities.
#[verifier::external_body]
pub(crate) fn commit_value(value: u64) -> (r: Option<Commitment>)
    ensures
        r == value_commitment(value),
{
    let secp = Secp256k1::with_caps(ContextFlag::Commit);
    secp.commit_value(value).ok().map(|c| c.0)
}

/// Calls `Secp256k1::commit` in a context with commitment capabilities, with
/// the blinding factor taken as a `SecretKey` of the given bytes.
#[verifier::external_body]
pub(crate) fn commit_blinded(value: u64, blind: [u8; 32]) -> (r: Option<Commitment>)
    ensures
        r == blinded_commitment(value, blind),
{
    let secp = Secp256k1::with_caps(ContextFlag::Commit);
    secp.commit(value, SecretKey(blind)).ok().map(|c| c.0)
}

/// Calls `Secp256k1::commit_sum` in a context with commitment capabilities.
#[verifier::external_body]
pub(crate) fn sum_commitments(positive: Vec<Commitment>, negative: Vec<Commitment>) -> (r: Option<
    Commitment,
>)
    ensures
        r == commitment_sum(positive@, negative@),
{
    let secp = Secp256k1::with_caps(ContextFlag::Commit);
    let pos = positive.into_iter().map(SecpCommitment).collect();
    let neg = negative.into_iter().map(SecpCommitment).collect();
    secp.commit_sum(pos, neg).ok().map(|c| c.0)
}

/// Calls `Commitment::to_pubkey`, and serializes the key compressed.
#[verifier::external_body]
pub(crate) fn commitment_to_public_key(commit: Commitment) -> (r: Option<PublicKeyBytes>)
    ensures
        r == commitment_public_key(commit),
{
    let secp = Secp256k1::with_caps(ContextFlag::Commit);
    let key = SecpCommitment(commit).to_pubkey(&secp).ok()?;
    key.serialize_vec(&secp, true)[..].try_into().ok()
}

/// Calls `PublicKey::from_combination` on the keys parsed with
/// `PublicKey::from_slice`, and serializes the sum compressed. The underlying
/// `secp256k1_ec_pubkey_combine` aborts on an empty list, so at least one key
/// is required.
#[verifier::external_body]
pub(crate) fn combine_public_keys(keys: &Vec<PublicKeyBytes>) -> (r: Option<PublicKeyBytes>)
    requires
        keys@.len() >= 1,
    ensures
        r == public_key_sum(keys@),
{
    let secp = Secp256k1::with_caps(ContextFlag::Commit);
    let parsed: Option<Vec<PublicKey>> = keys.iter().map(|k| PublicKey::from_slice(&secp, k).ok()).collect();
    let parsed = parsed?;
    let sum = PublicKey::from_combination(&secp, parsed.iter().collect()).ok()?;
    sum.serialize_vec(&secp, true)[..].try_into().ok()
}

/// Calls `SecretKey::from_slice`, which accepts 32 bytes that form a valid key.
#[verifier::external_body]
pub(crate) fn is_valid_secret_key(bytes: [u8; 32]) -> (r: bool)
    ensures
        r == valid_secret_key(bytes),
{
    let secp = Secp256k1::with_caps(ContextFlag::Commit);
    SecretKey::from_slice(&secp, &bytes).is_ok()
}

/// Whether two 33-byte strings are equal.
pub fn same_bytes(a: &[u8; 33], b: &[u8; 33]) -> (r: bool)
    ensures
        r == (*a == *b),
{
    let mut i: usize = 0;
    while i < 33
        invariant
            0 <= i <= 33,
            forall|j: int| 0 <= j < i ==> a@[j] == b@[j],
        decreases 33 - i,
    {
        if a[i] != b[i] {
            return false;
        }
        i = i + 1;
    }
    assert(*a =~= *b);
    true
}

} // verus!
