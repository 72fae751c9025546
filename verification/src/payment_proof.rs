//! Checking a payment proof against the slate it carries: the commitments that
//! the proof does not exclude, with the amount, must account for the
//! receiver's public excess, and the whole transaction for the sum of the
//! participants' excesses.
use vstd::prelude::*;
use crate::pedersen::{
    blinded_commitment, combine_public_keys, commit_blinded, commit_value, commitment_public_key,
    commitment_sum, commitment_to_public_key, is_valid_secret_key, public_key_sum, same_bytes,
    sum_commitments, valid_secret_key, value_commitment,
};
use crate::types::{Commitment, Error, ParticipantData, PublicKeyBytes, Slate, TxProof};

verus! {

/// The commitments of `all` that `excluded` does not list, in their order.
pub open spec fn uncovered(all: Seq<Commitment>, excluded: Seq<Commitment>) -> Seq<Commitment> {
    all.filter(|c: Commitment| !excluded.contains(c))
}

/// Whether a blinding factor is all zero bytes.
pub open spec fn is_zero_blind(blind: [u8; 32]) -> bool {
    forall|i: int| 0 <= i < 32 ==> #[trigger] blind[i] == 0
}

/// The commitment to zero under the transaction offset: the zero offset stands
/// for the zero key, any other must be a valid secret key.
pub open spec fn offset_commitment(offset: [u8; 32]) -> Option<Commitment> {
    if is_zero_blind(offset) || valid_secret_key(offset) {
        blinded_commitment(0, offset)
    } else {
        None
    }
}

/// The public blind excesses of the participants, in order.
pub open spec fn participant_excesses(parts: Seq<ParticipantData>) -> Seq<PublicKeyBytes> {
    parts.map_values(|p: ParticipantData| p.public_blind_excess)
}

/// What checking `proof` against `slate` gives: the outputs the proof pays
/// and the commitment to the whole transaction's excess, or the error met.
pub open spec fn proof_outcome(proof: TxProof, slate: Slate) -> Result<
    (Seq<Commitment>, Commitment),
    Error,
> {
    let inputs = uncovered(slate.tx.inputs@, proof.inputs@);
    let outputs = uncovered(slate.tx.outputs@, proof.outputs@);
    let excess = slate.participant_data@[1].public_blind_excess;
    match public_key_sum(participant_excesses(slate.participant_data@)) {
        None => Err(Error::VerifyProof),
        Some(excess_sum) => match value_commitment(proof.amount) {
            None => Err(Error::Secp),
            Some(amount_commit) => match commitment_sum(outputs, inputs.push(amount_commit)) {
                None => Err(Error::Secp),
                Some(commit_excess) => match commitment_public_key(commit_excess) {
                    None => Err(Error::Secp),
                    Some(key) => if key != excess {
                        Err(Error::VerifyProof)
                    } else {
                        match offset_commitment(slate.tx.offset) {
                            None => Err(Error::Secp),
                            Some(offset_commit) => match value_commitment(slate.fee) {
                                None => Err(Error::Secp),
                                Some(fee_commit) => match commitment_sum(
                                    slate.tx.outputs@.push(fee_commit),
                                    slate.tx.inputs@.push(offset_commit),
                                ) {
                                    None => Err(Error::Secp),
                                    Some(sum) => match commitment_public_key(sum) {
                                        None => Err(Error::Secp),
                                        Some(sum_key) => if sum_key != excess_sum {
                                            Err(Error::VerifyProof)
                                        } else {
                                            Ok((outputs, sum))
                                        },
                                    },
                                },
                            },
                        }
                    },
                },
            },
        },
    }
}

/// Whether `commits` lists `c`.
pub fn contains_commitment(commits: &Vec<Commitment>, c: &Commitment) -> (r: bool)
    ensures
        r == commits@.contains(*c),
{
    let mut i: usize = 0;
    while i < commits.len()
        invariant
            0 <= i <= commits.len(),
            forall|j: int| 0 <= j < i ==> commits@[j] != *c,
        decreases commits.len() - i,
    {
        if same_bytes(&commits[i], c) {
            return true;
        }
        i = i + 1;
    }
    false
}

/// The commitments of `all` that `excluded` does not list, in their order.
pub fn commits_not_in(all: &Vec<Commitment>, excluded: &Vec<Commitment>) -> (r: Vec<Commitment>)
    ensures
        r@ == uncovered(all@, excluded@),
{
    let ghost pred = |c: Commitment| !excluded@.contains(c);
    let mut out: Vec<Commitment> = Vec::new();
    let mut i: usize = 0;
    while i < all.len()
        invariant
            0 <= i <= all.len(),
            pred == (|c: Commitment| !excluded@.contains(c)),
            out@ == all@.take(i as int).filter(pred),
        decreases all.len() - i,
    {
        proof {
            reveal_with_fuel(Seq::<_>::filter, 1);
            assert(all@.take(i + 1).drop_last() =~= all@.take(i as int));
        }
        let c = all[i];
        if !contains_commitment(excluded, &c) {
            out.push(c);
        }
        i = i + 1;
    }
    assert(all@.take(i as int) =~= all@);
    out
}

/// A copy of a list of commitments.
fn copy_commits(commits: &Vec<Commitment>) -> (r: Vec<Commitment>)
    ensures
        r@ == commits@,
{
    let mut out: Vec<Commitment> = Vec::new();
    let mut i: usize = 0;
    while i < commits.len()
        invariant
            0 <= i <= commits.len(),
            out@ == commits@.take(i as int),
        decreases commits.len() - i,
    {
        out.push(commits[i]);
        i = i + 1;
        assert(out@ =~= commits@.take(i as int));
    }
    assert(commits@.take(i as int) =~= commits@);
    out
}

/// Whether all 32 bytes of a blinding factor are zero.
fn blind_is_zero(blind: &[u8; 32]) -> (r: bool)
    ensures
        r == is_zero_blind(*blind),
{
    let mut i: usize = 0;
    while i < 32
        invariant
            0 <= i <= 32,
            forall|j: int| 0 <= j < i ==> blind[j] == 0,
        decreases 32 - i,
    {
        if blind[i] != 0 {
            return false;
        }
        i = i + 1;
    }
    true
}

/// The commitment to zero under a transaction offset (see `offset_commitment`).
fn commit_offset(offset: [u8; 32]) -> (r: Option<Commitment>)
    ensures
        r == offset_commitment(offset),
{
    if blind_is_zero(&offset) || is_valid_secret_key(offset) {
        commit_blinded(0, offset)
    } else {
        None
    }
}

/// Checks a payment proof against the slate it carries and, when it holds,
/// answers the destination, the proof's address and amount, the outputs the
/// proof pays and the commitment to the transaction's excess
/// (see `proof_outcome`).
pub fn check_tx_proof(tx_proof: &TxProof, destination: Option<String>, slate: &Slate) -> (r: Result<
    (Option<String>, String, u64, Vec<Commitment>, Commitment),
    Error,
>)
    requires
        slate.participant_data@.len() >= 2,
    ensures
        match proof_outcome(*tx_proof, *slate) {
            Ok((outputs, sum)) => r matches Ok(v) && v.0 == destination && v.1@ == tx_proof.address@
                && v.2 == tx_proof.amount && v.3@ == outputs && v.4 == sum,
            Err(e) => r == Err::<(Option<String>, String, u64, Vec<Commitment>, Commitment), Error>(
                e,
            ),
        },
{
    let mut inputs = commits_not_in(&slate.tx.inputs, &tx_proof.inputs);
    let outputs = commits_not_in(&slate.tx.outputs, &tx_proof.outputs);
    let excess = slate.participant_data[1].public_blind_excess;
    let mut excess_parts: Vec<PublicKeyBytes> = Vec::new();
    let mut i: usize = 0;
    while i < slate.participant_data.len()
        invariant
            0 <= i <= slate.participant_data@.len(),
            excess_parts@ == participant_excesses(slate.participant_data@.take(i as int)),
        decreases slate.participant_data@.len() - i,
    {
        excess_parts.push(slate.participant_data[i].public_blind_excess);
        i = i + 1;
        assert(excess_parts@ =~= participant_excesses(slate.participant_data@.take(i as int)));
    }
    assert(slate.participant_data@.take(i as int) =~= slate.participant_data@);
    let excess_sum = match combine_public_keys(&excess_parts) {
        Some(k) => k,
        None => return Err(Error::VerifyProof),
    };
    let commit_amount = match commit_value(tx_proof.amount) {
        Some(c) => c,
        None => return Err(Error::Secp),
    };
    inputs.push(commit_amount);
    let commit_excess = match sum_commitments(copy_commits(&outputs), inputs) {
        Some(c) => c,
        None => return Err(Error::Secp),
    };
    let pubkey_excess = match commitment_to_public_key(commit_excess) {
        Some(k) => k,
        None => return Err(Error::Secp),
    };
    if !same_bytes(&excess, &pubkey_excess) {
        return Err(Error::VerifyProof);
    }
    let mut input_com = copy_commits(&slate.tx.inputs);
    let mut output_com = copy_commits(&slate.tx.outputs);
    let offset_commit = match commit_offset(slate.tx.offset) {
        Some(c) => c,
        None => return Err(Error::Secp),
    };
    input_com.push(offset_commit);
    let fee_commit = match commit_value(slate.fee) {
        Some(c) => c,
        None => return Err(Error::Secp),
    };
    output_com.push(fee_commit);
    let excess_sum_com = match sum_commitments(output_com, input_com) {
        Some(c) => c,
        None => return Err(Error::Secp),
    };
    let sum_key = match commitment_to_public_key(excess_sum_com) {
        Some(k) => k,
        None => return Err(Error::Secp),
    };
    if !same_bytes(&sum_key, &excess_sum) {
        return Err(Error::VerifyProof);
    }
    Ok((destination, tx_proof.address.clone(), tx_proof.amount, outputs, excess_sum_com))
}

} // verus!
