use grin_util::secp::key::{PublicKey, SecretKey};
use grin_util::secp::{ContextFlag, Secp256k1};
use wallet713_api::payment_proof::{check_tx_proof, commits_not_in, contains_commitment};
use wallet713_api::pedersen::same_bytes;
use wallet713_api::types::{Commitment, Error, ParticipantData, Slate, Transaction, TxProof};

fn secp() -> Secp256k1 {
    Secp256k1::with_caps(ContextFlag::Commit)
}

fn key(b: u8) -> SecretKey {
    SecretKey::from_slice(&secp(), &[b; 32]).unwrap()
}

fn commit(value: u64, blind: &SecretKey) -> Commitment {
    secp().commit(value, blind.clone()).unwrap().0
}

fn public(k: &SecretKey) -> [u8; 33] {
    let s = secp();
    let pk = PublicKey::from_secret_key(&s, k).unwrap();
    let bytes = pk.serialize_vec(&s, true);
    let mut out = [0u8; 33];
    out.copy_from_slice(&bytes[..]);
    out
}

fn participant(id: u64, excess: [u8; 33]) -> ParticipantData {
    ParticipantData { id, public_blind_excess: excess, public_nonce: excess, message: None }
}

struct Payment {
    slate: Slate,
    proof: TxProof,
    receiver_output: Commitment,
    total_excess: Commitment,
}

/// A payment of 60 with fee 8 from an input of 100, change 32.
fn payment() -> Payment {
    let (r_in, r_change, r_recv, offset) = (key(1), key(2), key(3), key(5));
    let s = secp();
    let sender_excess = s.blind_sum(vec![r_change.clone()], vec![r_in.clone(), offset.clone()]).unwrap();
    let total = s
        .blind_sum(vec![r_change.clone(), r_recv.clone()], vec![r_in.clone(), offset.clone()])
        .unwrap();
    let input = commit(100, &r_in);
    let change = commit(32, &r_change);
    let received = commit(60, &r_recv);
    let slate = Slate {
        id: 7,
        amount: 60,
        fee: 8,
        height: 10,
        lock_height: 0,
        tx: Transaction { inputs: vec![input], outputs: vec![change, received], offset: offset.0 },
        participant_data: vec![participant(0, public(&sender_excess)), participant(1, public(&r_recv))],
    };
    let proof = TxProof {
        address: "receiver-address".to_string(),
        message: "msg".to_string(),
        signature: "sig".to_string(),
        amount: 60,
        fee: 8,
        inputs: vec![input],
        outputs: vec![change],
    };
    Payment { slate, proof, receiver_output: received, total_excess: commit(0, &total) }
}

#[test]
fn valid_proof_pays_receiver_outputs() {
    let p = payment();
    let r = check_tx_proof(&p.proof, Some("sender".to_string()), &p.slate).unwrap();
    assert_eq!(r.0, Some("sender".to_string()));
    assert_eq!(r.1, "receiver-address");
    assert_eq!(r.2, 60);
    assert_eq!(r.3, vec![p.receiver_output]);
    assert_eq!(r.4, p.total_excess);
}

#[test]
fn wrong_amount_is_refused() {
    let mut p = payment();
    p.proof.amount = 50;
    assert_eq!(check_tx_proof(&p.proof, None, &p.slate), Err(Error::VerifyProof));
}

#[test]
fn wrong_receiver_excess_is_refused() {
    let mut p = payment();
    p.slate.participant_data.swap(0, 1);
    assert_eq!(check_tx_proof(&p.proof, None, &p.slate), Err(Error::VerifyProof));
}

#[test]
fn unparsable_participant_key_is_refused() {
    let mut p = payment();
    p.slate.participant_data[0].public_blind_excess = [0u8; 33];
    assert_eq!(check_tx_proof(&p.proof, None, &p.slate), Err(Error::VerifyProof));
}

#[test]
fn wrong_fee_is_refused() {
    let mut p = payment();
    p.slate.fee = 7;
    assert_eq!(check_tx_proof(&p.proof, None, &p.slate), Err(Error::VerifyProof));
}

#[test]
fn unparsable_commitment_is_a_secp_error() {
    let mut p = payment();
    p.slate.tx.inputs.push([0x0f; 33]);
    assert_eq!(check_tx_proof(&p.proof, None, &p.slate), Err(Error::Secp));
}

#[test]
fn invalid_offset_is_a_secp_error() {
    let mut p = payment();
    p.slate.tx.offset = [0xff; 32];
    assert_eq!(check_tx_proof(&p.proof, None, &p.slate), Err(Error::Secp));
}

#[test]
fn uncovered_commitments_keep_order() {
    let all = vec![[1u8; 33], [2u8; 33], [3u8; 33], [2u8; 33]];
    assert_eq!(commits_not_in(&all, &vec![[2u8; 33]]), vec![[1u8; 33], [3u8; 33]]);
    assert_eq!(commits_not_in(&all, &vec![]), all);
    assert_eq!(commits_not_in(&all, &all), Vec::<Commitment>::new());
}

#[test]
fn uncovered_members_are_in_all_and_not_excluded() {
    let all = vec![[1u8; 33], [2u8; 33], [3u8; 33]];
    let excluded = vec![[3u8; 33], [9u8; 33]];
    let kept = commits_not_in(&all, &excluded);
    for c in [[1u8; 33], [2u8; 33], [3u8; 33], [9u8; 33]] {
        assert_eq!(
            contains_commitment(&kept, &c),
            contains_commitment(&all, &c) && !contains_commitment(&excluded, &c)
        );
    }
}

#[test]
fn byte_comparison() {
    let mut a = [5u8; 33];
    assert!(same_bytes(&a, &[5u8; 33]));
    a[32] = 6;
    assert!(!same_bytes(&a, &[5u8; 33]));
}
