//! The decisions of the wallet API, on plain values: what the backend handed
//! back goes in, what the API answers comes out.
use vstd::prelude::*;
use grin_p2p::types::PeerInfoDisplay;
use crate::types::{
    Commitment, Context, Error, OutputData, TxLogEntry, TxLogEntryType, TxProof, Transaction,
};
use crate::text::{uuid_string, uuid_text};

verus! {

/// What a node tells of one of its peers (declared for use in signatures).
#[verifier::external_type_specification]
#[verifier::external_body]
pub struct ExPeerInfoDisplay(PeerInfoDisplay);

/// The information a node gives about itself.
pub struct NodeInfo {
    pub height: u64,
    pub total_difficulty: u64,
    pub peers: Vec<PeerInfoDisplay>,
}

/// The transaction id answered when no log entry matches a slate.
pub const NO_TX_ID: u32 = 1000000000;

/// Whether a transaction log holds an entry of a received transaction.
pub open spec fn has_received_entry(txs: Seq<TxLogEntry>) -> bool {
    exists|i: int| 0 <= i < txs.len() && #[trigger] txs[i].tx_type == TxLogEntryType::TxReceived
}

/// Refuses a slate whose transaction log already records it as received:
/// `Ok` exactly when no entry of `txs` is of type `TxReceived`, and otherwise the
/// error `TransactionAlreadyReceived` with the slate id in its hyphenated form.
pub fn ensure_not_received(txs: &Vec<TxLogEntry>, slate_id: u128) -> (r: Result<(), Error>)
    ensures
        r is Ok <==> !has_received_entry(txs@),
        r matches Err(e) ==> (e matches Error::TransactionAlreadyReceived(s) && s@ == uuid_text(
            slate_id,
        )),
{
    let mut i: usize = 0;
    while i < txs.len()
        invariant
            0 <= i <= txs.len(),
            forall|j: int| 0 <= j < i ==> txs@[j].tx_type != TxLogEntryType::TxReceived,
        decreases txs.len() - i,
    {
        if txs[i].tx_type == TxLogEntryType::TxReceived {
            return Err(Error::TransactionAlreadyReceived(uuid_string(slate_id)));
        }
        i = i + 1;
    }
    Ok(())
}

/// The id of the last entry of a transaction log, or `NO_TX_ID` when it is empty.
pub open spec fn last_tx_id_spec(txs: Seq<TxLogEntry>) -> u32 {
    if txs.len() == 0 {
        NO_TX_ID
    } else {
        txs.last().id
    }
}

/// The id of the last entry of `txs`, or `NO_TX_ID` when there is none.
pub fn last_tx_id(txs: &Vec<TxLogEntry>) -> (r: u32)
    ensures
        r == last_tx_id_spec(txs@),
{
    let mut ret: u32 = NO_TX_ID;
    let mut i: usize = 0;
    while i < txs.len()
        invariant
            0 <= i <= txs.len(),
            ret == last_tx_id_spec(txs@.take(i as int)),
        decreases txs.len() - i,
    {
        ret = txs[i].id;
        i = i + 1;
        assert(txs@.take(i as int).last() == txs@[i - 1]);
    }
    assert(txs@.take(i as int) =~= txs@);
    ret
}

/// The greatest height among the first `n` outputs, or 0 when `n` is 0.
pub open spec fn max_height_prefix(outputs: Seq<(OutputData, Commitment)>, n: int) -> u64
    decreases n,
{
    if n <= 0 {
        0
    } else {
        let rest: u64 = max_height_prefix(outputs, n - 1);
        let h: u64 = outputs[n - 1].0.height;
        if h > rest {
            h
        } else {
            rest
        }
    }
}

/// The greatest height among `outputs`, or 0 when there are none.
pub open spec fn max_output_height_spec(outputs: Seq<(OutputData, Commitment)>) -> u64 {
    max_height_prefix(outputs, outputs.len() as int)
}

/// The greatest height of the given outputs, 0 when there are none.
pub fn max_output_height(outputs: &Vec<(OutputData, Commitment)>) -> (r: u64)
    ensures
        r == max_output_height_spec(outputs@),
{
    let mut best: u64 = 0;
    let mut i: usize = 0;
    while i < outputs.len()
        invariant
            0 <= i <= outputs.len(),
            best == max_height_prefix(outputs@, i as int),
        decreases outputs.len() - i,
    {
        let h: u64 = outputs[i].0.height;
        if h > best {
            best = h;
        }
        i = i + 1;
    }
    best
}

/// The slate id of a log that holds exactly one entry, and that entry has one.
pub open spec fn single_slate_id_spec(txs: Seq<TxLogEntry>) -> Option<u128> {
    if txs.len() == 1 {
        txs[0].tx_slate_id
    } else {
        None
    }
}

/// The slate id of the one entry of `txs`: `TransactionHasNoProof` when `txs`
/// does not hold exactly one entry or that entry has no slate id.
pub fn single_slate_id(txs: &Vec<TxLogEntry>) -> (r: Result<u128, Error>)
    ensures
        match single_slate_id_spec(txs@) {
            Some(id) => r == Ok::<u128, Error>(id),
            None => r matches Err(Error::TransactionHasNoProof),
        },
{
    if txs.len() != 1 {
        return Err(Error::TransactionHasNoProof);
    }
    match txs[0].tx_slate_id {
        Some(id) => Ok(id),
        None => Err(Error::TransactionHasNoProof),
    }
}

/// Appends the commitments of `from` to `to`.
fn append_commits(to: &mut Vec<Commitment>, from: &Vec<Commitment>)
    ensures
        final(to)@ == old(to)@ + from@,
{
    let ghost start = to@;
    let mut i: usize = 0;
    while i < from.len()
        invariant
            0 <= i <= from.len(),
            to@ == start + from@.take(i as int),
        decreases from.len() - i,
    {
        to.push(from[i]);
        i = i + 1;
        assert(to@ =~= start + from@.take(i as int));
    }
    assert(from@.take(i as int) =~= from@);
}

/// Records in a transaction context the commitments of the transaction's inputs
/// and outputs, after those it already holds; nothing else changes.
pub fn record_commits(context: &mut Context, tx: &Transaction)
    ensures
        final(context).input_commits@ == old(context).input_commits@ + tx.inputs@,
        final(context).output_commits@ == old(context).output_commits@ + tx.outputs@,
        final(context).context_type == old(context).context_type,
        final(context).amount == old(context).amount,
        final(context).fee == old(context).fee,
{
    append_commits(&mut context.input_commits, &tx.inputs);
    append_commits(&mut context.output_commits, &tx.outputs);
}

/// Fills a payment proof from the sender's transaction context: the context's
/// amount and fee replace the proof's, and the context's input and output
/// commitments are added after those the proof already holds.
pub fn add_context_to_proof(proof: &mut TxProof, context: &Context)
    ensures
        final(proof).amount == context.amount,
        final(proof).fee == context.fee,
        final(proof).inputs@ == old(proof).inputs@ + context.input_commits@,
        final(proof).outputs@ == old(proof).outputs@ + context.output_commits@,
        final(proof).address == old(proof).address,
        final(proof).message == old(proof).message,
        final(proof).signature == old(proof).signature,
{
    proof.amount = context.amount;
    proof.fee = context.fee;
    append_commits(&mut proof.inputs, &context.input_commits);
    append_commits(&mut proof.outputs, &context.output_commits);
}

/// Whether node information was fully gathered (all three answers came) or is
/// the all-zero answer given when one of them failed.
pub open spec fn node_info_from<E>(
    height: Result<u64, E>,
    total_difficulty: Result<u64, E>,
    peers: Result<Vec<PeerInfoDisplay>, E>,
    info: NodeInfo,
) -> bool {
    match (height, total_difficulty, peers) {
        (Ok(h), Ok(d), Ok(p)) => info.height == h && info.total_difficulty == d && info.peers@
            == p@,
        _ => info.height == 0 && info.total_difficulty == 0 && info.peers@.len() == 0,
    }
}

/// Combines the node's three answers: all of them when all came, and a zero
/// height, zero difficulty and no peers as soon as one of them failed.
pub fn combine_node_info<E>(
    height: Result<u64, E>,
    total_difficulty: Result<u64, E>,
    peers: Result<Vec<PeerInfoDisplay>, E>,
) -> (r: NodeInfo)
    ensures
        node_info_from(height, total_difficulty, peers, r),
{
    match height {
        Ok(height) => match total_difficulty {
            Ok(total_difficulty) => match peers {
                Ok(peers) => NodeInfo { height, total_difficulty, peers },
                Err(_) => NodeInfo { height: 0, total_difficulty: 0, peers: Vec::new() },
            },
            Err(_) => NodeInfo { height: 0, total_difficulty: 0, peers: Vec::new() },
        },
        Err(_) => NodeInfo { height: 0, total_difficulty: 0, peers: Vec::new() },
    }
}

} // verus!
