//! Properties of the wallet API that hold across its operations.
use vstd::prelude::*;
use grin_p2p::types::PeerInfoDisplay;
use crate::backend::BackendCall;
use crate::calls::{
    build_coinbase_calls, node_info_calls, proof_filled, retrieve_outputs_calls,
    retrieve_summary_info_calls, retrieve_txs_calls, retrieve_txs_with_proof_flag_calls,
    slate_count, tx_id_by_slate_id_calls,
};
use crate::payment_proof::uncovered;
use crate::rules::{
    has_received_entry, last_tx_id_spec, max_height_prefix, max_output_height_spec, NodeInfo,
    NO_TX_ID,
};
use crate::text::{hex_text, uuid_text};
use crate::types::{
    BlockFees, CbData, Commitment, Context, Error, OutputData, Transaction, TxLogEntry, TxProof, WalletInfo,
};

verus! {

/// Once a slate's transaction log holds a received entry, a receive or an
/// invoice for it stays refused however many entries are logged after it.
pub proof fn refusal_persists(txs: Seq<TxLogEntry>, later: Seq<TxLogEntry>)
    requires
        has_received_entry(txs),
    ensures
        has_received_entry(txs + later),
{
    let i: int = choose|i: int| 0 <= i < txs.len() && #[trigger] txs[i].tx_type
        == crate::types::TxLogEntryType::TxReceived;
    assert((txs + later)[i] == txs[i]);
}

/// The commitments that sending records in the sender's fresh context (those
/// of the slate's transaction) are the ones that finalizing puts in a fresh
/// payment proof, together with the context's amount and fee.
pub proof fn sent_commitments_reach_proof(
    fresh: Context,
    tx: Transaction,
    recorded: Context,
    blank: TxProof,
    filled: TxProof,
)
    requires
        fresh.input_commits@.len() == 0,
        fresh.output_commits@.len() == 0,
        recorded.input_commits@ == fresh.input_commits@ + tx.inputs@,
        recorded.output_commits@ == fresh.output_commits@ + tx.outputs@,
        recorded.amount == fresh.amount,
        recorded.fee == fresh.fee,
        blank.inputs@.len() == 0,
        blank.outputs@.len() == 0,
        proof_filled(blank, filled, recorded),
    ensures
        filled.inputs@ == tx.inputs@,
        filled.outputs@ == tx.outputs@,
        filled.amount == fresh.amount,
        filled.fee == fresh.fee,
{
    assert(fresh.input_commits@ + tx.inputs@ =~= tx.inputs@);
    assert(fresh.output_commits@ + tx.outputs@ =~= tx.outputs@);
    assert(blank.inputs@ + tx.inputs@ =~= tx.inputs@);
    assert(blank.outputs@ + tx.outputs@ =~= tx.outputs@);
}

/// A commitment is among those a proof check keeps exactly when the
/// transaction has it and the proof does not exclude it.
pub proof fn uncovered_members(all: Seq<Commitment>, excluded: Seq<Commitment>, c: Commitment)
    ensures
        uncovered(all, excluded).contains(c) <==> (all.contains(c) && !excluded.contains(c)),
{
    let pred = |x: Commitment| !excluded.contains(x);
    broadcast use vstd::seq_lib::group_filter_ensures;
    if uncovered(all, excluded).contains(c) {
        all.lemma_filter_contains_rev(pred, c);
        let k: int = choose|k: int| 0 <= k < all.filter(pred).len() && all.filter(pred)[k] == c;
        assert(pred(all.filter(pred)[k]));
    }
    if all.contains(c) && !excluded.contains(c) {
        let k: int = choose|k: int| 0 <= k < all.len() && all[k] == c;
        assert(pred(all[k]));
    }
}

/// A proof that excludes every commitment of the transaction keeps none, and
/// one that excludes none keeps them all, in their order.
pub proof fn uncovered_extremes(all: Seq<Commitment>)
    ensures
        uncovered(all, all).len() == 0,
        uncovered(all, Seq::empty()) == all,
    decreases all.len(),
{
    broadcast use vstd::seq_lib::group_filter_ensures;
    let kept = uncovered(all, all);
    if kept.len() > 0 {
        assert(!all.contains(kept[0]));
        uncovered_members(all, all, kept[0]);
        assert(kept.contains(kept[0]));
    }
    uncovered_empty(all);
}

/// Excluding nothing keeps every commitment.
proof fn uncovered_empty(all: Seq<Commitment>)
    ensures
        uncovered(all, Seq::empty()) == all,
    decreases all.len(),
{
    reveal_with_fuel(Seq::<_>::filter, 1);
    if all.len() > 0 {
        uncovered_empty(all.drop_last());
        assert(!Seq::<Commitment>::empty().contains(all.last()));
        assert(all.drop_last().push(all.last()) =~= all);
    }
}

/// The height that `node_height` falls back on is at least the height of
/// every output, is the height of one of them when there are any, and is 0
/// when there are none.
pub proof fn fallback_height_bounds(outputs: Seq<(OutputData, Commitment)>)
    ensures
        forall|i: int| 0 <= i < outputs.len() ==> #[trigger] outputs[i].0.height
            <= max_output_height_spec(outputs),
        outputs.len() > 0 ==> exists|i: int|
            0 <= i < outputs.len() && #[trigger] outputs[i].0.height == max_output_height_spec(
                outputs,
            ),
        outputs.len() == 0 ==> max_output_height_spec(outputs) == 0,
{
    prefix_bounds(outputs, outputs.len() as int);
}

/// `fallback_height_bounds` for the first `n` outputs.
proof fn prefix_bounds(outputs: Seq<(OutputData, Commitment)>, n: int)
    requires
        0 <= n <= outputs.len(),
    ensures
        forall|i: int| 0 <= i < n ==> #[trigger] outputs[i].0.height <= max_height_prefix(outputs, n),
        n > 0 ==> exists|i: int|
            0 <= i < n && #[trigger] outputs[i].0.height == max_height_prefix(outputs, n),
        n == 0 ==> max_height_prefix(outputs, n) == 0,
    decreases n,
{
    if n > 0 {
        prefix_bounds(outputs, n - 1);
        if outputs[n - 1].0.height <= max_height_prefix(outputs, n - 1) && n - 1 > 0 {
            let k: int = choose|k: int|
                0 <= k < n - 1 && #[trigger] outputs[k].0.height == max_height_prefix(outputs, n - 1);
            assert(outputs[k].0.height == max_height_prefix(outputs, n));
        } else {
            assert(outputs[n - 1].0.height == max_height_prefix(outputs, n));
        }
    }
}

/// The text form of a slate id has 36 characters, hyphens at positions 8, 13,
/// 18 and 23.
pub proof fn uuid_text_shape(id: u128)
    ensures
        uuid_text(id).len() == 36,
        uuid_text(id)[8] == '-',
        uuid_text(id)[13] == '-',
        uuid_text(id)[18] == '-',
        uuid_text(id)[23] == '-',
{
}

/// A hex-encoded transaction has two characters per byte.
pub proof fn hex_text_length(bytes: Seq<u8>)
    ensures
        hex_text(bytes).len() == 2 * bytes.len(),
    decreases bytes.len(),
{
    if bytes.len() > 0 {
        hex_text_length(bytes.drop_last());
    }
}

/// Whether the call at `h[i]` opened the wallet successfully.
pub open spec fn opened_ok<P>(h: Seq<BackendCall<P>>, i: int) -> bool {
    h[i] == BackendCall::<P>::Open { answer: Ok(()) }
}

/// Whether the call at `h[i]` refreshed the outputs and the node answered.
pub open spec fn refreshed_ok<P>(h: Seq<BackendCall<P>>, i: int) -> bool {
    h[i] matches BackendCall::RefreshOutputs { answer, .. } && answer is Ok
}

/// The transaction id found for a slate is the id of the last entry of the
/// slate's log, whatever the entries' types; only an empty log gives
/// `NO_TX_ID`.
pub proof fn tx_id_is_last_entry<P>(
    h: Seq<BackendCall<P>>,
    n: int,
    slate_id: u128,
    txs: Vec<TxLogEntry>,
    r: Result<u32, Error>,
)
    requires
        tx_id_by_slate_id_calls(h, n, slate_id, r),
        opened_ok(h, n),
        (h[n + 1] matches BackendCall::RetrieveTxs { answer, .. } && answer == Ok::<
            Vec<TxLogEntry>,
            String,
        >(txs)),
    ensures
        txs@.len() == 0 ==> r == Ok::<u32, Error>(1000000000),
        txs@.len() > 0 ==> r == Ok::<u32, Error>(txs@[txs@.len() - 1].id),
{
}

/// Two logs whose entries have the same ids, in the same order, give the same
/// transaction id, whatever the entries' types, slates and amounts.
pub proof fn tx_id_ignores_entry_kinds(a: Seq<TxLogEntry>, b: Seq<TxLogEntry>)
    requires
        a.len() == b.len(),
        forall|i: int| 0 <= i < a.len() ==> #[trigger] a[i].id == b[i].id,
    ensures
        last_tx_id_spec(a) == last_tx_id_spec(b),
        a.len() > 0 ==> last_tx_id_spec(a) == a[a.len() - 1].id,
        a.len() == 0 ==> last_tx_id_spec(a) == NO_TX_ID,
{
    if a.len() > 0 {
        assert(a[a.len() - 1].id == b[b.len() - 1].id);
    }
}

/// When the node answers all three questions, the node information is
/// exactly those answers: its height, its total difficulty and the very
/// peers it listed.
pub proof fn node_info_reports_node_answers<P>(
    h: Seq<BackendCall<P>>,
    n: int,
    height: u64,
    difficulty: u64,
    peers: Vec<PeerInfoDisplay>,
    r: Result<NodeInfo, Error>,
)
    requires
        node_info_calls(h, n, r),
        opened_ok(h, n),
        h[n + 1] == (BackendCall::<P>::ChainHeight { answer: Ok(height) }),
        opened_ok(h, n + 2),
        h[n + 3] == (BackendCall::<P>::TotalDifficulty { answer: Ok(difficulty) }),
        opened_ok(h, n + 4),
        h[n + 5] == (BackendCall::<P>::ConnectedPeerInfo { answer: Ok(peers) }),
    ensures
        (r matches Ok(info) && info.height == height && info.total_difficulty == difficulty
            && info.peers@ == peers@),
{
}

/// When the node fails one of the three questions, the node information is a
/// zero height, a zero difficulty and no peers.
pub proof fn node_info_zero_on_failure<P>(h: Seq<BackendCall<P>>, n: int, r: Result<NodeInfo, Error>)
    requires
        node_info_calls(h, n, r),
        opened_ok(h, n),
        opened_ok(h, n + 2),
        opened_ok(h, n + 4),
        !(h[n + 1] matches BackendCall::ChainHeight { answer } && answer is Ok)
            || !(h[n + 3] matches BackendCall::TotalDifficulty { answer } && answer is Ok)
            || !(h[n + 5] matches BackendCall::ConnectedPeerInfo { answer } && answer is Ok),
    ensures
        (r matches Ok(info) && info.height == 0 && info.total_difficulty == 0 && info.peers@.len()
            == 0),
{
}

/// `retrieve_outputs` reports its outputs as validated exactly when a refresh
/// was asked and the node answered it.
pub proof fn outputs_validated_iff_refreshed<P>(
    h: Seq<BackendCall<P>>,
    n: int,
    include_spent: bool,
    refresh_from_node: bool,
    tx_id: Option<u32>,
    pagination_start: u32,
    pagination_len: u32,
    r: Result<(bool, Vec<(OutputData, Commitment)>), Error>,
)
    requires
        retrieve_outputs_calls(
            h,
            n,
            include_spent,
            refresh_from_node,
            tx_id,
            pagination_start,
            pagination_len,
            r,
        ),
    ensures
        r matches Ok((validated, _)) ==> validated == (refresh_from_node && refreshed_ok(h, n + 3)),
{
}

/// `retrieve_txs` reports its entries as validated exactly when a refresh was
/// asked and the node answered it.
pub proof fn txs_validated_iff_refreshed<P>(
    h: Seq<BackendCall<P>>,
    n: int,
    refresh_from_node: bool,
    tx_id: Option<u32>,
    tx_slate_id: Option<u128>,
    r: Result<(bool, Vec<TxLogEntry>), Error>,
)
    requires
        retrieve_txs_calls(h, n, refresh_from_node, tx_id, tx_slate_id, r),
    ensures
        r matches Ok((validated, _)) ==> validated == (refresh_from_node && refreshed_ok(h, n + 3)),
{
}

/// `retrieve_txs_with_proof_flag` reports its entries as validated exactly
/// when a refresh was asked and the node answered it.
pub proof fn flagged_txs_validated_iff_refreshed<P>(
    h: Seq<BackendCall<P>>,
    n: int,
    refresh_from_node: bool,
    tx_id: Option<u32>,
    tx_slate_id: Option<u128>,
    pagination_start: u32,
    pagination_length: u32,
    r: Result<(bool, Vec<(TxLogEntry, bool)>), Error>,
)
    requires
        retrieve_txs_with_proof_flag_calls(
            h,
            n,
            refresh_from_node,
            tx_id,
            tx_slate_id,
            pagination_start,
            pagination_length,
            r,
        ),
    ensures
        r matches Ok((validated, _)) ==> validated == (refresh_from_node && refreshed_ok(h, n + 3)),
{
}

/// `retrieve_summary_info` reports the balance as validated exactly when a
/// refresh was asked and the node answered it.
pub proof fn summary_validated_iff_refreshed<P>(
    h: Seq<BackendCall<P>>,
    n: int,
    refresh_from_node: bool,
    minimum_confirmations: u64,
    r: Result<(bool, WalletInfo), Error>,
)
    requires
        retrieve_summary_info_calls(h, n, refresh_from_node, minimum_confirmations, r),
    ensures
        r matches Ok((validated, _)) ==> validated == (refresh_from_node && refreshed_ok(h, n + 3)),
{
}

/// How many of the entries before `i` have a slate id: the stored-proof
/// lookups made before entry `i`'s.
pub open spec fn lookups_before(txs: Seq<TxLogEntry>, i: int) -> nat {
    txs.take(i).filter(|t: TxLogEntry| t.tx_slate_id is Some).len()
}

/// `lookups_before` counts what `slate_count` counts.
proof fn lookups_before_counts_slates(txs: Seq<TxLogEntry>, i: int)
    requires
        0 <= i <= txs.len(),
    ensures
        lookups_before(txs, i) == slate_count(txs, i),
    decreases i,
{
    reveal_with_fuel(Seq::<_>::filter, 1);
    if i > 0 {
        lookups_before_counts_slates(txs, i - 1);
        assert(txs.take(i).drop_last() =~= txs.take(i - 1));
        assert(txs.take(i).last() == txs[i - 1]);
    }
}

/// The flag of entry `i`, for lookups that start at `h[base]`: an entry with a
/// slate id is flagged exactly when the stored-proof lookup made for it (the
/// lookups are made in the entries' order, one per entry with a slate id)
/// asked for that slate id and answered `Ok(true)`; an entry without one is
/// never flagged.
pub open spec fn flag_from_lookup<P>(
    h: Seq<BackendCall<P>>,
    base: int,
    txs: Seq<TxLogEntry>,
    i: int,
    flag: bool,
) -> bool {
    match txs[i].tx_slate_id {
        None => !flag,
        Some(id) => h[base + lookups_before(txs, i)] matches BackendCall::HasStoredTxProof {
            uuid,
            answer,
        } && uuid == uuid_text(id) && flag == (answer == Ok::<bool, String>(true)),
    }
}

/// Each entry answered by `retrieve_txs_with_proof_flag` is the log's entry in
/// the same place, flagged as `flag_from_lookup` says, whatever the entry's
/// other fields (confirmation, type, amounts).
#[verifier::spinoff_prover]
pub proof fn proof_flag_is_lookup_answer<P>(
    h: Seq<BackendCall<P>>,
    n: int,
    refresh_from_node: bool,
    tx_id: Option<u32>,
    tx_slate_id: Option<u128>,
    pagination_start: u32,
    pagination_length: u32,
    txs: Vec<TxLogEntry>,
    r: Result<(bool, Vec<(TxLogEntry, bool)>), Error>,
)
    requires
        retrieve_txs_with_proof_flag_calls(
            h,
            n,
            refresh_from_node,
            tx_id,
            tx_slate_id,
            pagination_start,
            pagination_length,
            r,
        ),
        opened_ok(h, n),
        (h[if refresh_from_node { n + 4 } else { n + 2 }] matches BackendCall::RetrieveTxs {
            answer,
            ..
        } && answer == Ok::<Vec<TxLogEntry>, String>(txs)),
    ensures
        r matches Ok((_, entries)) ==> entries@.len() == txs@.len() && forall|i: int|
            0 <= i < txs@.len() ==> (#[trigger] entries@[i]).0 == txs@[i] && flag_from_lookup(
                h,
                if refresh_from_node { n + 5 } else { n + 3 },
                txs@,
                i,
                entries@[i].1,
            ),
{
    if r is Ok {
        let m = if refresh_from_node { n + 4 } else { n + 2 };
        assert(m == crate::backend::after_refresh(n + 2, refresh_from_node));
        let entries = r->Ok_0.1;
        assert(crate::calls::proof_flags(h, m + 1, txs@, entries@));
        assert forall|i: int| 0 <= i < txs@.len() implies (#[trigger] entries@[i]).0 == txs@[i]
            && flag_from_lookup(h, m + 1, txs@, i, entries@[i].1) by {
            lookups_before_counts_slates(txs@, i);
            assert(crate::calls::proof_flag(h, m + 1, txs@, i, entries@[i].1));
        }
    }
}

/// `build_coinbase` hands the backend exactly the block fees it was given:
/// the fees, the height and the key.
pub proof fn coinbase_built_for_given_fees<P>(
    h: Seq<BackendCall<P>>,
    n: int,
    block_fees: BlockFees,
    r: Result<CbData, Error>,
)
    requires
        build_coinbase_calls(h, n, block_fees, r),
        opened_ok(h, n),
    ensures
        (h[n + 1] matches BackendCall::BuildCoinbase { block_fees: b, .. } && b.fees
            == block_fees.fees && b.height == block_fees.height && b.key_id == block_fees.key_id),
{
}

} // verus!
