//! What each API operation hands to the backend and makes of its answers: the
//! calls it adds to the backend's call log `h`, from index `n` on, and its answer `r`.
use vstd::prelude::*;
use crate::backend::{
    after_refresh, close_then, lift, open_then, optional_refresh, refresh_calls, refresh_ok,
    validated_by, BackendCall,
};
use crate::payment_proof::proof_outcome;
use crate::rules::{
    has_received_entry, last_tx_id_spec, max_output_height_spec, node_info_from,
    single_slate_id_spec, NodeInfo,
};
use crate::text::{hex_text, uuid_text};
use crate::types::{
    AcctPathMapping, BlockFees, CbData, Commitment, Context, Error, Identifier, OutputData, Slate,
    Transaction, TxLogEntry, TxProof, WalletInfo,
};

verus! {

/// The reason given when a transaction is not cancelled because the node
/// could not be reached.
pub open spec fn cancel_refused_reason() -> Seq<char> {
    "Can't contact running Grin node. Not Cancelling."@
}

/// Whether `after` is the proof `before` filled from the context `context`:
/// amount and fee from the context, its commitments added after the proof's
/// own, the address, message and signature kept.
pub open spec fn proof_filled(before: TxProof, after: TxProof, context: Context) -> bool {
    &&& after.amount == context.amount
    &&& after.fee == context.fee
    &&& after.inputs@ == before.inputs@ + context.input_commits@
    &&& after.outputs@ == before.outputs@ + context.output_commits@
    &&& after.address == before.address
    &&& after.message == before.message
    &&& after.signature == before.signature
}

/// An optional proof filled from a context (none stays none).
pub open spec fn option_proof_filled(
    before: Option<TxProof>,
    after: Option<TxProof>,
    context: Context,
) -> bool {
    match before {
        None => after is None,
        Some(p) => after matches Some(q) && proof_filled(p, q, context),
    }
}

/// Whether `after` is the context `before` with the commitments of `tx`
/// recorded after its own, nothing else changed.
pub open spec fn commits_recorded(before: Context, after: Context, tx: Transaction) -> bool {
    &&& after.input_commits@ == before.input_commits@ + tx.inputs@
    &&& after.output_commits@ == before.output_commits@ + tx.outputs@
    &&& after.context_type == before.context_type
    &&& after.amount == before.amount
    &&& after.fee == before.fee
}

/// How many of the first `i` log entries have a slate id.
pub open spec fn slate_count(txs: Seq<TxLogEntry>, i: int) -> int
    decreases i,
{
    if i <= 0 {
        0
    } else {
        slate_count(txs, i - 1) + if txs[i - 1].tx_slate_id is Some {
            1int
        } else {
            0int
        }
    }
}

/// The proof flag of log entry `i`: for an entry with a slate id, the lookup of
/// a stored proof for it is the call `h[start + slate_count(txs, i)]`, and the
/// flag is whether that lookup answered `true`; an entry without one is never
/// flagged.
pub open spec fn proof_flag<P>(
    h: Seq<BackendCall<P>>,
    start: int,
    txs: Seq<TxLogEntry>,
    i: int,
    flag: bool,
) -> bool {
    match txs[i].tx_slate_id {
        None => !flag,
        Some(id) => h[start + slate_count(txs, i)] matches BackendCall::HasStoredTxProof {
            uuid,
            answer,
        } && uuid == uuid_text(id) && flag == (answer == Ok::<bool, String>(true)),
    }
}

/// The entries answered: the log entries in order, each with its proof flag.
pub open spec fn proof_flags<P>(
    h: Seq<BackendCall<P>>,
    start: int,
    txs: Seq<TxLogEntry>,
    entries: Seq<(TxLogEntry, bool)>,
) -> bool {
    &&& entries.len() == txs.len()
    &&& forall|i: int|
        0 <= i < txs.len() ==> (#[trigger] entries[i]).0 == txs[i] && proof_flag(
            h,
            start,
            txs,
            i,
            entries[i].1,
        )
}

/// `invoice_tx`: open; ask the key path; fetch the log of the slate under it;
/// refuse a slate already received; else add the payer's side and close. The
/// slate changes only through the backend's `invoice_tx`.
pub open spec fn invoice_tx_calls<P>(
    h: Seq<BackendCall<P>>,
    n: int,
    slate_before: Slate,
    slate_after: Slate,
    minimum_confirmations: u64,
    max_outputs: usize,
    num_change_outputs: usize,
    selection_strategy_is_use_all: bool,
    message: Option<String>,
    r: Result<P, Error>,
) -> bool {
    &&& h.len() <= n + 3 ==> slate_after == slate_before
    &&& open_then(
        h,
        n,
        r,
        h[n + 1] matches BackendCall::ParentKeyId { key } && h[n + 2] matches BackendCall::RetrieveTxs {
            tx_id,
            tx_slate_id,
            parent_key_id,
            outstanding_only,
            pagination_start,
            pagination_length,
            answer,
        } && tx_id is None && tx_slate_id == Some(slate_before.id) && parent_key_id == Some(key)
            && !outstanding_only && pagination_start == 0 && pagination_length == 0 && match answer {
            Err(m) => h.len() == n + 3 && r == Err::<P, Error>(Error::Backend(m)),
            Ok(txs) => if has_received_entry(txs@) {
                h.len() == n + 3 && (r matches Err(Error::TransactionAlreadyReceived(s)) && s@
                    == uuid_text(slate_before.id))
            } else {
                h[n + 3] matches BackendCall::InvoiceTx {
                    slate_before: sb,
                    slate_after: sa,
                    minimum_confirmations: mc,
                    max_outputs: mo,
                    num_change_outputs: nc,
                    selection_strategy_is_use_all: ua,
                    parent_key_id: pk,
                    message: msg,
                    answer: b,
                } && sb == slate_before && sa == slate_after && mc == minimum_confirmations && mo
                    == max_outputs && nc == num_change_outputs && ua == selection_strategy_is_use_all
                    && pk == key && msg == message && close_then(h, n + 4, r, lift(b))
            },
        },
    )
}

/// `receive_tx`: open; ask the key path; fetch the log of the slate under it;
/// refuse a slate already received; else receive it and close. The slate
/// changes only through the backend's `receive_tx`.
pub open spec fn receive_tx_calls<P>(
    h: Seq<BackendCall<P>>,
    n: int,
    address: Option<String>,
    slate_before: Slate,
    slate_after: Slate,
    message: Option<String>,
    r: Result<(), Error>,
) -> bool {
    &&& h.len() <= n + 3 ==> slate_after == slate_before
    &&& open_then(
        h,
        n,
        r,
        h[n + 1] matches BackendCall::ParentKeyId { key } && h[n + 2] matches BackendCall::RetrieveTxs {
            tx_id,
            tx_slate_id,
            parent_key_id,
            outstanding_only,
            pagination_start,
            pagination_length,
            answer,
        } && tx_id is None && tx_slate_id == Some(slate_before.id) && parent_key_id == Some(key)
            && !outstanding_only && pagination_start == 0 && pagination_length == 0 && match answer {
            Err(m) => h.len() == n + 3 && r == Err::<(), Error>(Error::Backend(m)),
            Ok(txs) => if has_received_entry(txs@) {
                h.len() == n + 3 && (r matches Err(Error::TransactionAlreadyReceived(s)) && s@
                    == uuid_text(slate_before.id))
            } else {
                h[n + 3] matches BackendCall::ReceiveTx {
                    address: a,
                    slate_before: sb,
                    slate_after: sa,
                    parent_key_id: pk,
                    message: msg,
                    answer: b,
                } && a == address && sb == slate_before && sa == slate_after && pk == key && msg
                    == message && close_then(h, n + 4, r, lift(b))
            },
        },
    )
}

/// `accounts`: the backend's accounts.
pub open spec fn accounts_calls<P>(
    h: Seq<BackendCall<P>>,
    n: int,
    r: Result<Vec<AcctPathMapping>, Error>,
) -> bool {
    h[n] matches BackendCall::Accounts { answer } && h.len() == n + 1 && r == lift(answer)
}

/// `create_account_path`: the backend creates the account with this label.
pub open spec fn create_account_path_calls<P>(
    h: Seq<BackendCall<P>>,
    n: int,
    label: Seq<char>,
    r: Result<Identifier, Error>,
) -> bool {
    h[n] matches BackendCall::NewAcctPath { label: l, answer } && h.len() == n + 1 && l == label
        && r == lift(answer)
}

/// `rename_account_path`: fetch the accounts, then rename among them.
pub open spec fn rename_account_path_calls<P>(
    h: Seq<BackendCall<P>>,
    n: int,
    old_label: Seq<char>,
    new_label: Seq<char>,
    r: Result<(), Error>,
) -> bool {
    h[n] matches BackendCall::Accounts { answer } && h.len() > n && match answer {
        Err(m) => h.len() == n + 1 && r == Err::<(), Error>(Error::Backend(m)),
        Ok(accounts) => h[n + 1] matches BackendCall::RenameAcctPath {
            accounts: a,
            old_label: o,
            new_label: nl,
            answer: b,
        } && h.len() == n + 2 && a == accounts && o == old_label && nl == new_label && r == lift(b),
    }
}

/// `retrieve_tx_id_by_slate_id`: open; fetch the log of the slate (any
/// account); answer the id of its last entry (`NO_TX_ID` when none). The
/// wallet is not closed.
pub open spec fn tx_id_by_slate_id_calls<P>(
    h: Seq<BackendCall<P>>,
    n: int,
    slate_id: u128,
    r: Result<u32, Error>,
) -> bool {
    open_then(
        h,
        n,
        r,
        h[n + 1] matches BackendCall::RetrieveTxs {
            tx_id,
            tx_slate_id,
            parent_key_id,
            outstanding_only,
            pagination_start,
            pagination_length,
            answer,
        } && h.len() == n + 2 && tx_id is None && tx_slate_id == Some(slate_id) && parent_key_id is None
            && !outstanding_only && pagination_start == 0 && pagination_length == 0 && r == match answer {
            Ok(txs) => Ok::<u32, Error>(last_tx_id_spec(txs@)),
            Err(m) => Err::<u32, Error>(Error::Backend(m)),
        },
    )
}

/// `retrieve_outputs`: open; ask the key path; refresh when asked; fetch the
/// outputs under the key path; close; answer whether the refresh worked, with
/// the outputs.
pub open spec fn retrieve_outputs_calls<P>(
    h: Seq<BackendCall<P>>,
    n: int,
    include_spent: bool,
    refresh_from_node: bool,
    tx_id: Option<u32>,
    pagination_start: u32,
    pagination_len: u32,
    r: Result<(bool, Vec<(OutputData, Commitment)>), Error>,
) -> bool {
    open_then(
        h,
        n,
        r,
        h[n + 1] matches BackendCall::ParentKeyId { key } && optional_refresh(
            h,
            n + 2,
            refresh_from_node,
        ) && ({
            let m = after_refresh(n + 2, refresh_from_node);
            h[m] matches BackendCall::RetrieveOutputs {
                include_spent: s,
                tx_id: t,
                parent_key_id: p,
                pagination_start: ps,
                pagination_length: pl,
                answer,
            } && s == include_spent && t == tx_id && p == Some(key) && ps == pagination_start && pl
                == pagination_len && match answer {
                Err(e) => h.len() == m + 1 && r == Err::<
                    (bool, Vec<(OutputData, Commitment)>),
                    Error,
                >(Error::Backend(e)),
                Ok(outputs) => close_then(
                    h,
                    m + 1,
                    r,
                    Ok((validated_by(h, n + 2, refresh_from_node), outputs)),
                ),
            }
        }),
    )
}

/// `retrieve_txs`: open; ask the key path; refresh when asked; fetch the log
/// under the key path; close; answer whether the refresh worked, with the log.
pub open spec fn retrieve_txs_calls<P>(
    h: Seq<BackendCall<P>>,
    n: int,
    refresh_from_node: bool,
    tx_id: Option<u32>,
    tx_slate_id: Option<u128>,
    r: Result<(bool, Vec<TxLogEntry>), Error>,
) -> bool {
    open_then(
        h,
        n,
        r,
        h[n + 1] matches BackendCall::ParentKeyId { key } && optional_refresh(
            h,
            n + 2,
            refresh_from_node,
        ) && ({
            let m = after_refresh(n + 2, refresh_from_node);
            h[m] matches BackendCall::RetrieveTxs {
                tx_id: t,
                tx_slate_id: s,
                parent_key_id: p,
                outstanding_only,
                pagination_start,
                pagination_length,
                answer,
            } && t == tx_id && s == tx_slate_id && p == Some(key) && !outstanding_only
                && pagination_start == 0 && pagination_length == 0 && match answer {
                Err(e) => h.len() == m + 1 && r == Err::<(bool, Vec<TxLogEntry>), Error>(
                    Error::Backend(e),
                ),
                Ok(txs) => close_then(
                    h,
                    m + 1,
                    r,
                    Ok((validated_by(h, n + 2, refresh_from_node), txs)),
                ),
            }
        }),
    )
}

/// `retrieve_txs_with_proof_flag`: as `retrieve_txs` with the pagination
/// given, then one stored-proof lookup per entry with a slate id, in order;
/// close; answer whether the refresh worked, with the entries and their flags.
pub open spec fn retrieve_txs_with_proof_flag_calls<P>(
    h: Seq<BackendCall<P>>,
    n: int,
    refresh_from_node: bool,
    tx_id: Option<u32>,
    tx_slate_id: Option<u128>,
    pagination_start: u32,
    pagination_length: u32,
    r: Result<(bool, Vec<(TxLogEntry, bool)>), Error>,
) -> bool {
    open_then(
        h,
        n,
        r,
        h[n + 1] matches BackendCall::ParentKeyId { key } && optional_refresh(
            h,
            n + 2,
            refresh_from_node,
        ) && ({
            let m = after_refresh(n + 2, refresh_from_node);
            h[m] matches BackendCall::RetrieveTxs {
                tx_id: t,
                tx_slate_id: s,
                parent_key_id: p,
                outstanding_only,
                pagination_start: ps,
                pagination_length: pl,
                answer,
            } && t == tx_id && s == tx_slate_id && p == Some(key) && !outstanding_only && ps
                == pagination_start && pl == pagination_length && match answer {
                Err(e) => h.len() == m + 1 && r == Err::<(bool, Vec<(TxLogEntry, bool)>), Error>(
                    Error::Backend(e),
                ),
                Ok(txs) => ({
                    let c = m + 1 + slate_count(txs@, txs@.len() as int);
                    &&& h.len() == c + 1
                    &&& h[c] matches BackendCall::Close { answer: closed }
                    &&& match closed {
                        Err(e) => r == Err::<(bool, Vec<(TxLogEntry, bool)>), Error>(
                            Error::Backend(e),
                        ),
                        Ok(_) => r matches Ok((validated, entries)) && validated == validated_by(
                            h,
                            n + 2,
                            refresh_from_node,
                        ) && proof_flags(h, m + 1, txs@, entries@),
                    }
                }),
            }
        }),
    )
}

/// `retrieve_summary_info`: open; ask the key path; refresh when asked; fetch
/// the balance under the key path; close; answer whether the refresh worked,
/// with the balance.
pub open spec fn retrieve_summary_info_calls<P>(
    h: Seq<BackendCall<P>>,
    n: int,
    refresh_from_node: bool,
    minimum_confirmations: u64,
    r: Result<(bool, WalletInfo), Error>,
) -> bool {
    open_then(
        h,
        n,
        r,
        h[n + 1] matches BackendCall::ParentKeyId { key } && optional_refresh(
            h,
            n + 2,
            refresh_from_node,
        ) && ({
            let m = after_refresh(n + 2, refresh_from_node);
            h[m] matches BackendCall::RetrieveInfo {
                parent_key_id: p,
                minimum_confirmations: mc,
                answer,
            } && p == key && mc == minimum_confirmations && match answer {
                Err(e) => h.len() == m + 1 && r == Err::<(bool, WalletInfo), Error>(
                    Error::Backend(e),
                ),
                Ok(info) => close_then(
                    h,
                    m + 1,
                    r,
                    Ok((validated_by(h, n + 2, refresh_from_node), info)),
                ),
            }
        }),
    )
}

/// `initiate_tx`: open; ask the key path; build the payment under it; save the
/// context with the slate's commitments recorded, under the slate id; close;
/// answer the slate and the pending lock.
pub open spec fn initiate_tx_calls<P>(
    h: Seq<BackendCall<P>>,
    n: int,
    address: Option<String>,
    amount: u64,
    minimum_confirmations: u64,
    max_outputs: usize,
    num_change_outputs: usize,
    selection_strategy_is_use_all: bool,
    message: Option<String>,
    outputs: Option<Seq<Seq<char>>>,
    version: Option<u16>,
    r: Result<(Slate, P), Error>,
) -> bool {
    open_then(
        h,
        n,
        r,
        h[n + 1] matches BackendCall::ParentKeyId { key } && h[n + 2] matches BackendCall::CreateSendTx {
            address: a,
            amount: am,
            minimum_confirmations: mc,
            max_outputs: mo,
            num_change_outputs: nc,
            selection_strategy_is_use_all: ua,
            parent_key_id: pk,
            message: msg,
            outputs: o,
            version: v,
            answer,
        } && a == address && am == amount && mc == minimum_confirmations && mo == max_outputs
            && nc == num_change_outputs && ua == selection_strategy_is_use_all && pk == key && msg
            == message && o == outputs && v == version && match answer {
            Err(e) => h.len() == n + 3 && r == Err::<(Slate, P), Error>(Error::Backend(e)),
            Ok((slate, context, pending)) => h[n + 3] matches BackendCall::SavePrivateContext {
                slate_id,
                context: saved,
                answer: s,
            } && slate_id == uuid_text(slate.id) && commits_recorded(context, saved, slate.tx)
                && match s {
                Err(e) => h.len() == n + 4 && r == Err::<(Slate, P), Error>(Error::Backend(e)),
                Ok(_) => close_then(h, n + 4, r, Ok((slate, pending))),
            },
        },
    )
}

/// `initiate_receive_tx`: open; ask the key path; build the invoice under it;
/// save its context under the slate id; close; answer the slate and the
/// pending update.
pub open spec fn initiate_receive_tx_calls<P>(
    h: Seq<BackendCall<P>>,
    n: int,
    amount: u64,
    num_outputs: usize,
    message: Option<String>,
    r: Result<(Slate, P), Error>,
) -> bool {
    open_then(
        h,
        n,
        r,
        h[n + 1] matches BackendCall::ParentKeyId { key } && h[n + 2] matches BackendCall::CreateReceiveTx {
            amount: am,
            num_outputs: no,
            parent_key_id: pk,
            message: msg,
            answer,
        } && am == amount && no == num_outputs && pk == key && msg == message && match answer {
            Err(e) => h.len() == n + 3 && r == Err::<(Slate, P), Error>(Error::Backend(e)),
            Ok((slate, context, pending)) => h[n + 3] matches BackendCall::SavePrivateContext {
                slate_id,
                context: saved,
                answer: s,
            } && slate_id == uuid_text(slate.id) && saved == context && match s {
                Err(e) => h.len() == n + 4 && r == Err::<(Slate, P), Error>(Error::Backend(e)),
                Ok(_) => close_then(h, n + 4, r, Ok((slate, pending))),
            },
        },
    )
}

/// `tx_lock_outputs` and `tx_add_invoice_outputs`: open; run the pending update
/// for the transaction. The wallet is not closed.
pub open spec fn pending_update_calls<P>(
    h: Seq<BackendCall<P>>,
    n: int,
    tx: Transaction,
    update: P,
    r: Result<(), Error>,
) -> bool {
    open_then(
        h,
        n,
        r,
        h[n + 1] matches BackendCall::RunPendingUpdate {
            update: u,
            tx: t,
            answer,
        } && h.len() == n + 2 && u == update && t == tx && r == lift(answer),
    )
}

/// `finalize_tx`: open; fetch the context saved under the slate id; close;
/// open; complete the slate; fill the proof from the context; store the
/// transaction with the proof; delete the context; close; answer `true`. The
/// slate changes only through the completion and the proof only by the fill.
pub open spec fn finalize_tx_calls<P>(
    h: Seq<BackendCall<P>>,
    n: int,
    slate_before: Slate,
    slate_after: Slate,
    proof_before: Option<TxProof>,
    proof_after: Option<TxProof>,
    r: Result<bool, Error>,
) -> bool {
    &&& h.len() <= n + 4 ==> slate_after == slate_before && proof_after == proof_before
    &&& open_then(
        h,
        n,
        r,
        h[n + 1] matches BackendCall::GetPrivateContext { slate_id, answer }
            && slate_id == uuid_text(slate_before.id) && match answer {
            Err(e) => h.len() == n + 2 && r == Err::<bool, Error>(Error::Backend(e)),
            Ok(context) => h[n + 2] matches BackendCall::Close { answer: closed } && match closed {
                Err(e) => h.len() == n + 3 && r == Err::<bool, Error>(Error::Backend(e)),
                Ok(_) => open_then(
                    h,
                    n + 3,
                    r,
                    h[n + 4] matches BackendCall::CompleteTx {
                        slate_before: sb,
                        slate_after: sa,
                        context: c,
                        answer: completed,
                    } && sb == slate_before && c == context && slate_after == sa && match completed {
                        Err(e) => h.len() == n + 5 && r == Err::<bool, Error>(Error::Backend(e))
                            && proof_after == proof_before,
                        Ok(_) => h[n + 5] matches BackendCall::UpdateStoredTx {
                            slate,
                            tx_proof,
                            answer: stored,
                        } && option_proof_filled(proof_before, proof_after, context) && slate == sa && tx_proof == proof_after && match stored {
                            Err(e) => h.len() == n + 6 && r == Err::<bool, Error>(
                                Error::Backend(e),
                            ),
                            Ok(_) => h[n + 6] matches BackendCall::DeletePrivateContext {
                                slate_id: d,
                                answer: deleted,
                            } && d == uuid_text(sa.id) && match deleted {
                                Err(e) => h.len() == n + 7 && r == Err::<bool, Error>(
                                    Error::Backend(e),
                                ),
                                Ok(_) => close_then(h, n + 7, r, Ok(true)),
                            },
                        },
                    },
                ),
            },
        },
    )
}

/// `cancel_tx`: open; ask the key path; refresh the outputs; refuse when that
/// fails; else cancel under the key path and close.
pub open spec fn cancel_tx_calls<P>(
    h: Seq<BackendCall<P>>,
    n: int,
    tx_id: Option<u32>,
    tx_slate_id: Option<u128>,
    r: Result<(), Error>,
) -> bool {
    open_then(
        h,
        n,
        r,
        h[n + 1] matches BackendCall::ParentKeyId { key } && refresh_calls(h, n + 2, false) && if !refresh_ok(
            h,
            n + 2,
        ) {
            h.len() == n + 4 && (r matches Err(Error::TransactionCancellationError(m)) && m@
                == cancel_refused_reason())
        } else {
            h[n + 4] matches BackendCall::CancelTx {
                parent_key_id: p,
                tx_id: t,
                tx_slate_id: s,
                answer,
            } && p == key && t == tx_id && s == tx_slate_id && match answer {
                Err(e) => h.len() == n + 5 && r == Err::<(), Error>(Error::Backend(e)),
                Ok(_) => close_then(h, n + 5, r, Ok(())),
            }
        },
    )
}

/// `get_stored_tx`: the backend's stored transaction for this id.
pub open spec fn get_stored_tx_calls<P>(
    h: Seq<BackendCall<P>>,
    n: int,
    uuid: Seq<char>,
    r: Result<Transaction, Error>,
) -> bool {
    h[n] matches BackendCall::GetStoredTx { uuid: u, answer } && h.len() == n + 1 && u == uuid && r
        == lift(answer)
}

/// `node_info`: open, ask the height; open, ask the difficulty; open, ask the
/// peers; answer them combined (all zero unless all three came).
pub open spec fn node_info_calls<P>(h: Seq<BackendCall<P>>, n: int, r: Result<NodeInfo, Error>) -> bool {
    open_then(
        h,
        n,
        r,
        h[n + 1] matches BackendCall::ChainHeight { answer: height } && open_then(
            h,
            n + 2,
            r,
            h[n + 3] matches BackendCall::TotalDifficulty { answer: difficulty } && open_then(
                h,
                n + 4,
                r,
                h[n + 5] matches BackendCall::ConnectedPeerInfo { answer: peers } && h.len() == n + 6
                    && (r matches Ok(info) && node_info_from(height, difficulty, peers, info)),
            ),
        ),
    )
}

/// `post_tx`: the transaction is posted hex-encoded, fluffed as asked.
pub open spec fn post_tx_calls<P>(
    h: Seq<BackendCall<P>>,
    n: int,
    tx: Seq<u8>,
    fluff: bool,
    r: Result<(), Error>,
) -> bool {
    h[n] matches BackendCall::PostTx { tx_hex, fluff: f, answer } && h.len() == n + 1 && tx_hex
        == hex_text(tx) && f == fluff && r == lift(answer)
}

/// `verify_slate_messages`: the backend checks the slate's messages.
pub open spec fn verify_slate_messages_calls<P>(
    h: Seq<BackendCall<P>>,
    n: int,
    slate: Slate,
    r: Result<(), Error>,
) -> bool {
    h[n] matches BackendCall::VerifySlateMessages { slate: s, answer } && h.len() == n + 1 && s
        == slate && r == lift(answer)
}

/// `restore`: open; restore; close; answer the restore's outcome.
pub open spec fn restore_calls<P>(h: Seq<BackendCall<P>>, n: int, r: Result<(), Error>) -> bool {
    open_then(
        h,
        n,
        r,
        h[n + 1] matches BackendCall::Restore { answer } && close_then(h, n + 2, r, lift(answer)),
    )
}

/// `check_repair`: open; refresh all outputs (whatever comes of it); repair;
/// close.
pub open spec fn check_repair_calls<P>(h: Seq<BackendCall<P>>, n: int, r: Result<(), Error>) -> bool {
    open_then(
        h,
        n,
        r,
        h[n + 3] matches BackendCall::CheckRepair { answer } && refresh_calls(h, n + 1, true)
            && match answer {
            Err(e) => h.len() == n + 4 && r == Err::<(), Error>(Error::Backend(e)),
            Ok(_) => close_then(h, n + 4, r, Ok(())),
        },
    )
}

/// `node_height`: open; ask the height; when the node does not answer, fetch
/// all outputs (as `retrieve_outputs` does, without refresh) and answer the
/// greatest of their heights.
pub open spec fn node_height_calls<P>(h: Seq<BackendCall<P>>, n: int, r: Result<(u64, bool), Error>) -> bool {
    open_then(
        h,
        n,
        r,
        h[n + 1] matches BackendCall::ChainHeight { answer } && match answer {
            Ok(height) => h.len() == n + 2 && r == Ok::<(u64, bool), Error>((height, true)),
            Err(_) => exists|outputs: Result<(bool, Vec<(OutputData, Commitment)>), Error>|
                #[trigger] retrieve_outputs_calls(h, n + 2, true, false, None, 0, 0, outputs) && r
                    == match outputs {
                    Ok((_, outs)) => Ok::<(u64, bool), Error>(
                        (max_output_height_spec(outs@), false),
                    ),
                    Err(e) => Err::<(u64, bool), Error>(e),
                },
        },
    )
}

/// `get_stored_tx_proof`: open; ask the key path; fetch the log entries with
/// this id under it; refuse unless exactly one, with a slate id; answer the
/// proof stored under that slate id. The wallet is not closed.
pub open spec fn get_stored_tx_proof_calls<P>(
    h: Seq<BackendCall<P>>,
    n: int,
    id: u32,
    r: Result<TxProof, Error>,
) -> bool {
    open_then(
        h,
        n,
        r,
        h[n + 1] matches BackendCall::ParentKeyId { key } && h[n + 2] matches BackendCall::RetrieveTxs {
            tx_id,
            tx_slate_id,
            parent_key_id,
            outstanding_only,
            pagination_start,
            pagination_length,
            answer,
        } && tx_id == Some(id) && tx_slate_id is None && parent_key_id == Some(key)
            && !outstanding_only && pagination_start == 0 && pagination_length == 0 && match answer {
            Err(e) => h.len() == n + 3 && r == Err::<TxProof, Error>(Error::Backend(e)),
            Ok(txs) => match single_slate_id_spec(txs@) {
                None => h.len() == n + 3 && r matches Err(Error::TransactionHasNoProof),
                Some(slate_id) => h[n + 3] matches BackendCall::GetStoredTxProof {
                    uuid,
                    answer: stored,
                } && h.len() == n + 4 && uuid == uuid_text(slate_id) && r == lift(stored),
            },
        },
    )
}

/// `verify_tx_proof`: the backend checks the proof's signature and extracts
/// its slate; then the proof is checked against the slate (`proof_outcome`).
pub open spec fn verify_tx_proof_calls<P>(
    h: Seq<BackendCall<P>>,
    n: int,
    tx_proof: TxProof,
    r: Result<(Option<String>, String, u64, Vec<Commitment>, Commitment), Error>,
) -> bool {
    h[n] matches BackendCall::VerifyExtract { tx_proof: p, answer } && h.len() == n + 1 && p
        == tx_proof && match answer {
        Err(_) => r matches Err(Error::VerifyProof),
        Ok((destination, slate)) => if slate.participant_data@.len() < 2 {
            r matches Err(Error::VerifyProof)
        } else {
            match proof_outcome(tx_proof, slate) {
                Ok((outputs, sum)) => r matches Ok(v) && v.0 == destination && v.1@
                    == tx_proof.address@ && v.2 == tx_proof.amount && v.3@ == outputs && v.4 == sum,
                Err(e) => r == Err::<
                    (Option<String>, String, u64, Vec<Commitment>, Commitment),
                    Error,
                >(e),
            }
        },
    }
}

/// `build_coinbase`: open; build the coinbase; close.
pub open spec fn build_coinbase_calls<P>(
    h: Seq<BackendCall<P>>,
    n: int,
    block_fees: BlockFees,
    r: Result<CbData, Error>,
) -> bool {
    open_then(
        h,
        n,
        r,
        h[n + 1] matches BackendCall::BuildCoinbase { block_fees: b, answer } && b == block_fees
            && close_then(h, n + 2, r, lift(answer)),
    )
}

} // verus!
