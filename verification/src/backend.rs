//! The wallet backend that the APIs drive: its storage, its keychain, its
//! transaction building and its node client. Users of the APIs implement it.
//! Each method promises only that it adds itself, with its arguments and its
//! answer, to the backend's call log: the APIs are proved for whatever the
//! backend answers. A backend reports a failure as a message, which the APIs
//! pass on as `Error::Backend`.
use vstd::prelude::*;
use grin_p2p::types::PeerInfoDisplay;
use crate::types::{
    Error,
    AcctPathMapping, BlockFees, CbData, Commitment, Context, Identifier, OutputData, Slate,
    Transaction, TxLogEntry, TxProof, TxWrapper, WalletInfo,
};

verus! {

/// A wallet's storage, keychain, transaction builder and node client.
///
/// A backend keeps a log of the calls made to it (`call_log`): every method
/// adds one entry, with its arguments and the answer it gives. An
/// implementation keeps that log as ghost state beside its real work; the
/// APIs state what they do as the calls they add to it.
pub trait WalletBackend {
    /// Work that building a transaction leaves to be done once the finished
    /// transaction is known (locking the spent outputs, adding the new ones).
    type PendingUpdate;

    /// The calls made to this backend so far, in order, with its answers.
    spec fn call_log(&self) -> Seq<BackendCall<Self::PendingUpdate>>;

    /// Opens the wallet with its credentials.
    fn open_with_credentials(&mut self) -> (r: Result<(), String>)
        ensures
            final(self).call_log() == old(self).call_log().push(BackendCall::Open { answer: r }),
    ;

    /// Closes the wallet.
    fn close(&mut self) -> (r: Result<(), String>)
        ensures
            final(self).call_log() == old(self).call_log().push(BackendCall::Close { answer: r }),
    ;

    /// The key path of the account in use.
    fn get_parent_key_id(&mut self) -> (r: Identifier)
        ensures
            final(self).call_log() == old(self).call_log().push(BackendCall::ParentKeyId { key: r }),
    ;

    /// The transaction log entries that match the given filters.
    fn retrieve_txs(
        &mut self,
        tx_id: Option<u32>,
        tx_slate_id: Option<u128>,
        parent_key_id: Option<Identifier>,
        outstanding_only: bool,
        pagination_start: u32,
        pagination_length: u32,
    ) -> (r: Result<Vec<TxLogEntry>, String>)
        ensures
            final(self).call_log() == old(self).call_log().push(
                BackendCall::RetrieveTxs {
                    tx_id,
                    tx_slate_id,
                    parent_key_id,
                    outstanding_only,
                    pagination_start,
                    pagination_length,
                    answer: r,
                },
            ),
    ;

    /// The outputs that match the given filters, with their commitments.
    fn retrieve_outputs(
        &mut self,
        include_spent: bool,
        tx_id: Option<u32>,
        parent_key_id: Option<Identifier>,
        pagination_start: u32,
        pagination_length: u32,
    ) -> (r: Result<Vec<(OutputData, Commitment)>, String>)
        ensures
            final(self).call_log() == old(self).call_log().push(
                BackendCall::RetrieveOutputs {
                    include_spent,
                    tx_id,
                    parent_key_id,
                    pagination_start,
                    pagination_length,
                    answer: r,
                },
            ),
    ;

    /// The balance summary of an account.
    fn retrieve_info(&mut self, parent_key_id: Identifier, minimum_confirmations: u64) -> (r: Result<
        WalletInfo,
        String,
    >)
        ensures
            final(self).call_log() == old(self).call_log().push(
                BackendCall::RetrieveInfo { parent_key_id, minimum_confirmations, answer: r },
            ),
    ;

    /// Brings the state of the outputs up to date with the node.
    fn refresh_outputs(&mut self, parent_key_id: Identifier, update_all: bool) -> (r: Result<
        (),
        String,
    >)
        ensures
            final(self).call_log() == old(self).call_log().push(
                BackendCall::RefreshOutputs { parent_key_id, update_all, answer: r },
            ),
    ;

    /// Whether a proof is stored for the slate with this id.
    fn has_stored_tx_proof(&mut self, uuid: &str) -> (r: Result<bool, String>)
        ensures
            final(self).call_log() == old(self).call_log().push(
                BackendCall::HasStoredTxProof { uuid: uuid@, answer: r },
            ),
    ;

    /// The proof stored for the slate with this id.
    fn get_stored_tx_proof(&mut self, uuid: &str) -> (r: Result<TxProof, String>)
        ensures
            final(self).call_log() == old(self).call_log().push(
                BackendCall::GetStoredTxProof { uuid: uuid@, answer: r },
            ),
    ;

    /// The transaction stored for the slate with this id.
    fn get_stored_tx(&mut self, uuid: &str) -> (r: Result<Transaction, String>)
        ensures
            final(self).call_log() == old(self).call_log().push(
                BackendCall::GetStoredTx { uuid: uuid@, answer: r },
            ),
    ;

    /// The accounts of the wallet.
    fn accounts(&mut self) -> (r: Result<Vec<AcctPathMapping>, String>)
        ensures
            final(self).call_log() == old(self).call_log().push(BackendCall::Accounts { answer: r }),
    ;

    /// Creates an account with this label.
    fn new_acct_path(&mut self, label: &str) -> (r: Result<Identifier, String>)
        ensures
            final(self).call_log() == old(self).call_log().push(
                BackendCall::NewAcctPath { label: label@, answer: r },
            ),
    ;

    /// Renames the account `old_label` (one of `accounts`) to `new_label`.
    fn rename_acct_path(
        &mut self,
        accounts: Vec<AcctPathMapping>,
        old_label: &str,
        new_label: &str,
    ) -> (r: Result<(), String>)
        ensures
            final(self).call_log() == old(self).call_log().push(
                BackendCall::RenameAcctPath {
                    accounts,
                    old_label: old_label@,
                    new_label: new_label@,
                    answer: r,
                },
            ),
    ;

    /// Adds the payer's inputs and change to an invoice slate.
    fn invoice_tx(
        &mut self,
        slate: &mut Slate,
        minimum_confirmations: u64,
        max_outputs: usize,
        num_change_outputs: usize,
        selection_strategy_is_use_all: bool,
        parent_key_id: Identifier,
        message: Option<String>,
    ) -> (r: Result<Self::PendingUpdate, String>)
        ensures
            final(self).call_log() == old(self).call_log().push(
                BackendCall::InvoiceTx {
                    slate_before: *old(slate),
                    slate_after: *final(slate),
                    minimum_confirmations,
                    max_outputs,
                    num_change_outputs,
                    selection_strategy_is_use_all,
                    parent_key_id,
                    message,
                    answer: r,
                },
            ),
    ;

    /// Builds the slate of a payment, with the sender's private context.
    fn create_send_tx(
        &mut self,
        address: Option<String>,
        amount: u64,
        minimum_confirmations: u64,
        max_outputs: usize,
        num_change_outputs: usize,
        selection_strategy_is_use_all: bool,
        parent_key_id: Identifier,
        message: Option<String>,
        outputs: Option<Vec<&str>>,
        version: Option<u16>,
    ) -> (r: Result<(Slate, Context, Self::PendingUpdate), String>)
        ensures
            final(self).call_log() == old(self).call_log().push(
                BackendCall::CreateSendTx {
                    address,
                    amount,
                    minimum_confirmations,
                    max_outputs,
                    num_change_outputs,
                    selection_strategy_is_use_all,
                    parent_key_id,
                    message,
                    outputs: texts_view(outputs),
                    version,
                    answer: r,
                },
            ),
    ;

    /// Builds the slate of an invoice, with the receiver's private context.
    fn create_receive_tx(
        &mut self,
        amount: u64,
        num_outputs: usize,
        parent_key_id: Identifier,
        message: Option<String>,
    ) -> (r: Result<(Slate, Context, Self::PendingUpdate), String>)
        ensures
            final(self).call_log() == old(self).call_log().push(
                BackendCall::CreateReceiveTx {
                    amount,
                    num_outputs,
                    parent_key_id,
                    message,
                    answer: r,
                },
            ),
    ;

    /// Does the work left by building a transaction, for the finished transaction.
    fn run_pending_update(&mut self, update: Self::PendingUpdate, tx: &Transaction) -> (r: Result<
        (),
        String,
    >)
        ensures
            final(self).call_log() == old(self).call_log().push(
                BackendCall::RunPendingUpdate { update, tx: *tx, answer: r },
            ),
    ;

    /// Stores the private context of a transaction under its slate id.
    fn save_private_context(&mut self, slate_id: &str, context: &Context) -> (r: Result<
        (),
        String,
    >)
        ensures
            final(self).call_log() == old(self).call_log().push(
                BackendCall::SavePrivateContext { slate_id: slate_id@, context: *context, answer: r },
            ),
    ;

    /// The private context stored under a slate id.
    fn get_private_context(&mut self, slate_id: &str) -> (r: Result<Context, String>)
        ensures
            final(self).call_log() == old(self).call_log().push(
                BackendCall::GetPrivateContext { slate_id: slate_id@, answer: r },
            ),
    ;

    /// Removes the private context stored under a slate id.
    fn delete_private_context(&mut self, slate_id: &str) -> (r: Result<(), String>)
        ensures
            final(self).call_log() == old(self).call_log().push(
                BackendCall::DeletePrivateContext { slate_id: slate_id@, answer: r },
            ),
    ;

    /// Completes a slate with the sender's signature.
    fn complete_tx(&mut self, slate: &mut Slate, context: &Context) -> (r: Result<(), String>)
        ensures
            final(self).call_log() == old(self).call_log().push(
                BackendCall::CompleteTx {
                    slate_before: *old(slate),
                    slate_after: *final(slate),
                    context: *context,
                    answer: r,
                },
            ),
    ;

    /// Stores the finished transaction of a slate, and its proof when there is one.
    fn update_stored_tx(&mut self, slate: &Slate, tx_proof: Option<&TxProof>) -> (r: Result<
        (),
        String,
    >)
        ensures
            final(self).call_log() == old(self).call_log().push(
                BackendCall::UpdateStoredTx { slate: *slate, tx_proof: proof_view(tx_proof), answer: r },
            ),
    ;

    /// Cancels a transaction given by its log id or its slate id.
    fn cancel_tx(
        &mut self,
        parent_key_id: Identifier,
        tx_id: Option<u32>,
        tx_slate_id: Option<u128>,
    ) -> (r: Result<(), String>)
        ensures
            final(self).call_log() == old(self).call_log().push(
                BackendCall::CancelTx { parent_key_id, tx_id, tx_slate_id, answer: r },
            ),
    ;

    /// Receives the outputs of a payment slate.
    fn receive_tx(
        &mut self,
        address: Option<String>,
        slate: &mut Slate,
        parent_key_id: Identifier,
        message: Option<String>,
    ) -> (r: Result<(), String>)
        ensures
            final(self).call_log() == old(self).call_log().push(
                BackendCall::ReceiveTx {
                    address,
                    slate_before: *old(slate),
                    slate_after: *final(slate),
                    parent_key_id,
                    message,
                    answer: r,
                },
            ),
    ;

    /// Builds a coinbase output and kernel for a block.
    fn build_coinbase(&mut self, block_fees: &BlockFees) -> (r: Result<CbData, String>)
        ensures
            final(self).call_log() == old(self).call_log().push(
                BackendCall::BuildCoinbase { block_fees: *block_fees, answer: r },
            ),
    ;

    /// Rebuilds the wallet's outputs from the chain.
    fn restore(&mut self) -> (r: Result<(), String>)
        ensures
            final(self).call_log() == old(self).call_log().push(BackendCall::Restore { answer: r }),
    ;

    /// Repairs the wallet's outputs against the chain.
    fn check_repair(&mut self) -> (r: Result<(), String>)
        ensures
            final(self).call_log() == old(self).call_log().push(BackendCall::CheckRepair { answer: r }),
    ;

    /// The node's chain height.
    fn get_chain_height(&mut self) -> (r: Result<u64, String>)
        ensures
            final(self).call_log() == old(self).call_log().push(BackendCall::ChainHeight { answer: r }),
    ;

    /// The node's total difficulty.
    fn get_total_difficulty(&mut self) -> (r: Result<u64, String>)
        ensures
            final(self).call_log() == old(self).call_log().push(
                BackendCall::TotalDifficulty { answer: r },
            ),
    ;

    /// The peers the node is connected to.
    fn get_connected_peer_info(&mut self) -> (r: Result<Vec<PeerInfoDisplay>, String>)
        ensures
            final(self).call_log() == old(self).call_log().push(
                BackendCall::ConnectedPeerInfo { answer: r },
            ),
    ;

    /// Posts a transaction to the node, fluffed or not.
    fn post_tx(&mut self, tx: &TxWrapper, fluff: bool) -> (r: Result<(), String>)
        ensures
            final(self).call_log() == old(self).call_log().push(
                BackendCall::PostTx { tx_hex: tx.tx_hex@, fluff, answer: r },
            ),
    ;

    /// Checks the participants' message signatures of a slate.
    fn verify_slate_messages(&mut self, slate: &Slate) -> (r: Result<(), String>)
        ensures
            final(self).call_log() == old(self).call_log().push(
                BackendCall::VerifySlateMessages { slate: *slate, answer: r },
            ),
    ;

    /// Checks the signature of a payment proof and decrypts the slate it
    /// carries, with the destination address it names.
    fn verify_extract(&mut self, tx_proof: &TxProof) -> (r: Result<(Option<String>, Slate), String>)
        ensures
            final(self).call_log() == old(self).call_log().push(
                BackendCall::VerifyExtract { tx_proof: *tx_proof, answer: r },
            ),
    ;
}

/// An optional borrowed proof, as a value.
pub open spec fn proof_view(tx_proof: Option<&TxProof>) -> Option<TxProof> {
    match tx_proof {
        Some(p) => Some(*p),
        None => None,
    }
}

} // verus!

verus! {

/// One call that an API made to its backend, with its arguments (text by its
/// characters) and the backend's answer. The APIs keep the calls they make, in
/// order, so that their contracts can say what they hand to the backend and
/// what they make of its answers.
pub enum BackendCall<P> {
    Open { answer: Result<(), String> },
    Close { answer: Result<(), String> },
    ParentKeyId { key: Identifier },
    RetrieveTxs {
        tx_id: Option<u32>,
        tx_slate_id: Option<u128>,
        parent_key_id: Option<Identifier>,
        outstanding_only: bool,
        pagination_start: u32,
        pagination_length: u32,
        answer: Result<Vec<TxLogEntry>, String>,
    },
    RetrieveOutputs {
        include_spent: bool,
        tx_id: Option<u32>,
        parent_key_id: Option<Identifier>,
        pagination_start: u32,
        pagination_length: u32,
        answer: Result<Vec<(OutputData, Commitment)>, String>,
    },
    RetrieveInfo {
        parent_key_id: Identifier,
        minimum_confirmations: u64,
        answer: Result<WalletInfo, String>,
    },
    RefreshOutputs { parent_key_id: Identifier, update_all: bool, answer: Result<(), String> },
    HasStoredTxProof { uuid: Seq<char>, answer: Result<bool, String> },
    GetStoredTxProof { uuid: Seq<char>, answer: Result<TxProof, String> },
    GetStoredTx { uuid: Seq<char>, answer: Result<Transaction, String> },
    Accounts { answer: Result<Vec<AcctPathMapping>, String> },
    NewAcctPath { label: Seq<char>, answer: Result<Identifier, String> },
    RenameAcctPath {
        accounts: Vec<AcctPathMapping>,
        old_label: Seq<char>,
        new_label: Seq<char>,
        answer: Result<(), String>,
    },
    InvoiceTx {
        slate_before: Slate,
        slate_after: Slate,
        minimum_confirmations: u64,
        max_outputs: usize,
        num_change_outputs: usize,
        selection_strategy_is_use_all: bool,
        parent_key_id: Identifier,
        message: Option<String>,
        answer: Result<P, String>,
    },
    CreateSendTx {
        address: Option<String>,
        amount: u64,
        minimum_confirmations: u64,
        max_outputs: usize,
        num_change_outputs: usize,
        selection_strategy_is_use_all: bool,
        parent_key_id: Identifier,
        message: Option<String>,
        outputs: Option<Seq<Seq<char>>>,
        version: Option<u16>,
        answer: Result<(Slate, Context, P), String>,
    },
    CreateReceiveTx {
        amount: u64,
        num_outputs: usize,
        parent_key_id: Identifier,
        message: Option<String>,
        answer: Result<(Slate, Context, P), String>,
    },
    RunPendingUpdate { update: P, tx: Transaction, answer: Result<(), String> },
    SavePrivateContext { slate_id: Seq<char>, context: Context, answer: Result<(), String> },
    GetPrivateContext { slate_id: Seq<char>, answer: Result<Context, String> },
    DeletePrivateContext { slate_id: Seq<char>, answer: Result<(), String> },
    CompleteTx {
        slate_before: Slate,
        slate_after: Slate,
        context: Context,
        answer: Result<(), String>,
    },
    UpdateStoredTx { slate: Slate, tx_proof: Option<TxProof>, answer: Result<(), String> },
    CancelTx {
        parent_key_id: Identifier,
        tx_id: Option<u32>,
        tx_slate_id: Option<u128>,
        answer: Result<(), String>,
    },
    ReceiveTx {
        address: Option<String>,
        slate_before: Slate,
        slate_after: Slate,
        parent_key_id: Identifier,
        message: Option<String>,
        answer: Result<(), String>,
    },
    BuildCoinbase { block_fees: BlockFees, answer: Result<CbData, String> },
    Restore { answer: Result<(), String> },
    CheckRepair { answer: Result<(), String> },
    ChainHeight { answer: Result<u64, String> },
    TotalDifficulty { answer: Result<u64, String> },
    ConnectedPeerInfo { answer: Result<Vec<PeerInfoDisplay>, String> },
    PostTx { tx_hex: Seq<char>, fluff: bool, answer: Result<(), String> },
    VerifySlateMessages { slate: Slate, answer: Result<(), String> },
    VerifyExtract { tx_proof: TxProof, answer: Result<(Option<String>, Slate), String> },
}

/// The texts of an optional list, by their characters.
pub open spec fn texts_view(texts: Option<Vec<&str>>) -> Option<Seq<Seq<char>>> {
    match texts {
        Some(v) => Some(v@.map_values(|t: &str| t@)),
        None => None,
    }
}

/// A backend answer as an API answer: its failure message becomes `Error::Backend`.
pub open spec fn lift<T>(r: Result<T, String>) -> Result<T, Error> {
    match r {
        Ok(v) => Ok(v),
        Err(m) => Err(Error::Backend(m)),
    }
}

/// Whether an API answer failed, if at all, only because the backend did.
pub open spec fn fails_only_in_backend<T>(r: Result<T, Error>) -> bool {
    match r {
        Ok(_) => true,
        Err(e) => e is Backend,
    }
}

/// A backend answer as an API answer: its failure message becomes `Error::Backend`.
pub fn from_backend<T>(r: Result<T, String>) -> (out: Result<T, Error>)
    ensures
        out == lift(r),
{
    match r {
        Ok(v) => Ok(v),
        Err(m) => Err(Error::Backend(m)),
    }
}

} // verus!

verus! {

/// Whether the call log `after` is the log `before` with calls added after it.
pub open spec fn extends<P>(before: Seq<BackendCall<P>>, after: Seq<BackendCall<P>>) -> bool {
    &&& before.len() <= after.len()
    &&& forall|i: int| 0 <= i < before.len() ==> #[trigger] after[i] == before[i]
}

/// Calls from `h[n]` on: the wallet is opened; if that fails, nothing more is
/// called and the answer is that failure; otherwise `rest` holds.
pub open spec fn open_then<P, T>(h: Seq<BackendCall<P>>, n: int, r: Result<T, Error>, rest: bool) -> bool {
    &&& h.len() > n
    &&& h[n] matches BackendCall::Open { answer }
    &&& match answer {
        Err(m) => h.len() == n + 1 && r == Err::<T, Error>(Error::Backend(m)),
        Ok(_) => rest,
    }
}

/// The last call, `h[i]`, closes the wallet; the answer is `value`, unless
/// closing fails, when it is that failure.
pub open spec fn close_then<P, T>(h: Seq<BackendCall<P>>, i: int, r: Result<T, Error>, value: Result<
    T,
    Error,
>) -> bool {
    &&& h.len() == i + 1
    &&& h[i] matches BackendCall::Close { answer }
    &&& r == match answer {
        Err(m) => Err::<T, Error>(Error::Backend(m)),
        Ok(_) => value,
    }
}

/// `h[i]` and `h[i + 1]`: the account's key path is asked, then the outputs
/// under it are refreshed, all of them or not as `update_all` says.
pub open spec fn refresh_calls<P>(h: Seq<BackendCall<P>>, i: int, update_all: bool) -> bool {
    &&& h[i] matches BackendCall::ParentKeyId { key }
    &&& h[i + 1] matches BackendCall::RefreshOutputs { parent_key_id, update_all: all, .. }
    &&& parent_key_id == key
    &&& all == update_all
}

/// Whether the refresh at `h[i + 1]` worked.
pub open spec fn refresh_ok<P>(h: Seq<BackendCall<P>>, i: int) -> bool {
    h[i + 1] matches BackendCall::RefreshOutputs { answer, .. } && answer is Ok
}

/// When `refresh` is asked, `h[i..i + 2]` refresh the outputs (not all of them).
pub open spec fn optional_refresh<P>(h: Seq<BackendCall<P>>, i: int, refresh: bool) -> bool {
    refresh ==> refresh_calls(h, i, false)
}

/// Whether the outputs were refreshed, and that worked.
pub open spec fn validated_by<P>(h: Seq<BackendCall<P>>, i: int, refresh: bool) -> bool {
    refresh && refresh_ok(h, i)
}

/// Where the calls go on after an optional refresh that starts at `h[i]`.
pub open spec fn after_refresh(i: int, refresh: bool) -> int {
    if refresh {
        i + 2
    } else {
        i
    }
}

} // verus!
