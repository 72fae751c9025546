//! The owner API: what the owner of a wallet asks of it.
use vstd::prelude::*;
use crate::backend::{
    extends, fails_only_in_backend, from_backend, refresh_calls, refresh_ok, texts_view,
    WalletBackend,
};
use crate::calls::{
    accounts_calls, cancel_refused_reason, cancel_tx_calls, check_repair_calls,
    create_account_path_calls, finalize_tx_calls, get_stored_tx_calls, get_stored_tx_proof_calls,
    initiate_tx_calls, invoice_tx_calls, node_height_calls, node_info_calls, pending_update_calls,
    post_tx_calls, proof_filled, proof_flag, rename_account_path_calls,
    restore_calls, retrieve_outputs_calls, retrieve_summary_info_calls,
    retrieve_txs_calls, retrieve_txs_with_proof_flag_calls, slate_count, tx_id_by_slate_id_calls,
    verify_slate_messages_calls, verify_tx_proof_calls,
};
use crate::payment_proof::{check_tx_proof, proof_outcome};
use crate::rules::{
    add_context_to_proof, combine_node_info, ensure_not_received, last_tx_id, max_output_height,
    max_output_height_spec,
    record_commits, single_slate_id, NodeInfo,
};
use crate::text::{hex_string, uuid_string, uuid_text};
use crate::types::{
    AcctPathMapping, Commitment, Context, ContextType, Error, Identifier, OutputData, Slate,
    Transaction, TxLogEntry, TxProof, TxWrapper, WalletInfo,
};

verus! {

/// The owner API of a wallet.
pub struct Wallet713OwnerAPI<W: WalletBackend> {
    pub wallet: W,
}

/// `slate_count` grows with the prefix it counts.
proof fn slate_count_monotone(txs: Seq<TxLogEntry>, i: int, j: int)
    requires
        0 <= i <= j,
    ensures
        slate_count(txs, i) <= slate_count(txs, j),
    decreases j - i,
{
    if i < j {
        slate_count_monotone(txs, i, j - 1);
    }
}

/// `slate_count` is never negative.
proof fn slate_count_nonnegative(txs: Seq<TxLogEntry>, i: int)
    ensures
        0 <= slate_count(txs, i),
    decreases i,
{
    if i > 0 {
        slate_count_nonnegative(txs, i - 1);
    }
}

impl<W: WalletBackend> Wallet713OwnerAPI<W> {
    /// An owner API over a wallet backend, 
    pub fn new(wallet_in: W) -> (r: Self)
        ensures
            r.wallet == wallet_in,
    {
        Wallet713OwnerAPI { wallet: wallet_in }
    }

    /// Brings the wallet's outputs up to date with the node (asking the key
    /// path, then refreshing under it); whether that worked.
    fn update_outputs(&mut self, update_all: bool) -> (r: bool)
        ensures
            extends(old(self).wallet.call_log(), final(self).wallet.call_log()),
            final(self).wallet.call_log().len() == old(self).wallet.call_log().len() + 2,
            refresh_calls(final(self).wallet.call_log(), old(self).wallet.call_log().len() as int, update_all),
            r == refresh_ok(final(self).wallet.call_log(), old(self).wallet.call_log().len() as int),
    {
        let parent_key_id = self.wallet.get_parent_key_id();
        let answer = self.wallet.refresh_outputs(parent_key_id, update_all);
        match answer {
            Ok(_) => true,
            Err(_) => false,
        }
    }

    /// Adds the payer's side to an invoice slate, unless the wallet has already
    /// received a transaction for this slate (then `TransactionAlreadyReceived`
    /// with the slate id, and the slate is left as it was).
    pub fn invoice_tx(
        &mut self,
        slate: &mut Slate,
        minimum_confirmations: u64,
        max_outputs: usize,
        num_change_outputs: usize,
        selection_strategy_is_use_all: bool,
        message: Option<String>,
    ) -> (r: Result<W::PendingUpdate, Error>)
        ensures
            extends(old(self).wallet.call_log(), final(self).wallet.call_log()),
            invoice_tx_calls(
                final(self).wallet.call_log(),
                old(self).wallet.call_log().len() as int,
                *old(slate),
                *final(slate),
                minimum_confirmations,
                max_outputs,
                num_change_outputs,
                selection_strategy_is_use_all,
                message,
                r,
            ),
            r matches Err(e) ==> (e is Backend || (e matches Error::TransactionAlreadyReceived(s)
                && s@ == uuid_text(old(slate).id))),
            r matches Err(Error::TransactionAlreadyReceived(_)) ==> *final(slate) == *old(slate),
    {
        let opened = self.wallet.open_with_credentials();
        from_backend(opened)?;
        let parent_key_id = self.wallet.get_parent_key_id();
        let answer = self.wallet.retrieve_txs(None, Some(slate.id), Some(parent_key_id), false, 0, 0);
        let tx = from_backend(answer)?;
        ensure_not_received(&tx, slate.id)?;
        let invoiced = self.wallet.invoice_tx(
            slate,
            minimum_confirmations,
            max_outputs,
            num_change_outputs,
            selection_strategy_is_use_all,
            parent_key_id,
            message,
        );
        let res = from_backend(invoiced);
        let closed = self.wallet.close();
        from_backend(closed)?;
        res
    }

    /// The accounts of the wallet.
    pub fn accounts(&mut self) -> (r: Result<Vec<AcctPathMapping>, Error>)
        ensures
            extends(old(self).wallet.call_log(), final(self).wallet.call_log()),
            accounts_calls(final(self).wallet.call_log(), old(self).wallet.call_log().len() as int, r),
            fails_only_in_backend(r),
    {
        let answer = self.wallet.accounts();
        from_backend(answer)
    }

    /// Creates an account with this label.
    pub fn create_account_path(&mut self, label: &str) -> (r: Result<Identifier, Error>)
        ensures
            extends(old(self).wallet.call_log(), final(self).wallet.call_log()),
            create_account_path_calls(
                final(self).wallet.call_log(),
                old(self).wallet.call_log().len() as int,
                label@,
                r,
            ),
            fails_only_in_backend(r),
    {
        let answer = self.wallet.new_acct_path(label);
        from_backend(answer)
    }

    /// Renames an account: the accounts are fetched, and the rename is made
    /// among them.
    pub fn rename_account_path(&mut self, old_label: &str, new_label: &str) -> (r: Result<
        (),
        Error,
    >)
        ensures
            extends(old(self).wallet.call_log(), final(self).wallet.call_log()),
            rename_account_path_calls(
                final(self).wallet.call_log(),
                old(self).wallet.call_log().len() as int,
                old_label@,
                new_label@,
                r,
            ),
            fails_only_in_backend(r),
    {
        let accounts = self.accounts()?;
        let answer = self.wallet.rename_acct_path(accounts, old_label, new_label);
        from_backend(answer)?;
        Ok(())
    }

    /// The id of the last log entry of the transaction built from a slate, or
    /// `NO_TX_ID` when the log has none.
    pub fn retrieve_tx_id_by_slate_id(&mut self, slate_id: u128) -> (r: Result<u32, Error>)
        ensures
            extends(old(self).wallet.call_log(), final(self).wallet.call_log()),
            tx_id_by_slate_id_calls(final(self).wallet.call_log(), old(self).wallet.call_log().len() as int, slate_id, r),
            fails_only_in_backend(r),
    {
        let opened = self.wallet.open_with_credentials();
        from_backend(opened)?;
        let answer = self.wallet.retrieve_txs(None, Some(slate_id), None, false, 0, 0);
        let tx = from_backend(answer)?;
        Ok(last_tx_id(&tx))
    }

    /// The wallet's outputs, with whether they were first brought up to date
    /// with the node (never so when `refresh_from_node` is false).
    pub fn retrieve_outputs(
        &mut self,
        include_spent: bool,
        refresh_from_node: bool,
        tx_id: Option<u32>,
        pagination_start: u32,
        pagination_len: u32,
    ) -> (r: Result<(bool, Vec<(OutputData, Commitment)>), Error>)
        ensures
            extends(old(self).wallet.call_log(), final(self).wallet.call_log()),
            retrieve_outputs_calls(
                final(self).wallet.call_log(),
                old(self).wallet.call_log().len() as int,
                include_spent,
                refresh_from_node,
                tx_id,
                pagination_start,
                pagination_len,
                r,
            ),
            fails_only_in_backend(r),
            r matches Ok((validated, _)) ==> (validated ==> refresh_from_node),
    {        let opened = self.wallet.open_with_credentials();
        from_backend(opened)?;
        let parent_key_id = self.wallet.get_parent_key_id();
        let mut validated = false;
        if refresh_from_node {
            validated = self.update_outputs(false);
        }
        let answer = self.wallet.retrieve_outputs(
            include_spent,
            tx_id,
            Some(parent_key_id),
            pagination_start,
            pagination_len,
        );
        let outputs = from_backend(answer)?;
        let closed = self.wallet.close();
        from_backend(closed)?;
        Ok((validated, outputs))
    }

    /// The wallet's transaction log entries, with whether the wallet was first
    /// brought up to date with the node (never so when `refresh_from_node` is false).
    pub fn retrieve_txs(
        &mut self,
        refresh_from_node: bool,
        tx_id: Option<u32>,
        tx_slate_id: Option<u128>,
    ) -> (r: Result<(bool, Vec<TxLogEntry>), Error>)
        ensures
            extends(old(self).wallet.call_log(), final(self).wallet.call_log()),
            retrieve_txs_calls(
                final(self).wallet.call_log(),
                old(self).wallet.call_log().len() as int,
                refresh_from_node,
                tx_id,
                tx_slate_id,
                r,
            ),
            fails_only_in_backend(r),
            r matches Ok((validated, _)) ==> (validated ==> refresh_from_node),
    {
        let opened = self.wallet.open_with_credentials();
        from_backend(opened)?;
        let parent_key_id = self.wallet.get_parent_key_id();
        let mut validated = false;
        if refresh_from_node {
            validated = self.update_outputs(false);
        }
        let answer = self.wallet.retrieve_txs(tx_id, tx_slate_id, Some(parent_key_id), false, 0, 0);
        let txs = from_backend(answer)?;
        let closed = self.wallet.close();
        from_backend(closed)?;
        Ok((validated, txs))
    }

    /// The wallet's transaction log entries, each with whether a proof is
    /// stored for it (never so for an entry without a slate id), and with
    /// whether the wallet was first brought up to date with the node.
    pub fn retrieve_txs_with_proof_flag(
        &mut self,
        refresh_from_node: bool,
        tx_id: Option<u32>,
        tx_slate_id: Option<u128>,
        pagination_start: u32,
        pagination_length: u32,
    ) -> (r: Result<(bool, Vec<(TxLogEntry, bool)>), Error>)
        ensures
            extends(old(self).wallet.call_log(), final(self).wallet.call_log()),
            retrieve_txs_with_proof_flag_calls(
                final(self).wallet.call_log(),
                old(self).wallet.call_log().len() as int,
                refresh_from_node,
                tx_id,
                tx_slate_id,
                pagination_start,
                pagination_length,
                r,
            ),
            fails_only_in_backend(r),
            r matches Ok((validated, _)) ==> (validated ==> refresh_from_node),
            r matches Ok((_, entries)) ==> forall|i: int|
                0 <= i < entries@.len() && (#[trigger] entries@[i]).0.tx_slate_id is None
                    ==> !entries@[i].1,
    {
        let opened = self.wallet.open_with_credentials();
        from_backend(opened)?;
        let parent_key_id = self.wallet.get_parent_key_id();
        let mut validated = false;
        if refresh_from_node {
            validated = self.update_outputs(false);
        }
        let answer = self.wallet.retrieve_txs(
            tx_id,
            tx_slate_id,
            Some(parent_key_id),
            false,
            pagination_start,
            pagination_length,
        );
        let txs = from_backend(answer)?;
        let ghost start = self.wallet.call_log().len() as int;
        let ghost before_loop = self.wallet.call_log();
        let mut entries: Vec<(TxLogEntry, bool)> = Vec::new();
        let mut i: usize = 0;
        while i < txs.len()
            invariant
                0 <= i <= txs.len(),
                entries@.len() == i,
                extends(before_loop, self.wallet.call_log()),
                start == before_loop.len(),
                self.wallet.call_log().len() == start + slate_count(txs@, i as int),
                forall|j: int|
                    0 <= j < i ==> (#[trigger] entries@[j]).0 == txs@[j] && proof_flag(
                        self.wallet.call_log(),
                        start,
                        txs@,
                        j,
                        entries@[j].1,
                    ),
            decreases txs.len() - i,
        {
            let t = txs[i];
            let ghost h0 = self.wallet.call_log();
            let has_proof = match t.tx_slate_id {
                Some(id) => {
                    let uuid = uuid_string(id);
                    let found = self.wallet.has_stored_tx_proof(uuid.as_str());
                    match found {
                        Ok(b) => b,
                        Err(_) => false,
                    }
                },
                None => false,
            };
            proof {
                assert(h0.len() <= self.wallet.call_log().len());
                assert forall|k: int| 0 <= k < h0.len() implies self.wallet.call_log()[k] == h0[k] by {}
                assert forall|j: int| 0 <= j < i implies (#[trigger] entries@[j]).0 == txs@[j]
                    && proof_flag(self.wallet.call_log(), start, txs@, j, entries@[j].1) by {
                    if txs@[j].tx_slate_id is Some {
                        slate_count_monotone(txs@, j + 1, i as int);
                        slate_count_nonnegative(txs@, j);
                        assert(self.wallet.call_log()[start + slate_count(txs@, j)] == h0[start
                            + slate_count(txs@, j)]);
                    }
                }
            }
            entries.push((t, has_proof));
            i = i + 1;
        }
        let ghost h1 = self.wallet.call_log();
        let closed = self.wallet.close();
        proof {
            assert forall|j: int| 0 <= j < txs@.len() implies (#[trigger] entries@[j]).0 == txs@[j]
                && proof_flag(self.wallet.call_log(), start, txs@, j, entries@[j].1) by {
                if txs@[j].tx_slate_id is Some {
                    slate_count_monotone(txs@, j + 1, txs@.len() as int);
                    slate_count_nonnegative(txs@, j);
                    assert(self.wallet.call_log()[start + slate_count(txs@, j)] == h1[start
                        + slate_count(txs@, j)]);
                }
            }
        }
        from_backend(closed)?;
        Ok((validated, entries))
    }

    /// The wallet's balance summary, with whether the wallet was first brought
    /// up to date with the node (never so when `refresh_from_node` is false).
    pub fn retrieve_summary_info(&mut self, refresh_from_node: bool, minimum_confirmations: u64) -> (r:
        Result<(bool, WalletInfo), Error>)
        ensures
            extends(old(self).wallet.call_log(), final(self).wallet.call_log()),
            retrieve_summary_info_calls(
                final(self).wallet.call_log(),
                old(self).wallet.call_log().len() as int,
                refresh_from_node,
                minimum_confirmations,
                r,
            ),
            fails_only_in_backend(r),
            r matches Ok((validated, _)) ==> (validated ==> refresh_from_node),
    {
        let opened = self.wallet.open_with_credentials();
        from_backend(opened)?;
        let parent_key_id = self.wallet.get_parent_key_id();
        let mut validated = false;
        if refresh_from_node {
            validated = self.update_outputs(false);
        }
        let answer = self.wallet.retrieve_info(parent_key_id, minimum_confirmations);
        let wallet_info = from_backend(answer)?;
        let closed = self.wallet.close();
        from_backend(closed)?;
        Ok((validated, wallet_info))
    }

    /// Builds the slate of a payment and stores the sender's private context,
    /// which records the commitments of the slate's inputs and outputs.
    pub fn initiate_tx(
        &mut self,
        address: Option<String>,
        amount: u64,
        minimum_confirmations: u64,
        max_outputs: usize,
        num_change_outputs: usize,
        selection_strategy_is_use_all: bool,
        message: Option<String>,
        outputs: Option<Vec<&str>>,
        version: Option<u16>,
    ) -> (r: Result<(Slate, W::PendingUpdate), Error>)
        ensures
            extends(old(self).wallet.call_log(), final(self).wallet.call_log()),
            initiate_tx_calls(
                final(self).wallet.call_log(),
                old(self).wallet.call_log().len() as int,
                address,
                amount,
                minimum_confirmations,
                max_outputs,
                num_change_outputs,
                selection_strategy_is_use_all,
                message,
                texts_view(outputs),
                version,
                r,
            ),
            fails_only_in_backend(r),
    {
        let opened = self.wallet.open_with_credentials();
        from_backend(opened)?;
        let parent_key_id = self.wallet.get_parent_key_id();
        let answer = self.wallet.create_send_tx(
            address,
            amount,
            minimum_confirmations,
            max_outputs,
            num_change_outputs,
            selection_strategy_is_use_all,
            parent_key_id,
            message,
            outputs,
            version,
        );
        let (slate, mut context, lock_fn) = from_backend(answer)?;
        record_commits(&mut context, &slate.tx);
        let slate_id = uuid_string(slate.id);
        let saved = self.wallet.save_private_context(slate_id.as_str(), &context);
        from_backend(saved)?;
        let closed = self.wallet.close();
        from_backend(closed)?;
        Ok((slate, lock_fn))
    }

    /// Locks the outputs that a transaction spends, as building it prepared.
    pub fn tx_lock_outputs(&mut self, tx: &Transaction, lock_fn: W::PendingUpdate) -> (r: Result<
        (),
        Error,
    >)
        ensures
            extends(old(self).wallet.call_log(), final(self).wallet.call_log()),
            pending_update_calls(final(self).wallet.call_log(), old(self).wallet.call_log().len() as int, *tx, lock_fn, r),
            fails_only_in_backend(r),
    {
        let opened = self.wallet.open_with_credentials();
        from_backend(opened)?;
        let answer = self.wallet.run_pending_update(lock_fn, tx);
        from_backend(answer)?;
        Ok(())
    }

    /// Completes a slate from the stored private context, stores the finished
    /// transaction and removes the context. A proof, when given, is filled from
    /// the context (see `proof_filled`) before it is stored with the transaction.
    pub fn finalize_tx(&mut self, slate: &mut Slate, tx_proof: &mut Option<TxProof>) -> (r: Result<
        bool,
        Error,
    >)
        ensures
            extends(old(self).wallet.call_log(), final(self).wallet.call_log()),
            finalize_tx_calls(
                final(self).wallet.call_log(),
                old(self).wallet.call_log().len() as int,
                *old(slate),
                *final(slate),
                *old(tx_proof),
                *final(tx_proof),
                r,
            ),
            fails_only_in_backend(r),
            r matches Ok(done) ==> done,
            (*final(tx_proof)) is Some <==> (*old(tx_proof)) is Some,
            r is Ok && (*old(tx_proof)) is Some ==> exists|context: Context|
                #[trigger] proof_filled((*old(tx_proof)).unwrap(), (*final(tx_proof)).unwrap(), context),
    {
        let opened = self.wallet.open_with_credentials();
        from_backend(opened)?;
        let slate_id = uuid_string(slate.id);
        let answer = self.wallet.get_private_context(slate_id.as_str());
        let context = from_backend(answer)?;
        let closed = self.wallet.close();
        from_backend(closed)?;
        match context.context_type {
            ContextType::Tx => {
                let opened = self.wallet.open_with_credentials();
                from_backend(opened)?;
                let completed = self.wallet.complete_tx(slate, &context);
                from_backend(completed)?;
                let ghost before = *tx_proof;
                match tx_proof {
                    Some(proof) => {
                        add_context_to_proof(proof, &context);
                    },
                    None => {},
                }
                proof {
                    if before is Some {
                        assert(proof_filled(before.unwrap(), tx_proof.unwrap(), context));
                    }
                }
                let stored = match tx_proof {
                    Some(proof) => self.wallet.update_stored_tx(slate, Some(&*proof)),
                    None => self.wallet.update_stored_tx(slate, None),
                };
                from_backend(stored)?;
                let slate_id = uuid_string(slate.id);
                let deleted = self.wallet.delete_private_context(slate_id.as_str());
                from_backend(deleted)?;
                let closed = self.wallet.close();
                from_backend(closed)?;
                Ok(true)
            },
        }
    }

    /// Cancels a transaction, given by its log id or its slate id. Refuses with
    /// `TransactionCancellationError` when the wallet cannot first be brought
    /// up to date with the node.
    pub fn cancel_tx(&mut self, tx_id: Option<u32>, tx_slate_id: Option<u128>) -> (r: Result<
        (),
        Error,
    >)
        ensures
            extends(old(self).wallet.call_log(), final(self).wallet.call_log()),
            cancel_tx_calls(final(self).wallet.call_log(), old(self).wallet.call_log().len() as int, tx_id, tx_slate_id, r),
            r matches Err(e) ==> (e is Backend || (e matches Error::TransactionCancellationError(m)
                && m@ == cancel_refused_reason())),
    {
        let opened = self.wallet.open_with_credentials();
        from_backend(opened)?;
        let parent_key_id = self.wallet.get_parent_key_id();
        if !self.update_outputs(false) {
            let reason = String::from_str("Can't contact running Grin node. Not Cancelling.");
            return Err(Error::TransactionCancellationError(reason));
        }
        let answer = self.wallet.cancel_tx(parent_key_id, tx_id, tx_slate_id);
        from_backend(answer)?;
        let closed = self.wallet.close();
        from_backend(closed)?;
        Ok(())
    }

    /// The transaction stored for the slate with this id.
    pub fn get_stored_tx(&mut self, uuid: &str) -> (r: Result<Transaction, Error>)
        ensures
            extends(old(self).wallet.call_log(), final(self).wallet.call_log()),
            get_stored_tx_calls(final(self).wallet.call_log(), old(self).wallet.call_log().len() as int, uuid@, r),
            fails_only_in_backend(r),
    {
        let answer = self.wallet.get_stored_tx(uuid);
        from_backend(answer)
    }

    /// The node's height, total difficulty and peers; when the node does not
    /// give all three, a zero height, zero difficulty and no peers.
    pub fn node_info(&mut self) -> (r: Result<NodeInfo, Error>)
        ensures
            extends(old(self).wallet.call_log(), final(self).wallet.call_log()),
            node_info_calls(final(self).wallet.call_log(), old(self).wallet.call_log().len() as int, r),
            fails_only_in_backend(r),
    {
        let opened = self.wallet.open_with_credentials();
        from_backend(opened)?;
        let height = self.wallet.get_chain_height();
        let opened = self.wallet.open_with_credentials();
        from_backend(opened)?;
        let total_difficulty = self.wallet.get_total_difficulty();
        let opened = self.wallet.open_with_credentials();
        from_backend(opened)?;
        let peers = self.wallet.get_connected_peer_info();
        Ok(combine_node_info(height, total_difficulty, peers))
    }

    /// Posts a transaction, given in its binary serialization, to the node,
    /// hex-encoded.
    pub fn post_tx(&mut self, tx: &Vec<u8>, fluff: bool) -> (r: Result<(), Error>)
        ensures
            extends(old(self).wallet.call_log(), final(self).wallet.call_log()),
            post_tx_calls(final(self).wallet.call_log(), old(self).wallet.call_log().len() as int, tx@, fluff, r),
            fails_only_in_backend(r),
    {
        let tx_hex = hex_string(tx);
        let answer = self.wallet.post_tx(&TxWrapper { tx_hex }, fluff);
        from_backend(answer)?;
        Ok(())
    }

    /// Checks the participants' message signatures of a slate.
    pub fn verify_slate_messages(&mut self, slate: &Slate) -> (r: Result<(), Error>)
        ensures
            extends(old(self).wallet.call_log(), final(self).wallet.call_log()),
            verify_slate_messages_calls(final(self).wallet.call_log(), old(self).wallet.call_log().len() as int, *slate, r),
            fails_only_in_backend(r),
    {
        let answer = self.wallet.verify_slate_messages(slate);
        from_backend(answer)?;
        Ok(())
    }

    /// Rebuilds the wallet's outputs from the chain.
    pub fn restore(&mut self) -> (r: Result<(), Error>)
        ensures
            extends(old(self).wallet.call_log(), final(self).wallet.call_log()),
            restore_calls(final(self).wallet.call_log(), old(self).wallet.call_log().len() as int, r),
            fails_only_in_backend(r),
    {
        let opened = self.wallet.open_with_credentials();
        from_backend(opened)?;
        let answer = self.wallet.restore();
        let res = from_backend(answer);
        let closed = self.wallet.close();
        from_backend(closed)?;
        res
    }

    /// Brings all outputs up to date with the node (whether that works or
    /// not), then repairs the wallet against the chain.
    pub fn check_repair(&mut self) -> (r: Result<(), Error>)
        ensures
            extends(old(self).wallet.call_log(), final(self).wallet.call_log()),
            check_repair_calls(final(self).wallet.call_log(), old(self).wallet.call_log().len() as int, r),
            fails_only_in_backend(r),
    {
        let opened = self.wallet.open_with_credentials();
        from_backend(opened)?;
        self.update_outputs(true);
        let answer = self.wallet.check_repair();
        from_backend(answer)?;
        let closed = self.wallet.close();
        from_backend(closed)?;
        Ok(())
    }

    /// The chain height with `true` when the node gives it; otherwise the
    /// greatest height of the wallet's outputs (0 when it has none) with `false`.
    pub fn node_height(&mut self) -> (r: Result<(u64, bool), Error>)
        ensures
            extends(old(self).wallet.call_log(), final(self).wallet.call_log()),
            node_height_calls(final(self).wallet.call_log(), old(self).wallet.call_log().len() as int, r),
            fails_only_in_backend(r),
    {
        let opened = self.wallet.open_with_credentials();
        from_backend(opened)?;
        let res = self.wallet.get_chain_height();
        match res {
            Ok(height) => Ok((height, true)),
            Err(_) => {
                let ghost n = self.wallet.call_log().len() as int;
                let fetched = self.retrieve_outputs(true, false, None, 0, 0);
                let ghost g = fetched;
                let r = match fetched {
                    Ok(outputs) => {
                        let height: u64 = max_output_height(&outputs.1);
                        Ok((height, false))
                    },
                    Err(e) => Err(e),
                };
                proof {
                    assert(retrieve_outputs_calls(self.wallet.call_log(), n, true, false, None, 0, 0, g));
                    assert(r == match g {
                        Ok((_, outs)) => Ok::<(u64, bool), Error>(
                            (max_output_height_spec(outs@), false),
                        ),
                        Err(e) => Err::<(u64, bool), Error>(e),
                    });
                }
                r
            },
        }
    }

    /// The proof stored for a transaction given by its log id:
    /// `TransactionHasNoProof` unless the log holds exactly one such entry and
    /// it has a slate id.
    pub fn get_stored_tx_proof(&mut self, id: u32) -> (r: Result<TxProof, Error>)
        ensures
            extends(old(self).wallet.call_log(), final(self).wallet.call_log()),
            get_stored_tx_proof_calls(final(self).wallet.call_log(), old(self).wallet.call_log().len() as int, id, r),
            r matches Err(e) ==> (e is Backend || e is TransactionHasNoProof),
    {
        let opened = self.wallet.open_with_credentials();
        from_backend(opened)?;
        let parent_key_id = self.wallet.get_parent_key_id();
        let answer = self.wallet.retrieve_txs(Some(id), None, Some(parent_key_id), false, 0, 0);
        let txs = from_backend(answer)?;
        let slate_id = single_slate_id(&txs)?;
        let uuid = uuid_string(slate_id);
        let stored = self.wallet.get_stored_tx_proof(uuid.as_str());
        from_backend(stored)
    }

    /// Checks a payment proof (see `check_tx_proof`): when its signature does
    /// not hold or the slate it carries has fewer than two participants, the
    /// answer is `VerifyProof`.
    pub fn verify_tx_proof(&mut self, tx_proof: &TxProof) -> (r: Result<
        (Option<String>, String, u64, Vec<Commitment>, Commitment),
        Error,
    >)
        ensures
            extends(old(self).wallet.call_log(), final(self).wallet.call_log()),
            verify_tx_proof_calls(final(self).wallet.call_log(), old(self).wallet.call_log().len() as int, *tx_proof, r),
            r matches Ok(v) ==> v.1@ == tx_proof.address@ && v.2 == tx_proof.amount && exists|
                slate: Slate,
            |
                #[trigger] proof_outcome(*tx_proof, slate) == Ok::<
                    (Seq<Commitment>, Commitment),
                    Error,
                >((v.3@, v.4)),
            r matches Ok(v) ==> forall|i: int|
                0 <= i < v.3@.len() ==> !tx_proof.outputs@.contains(#[trigger] v.3@[i]),
            r matches Err(e) ==> (e is VerifyProof || e is Secp),
    {
        let answer = self.wallet.verify_extract(tx_proof);
        let (destination, slate) = match answer {
            Ok(extracted) => extracted,
            Err(_) => return Err(Error::VerifyProof),
        };
        if slate.participant_data.len() < 2 {
            return Err(Error::VerifyProof);
        }
        let r = check_tx_proof(tx_proof, destination, &slate);
        proof {
            broadcast use vstd::seq_lib::group_filter_ensures;

            if r is Ok {
                assert(proof_outcome(*tx_proof, slate) is Ok);
            }
        }
        r
    }
}

} // verus!
