//! The foreign API: what other parties (payers, payees, miners) ask of a wallet.
use vstd::prelude::*;
use crate::backend::{extends, fails_only_in_backend, from_backend, WalletBackend};
use crate::calls::{
    build_coinbase_calls, initiate_receive_tx_calls, pending_update_calls, receive_tx_calls,
};
use crate::rules::ensure_not_received;
use crate::text::{uuid_string, uuid_text};
use crate::types::{BlockFees, CbData, Error, Slate};

verus! {

/// The foreign API of a wallet.
pub struct Wallet713ForeignAPI<W: WalletBackend> {
    pub wallet: W,
}

impl<W: WalletBackend> Wallet713ForeignAPI<W> {
    /// A foreign API over a wallet backend, 
    pub fn new(wallet_in: W) -> (r: Self)
        ensures
            r.wallet == wallet_in,
    {
        Wallet713ForeignAPI { wallet: wallet_in }
    }

    /// Builds the slate of an invoice and stores the receiver's private context.
    pub fn initiate_receive_tx(&mut self, amount: u64, num_outputs: usize, message: Option<String>) -> (r:
        Result<(Slate, W::PendingUpdate), Error>)
        ensures
            extends(old(self).wallet.call_log(), final(self).wallet.call_log()),
            initiate_receive_tx_calls(
                final(self).wallet.call_log(),
                old(self).wallet.call_log().len() as int,
                amount,
                num_outputs,
                message,
                r,
            ),
            fails_only_in_backend(r),
    {
        let opened = self.wallet.open_with_credentials();
        from_backend(opened)?;
        let parent_key_id = self.wallet.get_parent_key_id();
        let answer = self.wallet.create_receive_tx(amount, num_outputs, parent_key_id, message);
        let (slate, context, add_fn) = from_backend(answer)?;
        let slate_id = uuid_string(slate.id);
        let saved = self.wallet.save_private_context(slate_id.as_str(), &context);
        from_backend(saved)?;
        let closed = self.wallet.close();
        from_backend(closed)?;
        Ok((slate, add_fn))
    }

    /// Adds to the wallet the outputs of a paid invoice, as building it prepared.
    pub fn tx_add_invoice_outputs(&mut self, slate: &Slate, add_fn: W::PendingUpdate) -> (r: Result<
        (),
        Error,
    >)
        ensures
            extends(old(self).wallet.call_log(), final(self).wallet.call_log()),
            pending_update_calls(
                final(self).wallet.call_log(),
                old(self).wallet.call_log().len() as int,
                slate.tx,
                add_fn,
                r,
            ),
            fails_only_in_backend(r),
    {
        let opened = self.wallet.open_with_credentials();
        from_backend(opened)?;
        let answer = self.wallet.run_pending_update(add_fn, &slate.tx);
        from_backend(answer)?;
        Ok(())
    }

    /// Builds a coinbase output and kernel for a block.
    pub fn build_coinbase(&mut self, block_fees: &BlockFees) -> (r: Result<CbData, Error>)
        ensures
            extends(old(self).wallet.call_log(), final(self).wallet.call_log()),
            build_coinbase_calls(
                final(self).wallet.call_log(),
                old(self).wallet.call_log().len() as int,
                *block_fees,
                r,
            ),
            fails_only_in_backend(r),
    {
        let opened = self.wallet.open_with_credentials();
        from_backend(opened)?;
        let answer = self.wallet.build_coinbase(block_fees);
        let res = from_backend(answer);
        let closed = self.wallet.close();
        from_backend(closed)?;
        res
    }

    /// Receives the outputs of a payment slate, unless the wallet has already
    /// received a transaction for this slate (then `TransactionAlreadyReceived`
    /// with the slate id, and the slate is left as it was).
    pub fn receive_tx(&mut self, address: Option<String>, slate: &mut Slate, message: Option<String>) -> (r:
        Result<(), Error>)
        ensures
            extends(old(self).wallet.call_log(), final(self).wallet.call_log()),
            receive_tx_calls(
                final(self).wallet.call_log(),
                old(self).wallet.call_log().len() as int,
                address,
                *old(slate),
                *final(slate),
                message,
                r,
            ),
            r matches Err(e) ==> (e is Backend || (e matches Error::TransactionAlreadyReceived(s)
                && s@ == uuid_text(old(slate).id))),
            r matches Err(Error::TransactionAlreadyReceived(_)) ==> *final(slate) == *old(slate),
    {
        let opened = self.wallet.open_with_credentials();
        from_backend(opened)?;
        let parent_key_id = self.wallet.get_parent_key_id();
        let answer = self.wallet.retrieve_txs(None, Some(slate.id), Some(parent_key_id), false, 0, 0);
        let tx = from_backend(answer)?;
        ensure_not_received(&tx, slate.id)?;
        let received = self.wallet.receive_tx(address, slate, parent_key_id, message);
        let res = from_backend(received);
        let closed = self.wallet.close();
        from_backend(closed)?;
        match res {
            Err(e) => Err(e),
            Ok(_) => Ok(()),
        }
    }
}

} // verus!
