use grin_p2p::types::PeerInfoDisplay;
use vstd::seq::Seq;
use wallet713_api::backend::{BackendCall, WalletBackend};
use wallet713_api::foreign::Wallet713ForeignAPI;
use wallet713_api::owner::Wallet713OwnerAPI;
use wallet713_api::types::{
    AcctPathMapping, BlockFees, CbData, Commitment, Context, ContextType, Error, Identifier,
    OutputData, ParticipantData, Slate, Transaction, TxLogEntry, TxLogEntryType, TxProof,
    TxWrapper, WalletInfo,
};

const SLATE_ID: u128 = 0x67e5_5044_10b1_426f_9247_bb68_0e5f_e0c8;
const SLATE_TEXT: &str = "67e55044-10b1-426f-9247-bb680e5fe0c8";

struct Mock {
    log: Vec<String>,
    txs: Vec<TxLogEntry>,
    outputs: Vec<(OutputData, Commitment)>,
    refresh_ok: bool,
    height: Result<u64, String>,
    difficulty: Result<u64, String>,
    peers: Result<Vec<PeerInfoDisplay>, String>,
    proofs_for: Vec<String>,
    saved: Vec<(String, Context)>,
    deleted: Vec<String>,
    stored_proofs: Vec<Option<TxProof>>,
    posted: Vec<(String, bool)>,
    extracted: Result<(Option<String>, Slate), String>,
    context: Context,
    open_fails: bool,
}

fn commit(b: u8) -> Commitment {
    [b; 33]
}

fn entry(id: u32, slate: Option<u128>, tx_type: TxLogEntryType) -> TxLogEntry {
    TxLogEntry { id, tx_slate_id: slate, tx_type, confirmed: true, amount_credited: 0, amount_debited: 0, fee: None }
}

fn output(height: u64) -> (OutputData, Commitment) {
    let data = OutputData {
        key_id: Identifier([1; 17]),
        n_child: 1,
        value: 5,
        height,
        is_coinbase: false,
        tx_log_entry: None,
    };
    (data, commit(height as u8))
}

fn slate(id: u128) -> Slate {
    Slate {
        id,
        amount: 60,
        fee: 8,
        height: 10,
        lock_height: 0,
        tx: Transaction { inputs: vec![commit(1), commit(2)], outputs: vec![commit(3)], offset: [0; 32] },
        participant_data: vec![],
    }
}

fn mock() -> Mock {
    Mock {
        log: vec![],
        txs: vec![],
        outputs: vec![],
        refresh_ok: true,
        height: Ok(500),
        difficulty: Ok(7000),
        peers: Ok(vec![]),
        proofs_for: vec![],
        saved: vec![],
        deleted: vec![],
        stored_proofs: vec![],
        posted: vec![],
        extracted: Err("no proof".to_string()),
        context: Context {
            context_type: ContextType::Tx,
            amount: 60,
            fee: 8,
            input_commits: vec![commit(1), commit(2)],
            output_commits: vec![commit(3)],
        },
        open_fails: false,
    }
}

fn blank_proof() -> TxProof {
    TxProof {
        address: "addr".to_string(),
        message: "msg".to_string(),
        signature: "sig".to_string(),
        amount: 0,
        fee: 0,
        inputs: vec![],
        outputs: vec![],
    }
}

impl WalletBackend for Mock {
    type PendingUpdate = String;

    // The call log is ghost state, read only by the proofs; it is never
    // evaluated when the tests run.
    fn call_log(&self) -> Seq<BackendCall<String>> {
        Seq::empty()
    }

    fn open_with_credentials(&mut self) -> Result<(), String> {
        self.log.push("open".to_string());
        if self.open_fails { Err("locked".to_string()) } else { Ok(()) }
    }
    fn close(&mut self) -> Result<(), String> {
        self.log.push("close".to_string());
        Ok(())
    }
    fn get_parent_key_id(&mut self) -> Identifier {
        Identifier([9; 17])
    }
    fn retrieve_txs(&mut self, _tx_id: Option<u32>, _slate: Option<u128>, _parent: Option<Identifier>, _outstanding: bool, _start: u32, _len: u32) -> Result<Vec<TxLogEntry>, String> {
        self.log.push("retrieve_txs".to_string());
        Ok(self.txs.clone())
    }
    fn retrieve_outputs(&mut self, _spent: bool, _tx_id: Option<u32>, _parent: Option<Identifier>, _start: u32, _len: u32) -> Result<Vec<(OutputData, Commitment)>, String> {
        Ok(self.outputs.clone())
    }
    fn retrieve_info(&mut self, _parent: Identifier, minimum_confirmations: u64) -> Result<WalletInfo, String> {
        Ok(WalletInfo {
            last_confirmed_height: 500,
            minimum_confirmations,
            total: 100,
            amount_awaiting_confirmation: 0,
            amount_immature: 0,
            amount_currently_spendable: 100,
            amount_locked: 0,
        })
    }
    fn refresh_outputs(&mut self, _parent: Identifier, update_all: bool) -> Result<(), String> {
        self.log.push(format!("refresh {}", update_all));
        if self.refresh_ok { Ok(()) } else { Err("node down".to_string()) }
    }
    fn has_stored_tx_proof(&mut self, uuid: &str) -> Result<bool, String> {
        Ok(self.proofs_for.iter().any(|u| u == uuid))
    }
    fn get_stored_tx_proof(&mut self, uuid: &str) -> Result<TxProof, String> {
        let mut p = blank_proof();
        p.message = uuid.to_string();
        Ok(p)
    }
    fn get_stored_tx(&mut self, uuid: &str) -> Result<Transaction, String> {
        if uuid == SLATE_TEXT { Ok(slate(SLATE_ID).tx) } else { Err("not found".to_string()) }
    }
    fn accounts(&mut self) -> Result<Vec<AcctPathMapping>, String> {
        Ok(vec![AcctPathMapping { label: "default".to_string(), path: Identifier([0; 17]) }])
    }
    fn new_acct_path(&mut self, label: &str) -> Result<Identifier, String> {
        if label == "default" { Err("exists".to_string()) } else { Ok(Identifier([2; 17])) }
    }
    fn rename_acct_path(&mut self, accounts: Vec<AcctPathMapping>, old_label: &str, new_label: &str) -> Result<(), String> {
        if accounts.iter().any(|a| a.label == old_label) {
            self.log.push(format!("rename {} {}", old_label, new_label));
            Ok(())
        } else {
            Err("unknown account".to_string())
        }
    }
    fn invoice_tx(&mut self, slate: &mut Slate, _c: u64, _m: usize, _n: usize, _u: bool, _p: Identifier, _msg: Option<String>) -> Result<String, String> {
        slate.fee = 9;
        Ok("lock".to_string())
    }
    fn create_send_tx(&mut self, _a: Option<String>, amount: u64, _c: u64, _m: usize, _n: usize, _u: bool, _p: Identifier, _msg: Option<String>, _o: Option<Vec<&str>>, _v: Option<u16>) -> Result<(Slate, Context, String), String> {
        let mut s = slate(SLATE_ID);
        s.amount = amount;
        let ctx = Context { context_type: ContextType::Tx, amount, fee: 8, input_commits: vec![], output_commits: vec![] };
        Ok((s, ctx, "lock".to_string()))
    }
    fn create_receive_tx(&mut self, amount: u64, _n: usize, _p: Identifier, _msg: Option<String>) -> Result<(Slate, Context, String), String> {
        let mut s = slate(SLATE_ID);
        s.amount = amount;
        let ctx = Context { context_type: ContextType::Tx, amount, fee: 0, input_commits: vec![], output_commits: vec![] };
        Ok((s, ctx, "add".to_string()))
    }
    fn run_pending_update(&mut self, update: String, tx: &Transaction) -> Result<(), String> {
        self.log.push(format!("{} {}", update, tx.inputs.len()));
        Ok(())
    }
    fn save_private_context(&mut self, slate_id: &str, context: &Context) -> Result<(), String> {
        self.saved.push((slate_id.to_string(), context.clone()));
        Ok(())
    }
    fn get_private_context(&mut self, _slate_id: &str) -> Result<Context, String> {
        Ok(self.context.clone())
    }
    fn delete_private_context(&mut self, slate_id: &str) -> Result<(), String> {
        self.deleted.push(slate_id.to_string());
        Ok(())
    }
    fn complete_tx(&mut self, _slate: &mut Slate, _context: &Context) -> Result<(), String> {
        Ok(())
    }
    fn update_stored_tx(&mut self, _slate: &Slate, tx_proof: Option<&TxProof>) -> Result<(), String> {
        self.stored_proofs.push(tx_proof.cloned());
        Ok(())
    }
    fn cancel_tx(&mut self, _p: Identifier, tx_id: Option<u32>, _s: Option<u128>) -> Result<(), String> {
        self.log.push(format!("cancel {:?}", tx_id));
        Ok(())
    }
    fn receive_tx(&mut self, _a: Option<String>, slate: &mut Slate, _p: Identifier, _msg: Option<String>) -> Result<(), String> {
        slate.participant_data.push(ParticipantData { id: 1, public_blind_excess: [2; 33], public_nonce: [2; 33], message: None });
        Ok(())
    }
    fn build_coinbase(&mut self, block_fees: &BlockFees) -> Result<CbData, String> {
        Ok(CbData { output: format!("out{}", block_fees.height), kernel: "k".to_string(), key_id: "id".to_string() })
    }
    fn restore(&mut self) -> Result<(), String> {
        Err("restore failed".to_string())
    }
    fn check_repair(&mut self) -> Result<(), String> {
        self.log.push("check_repair".to_string());
        Ok(())
    }
    fn get_chain_height(&mut self) -> Result<u64, String> {
        self.height.clone()
    }
    fn get_total_difficulty(&mut self) -> Result<u64, String> {
        self.difficulty.clone()
    }
    fn get_connected_peer_info(&mut self) -> Result<Vec<PeerInfoDisplay>, String> {
        self.peers.clone()
    }
    fn post_tx(&mut self, tx: &TxWrapper, fluff: bool) -> Result<(), String> {
        self.posted.push((tx.tx_hex.clone(), fluff));
        Ok(())
    }
    fn verify_slate_messages(&mut self, slate: &Slate) -> Result<(), String> {
        if slate.participant_data.iter().all(|p| p.message.is_none()) { Ok(()) } else { Err("bad signature".to_string()) }
    }
    fn verify_extract(&mut self, _tx_proof: &TxProof) -> Result<(Option<String>, Slate), String> {
        self.extracted.clone()
    }
}

#[test]
fn owner_new_keeps_backend() {
    let api = Wallet713OwnerAPI::new(mock());
    assert_eq!(api.wallet.height, Ok(500));
}

#[test]
fn invoice_tx_refuses_received_slate() {
    let mut w = mock();
    w.txs = vec![entry(1, Some(SLATE_ID), TxLogEntryType::TxReceived)];
    let mut api = Wallet713OwnerAPI::new(w);
    let mut s = slate(SLATE_ID);
    let r = api.invoice_tx(&mut s, 10, 500, 1, false, None);
    assert_eq!(r, Err(Error::TransactionAlreadyReceived(SLATE_TEXT.to_string())));
    assert_eq!(s.fee, 8);
}

#[test]
fn invoice_tx_adds_payer_side() {
    let mut w = mock();
    w.txs = vec![entry(1, Some(SLATE_ID), TxLogEntryType::TxSent)];
    let mut api = Wallet713OwnerAPI::new(w);
    let mut s = slate(SLATE_ID);
    assert_eq!(api.invoice_tx(&mut s, 10, 500, 1, false, None), Ok("lock".to_string()));
    assert_eq!(s.fee, 9);
    assert_eq!(api.wallet.log, vec!["open", "retrieve_txs", "close"]);
}

#[test]
fn accounts_and_paths() {
    let mut api = Wallet713OwnerAPI::new(mock());
    assert_eq!(api.accounts().unwrap().len(), 1);
    assert_eq!(api.create_account_path("savings"), Ok(Identifier([2; 17])));
    assert_eq!(api.create_account_path("default"), Err(Error::Backend("exists".to_string())));
    assert_eq!(api.rename_account_path("default", "main"), Ok(()));
    assert_eq!(api.rename_account_path("nope", "main"), Err(Error::Backend("unknown account".to_string())));
}

#[test]
fn tx_id_by_slate_id_is_last_match_or_sentinel() {
    let mut api = Wallet713OwnerAPI::new(mock());
    assert_eq!(api.retrieve_tx_id_by_slate_id(SLATE_ID), Ok(1000000000));
    api.wallet.txs = vec![entry(4, Some(SLATE_ID), TxLogEntryType::TxSent), entry(6, Some(SLATE_ID), TxLogEntryType::TxSent)];
    assert_eq!(api.retrieve_tx_id_by_slate_id(SLATE_ID), Ok(6));
}

#[test]
fn retrieve_outputs_validated_only_when_refreshed() {
    let mut api = Wallet713OwnerAPI::new(mock());
    api.wallet.outputs = vec![output(3)];
    assert_eq!(api.retrieve_outputs(false, false, None, 0, 0).unwrap().0, false);
    assert_eq!(api.retrieve_outputs(false, true, None, 0, 0).unwrap(), (true, vec![output(3)]));
    api.wallet.refresh_ok = false;
    assert_eq!(api.retrieve_outputs(false, true, None, 0, 0).unwrap().0, false);
}

#[test]
fn retrieve_txs_validated_flag() {
    let mut api = Wallet713OwnerAPI::new(mock());
    api.wallet.txs = vec![entry(1, None, TxLogEntryType::TxSent)];
    assert_eq!(api.retrieve_txs(true, None, None), Ok((true, vec![entry(1, None, TxLogEntryType::TxSent)])));
    assert_eq!(api.retrieve_txs(false, None, None).unwrap().0, false);
}

#[test]
fn proof_flags_follow_stored_proofs() {
    let mut api = Wallet713OwnerAPI::new(mock());
    api.wallet.txs = vec![
        entry(1, Some(SLATE_ID), TxLogEntryType::TxSent),
        entry(2, Some(5), TxLogEntryType::TxSent),
        entry(3, None, TxLogEntryType::TxReceived),
    ];
    api.wallet.proofs_for = vec![SLATE_TEXT.to_string()];
    let (validated, entries) = api.retrieve_txs_with_proof_flag(false, None, None, 0, 10).unwrap();
    assert!(!validated);
    let flags: Vec<bool> = entries.iter().map(|e| e.1).collect();
    assert_eq!(flags, vec![true, false, false]);
    assert_eq!(entries[2].0.id, 3);
}

#[test]
fn summary_info() {
    let mut api = Wallet713OwnerAPI::new(mock());
    let (validated, info) = api.retrieve_summary_info(true, 10).unwrap();
    assert!(validated);
    assert_eq!(info.minimum_confirmations, 10);
    assert_eq!(info.total, 100);
}

#[test]
fn initiate_tx_records_slate_commitments_in_context() {
    let mut api = Wallet713OwnerAPI::new(mock());
    let (s, lock) = api.initiate_tx(None, 60, 10, 500, 1, false, None, None, None).unwrap();
    assert_eq!(s.amount, 60);
    assert_eq!(lock, "lock");
    assert_eq!(api.wallet.saved.len(), 1);
    let (id, ctx) = &api.wallet.saved[0];
    assert_eq!(id, SLATE_TEXT);
    assert_eq!(ctx.input_commits, vec![commit(1), commit(2)]);
    assert_eq!(ctx.output_commits, vec![commit(3)]);
}

#[test]
fn tx_lock_outputs_runs_pending_lock() {
    let mut api = Wallet713OwnerAPI::new(mock());
    let tx = slate(SLATE_ID).tx;
    assert_eq!(api.tx_lock_outputs(&tx, "lock".to_string()), Ok(()));
    assert_eq!(api.wallet.log, vec!["open", "lock 2"]);
}

#[test]
fn finalize_tx_fills_proof_and_removes_context() {
    let mut api = Wallet713OwnerAPI::new(mock());
    let mut s = slate(SLATE_ID);
    let mut proof = Some(blank_proof());
    assert_eq!(api.finalize_tx(&mut s, &mut proof), Ok(true));
    let p = proof.unwrap();
    assert_eq!(p.amount, 60);
    assert_eq!(p.fee, 8);
    assert_eq!(p.inputs, vec![commit(1), commit(2)]);
    assert_eq!(p.outputs, vec![commit(3)]);
    assert_eq!(api.wallet.stored_proofs, vec![Some(p)]);
    assert_eq!(api.wallet.deleted, vec![SLATE_TEXT.to_string()]);
}

#[test]
fn finalize_tx_without_proof() {
    let mut api = Wallet713OwnerAPI::new(mock());
    let mut s = slate(SLATE_ID);
    let mut proof = None;
    assert_eq!(api.finalize_tx(&mut s, &mut proof), Ok(true));
    assert_eq!(proof, None);
    assert_eq!(api.wallet.stored_proofs, vec![None]);
}

#[test]
fn sent_commitments_reach_the_proof_through_the_api() {
    let mut api = Wallet713OwnerAPI::new(mock());
    let (mut s, _) = api.initiate_tx(None, 60, 10, 500, 1, false, None, None, None).unwrap();
    api.wallet.context = api.wallet.saved[0].1.clone();
    let mut proof = Some(blank_proof());
    api.finalize_tx(&mut s, &mut proof).unwrap();
    let p = proof.unwrap();
    assert_eq!(p.inputs, s.tx.inputs);
    assert_eq!(p.outputs, s.tx.outputs);
}

#[test]
fn cancel_tx_refused_without_node() {
    let mut api = Wallet713OwnerAPI::new(mock());
    api.wallet.refresh_ok = false;
    assert_eq!(
        api.cancel_tx(Some(3), None),
        Err(Error::TransactionCancellationError("Can't contact running Grin node. Not Cancelling.".to_string()))
    );
    api.wallet.refresh_ok = true;
    assert_eq!(api.cancel_tx(Some(3), None), Ok(()));
    assert!(api.wallet.log.contains(&"cancel Some(3)".to_string()));
}

#[test]
fn stored_tx_by_uuid() {
    let mut api = Wallet713OwnerAPI::new(mock());
    assert_eq!(api.get_stored_tx(SLATE_TEXT), Ok(slate(SLATE_ID).tx));
    assert_eq!(api.get_stored_tx("x"), Err(Error::Backend("not found".to_string())));
}

#[test]
fn node_info_all_or_nothing() {
    let mut api = Wallet713OwnerAPI::new(mock());
    let info = api.node_info().unwrap();
    assert_eq!((info.height, info.total_difficulty), (500, 7000));
    api.wallet.difficulty = Err("down".to_string());
    let info = api.node_info().unwrap();
    assert_eq!((info.height, info.total_difficulty, info.peers.len()), (0, 0, 0));
    api.wallet.open_fails = true;
    assert!(api.node_info().is_err());
}

#[test]
fn post_tx_sends_hex() {
    let mut api = Wallet713OwnerAPI::new(mock());
    assert_eq!(api.post_tx(&vec![0x0a, 0xff, 0x00], true), Ok(()));
    assert_eq!(api.wallet.posted, vec![("0aff00".to_string(), true)]);
}

#[test]
fn slate_messages() {
    let mut api = Wallet713OwnerAPI::new(mock());
    let mut s = slate(1);
    assert_eq!(api.verify_slate_messages(&s), Ok(()));
    s.participant_data.push(ParticipantData { id: 0, public_blind_excess: [2; 33], public_nonce: [2; 33], message: Some("hi".to_string()) });
    assert_eq!(api.verify_slate_messages(&s), Err(Error::Backend("bad signature".to_string())));
}

#[test]
fn restore_and_check_repair() {
    let mut api = Wallet713OwnerAPI::new(mock());
    assert_eq!(api.restore(), Err(Error::Backend("restore failed".to_string())));
    assert_eq!(api.wallet.log, vec!["open", "close"]);
    api.wallet.log.clear();
    api.wallet.refresh_ok = false;
    assert_eq!(api.check_repair(), Ok(()));
    assert_eq!(api.wallet.log, vec!["open", "refresh true", "check_repair", "close"]);
}

#[test]
fn node_height_from_node() {
    let mut api = Wallet713OwnerAPI::new(mock());
    assert_eq!(api.node_height(), Ok((500, true)));
}

#[test]
fn node_height_falls_back_on_outputs() {
    let mut api = Wallet713OwnerAPI::new(mock());
    api.wallet.height = Err("down".to_string());
    assert_eq!(api.node_height(), Ok((0, false)));
    api.wallet.outputs = vec![output(12), output(40), output(7)];
    assert_eq!(api.node_height(), Ok((40, false)));
}

#[test]
fn stored_tx_proof_needs_one_entry_with_slate() {
    let mut api = Wallet713OwnerAPI::new(mock());
    assert_eq!(api.get_stored_tx_proof(1), Err(Error::TransactionHasNoProof));
    api.wallet.txs = vec![entry(1, None, TxLogEntryType::TxSent)];
    assert_eq!(api.get_stored_tx_proof(1), Err(Error::TransactionHasNoProof));
    api.wallet.txs = vec![entry(1, Some(SLATE_ID), TxLogEntryType::TxSent)];
    assert_eq!(api.get_stored_tx_proof(1).unwrap().message, SLATE_TEXT);
}

#[test]
fn verify_tx_proof_refuses_bad_extraction_and_short_slates() {
    let mut api = Wallet713OwnerAPI::new(mock());
    assert_eq!(api.verify_tx_proof(&blank_proof()), Err(Error::VerifyProof));
    api.wallet.extracted = Ok((None, slate(1)));
    assert_eq!(api.verify_tx_proof(&blank_proof()), Err(Error::VerifyProof));
}

#[test]
fn verify_tx_proof_checks_extracted_slate() {
    let mut api = Wallet713OwnerAPI::new(mock());
    let mut s = slate(1);
    s.participant_data = vec![
        ParticipantData { id: 0, public_blind_excess: [0; 33], public_nonce: [0; 33], message: None },
        ParticipantData { id: 1, public_blind_excess: [0; 33], public_nonce: [0; 33], message: None },
    ];
    api.wallet.extracted = Ok((None, s));
    assert_eq!(api.verify_tx_proof(&blank_proof()), Err(Error::VerifyProof));
}

#[test]
fn foreign_new_keeps_backend() {
    let api = Wallet713ForeignAPI::new(mock());
    assert!(api.wallet.log.is_empty());
}

#[test]
fn initiate_receive_tx_saves_context() {
    let mut api = Wallet713ForeignAPI::new(mock());
    let (s, add) = api.initiate_receive_tx(25, 1, None).unwrap();
    assert_eq!((s.amount, add.as_str()), (25, "add"));
    assert_eq!(api.wallet.saved[0].0, SLATE_TEXT);
    assert_eq!(api.wallet.saved[0].1.amount, 25);
}

#[test]
fn tx_add_invoice_outputs_runs_pending_update() {
    let mut api = Wallet713ForeignAPI::new(mock());
    assert_eq!(api.tx_add_invoice_outputs(&slate(1), "add".to_string()), Ok(()));
    assert_eq!(api.wallet.log, vec!["open", "add 2"]);
}

#[test]
fn coinbase() {
    let mut api = Wallet713ForeignAPI::new(mock());
    let cb = api.build_coinbase(&BlockFees { fees: 1, height: 77, key_id: None }).unwrap();
    assert_eq!(cb.output, "out77");
}

#[test]
fn receive_tx_refuses_second_receipt() {
    let mut api = Wallet713ForeignAPI::new(mock());
    let mut s = slate(SLATE_ID);
    assert_eq!(api.receive_tx(None, &mut s, None), Ok(()));
    assert_eq!(s.participant_data.len(), 1);
    api.wallet.txs = vec![entry(9, Some(SLATE_ID), TxLogEntryType::TxReceived)];
    let mut again = slate(SLATE_ID);
    assert_eq!(
        api.receive_tx(None, &mut again, None),
        Err(Error::TransactionAlreadyReceived(SLATE_TEXT.to_string()))
    );
    assert!(again.participant_data.is_empty());
}

#[test]
fn backend_failure_is_passed_on() {
    let mut api = Wallet713ForeignAPI::new(mock());
    api.wallet.open_fails = true;
    assert_eq!(api.build_coinbase(&BlockFees { fees: 1, height: 2, key_id: None }), Err(Error::Backend("locked".to_string())));
}
