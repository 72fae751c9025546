use wallet713_api::rules::{
    add_context_to_proof, combine_node_info, ensure_not_received, last_tx_id, max_output_height,
    record_commits, single_slate_id, NO_TX_ID,
};
use wallet713_api::types::{
    Commitment, Context, ContextType, Error, Identifier, OutputData, Transaction, TxLogEntry,
    TxLogEntryType, TxProof,
};

fn entry(id: u32, slate: Option<u128>, tx_type: TxLogEntryType) -> TxLogEntry {
    TxLogEntry {
        id,
        tx_slate_id: slate,
        tx_type,
        confirmed: false,
        amount_credited: 0,
        amount_debited: 0,
        fee: None,
    }
}

fn output(height: u64) -> (OutputData, Commitment) {
    (
        OutputData {
            key_id: Identifier([0; 17]),
            n_child: 0,
            value: 10,
            height,
            is_coinbase: false,
            tx_log_entry: None,
        },
        [height as u8; 33],
    )
}

fn commit(b: u8) -> Commitment {
    [b; 33]
}

const SLATE_ID: u128 = 0x67e5_5044_10b1_426f_9247_bb68_0e5f_e0c8;

#[test]
fn not_received_accepts_empty_log() {
    assert!(ensure_not_received(&vec![], SLATE_ID).is_ok());
}

#[test]
fn not_received_accepts_sent_entries() {
    let txs = vec![
        entry(1, Some(SLATE_ID), TxLogEntryType::TxSent),
        entry(2, Some(SLATE_ID), TxLogEntryType::TxReceivedCancelled),
    ];
    assert!(ensure_not_received(&txs, SLATE_ID).is_ok());
}

#[test]
fn not_received_refuses_received_entry_with_slate_id_text() {
    let txs = vec![
        entry(1, Some(SLATE_ID), TxLogEntryType::TxSent),
        entry(2, Some(SLATE_ID), TxLogEntryType::TxReceived),
    ];
    assert_eq!(
        ensure_not_received(&txs, SLATE_ID),
        Err(Error::TransactionAlreadyReceived(
            "67e55044-10b1-426f-9247-bb680e5fe0c8".to_string()
        ))
    );
}

#[test]
fn not_received_text_of_small_id_keeps_leading_zeros() {
    let txs = vec![entry(1, None, TxLogEntryType::TxReceived)];
    assert_eq!(
        ensure_not_received(&txs, 1),
        Err(Error::TransactionAlreadyReceived(
            "00000000-0000-0000-0000-000000000001".to_string()
        ))
    );
}

#[test]
fn refusal_persists_on_longer_log() {
    let mut txs = vec![entry(1, None, TxLogEntryType::TxReceived)];
    assert!(ensure_not_received(&txs, 5).is_err());
    txs.push(entry(2, None, TxLogEntryType::TxSent));
    txs.push(entry(3, None, TxLogEntryType::TxSentCancelled));
    assert!(ensure_not_received(&txs, 5).is_err());
}

#[test]
fn last_tx_id_of_empty_log_is_sentinel() {
    assert_eq!(last_tx_id(&vec![]), 1000000000);
    assert_eq!(NO_TX_ID, 1000000000);
}

#[test]
fn last_tx_id_is_id_of_last_entry() {
    let txs = vec![
        entry(3, None, TxLogEntryType::TxSent),
        entry(7, None, TxLogEntryType::TxReceived),
        entry(5, None, TxLogEntryType::TxSent),
    ];
    assert_eq!(last_tx_id(&txs), 5);
}

#[test]
fn max_output_height_of_no_outputs_is_zero() {
    assert_eq!(max_output_height(&vec![]), 0);
}

#[test]
fn max_output_height_is_greatest_height() {
    let outs = vec![output(5), output(9), output(2)];
    assert_eq!(max_output_height(&outs), 9);
    for o in &outs {
        assert!(o.0.height <= max_output_height(&outs));
    }
}

#[test]
fn single_slate_id_needs_exactly_one_entry() {
    assert_eq!(single_slate_id(&vec![]), Err(Error::TransactionHasNoProof));
    let two = vec![
        entry(1, Some(4), TxLogEntryType::TxSent),
        entry(2, Some(4), TxLogEntryType::TxSent),
    ];
    assert_eq!(single_slate_id(&two), Err(Error::TransactionHasNoProof));
}

#[test]
fn single_slate_id_needs_a_slate_id() {
    let one = vec![entry(1, None, TxLogEntryType::TxSent)];
    assert_eq!(single_slate_id(&one), Err(Error::TransactionHasNoProof));
    let one = vec![entry(1, Some(42), TxLogEntryType::TxSent)];
    assert_eq!(single_slate_id(&one), Ok(42));
}

fn context(inputs: Vec<Commitment>, outputs: Vec<Commitment>) -> Context {
    Context {
        context_type: ContextType::Tx,
        amount: 60,
        fee: 8,
        input_commits: inputs,
        output_commits: outputs,
    }
}

fn blank_proof() -> TxProof {
    TxProof {
        address: "xd7sCQ9bQuQXp4yCn8GSELcuSxnpcPrPoEWJzvPBc5vxyXPQz6PJ".to_string(),
        message: "m".to_string(),
        signature: "s".to_string(),
        amount: 0,
        fee: 0,
        inputs: vec![],
        outputs: vec![],
    }
}

#[test]
fn record_commits_appends_transaction_commitments() {
    let mut ctx = context(vec![commit(1)], vec![]);
    let tx = Transaction { inputs: vec![commit(2), commit(3)], outputs: vec![commit(4)], offset: [0; 32] };
    record_commits(&mut ctx, &tx);
    assert_eq!(ctx.input_commits, vec![commit(1), commit(2), commit(3)]);
    assert_eq!(ctx.output_commits, vec![commit(4)]);
    assert_eq!(ctx.amount, 60);
    assert_eq!(ctx.fee, 8);
}

#[test]
fn add_context_to_proof_fills_amount_fee_and_commitments() {
    let mut proof = blank_proof();
    proof.inputs.push(commit(9));
    let ctx = context(vec![commit(1)], vec![commit(2), commit(3)]);
    add_context_to_proof(&mut proof, &ctx);
    assert_eq!(proof.amount, 60);
    assert_eq!(proof.fee, 8);
    assert_eq!(proof.inputs, vec![commit(9), commit(1)]);
    assert_eq!(proof.outputs, vec![commit(2), commit(3)]);
    assert_eq!(proof.message, "m");
}

#[test]
fn sent_commitments_reach_a_blank_proof() {
    let mut ctx = context(vec![], vec![]);
    let tx = Transaction { inputs: vec![commit(2)], outputs: vec![commit(4), commit(5)], offset: [0; 32] };
    record_commits(&mut ctx, &tx);
    let mut proof = blank_proof();
    add_context_to_proof(&mut proof, &ctx);
    assert_eq!(proof.inputs, tx.inputs);
    assert_eq!(proof.outputs, tx.outputs);
}

#[test]
fn node_info_with_all_answers() {
    let info = combine_node_info::<String>(Ok(100), Ok(2000), Ok(vec![]));
    assert_eq!(info.height, 100);
    assert_eq!(info.total_difficulty, 2000);
    assert!(info.peers.is_empty());
}

#[test]
fn node_info_is_zero_when_one_answer_fails() {
    let a = combine_node_info::<String>(Err("down".to_string()), Ok(2000), Ok(vec![]));
    let b = combine_node_info::<String>(Ok(100), Err("down".to_string()), Ok(vec![]));
    let c = combine_node_info::<String>(Ok(100), Ok(2000), Err("down".to_string()));
    for info in [a, b, c] {
        assert_eq!(info.height, 0);
        assert_eq!(info.total_difficulty, 0);
        assert!(info.peers.is_empty());
    }
}
