//! The values that flow between the wallet API, its backend and its callers.
use vstd::prelude::*;

verus! {

/// A Pedersen commitment in its 33-byte serialized form.
pub type Commitment = [u8; 33];

/// A secp256k1 public key in its 33-byte compressed serialized form.
pub type PublicKeyBytes = [u8; 33];

/// A key identifier (a derivation path in the wallet's keychain).
#[derive(Clone, Copy, Debug, PartialEq, Eq)]
pub struct Identifier(pub [u8; 17]);

/// The kind of a transaction log entry.
#[derive(Clone, Copy, Debug, PartialEq, Eq, Structural)]
pub enum TxLogEntryType {
    ConfirmedCoinbase,
    TxReceived,
    TxSent,
    TxReceivedCancelled,
    TxSentCancelled,
}

/// One entry of the wallet's transaction log.
#[derive(Clone, Copy, Debug, PartialEq, Eq)]
pub struct TxLogEntry {
    pub id: u32,
    /// The id of the slate the transaction was built from, as a 128-bit UUID value.
    pub tx_slate_id: Option<u128>,
    pub tx_type: TxLogEntryType,
    pub confirmed: bool,
    pub amount_credited: u64,
    pub amount_debited: u64,
    pub fee: Option<u64>,
}

/// What the wallet stores of one of its outputs.
#[derive(Clone, Copy, Debug, PartialEq, Eq)]
pub struct OutputData {
    pub key_id: Identifier,
    pub n_child: u32,
    pub value: u64,
    /// The block height at which the output was (or is expected to be) confirmed.
    pub height: u64,
    pub is_coinbase: bool,
    pub tx_log_entry: Option<u32>,
}

/// The wallet's balance summary.
#[derive(Clone, Copy, Debug, PartialEq, Eq)]
pub struct WalletInfo {
    pub last_confirmed_height: u64,
    pub minimum_confirmations: u64,
    pub total: u64,
    pub amount_awaiting_confirmation: u64,
    pub amount_immature: u64,
    pub amount_currently_spendable: u64,
    pub amount_locked: u64,
}

/// An account label and the key path it stands for.
#[derive(Clone, Debug, PartialEq, Eq)]
pub struct AcctPathMapping {
    pub label: String,
    pub path: Identifier,
}

/// The body of a transaction, as far as the wallet API reads it.
#[derive(Clone, Debug, PartialEq, Eq)]
pub struct Transaction {
    /// Commitments of the inputs the transaction spends.
    pub inputs: Vec<Commitment>,
    /// Commitments of the outputs the transaction creates.
    pub outputs: Vec<Commitment>,
    /// The kernel offset, a 32-byte blinding factor.
    pub offset: [u8; 32],
}

/// What one participant contributes to a slate.
#[derive(Clone, Debug, PartialEq, Eq)]
pub struct ParticipantData {
    pub id: u64,
    pub public_blind_excess: PublicKeyBytes,
    pub public_nonce: PublicKeyBytes,
    pub message: Option<String>,
}

/// A transaction under construction, exchanged between sender and receiver.
#[derive(Clone, Debug, PartialEq, Eq)]
pub struct Slate {
    /// The slate id, as a 128-bit UUID value.
    pub id: u128,
    pub amount: u64,
    pub fee: u64,
    pub height: u64,
    pub lock_height: u64,
    pub tx: Transaction,
    pub participant_data: Vec<ParticipantData>,
}

/// The kind of a private transaction context.
#[derive(Clone, Copy, Debug, PartialEq, Eq, Structural)]
pub enum ContextType {
    Tx,
}

/// The private context a wallet keeps for a transaction it takes part in.
#[derive(Clone, Debug, PartialEq, Eq)]
pub struct Context {
    pub context_type: ContextType,
    pub amount: u64,
    pub fee: u64,
    /// Commitments of the inputs the transaction spends.
    pub input_commits: Vec<Commitment>,
    /// Commitments of the outputs the transaction creates.
    pub output_commits: Vec<Commitment>,
}

/// A proof that a payment was made to an address.
#[derive(Clone, Debug, PartialEq, Eq)]
pub struct TxProof {
    /// The address of the party that signed the proof.
    pub address: String,
    pub message: String,
    pub signature: String,
    pub amount: u64,
    pub fee: u64,
    /// Input commitments of the sender's own change (left out when the proof is checked).
    pub inputs: Vec<Commitment>,
    /// Output commitments of the sender's own change (left out when the proof is checked).
    pub outputs: Vec<Commitment>,
}

/// A transaction ready to be posted to a node, hex-encoded.
#[derive(Clone, Debug, PartialEq, Eq)]
pub struct TxWrapper {
    pub tx_hex: String,
}

/// The fees and height of a block for which a coinbase is asked.
#[derive(Clone, Debug, PartialEq, Eq)]
pub struct BlockFees {
    pub fees: u64,
    pub height: u64,
    pub key_id: Option<Identifier>,
}

/// A coinbase output and kernel, serialized.
#[derive(Clone, Debug, PartialEq, Eq)]
pub struct CbData {
    pub output: String,
    pub kernel: String,
    pub key_id: String,
}

/// What went wrong in a wallet operation.
#[derive(Clone, Debug, PartialEq, Eq)]
pub enum Error {
    /// A slate with this id (in its hyphenated text form) was already received.
    TransactionAlreadyReceived(String),
    /// A transaction could not be cancelled, for the given reason.
    TransactionCancellationError(String),
    /// No stored proof can be found for the transaction.
    TransactionHasNoProof,
    /// A payment proof did not check out.
    VerifyProof,
    /// A secp256k1 operation failed.
    Secp,
    /// The wallet backend or the node reported an error.
    Backend(String),
}

} // verus!
