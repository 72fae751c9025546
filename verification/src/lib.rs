//! The owner and foreign APIs of a Grin wallet, over a wallet backend.
pub mod types;
pub mod text;
pub mod pedersen;
pub mod rules;
pub mod payment_proof;
pub mod backend;
pub mod calls;
pub mod owner;
pub mod foreign;
pub mod laws;
