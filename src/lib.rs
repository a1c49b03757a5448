//! Chain-state synchronization and device attestation checks for a gateway
//! that follows a proof-of-work chain and a settlement chain.
//!
//! The library holds the decisions; the program around it performs the
//! network, disk and clock work and hands the results back.
pub mod text;
pub mod model;
pub mod gateway;
pub mod persistence;
pub mod sync;
pub mod bitcoin_chain;
pub mod stacks_chain;
pub mod hexcode;
pub mod crypto;
pub mod attestation;
pub mod auth;
pub mod config;

pub use attestation::{signature_verdict, SignedField, VerificationError, ZkcVerifier};
pub use auth::is_authorized;
pub use bitcoin_chain::{BitcoinListener, BitcoinRpc};
pub use sync::{Backfill, Chain, ChainMeta};
pub use config::Config;
pub use model::{
    Attestation, AttestationRequest, BlockInfo, ChainState, ConxianError, GatewayState, Metrics,
    PersistentState, SchnorrAttestation, TransactionInfo,
};
pub use persistence::{FilePersistence, Persistence};
pub use stacks_chain::{SimulatedStacksRpc, StacksListener, StacksNetworkInfo, StacksRpc, StacksRpcClient};
