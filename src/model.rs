//! The gateway's data model: chain tips, counters, the persisted cursors,
//! attestations and the error kinds.
use vstd::prelude::*;
use crate::text::{joined, owned};

verus! {

/// One block as reported by a chain adapter.
#[derive(Debug, Clone)]
pub struct BlockInfo {
    pub hash: String,
    pub height: u64,
    pub timestamp: u64,
}

/// One transaction as reported by a chain adapter.
#[derive(Debug, Clone)]
pub struct TransactionInfo {
    pub txid: String,
    pub confirmations: u32,
    pub block_hash: Option<String>,
    pub block_height: Option<u64>,
}

/// The tip of one tracked chain.
#[derive(Debug, Clone)]
pub struct ChainState {
    pub height: u64,
    pub status: String,
    pub last_updated: u64,
    pub best_block_hash: String,
    pub network: String,
    pub epoch: Option<String>,
    pub mode: Option<String>,
}

/// The text carried by an optional string.
pub open spec fn opt_text(o: Option<String>) -> Option<Seq<char>> {
    match o {
        Some(s) => Some(s@),
        None => None,
    }
}

/// A [`ChainState`] with its strings seen as character sequences.
pub struct ChainStateView {
    pub height: u64,
    pub status: Seq<char>,
    pub last_updated: u64,
    pub best_block_hash: Seq<char>,
    pub network: Seq<char>,
    pub epoch: Option<Seq<char>>,
    pub mode: Option<Seq<char>>,
}

impl View for ChainState {
    type V = ChainStateView;

    open spec fn view(&self) -> ChainStateView {
        ChainStateView {
            height: self.height,
            status: self.status@,
            last_updated: self.last_updated,
            best_block_hash: self.best_block_hash@,
            network: self.network@,
            epoch: opt_text(self.epoch),
            mode: opt_text(self.mode),
        }
    }
}

/// The state of a chain before its first successful poll.
pub open spec fn initial_chain() -> ChainStateView {
    ChainStateView {
        height: 0,
        status: "initializing"@,
        last_updated: 0,
        best_block_hash: ""@,
        network: "unknown"@,
        epoch: None,
        mode: None,
    }
}

impl ChainState {
    /// A chain not yet polled: height zero, status `initializing`.
    pub fn initial() -> (r: ChainState)
        ensures
            r@ == initial_chain(),
    {
        ChainState {
            height: 0,
            status: owned("initializing"),
            last_updated: 0,
            best_block_hash: owned(""),
            network: owned("unknown"),
            epoch: None,
            mode: None,
        }
    }
}

impl Default for ChainState {
    fn default() -> (r: ChainState)
        ensures
            r@ == initial_chain(),
    {
        ChainState::initial()
    }
}

/// Request counters of the API.
#[derive(Debug, Clone, Copy, PartialEq, Eq, Structural)]
pub struct Metrics {
    pub total_requests: u64,
    pub verification_count: u64,
}

impl Default for Metrics {
    fn default() -> (r: Metrics)
        ensures
            r.total_requests == 0,
            r.verification_count == 0,
    {
        Metrics { total_requests: 0, verification_count: 0 }
    }
}

/// The document shared by the pollers and the API.
#[derive(Debug, Clone)]
pub struct GatewayState {
    pub bitcoin: ChainState,
    pub stacks: ChainState,
    pub metrics: Metrics,
    pub start_time: u64,
}

/// A [`GatewayState`] with its chains seen through their views.
pub struct GatewayStateView {
    pub bitcoin: ChainStateView,
    pub stacks: ChainStateView,
    pub metrics: Metrics,
    pub start_time: u64,
}

impl View for GatewayState {
    type V = GatewayStateView;

    open spec fn view(&self) -> GatewayStateView {
        GatewayStateView {
            bitcoin: self.bitcoin@,
            stacks: self.stacks@,
            metrics: self.metrics,
            start_time: self.start_time,
        }
    }
}

/// The two cursors that survive a restart.
#[derive(Debug, Clone, Copy, PartialEq, Eq, Structural)]
pub struct PersistentState {
    pub bitcoin_height: u64,
    pub stacks_height: u64,
}

impl Default for PersistentState {
    fn default() -> (r: PersistentState)
        ensures
            r.bitcoin_height == 0,
            r.stacks_height == 0,
    {
        PersistentState { bitcoin_height: 0, stacks_height: 0 }
    }
}

/// A signed claim from a device, checked with ECDSA.
#[derive(Debug, Clone)]
pub struct Attestation {
    pub device_id: String,
    /// Hex encoded, DER or 64-byte compact.
    pub signature: String,
    pub payload: String,
    /// Hex encoded SEC1 public key.
    pub public_key: String,
}

/// A signed claim from a device, checked with BIP-340 Schnorr.
#[derive(Debug, Clone)]
pub struct SchnorrAttestation {
    pub device_id: String,
    /// Hex encoded, 64 bytes.
    pub signature: String,
    pub payload: String,
    /// Hex encoded, 32 bytes.
    pub x_only_public_key: String,
}

/// An attestation under one of the two signature schemes.
#[derive(Debug, Clone)]
pub enum AttestationRequest {
    Ecdsa(Attestation),
    Schnorr(SchnorrAttestation),
}

/// The error kinds of the gateway, each with its detail text.
#[derive(Debug, Clone)]
pub enum ConxianError {
    Bitcoin(String),
    Stacks(String),
    Api(String),
    Compliance(String),
    Internal(String),
    Security(String),
    Io(String),
}

/// The text that describes an error: its kind, then its detail.
pub open spec fn error_text(e: ConxianError) -> Seq<char> {
    match e {
        ConxianError::Bitcoin(m) => "Bitcoin error: "@ + m@,
        ConxianError::Stacks(m) => "Stacks error: "@ + m@,
        ConxianError::Api(m) => "API error: "@ + m@,
        ConxianError::Compliance(m) => "Compliance error: "@ + m@,
        ConxianError::Internal(m) => "Internal error: "@ + m@,
        ConxianError::Security(m) => "Security/Verification error: "@ + m@,
        ConxianError::Io(m) => "IO error: "@ + m@,
    }
}

impl ConxianError {
    /// The text that describes this error.
    pub fn message(&self) -> (r: String)
        ensures
            r@ == error_text(*self),
    {
        match self {
            ConxianError::Bitcoin(m) => joined("Bitcoin error: ", m.as_str()),
            ConxianError::Stacks(m) => joined("Stacks error: ", m.as_str()),
            ConxianError::Api(m) => joined("API error: ", m.as_str()),
            ConxianError::Compliance(m) => joined("Compliance error: ", m.as_str()),
            ConxianError::Internal(m) => joined("Internal error: ", m.as_str()),
            ConxianError::Security(m) => joined("Security/Verification error: ", m.as_str()),
            ConxianError::Io(m) => joined("IO error: ", m.as_str()),
        }
    }
}

} // verus!
