//! The data that flows between callers, providers and the ledger.
use vstd::prelude::*;

verus! {

/// Metadata describing one piece of content, as handed in by a caller.
#[derive(Debug, Clone)]
pub struct ContentRecord {
    pub uid: String,
    pub url: String,
    pub content_hash: String,
    pub content_length: u64,
    pub created_at: String,
}

/// What a confirmed submission reports.
#[derive(Debug, Clone)]
pub struct TransactionResult {
    /// The identifier the ledger assigned to the transaction; never empty.
    pub transaction_id: String,
    pub block_height: Option<u64>,
    pub confirmation_time: Option<u64>,
}

/// The ledger families a provider can be built for.
#[derive(Debug, Clone, Copy, PartialEq, Eq, Structural)]
pub enum ChainType {
    Solana,
    Ethereum,
}

/// Settings read once at startup.
#[derive(Debug, Clone)]
pub struct ChainConfig {
    pub network_url: String,
    pub program_id: Option<String>,
    pub private_key_path: Option<String>,
    pub chain_type: ChainType,
}

/// A point-in-time description of the ledger network.
#[derive(Debug, Clone)]
pub struct NetworkInfo {
    pub chain_id: String,
    pub block_height: u64,
    pub network_name: String,
}

/// Which part of the configuration is at fault.
#[derive(Debug, Clone, Copy, PartialEq, Eq, Structural)]
pub enum ConfigIssue {
    /// No provider exists for the chosen chain type.
    UnsupportedChain,
    /// The program id is required and absent.
    MissingProgramId,
    /// The program id is not a valid public key.
    InvalidProgramId,
    /// The credential file is required and could not be read.
    MissingCredential,
    /// The credential file does not hold a valid keypair.
    InvalidCredential,
}

/// Every failure the gateway can report.
#[derive(Debug, Clone, Copy, PartialEq, Eq, Structural)]
pub enum GatewayError {
    /// Fatal at startup.
    Configuration(ConfigIssue),
    /// The endpoint did not become healthy within the allowed probes.
    Unreachable,
    /// The record cannot be put into the instruction format.
    Encoding,
    /// A generated key equals a key it must differ from.
    Collision,
    /// The ledger rejected the transaction, or the submission failed.
    Submission,
    /// The ledger accepted the transaction but did not confirm it in time.
    ConfirmationTimeout,
    /// No record matches the lookup.
    NotFound,
}

} // verus!
