//! Consent-gated dispatch of tool calls.
//!
//! The crate holds the decisions of two cooperating components and proves them
//! against their contracts:
//!
//! * the consent engine ([`consent`]), which grants, verifies and revokes a
//!   user's consent under an age threshold and a discipline check, and
//! * the orchestrator ([`orchestration`]), which keeps a registry of tool
//!   executors and turns every outcome of a call into one response envelope.
//!
//! Neither component performs I/O. Each operation is a transition function:
//! it takes what has been learnt so far and answers with the next request to
//! make of the outside world (the identity provider, the ledger, an executor)
//! or with the final result. Whoever drives the operation performs the request
//! and hands the answer back.

use vstd::prelude::*;

pub use crate::consent::{ConsentAttestation, ConsentError, ConsentRecord, ConsentStatus};
pub use crate::engine::{
    ConsentEngine,
    GrantInput,
    GrantStep,
    RevokeInput,
    RevokeStep,
    VerifyInput,
    VerifyStep,
    DEFAULT_MIN_AGE,
};
pub use crate::error::CybulousError;
pub use crate::ledger::BlockchainClient;
pub use crate::orchestration::{
    DispatchInput,
    DispatchStep,
    ExecutionContext,
    ExecutionStatus,
    Orchestrator,
    ToolCall,
    ToolExecutor,
    ToolResponse,
};
pub use crate::time::Timestamp;

pub mod consent;
pub mod engine;
pub mod error;
pub mod foreign;
pub mod ledger;
pub mod orchestration;
pub mod registry;
pub mod text;
pub mod time;

verus! {

/// Version of this crate.
pub const VERSION: &'static str = "0.1.0";

/// Minimum supported protocol version.
pub const MIN_PROTOCOL_VERSION: u32 = 1;

/// Current protocol version.
pub const PROTOCOL_VERSION: u32 = 1;

} // verus!
