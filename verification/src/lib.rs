//! Orchestration of transactions executed on a remote chain through an
//! interchain account (ICA).
//!
//! The library tracks the lifecycle of the remote account, guarantees that at
//! most one remote transaction is in flight at a time, correlates
//! asynchronously delivered acknowledgements, errors and timeouts back to the
//! submission that produced them, manages registration of remote read-only
//! queries, and decodes multi-message acknowledgement payloads into typed
//! per-operation answers.
//!
//! All state is held in plain records that the caller passes into each
//! handling function; every transition is specified by a contract and
//! verified.

pub mod errors;
pub mod types;
pub mod text;
pub mod ica;
pub mod slot;
pub mod registry;
pub mod proto;
pub mod codec;
pub mod answers;
pub mod wire;
pub mod acks;
pub mod engine;
