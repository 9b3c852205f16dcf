//! Configuration schema and composition model for a modular proxy/tunnel
//! engine.
//!
//! The crate defines the parameter groups and the inbound/outbound mapper
//! descriptors, a structured JSON-compatible document model, a codec between
//! the two with a proved round-trip law, chain-ordering validation, and the
//! variant catalog used by editor tooling.

pub mod doc;
pub mod fields;
pub mod types;
pub mod codec;
pub mod inbound;
pub mod outbound;
pub mod chain;
pub mod document;
