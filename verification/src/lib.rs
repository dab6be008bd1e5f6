//! Feature flag definitions for a BOLT #9-style feature-negotiation bitset.
//!
//! Nodes advertise capabilities as a variable-length bit vector, partitioned
//! per message context. Each capability occupies a pair of adjacent bits: an
//! even "required" bit and an odd "optional" bit. [`Features`] represents
//! such a bit vector generically over its [`Context`], offers per-capability
//! queries and updates, detects unknown bits for forward compatibility,
//! projects a vector into another context's known-bit subset, merges vectors,
//! and converts between the wire's most-significant-byte-first convention and
//! the little-endian storage order used internally.
//!
//! [`Features`]: features::Features
//! [`Context`]: context::Context

pub mod context;
pub mod features;
pub mod laws;
pub mod registry;
pub mod wire;

pub use context::{ChannelContext, Context, InitContext, NodeContext};
pub use features::{ChannelFeatures, Features, InitFeatures, NodeFeatures};
pub use wire::DecodeError;
