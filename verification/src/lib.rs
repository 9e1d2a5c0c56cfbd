//! Capability-based RPC backend for a container-image registry console.
//!
//! The library holds the verified core: the content-addressing scheme that
//! maps layer metadata to a canonical storage path, the echo (message)
//! service, the layer-existence service, the bootstrap capability that mints
//! service handles, and the listener configuration. The transport — sockets,
//! the RPC framing, and the filesystem probe itself — is unverified plumbing
//! that calls into this crate with plain values.

pub mod addressing;
pub mod config;
pub mod layer;
pub mod message;
pub mod rpc;
