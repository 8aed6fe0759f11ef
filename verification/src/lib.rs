//! A version-independent vector service served under multiple wire schemas.
//!
//! One canonical data model backs every supported wire version. Each version
//! owns a pair of pure adapters between its wire shapes and the canonical
//! shapes; a per-version shim decodes an inbound call, invokes the shared
//! canonical service, and encodes the result back into that version's wire
//! shape. A multiplexer routes versioned calls to the right shim, and a
//! client-side codec lets callers issue canonical requests against any
//! supported version.

pub mod adapt;
pub mod canonical;
pub mod client;
pub mod error;
pub mod meta;
pub mod mux;
pub mod service;
pub mod shim;
pub mod v1;
pub mod v2;
pub mod version;

pub use canonical::Vector;
