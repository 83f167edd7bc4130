//! Bridge and initialization core of an embedded Ethereum-style development
//! node: it resolves a node configuration, selects a block-production
//! (mining) mode, assembles a node instance, and executes JSON-RPC-shaped
//! text requests against it, returning structured text responses.

pub mod config;
pub mod digest;
pub mod mining;
pub mod node;
pub mod pool;
pub mod request;
pub mod response;
pub mod runtime;
pub mod text;
