//! Relays a signed transaction to a closed set of block-builder services.
//!
//! The library holds the verified core: the builder directory, the JSON-RPC
//! request body each builder receives, the classification of each builder's
//! response, and the reduction of all per-builder outcomes into one result.
//! The HTTP exchanges themselves are performed by the surrounding program.

pub mod builders;
pub mod dispatch;
pub mod payload;
