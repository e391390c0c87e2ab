//! Networking core of a peer-to-peer key-value store: authenticated datagram
//! framing, action-tagged messages and a bounded cache with batch eviction.
pub mod cache;
pub mod listener;
pub mod message;

mod errors;
mod value;

pub use cache::Cache;
pub use errors::Error;
pub use value::Value;
