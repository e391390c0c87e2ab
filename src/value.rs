//! Stored values and their publication time
use vstd::prelude::*;

verus! {

/// Wrapper for a value with network metadata attached
#[derive(Debug, Clone, PartialEq, Eq)]
pub struct Value<V> {
    /// The actual value
    pub inner: V,
    /// Time this value was published to the system, in nanoseconds since the Unix epoch
    pub published: u128,
}

} // verus!
