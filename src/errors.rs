//! The library's error kinds
use vstd::prelude::*;

use crate::message::Action;

verus! {

/// What can go wrong while reading or writing a message
#[derive(Debug, Clone, Copy, PartialEq, Eq, Structural)]
pub enum Error {
    /// A packet too short to hold a nonce, or a message too short to hold an action byte
    Length,
    /// The authenticated cipher refused to seal or open the bytes
    Encryption,
    /// A byte that names no known action
    Action(u8),
    /// A known action that this kind of message has no variant for
    ActionUnimplemented(Action),
}

} // verus!
