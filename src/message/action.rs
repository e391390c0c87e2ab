//! The one-byte intent carried at the front of every message
use vstd::prelude::*;

use crate::Error;

verus! {

/// Intention of any given message
#[derive(Debug, Clone, Copy, PartialEq, Eq, Structural)]
pub enum Action {
    /// Tests a connection: the receiving peer answers with the same action, no data
    PingPong,
    /// Hands a key and its value to another peer
    KeySend,
}

impl Action {
    /// The byte that stands for this action on the wire
    pub open spec fn byte(self) -> u8 {
        match self {
            Action::PingPong => 0,
            Action::KeySend => 1,
        }
    }

    /// What reading `b` as an action byte gives
    pub open spec fn of_byte(b: u8) -> Result<Action, Error> {
        if b == 0 {
            Ok(Action::PingPong)
        } else if b == 1 {
            Ok(Action::KeySend)
        } else {
            Err(Error::Action(b))
        }
    }

    /// Converts an action byte into a known action, or reports the unknown byte
    pub fn from_byte(action_byte: u8) -> (r: Result<Action, Error>)
        ensures
            r == Action::of_byte(action_byte),
    {
        match action_byte {
            0 => Ok(Action::PingPong),
            1 => Ok(Action::KeySend),
            unknown => Err(Error::Action(unknown)),
        }
    }

    /// The byte that stands for this action on the wire
    pub fn to_byte(&self) -> (b: u8)
        ensures
            b == self.byte(),
    {
        match self {
            Action::PingPong => 0,
            Action::KeySend => 1,
        }
    }
}

impl From<Action> for u8 {
    fn from(action: Action) -> (b: u8) {
        action.to_byte()
    }
}

impl vstd::std_specs::convert::FromSpecImpl<Action> for u8 {
    open spec fn obeys_from_spec() -> bool {
        true
    }

    open spec fn from_spec(action: Action) -> u8 {
        action.byte()
    }
}

/// Message conversion to its [Action] intent
pub trait ToAction {
    /// The action that this message stands for
    spec fn intent(&self) -> Action;

    /// Provides the full [Action] of what this message corresponds to
    fn action(&self) -> (a: Action)
        ensures
            a == self.intent(),
    ;

    /// Provides the action byte of what the message corresponds to
    fn action_byte(&self) -> (b: u8)
        ensures
            b == self.intent().byte(),
    {
        self.action().to_byte()
    }
}

/// Reading the byte of an action gives that action back.
pub proof fn lemma_action_byte_round_trip(a: Action)
    ensures
        Action::of_byte(a.byte()) == Ok::<Action, Error>(a),
{
}

/// A byte that no action stands for is refused, and the error carries it.
pub proof fn lemma_unknown_byte_refused(b: u8)
    requires
        forall|a: Action| a.byte() != b,
    ensures
        Action::of_byte(b) == Err::<Action, Error>(Error::Action(b)),
{
    assert(Action::PingPong.byte() != b);
    assert(Action::KeySend.byte() != b);
}

} // verus!
