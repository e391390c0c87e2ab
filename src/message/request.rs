//! Requests sent to other peers
use vstd::prelude::*;

use super::{Action, Message, MessageBytes, ToAction};
use crate::Error;

verus! {

/// Requests which are sent to other peers on the network, optionally expecting a response
#[derive(Debug, Clone, PartialEq, Eq)]
pub enum Request {
    /// See [Action::PingPong]
    PingPong,
    /// See [Action::KeySend]; holds the key and its value as the caller encoded them
    KeySend(Vec<u8>),
}

/// What a [Request] holds, as contracts see it
pub enum RequestView {
    PingPong,
    KeySend(Seq<u8>),
}

impl View for Request {
    type V = RequestView;

    open spec fn view(&self) -> RequestView {
        match self {
            Request::PingPong => RequestView::PingPong,
            Request::KeySend(payload) => RequestView::KeySend(payload@),
        }
    }
}

impl ToAction for Request {
    open spec fn intent(&self) -> Action {
        match self {
            Request::PingPong => Action::PingPong,
            Request::KeySend(_) => Action::KeySend,
        }
    }

    fn action(&self) -> (a: Action) {
        match self {
            Request::PingPong => Action::PingPong,
            Request::KeySend(_) => Action::KeySend,
        }
    }
}

impl Message for Request {
    /// The action byte, then the payload of a key send
    open spec fn wire(v: RequestView) -> Seq<u8> {
        match v {
            RequestView::PingPong => seq![Action::PingPong.byte()],
            RequestView::KeySend(payload) => seq![Action::KeySend.byte()] + payload,
        }
    }

    /// A length error for no bytes, the action byte's error for an unknown
    /// action; a ping-pong ignores what follows its byte, a key send keeps it
    open spec fn read(bytes: Seq<u8>) -> Result<RequestView, Error> {
        if bytes.len() == 0 {
            Err(Error::Length)
        } else {
            match Action::of_byte(bytes[0]) {
                Ok(Action::PingPong) => Ok(RequestView::PingPong),
                Ok(Action::KeySend) => Ok(RequestView::KeySend(bytes.subrange(1, bytes.len() as int))),
                Err(e) => Err(e),
            }
        }
    }

    fn from_msg(msg_bytes: MessageBytes) -> (r: Result<Request, Error>) {
        if msg_bytes.len() < 1 {
            return Err(Error::Length);
        }
        match Action::from_byte(msg_bytes[0]) {
            Ok(Action::PingPong) => Ok(Request::PingPong),
            Ok(Action::KeySend) => {
                let mut payload = msg_bytes;
                payload.remove(0);
                proof {
                    assert(payload@ =~= msg_bytes@.subrange(1, msg_bytes@.len() as int));
                }
                Ok(Request::KeySend(payload))
            },
            Err(e) => Err(e),
        }
    }

    fn to_msg(&self) -> (r: Result<MessageBytes, Error>) {
        let mut msg = vec![self.action_byte()];
        match self {
            Request::PingPong => {},
            Request::KeySend(payload) => {
                msg.extend_from_slice(payload.as_slice());
            },
        }
        proof {
            assert(msg@ =~= Self::wire(self@));
        }
        Ok(msg)
    }
}

/// Reading the bytes that a request is written as gives that request back.
pub proof fn lemma_request_round_trip(v: RequestView)
    ensures
        Request::read(Request::wire(v)) == Ok::<RequestView, Error>(v),
{
    match v {
        RequestView::PingPong => {},
        RequestView::KeySend(payload) => {
            let bytes = Request::wire(v);
            assert(bytes.subrange(1, bytes.len() as int) =~= payload);
        },
    }
}

} // verus!
