//! Responses sent back after a request
use vstd::prelude::*;

use super::{Action, Message, MessageBytes, Request, RequestView, ToAction};
use crate::Error;

verus! {

/// Response optionally sent back from a peer after a request was received
#[derive(Debug, Clone, Copy, PartialEq, Eq, Structural)]
pub enum Response {
    /// See [Action::PingPong]
    PingPong,
}

impl View for Response {
    type V = Response;

    open spec fn view(&self) -> Response {
        *self
    }
}

impl ToAction for Response {
    open spec fn intent(&self) -> Action {
        match self {
            Response::PingPong => Action::PingPong,
        }
    }

    fn action(&self) -> (a: Action) {
        match self {
            Response::PingPong => Action::PingPong,
        }
    }
}

impl Message for Response {
    /// The action byte alone
    open spec fn wire(v: Response) -> Seq<u8> {
        seq![v.intent().byte()]
    }

    /// A length error for no bytes, the action byte's error for an unknown
    /// action, and an unimplemented action for one with no response
    open spec fn read(bytes: Seq<u8>) -> Result<Response, Error> {
        if bytes.len() == 0 {
            Err(Error::Length)
        } else {
            match Action::of_byte(bytes[0]) {
                Ok(Action::PingPong) => Ok(Response::PingPong),
                Ok(Action::KeySend) => Err(Error::ActionUnimplemented(Action::KeySend)),
                Err(e) => Err(e),
            }
        }
    }

    fn from_msg(msg_bytes: MessageBytes) -> (r: Result<Response, Error>) {
        if msg_bytes.len() < 1 {
            return Err(Error::Length);
        }
        match Action::from_byte(msg_bytes[0]) {
            Ok(Action::PingPong) => Ok(Response::PingPong),
            Ok(Action::KeySend) => Err(Error::ActionUnimplemented(Action::KeySend)),
            Err(e) => Err(e),
        }
    }

    fn to_msg(&self) -> (r: Result<MessageBytes, Error>) {
        let msg = vec![self.action_byte()];
        proof {
            assert(msg@ =~= Self::wire(self@));
        }
        Ok(msg)
    }
}

/// Reading the bytes that a response is written as gives that response back.
pub proof fn lemma_response_round_trip(r: Response)
    ensures
        Response::read(Response::wire(r)) == Ok::<Response, Error>(r),
{
}

/// Bytes that read as a response read as the request of the same action, and
/// a ping-pong is written alike as either, so a decoded response can be sent
/// on as a request unchanged.
pub proof fn lemma_response_reads_as_request(bytes: Seq<u8>)
    requires
        Response::read(bytes) is Ok,
    ensures
        Response::read(bytes) == Ok::<Response, Error>(Response::PingPong),
        Request::read(bytes) == Ok::<RequestView, Error>(RequestView::PingPong),
        Request::wire(RequestView::PingPong) == Response::wire(Response::PingPong),
{
}

} // verus!
