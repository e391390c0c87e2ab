//! What a listening peer does with each datagram it receives
use vstd::prelude::*;

use crate::message::{
    opened_packet, sealed_packet, Action, Key, Message, PacketBytes, Request, RequestView,
    Response, NONCE_LEN,
};
use crate::Error;

verus! {

/// Longest datagram that a listener handles; longer ones are dropped unread
pub const MAX_DATAGRAM_LEN: usize = 1024;

/// Whether a datagram of `len` bytes is handled at all
pub fn accepts_datagram(len: usize) -> (r: bool)
    ensures
        r == (len <= MAX_DATAGRAM_LEN),
{
    len <= MAX_DATAGRAM_LEN
}

/// The packet that answers `packet`, or why it is dropped unanswered
///
/// A ping-pong request is answered with a ping-pong response sealed under the
/// same key. A key send has no handler yet. A packet that does not open under
/// the key, or does not read as a request, gets its error back.
pub fn listen_handle(key: &Key, packet: PacketBytes) -> (r: Result<PacketBytes, Error>)
    ensures
        match opened_packet(key@, packet@) {
            Err(e) => r == Err::<PacketBytes, Error>(e),
            Ok(msg) => match Request::read(msg) {
                Err(e) => r == Err::<PacketBytes, Error>(e),
                Ok(RequestView::PingPong) => r matches Ok(p) && {
                    &&& p@ == sealed_packet(
                        key@,
                        p@.subrange(0, NONCE_LEN as int),
                        Response::wire(Response::PingPong),
                    )
                    &&& opened_packet(key@, p@) == Ok::<Seq<u8>, Error>(
                        Response::wire(Response::PingPong),
                    )
                },
                Ok(RequestView::KeySend(_)) => r == Err::<PacketBytes, Error>(
                    Error::ActionUnimplemented(Action::KeySend),
                ),
            },
        },
{
    match Request::from_packet(key, packet) {
        Ok(Request::PingPong) => Response::PingPong.to_packet(key),
        Ok(Request::KeySend(_)) => Err(Error::ActionUnimplemented(Action::KeySend)),
        Err(e) => Err(e),
    }
}

} // verus!
