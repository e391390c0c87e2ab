use kurz::listener::{accepts_datagram, listen_handle, MAX_DATAGRAM_LEN};
use kurz::message::{Action, Key, Message, Request, Response};
use kurz::Error;

#[test]
fn pingpong_answered_by_peer_with_same_key() -> Result<(), Error> {
    let shared = [3u8; 32];
    let node_a = Key::new(&shared);
    let node_b = Key::new(&shared);
    let packet = Request::PingPong.to_packet(&node_a)?;
    let reply = listen_handle(&node_b, packet)?;
    assert_eq!(Response::from_packet(&node_a, reply)?, Response::PingPong);
    Ok(())
}

#[test]
fn pingpong_from_foreign_key_dropped() -> Result<(), Error> {
    let node_b = Key::new(&[3u8; 32]);
    let node_c = Key::new(&[4u8; 32]);
    let packet = Request::PingPong.to_packet(&node_c)?;
    assert_eq!(listen_handle(&node_b, packet), Err(Error::Encryption));
    Ok(())
}

#[test]
fn key_send_not_handled() -> Result<(), Error> {
    let key = Key::new(&[1u8; 32]);
    let packet = Request::KeySend(vec![1, 2, 3]).to_packet(&key)?;
    assert_eq!(
        listen_handle(&key, packet),
        Err(Error::ActionUnimplemented(Action::KeySend))
    );
    Ok(())
}

#[test]
fn malformed_packets_dropped() {
    let key = Key::new(&[1u8; 32]);
    assert_eq!(listen_handle(&key, vec![0; 5]), Err(Error::Length));
    let empty = key.encrypt(vec![]).unwrap();
    assert_eq!(listen_handle(&key, empty), Err(Error::Length));
    let unknown = key.encrypt(vec![42]).unwrap();
    assert_eq!(listen_handle(&key, unknown), Err(Error::Action(42)));
}

#[test]
fn oversized_datagrams_refused() {
    assert_eq!(MAX_DATAGRAM_LEN, 1024);
    assert!(accepts_datagram(0));
    assert!(accepts_datagram(1024));
    assert!(!accepts_datagram(1025));
}
