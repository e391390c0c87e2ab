//! Messages exchanged between peers, and the key that seals them into packets
//!
//! A packet is `nonce || sealed`, where `sealed` is the AES-256-GCM-SIV
//! ciphertext of the message followed by its 16-byte tag. A message is
//! `action_byte || payload`.
use vstd::prelude::*;

mod action;
mod cipher;
mod request;
mod response;

pub use action::{lemma_action_byte_round_trip, lemma_unknown_byte_refused, Action, ToAction};

use crate::Error;
use cipher::{aead_open, aead_seal, fresh_nonce};

pub use request::{lemma_request_round_trip, Request, RequestView};
pub use response::{lemma_response_reads_as_request, lemma_response_round_trip, Response};
pub use cipher::{aead_opened, aead_sealed, MAX_MESSAGE_LEN, NONCE_LEN, TAG_LEN};

verus! {

/// Alias to an encrypted version of [MessageBytes]
pub type PacketBytes = Vec<u8>;

/// Alias to a decrypted version of [PacketBytes]
pub type MessageBytes = Vec<u8>;

/// The packet that sealing `msg` under `key` with `nonce` gives
pub open spec fn sealed_packet(key: Seq<u8>, nonce: Seq<u8>, msg: Seq<u8>) -> Seq<u8> {
    nonce + aead_sealed(key, nonce, msg)
}

/// What opening `packet` under `key` gives: a length error when no nonce fits
/// in it, an encryption error when what follows the nonce is shorter than a
/// tag, too long for any sealed message, or not authenticated by its tag
pub open spec fn opened_packet(key: Seq<u8>, packet: Seq<u8>) -> Result<Seq<u8>, Error> {
    if packet.len() < NONCE_LEN {
        Err(Error::Length)
    } else if packet.len() < NONCE_LEN + TAG_LEN || packet.len() >= NONCE_LEN + MAX_MESSAGE_LEN
        + TAG_LEN {
        Err(Error::Encryption)
    } else {
        match aead_opened(
            key,
            packet.subrange(0, NONCE_LEN as int),
            packet.subrange(NONCE_LEN as int, packet.len() as int),
        ) {
            Some(msg) => Ok(msg),
            None => Err(Error::Encryption),
        }
    }
}

/// Encryption key for AES-256-GCM-SIV packets, shared by every peer of a network
#[derive(Clone)]
pub struct Key {
    bytes: [u8; 32],
}

impl View for Key {
    type V = Seq<u8>;

    /// The 32 secret bytes
    closed spec fn view(&self) -> Seq<u8> {
        self.bytes@
    }
}

impl Key {
    /// Makes a key of the 32 secret bytes given
    pub fn new(key: &[u8; 32]) -> (k: Key)
        ensures
            k@ == key@,
    {
        Key { bytes: *key }
    }

    /// Encrypts [MessageBytes] into [PacketBytes] under a fresh random nonce
    pub fn encrypt(&self, msg_bytes: MessageBytes) -> (r: Result<PacketBytes, Error>)
        ensures
            r is Ok <==> msg_bytes@.len() < MAX_MESSAGE_LEN,
            r matches Err(e) ==> e == Error::Encryption,
            r matches Ok(p) ==> p@.len() == NONCE_LEN + msg_bytes@.len() + TAG_LEN,
            r matches Ok(p) ==> p@ == sealed_packet(
                self@,
                p@.subrange(0, NONCE_LEN as int),
                msg_bytes@,
            ),
            r matches Ok(p) ==> opened_packet(self@, p@) == Ok::<Seq<u8>, Error>(msg_bytes@),
    {
        if msg_bytes.len() as u64 >= MAX_MESSAGE_LEN {
            return Err(Error::Encryption);
        }
        let nonce = fresh_nonce();
        match aead_seal(&self.bytes, &nonce, msg_bytes.as_slice()) {
            Some(mut sealed) => {
                let mut packet = vstd::slice::slice_to_vec(nonce.as_slice());
                packet.append(&mut sealed);
                proof {
                    assert(packet@.subrange(0, NONCE_LEN as int) =~= nonce@);
                    assert(packet@.subrange(NONCE_LEN as int, packet@.len() as int)
                        =~= aead_sealed(self@, nonce@, msg_bytes@));
                }
                Ok(packet)
            },
            None => Err(Error::Encryption),
        }
    }

    /// Decrypts a [PacketBytes] into a [MessageBytes]
    pub fn decrypt(&self, packet_bytes: PacketBytes) -> (r: Result<MessageBytes, Error>)
        ensures
            packet_bytes@.len() < NONCE_LEN ==> r == Err::<MessageBytes, Error>(Error::Length),
            NONCE_LEN <= packet_bytes@.len() < NONCE_LEN + TAG_LEN ==> r == Err::<
                MessageBytes,
                Error,
            >(Error::Encryption),
            r matches Ok(m) ==> m@.len() + NONCE_LEN + TAG_LEN == packet_bytes@.len(),
            r matches Ok(m) ==> opened_packet(self@, packet_bytes@) == Ok::<Seq<u8>, Error>(m@),
            r matches Err(e) ==> opened_packet(self@, packet_bytes@) == Err::<Seq<u8>, Error>(e),
    {
        if packet_bytes.len() < NONCE_LEN {
            return Err(Error::Length);
        }
        if (packet_bytes.len() - NONCE_LEN) as u64 >= MAX_MESSAGE_LEN + TAG_LEN as u64 {
            return Err(Error::Encryption);
        }
        let (nonce, sealed) = packet_bytes.as_slice().split_at(NONCE_LEN);
        match aead_open(&self.bytes, nonce, sealed) {
            Some(m) => Ok(m),
            None => Err(Error::Encryption),
        }
    }
}

/// A decoding result as contracts see it: the view of what was decoded, or the error
pub open spec fn result_view<T: View>(r: Result<T, Error>) -> Result<T::V, Error> {
    match r {
        Ok(t) => Ok(t@),
        Err(e) => Err(e),
    }
}

/// Two-way messaging constructs, allowing encoding/encryption and decoding/decryption
pub trait Message: Sized + View {
    /// The message bytes that a message with view `v` is written as
    spec fn wire(v: Self::V) -> Seq<u8>;

    /// What reading `bytes` as this kind of message gives
    spec fn read(bytes: Seq<u8>) -> Result<Self::V, Error>;

    /// Decodes message into self; used in [Self::from_packet]
    fn from_msg(msg_bytes: MessageBytes) -> (r: Result<Self, Error>)
        ensures
            result_view(r) == Self::read(msg_bytes@),
    ;

    /// Encodes self into a message ready to be encrypted and sent; used in [Self::to_packet]
    fn to_msg(&self) -> (r: Result<MessageBytes, Error>)
        ensures
            r matches Ok(m) && m@ == Self::wire(self@),
    ;

    /// Fully decrypts and decodes a packet from start to finish, resulting in self
    fn from_packet(key: &Key, packet_bytes: PacketBytes) -> (r: Result<Self, Error>)
        ensures
            result_view(r) == match opened_packet(key@, packet_bytes@) {
                Ok(msg) => Self::read(msg),
                Err(e) => Err(e),
            },
    {
        match key.decrypt(packet_bytes) {
            Ok(msg) => Self::from_msg(msg),
            Err(e) => Err(e),
        }
    }

    /// Fully encodes and encrypts self into a packet ready to be sent
    fn to_packet(&self, key: &Key) -> (r: Result<PacketBytes, Error>)
        ensures
            r is Ok <==> Self::wire(self@).len() < MAX_MESSAGE_LEN,
            r matches Err(e) ==> e == Error::Encryption,
            r matches Ok(p) ==> p@.len() == NONCE_LEN + Self::wire(self@).len() + TAG_LEN,
            r matches Ok(p) ==> p@ == sealed_packet(
                key@,
                p@.subrange(0, NONCE_LEN as int),
                Self::wire(self@),
            ),
            r matches Ok(p) ==> opened_packet(key@, p@) == Ok::<Seq<u8>, Error>(
                Self::wire(self@),
            ),
    {
        match self.to_msg() {
            Ok(msg) => key.encrypt(msg),
            Err(e) => Err(e),
        }
    }
}

} // verus!
