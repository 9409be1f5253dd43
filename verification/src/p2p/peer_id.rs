//! Peer identifiers and the keypairs behind them.
//!
//! A keypair is held in its protobuf encoding, the form in which the
//! configuration stores it after base64.

use vstd::prelude::*;
use vstd::string::*;
use crate::util::encoding::{
    base64_no_pad, base64_no_pad_decoded, decode_no_pad, encode_no_pad,
};
use crate::util::errors::ErrorKind;
use crate::util::hasher::{hash, hex_of, sha3_256};
use crate::util::types::Peer;

verus! {

/// The base-58 text of the peer identifier that a text parses to, if it
/// parses to one.
pub uninterp spec fn peer_id_text(text: Seq<char>) -> Option<Seq<char>>;

/// What an encoded keypair identifies, if the bytes encode a keypair: the
/// base-58 text of its peer identifier and, if it is an Ed25519 keypair, the
/// bytes of its public key.
pub uninterp spec fn keypair_identity(protobuf: Seq<u8>) -> Option<(Seq<char>, Option<Seq<u8>>)>;

/// The base-58 text of the peer identifier of an encoded keypair, if the
/// bytes encode a keypair.
pub open spec fn keypair_peer_text(protobuf: Seq<u8>) -> Option<Seq<char>> {
    match keypair_identity(protobuf) {
        Some(identity) => Some(identity.0),
        None => None,
    }
}

/// The bytes of the Ed25519 public key of an encoded keypair, if the bytes
/// encode an Ed25519 keypair.
pub open spec fn keypair_public_key(protobuf: Seq<u8>) -> Option<Seq<u8>> {
    match keypair_identity(protobuf) {
        Some(identity) => identity.1,
        None => None,
    }
}

/// Calls `libp2p_identity::PeerId::from_str`, and `to_base58` on the
/// identifier it gives. The contract gives the outcome the name
/// `peer_id_text`: the text of the identifier, or none where the parse fails.
#[verifier::external_body]
fn peer_id_from_str(text: &str) -> (r: Option<String>)
    ensures
        match r {
            Some(id) => peer_id_text(text@) == Some(id@),
            None => peer_id_text(text@) is None,
        },
{
    match text.parse::<libp2p_identity::PeerId>() {
        Ok(peer_id) => Some(peer_id.to_base58()),
        Err(_) => None,
    }
}

/// Calls `libp2p_identity::Keypair::from_protobuf_encoding` and hands out,
/// of the keypair's public key, the base-58 text of its peer identifier and
/// the bytes of the key if it is an Ed25519 key. The contract gives the
/// outcome the name `keypair_identity`: the two, or none where the bytes are
/// refused.
#[verifier::external_body]
fn keypair_decode(protobuf: &Vec<u8>) -> (r: Option<(String, Option<Vec<u8>>)>)
    ensures
        match r {
            Some(found) => keypair_identity(protobuf@) == Some(
                (
                    found.0@,
                    match found.1 {
                        Some(key) => Some(key@),
                        None => None,
                    },
                ),
            ),
            None => keypair_identity(protobuf@) is None,
        },
{
    match libp2p_identity::Keypair::from_protobuf_encoding(protobuf) {
        Ok(keypair) => {
            let public = keypair.public();
            let key = match public.clone().try_into_ed25519() {
                Ok(key) => Some(key.to_bytes().to_vec()),
                Err(_) => None,
            };
            Some((public.to_peer_id().to_base58(), key))
        },
        Err(_) => None,
    }
}

/// The base-58 text of the peer identifier of an encoded keypair.
fn keypair_peer_id(protobuf: &Vec<u8>) -> (r: Option<String>)
    ensures
        match r {
            Some(id) => keypair_peer_text(protobuf@) == Some(id@),
            None => keypair_peer_text(protobuf@) is None,
        },
{
    match keypair_decode(protobuf) {
        Some(found) => Some(found.0),
        None => None,
    }
}

/// The bytes of the Ed25519 public key of an encoded keypair.
fn keypair_public_bytes(protobuf: &Vec<u8>) -> (r: Option<Vec<u8>>)
    ensures
        match r {
            Some(key) => keypair_public_key(protobuf@) == Some(key@),
            None => keypair_public_key(protobuf@) is None,
        },
{
    match keypair_decode(protobuf) {
        Some(found) => found.1,
        None => None,
    }
}

/// Calls `libp2p_identity::Keypair::generate_ed25519` and hands out the
/// protobuf encoding of the new keypair. The keypair is random: the
/// contract claims only what holds of every one, that its encoding is read
/// back as an Ed25519 keypair. The encoding holds the sixty-four bytes that
/// `ed25519::Keypair::to_bytes` gives, which is the format that
/// `ed25519::Keypair::try_from_bytes` parses, and the public half of those
/// bytes is documented to be the key derived from the secret half.
#[verifier::external_body]
fn generate_ed25519() -> (protobuf: Vec<u8>)
    ensures
        keypair_public_key(protobuf@) is Some,
{
    libp2p_identity::Keypair::generate_ed25519().to_protobuf_encoding().unwrap_or_default()
}

impl Peer {
    /// Reads a peer identifier from its base-58 text.
    pub fn parse(text: &str) -> (r: Result<Peer, ErrorKind>)
        ensures
            match r {
                Ok(peer) => peer_id_text(text@) == Some(peer@),
                Err(e) => peer_id_text(text@) is None && e is InvalidPeerId,
            },
    {
        match peer_id_from_str(text) {
            Some(id) => Ok(Peer::new(id)),
            None => Err(ErrorKind::InvalidPeerId),
        }
    }
}

/// A keypair in its protobuf encoding.
pub struct Keypair {
    protobuf: Vec<u8>,
}

impl View for Keypair {
    type V = Seq<u8>;

    closed spec fn view(&self) -> Seq<u8> {
        self.protobuf@
    }
}

impl Clone for Keypair {
    fn clone(&self) -> (copy: Self)
        ensures
            copy@ == self@,
    {
        Keypair { protobuf: self.protobuf.clone() }
    }
}

impl Keypair {
    /// The keypair with the given protobuf encoding. The bytes are taken as
    /// they are.
    pub fn from_protobuf(protobuf: Vec<u8>) -> (keypair: Keypair)
        ensures
            keypair@ == protobuf@,
    {
        Keypair { protobuf }
    }

    /// The protobuf encoding.
    pub fn to_protobuf(&self) -> (protobuf: Vec<u8>)
        ensures
            protobuf@ == self@,
    {
        self.protobuf.clone()
    }

    /// The peer that this keypair identifies, if the encoding is valid.
    pub fn peer(&self) -> (r: Option<Peer>)
        ensures
            match r {
                Some(peer) => keypair_peer_text(self@) == Some(peer@),
                None => keypair_peer_text(self@) is None,
            },
    {
        match keypair_peer_id(&self.protobuf) {
            Some(id) => Some(Peer::new(id)),
            None => None,
        }
    }
}

/// Whether the first `leading_zeros` characters of a text are all `'0'`. A
/// text shorter than that qualifies when all its characters are.
pub open spec fn zeros_lead(text: Seq<char>, leading_zeros: nat) -> bool {
    forall|k: int| 0 <= k < text.len() && k < leading_zeros ==> text[k] == '0'
}

/// Whether the first `leading_zeros` characters of a text are all `'0'`.
pub fn has_leading_zeros(text: &str, leading_zeros: usize) -> (ok: bool)
    ensures
        ok == zeros_lead(text@, leading_zeros as nat),
{
    let len = text.unicode_len();
    let mut k: usize = 0;
    while k < len && k < leading_zeros
        invariant
            k <= len,
            len == text@.len(),
            forall|t: int| 0 <= t < k ==> text@[t] == '0',
        decreases len - k,
    {
        if text.get_char(k) != '0' {
            return false;
        }
        k = k + 1;
    }
    true
}

/// A new keypair: a random Ed25519 keypair, which identifies a peer.
pub fn generate_keypair() -> (keypair: Keypair)
    ensures
        keypair_public_key(keypair@) is Some,
        keypair_peer_text(keypair@) is Some,
{
    Keypair { protobuf: generate_ed25519() }
}

/// The form in which the configuration holds a keypair: the base64 text,
/// without padding, of its protobuf encoding.
pub fn keypair_to_base64_proto(keypair: Keypair) -> (encoded: String)
    ensures
        encoded@ == base64_no_pad(keypair@),
{
    encode_no_pad(&keypair.protobuf)
}

/// Reads a keypair from the form in which the configuration holds it. A
/// text that is no base64 is read as the empty encoding; an encoding that
/// no keypair has gives `KeypairBase64DecodingError`.
pub fn keypair_from_base64_proto(encoded: String) -> (r: Result<Keypair, ErrorKind>)
    ensures
        ({
            let bytes = match base64_no_pad_decoded(encoded@) {
                Some(b) => b,
                None => Seq::<u8>::empty(),
            };
            match r {
                Ok(keypair) => keypair@ == bytes && keypair_peer_text(bytes) is Some,
                Err(e) => keypair_peer_text(bytes) is None && e is KeypairBase64DecodingError,
            }
        }),
{
    let decoded = match decode_no_pad(encoded.as_str()) {
        Some(bytes) => bytes,
        None => Vec::new(),
    };
    match keypair_peer_id(&decoded) {
        Some(_) => Ok(Keypair { protobuf: decoded }),
        None => Err(ErrorKind::KeypairBase64DecodingError),
    }
}

/// What the configuration's keypair text stands for: the encoded keypair
/// and the text of its peer identifier, or the error that its reading ends
/// with.
pub open spec fn configured(encoded: Seq<char>) -> Result<(Seq<u8>, Seq<char>), ErrorKind> {
    match base64_no_pad_decoded(encoded) {
        None => Err(ErrorKind::KeypairBase64DecodeError),
        Some(bytes) => match keypair_peer_text(bytes) {
            None => Err(ErrorKind::KeypairBase64DecodingError),
            Some(id) => Ok((bytes, id)),
        },
    }
}

/// The keypair that the configuration holds, with its peer. A text that is
/// no base64 gives `KeypairBase64DecodeError`, an encoding that no keypair
/// has gives `KeypairBase64DecodingError`.
pub fn configured_keypair(encoded: &str) -> (r: Result<(Keypair, Peer), ErrorKind>)
    ensures
        match r {
            Ok(found) => configured(encoded@) == Ok::<(Seq<u8>, Seq<char>), ErrorKind>(
                (found.0@, found.1@),
            ),
            Err(e) => configured(encoded@) == Err::<(Seq<u8>, Seq<char>), ErrorKind>(e),
        },
{
    match decode_no_pad(encoded) {
        None => Err(ErrorKind::KeypairBase64DecodeError),
        Some(bytes) => match keypair_peer_id(&bytes) {
            Some(id) => Ok((Keypair { protobuf: bytes }, Peer::new(id))),
            None => Err(ErrorKind::KeypairBase64DecodingError),
        },
    }
}

/// The peer of the keypair that the configuration holds, with the errors of
/// `configured_keypair`.
pub fn local_peer(encoded: &str) -> (r: Result<Peer, ErrorKind>)
    ensures
        match r {
            Ok(peer) => configured(encoded@) matches Ok(found) && found.1 == peer@,
            Err(e) => configured(encoded@) == Err::<(Seq<u8>, Seq<char>), ErrorKind>(e),
        },
{
    match configured_keypair(encoded) {
        Ok(found) => Ok(found.1),
        Err(e) => Err(e),
    }
}

/// Whether a keypair is an Ed25519 keypair whose public key has a hash that
/// begins with `leading_zeros` zero digits.
pub open spec fn key_has_leading_zeros(protobuf: Seq<u8>, leading_zeros: nat) -> bool {
    keypair_public_key(protobuf) matches Some(key) && zeros_lead(
        hex_of(sha3_256(key)),
        leading_zeros,
    )
}

impl Keypair {
    /// Whether this is an Ed25519 keypair whose public key has a hash that
    /// begins with `leading_zeros` zero digits.
    pub fn qualifies(&self, leading_zeros: usize) -> (ok: bool)
        ensures
            ok == key_has_leading_zeros(self@, leading_zeros as nat),
    {
        match keypair_public_bytes(&self.protobuf) {
            Some(key) => {
                let hashed = hash(key.as_slice());
                has_leading_zeros(hashed.as_str(), leading_zeros)
            },
            None => false,
        }
    }
}

/// Generates keypairs until the hash of one's public key begins with
/// `leading_zeros` zero digits, and returns that one; gives up after
/// `max_tries` keypairs. Which keypairs are generated is a matter of
/// chance, and with it whether one of them qualifies; only where no zero
/// digit is asked for does the first keypair qualify for certain.
pub fn generate_with_leading_zeros(leading_zeros: usize, max_tries: u64) -> (r: Option<Keypair>)
    ensures
        r matches Some(keypair) ==> key_has_leading_zeros(keypair@, leading_zeros as nat),
        max_tries == 0 ==> r is None,
        leading_zeros == 0 && max_tries > 0 ==> r is Some,
{
    let mut tries: u64 = 0;
    while tries < max_tries
        invariant
            tries <= max_tries,
            leading_zeros == 0 ==> tries == 0,
        decreases max_tries - tries,
    {
        tries = tries + 1;
        let inner = generate_keypair();
        if inner.qualifies(leading_zeros) {
            return Some(inner);
        }
    }
    None
}

} // verus!
