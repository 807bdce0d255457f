//! The answer to a server's encryption request.

use crate::random::draw_secret;
use crate::wire::{big_endian, ReadingError};
use rsa::pkcs8::DecodePublicKey;
use vstd::arithmetic::power::pow;
use vstd::prelude::*;
use vstd::string::StringExecFns;

verus! {

/// Modulus and exponent of an RSA public key.
pub struct KeyNumbers {
    pub modulus: nat,
    pub exponent: nat,
}

/// What `rsa::RsaPublicKey::from_public_key_der` makes of a DER document: the
/// public key that it holds, or the words in which the error describes itself.
pub uninterp spec fn decoded_public_key(der: Seq<u8>) -> Result<KeyNumbers, Seq<char>>;

/// Key documents are shorter than this: the decoder counts the bits of a key in
/// 32 bits.
pub const DOCUMENT_LIMIT: usize = 0x2000_0000;

/// How many bytes it takes to write `n`.
pub open spec fn byte_length(n: nat) -> nat
    decreases n,
{
    if n == 0 {
        0
    } else {
        1 + byte_length(n / 256)
    }
}

/// Whether `block` is `message` padded to `size` bytes for encryption: a zero
/// byte, a two, bytes that are not zero, a zero byte, the message.
pub open spec fn is_padded(block: Seq<u8>, message: Seq<u8>, size: int) -> bool {
    let gap = size - message.len() - 1;
    &&& block.len() == size
    &&& gap >= 10
    &&& block[0] == 0
    &&& block[1] == 2
    &&& forall|i: int| 2 <= i < gap ==> block[i] != 0
    &&& block[gap] == 0
    &&& block.skip(gap + 1) == message
}

/// Whether `cipher` is an encryption of `message` under the key: some padding
/// of the message, raised to the key's exponent modulo its modulus.
pub open spec fn is_encryption(cipher: Seq<u8>, message: Seq<u8>, key: KeyNumbers) -> bool {
    &&& cipher.len() == byte_length(key.modulus)
    &&& exists|block: Seq<u8>|
        #![trigger is_padded(block, message, byte_length(key.modulus) as int)]
        is_padded(block, message, byte_length(key.modulus) as int) && big_endian(cipher) == pow(
            big_endian(block) as int,
            key.exponent,
        ) % key.modulus as int
}

/// Whether a key has one of the sizes that are accepted: 1024 to 8192 bits.
pub open spec fn is_key_size(key: KeyNumbers) -> bool {
    128 <= byte_length(key.modulus) <= 1024
}

/// Decodes a DER document with `rsa::RsaPublicKey::from_public_key_der`, and
/// turns its error into the words in which the error describes itself.  A key
/// that it accepts has a modulus of 1024 to 8192 bits.  On a document past the
/// limit the outside function can overflow, which is left out.
#[verifier::external_body]
fn decode_public_key(der: &[u8]) -> (r: Result<(), String>)
    requires
        der@.len() < DOCUMENT_LIMIT,
    ensures
        r is Ok ==> (decoded_public_key(der@) matches Ok(key) && is_key_size(key)),
        r matches Err(text) ==> (decoded_public_key(der@) matches Err(words) && words == text@),
{
    match rsa::RsaPublicKey::from_public_key_der(der) {
        Ok(_) => Ok(()),
        Err(e) => Err(format!("{e}")),
    }
}

/// Encrypts with `rsa::RsaPublicKey::encrypt`, under the key that the document
/// holds, with the padding scheme `rsa::Pkcs1v15Encrypt` and fresh random
/// padding.  It succeeds exactly where the message leaves room for eleven
/// bytes of padding; elsewhere its error describes itself as a message that is
/// too long.
#[verifier::external_body]
fn encrypt(der: &[u8], message: &[u8]) -> (r: Result<Vec<u8>, String>)
    requires
        der@.len() < DOCUMENT_LIMIT,
        decoded_public_key(der@) is Ok,
    ensures
        r is Ok <==> message@.len() + 11 <= byte_length(decoded_public_key(der@)->Ok_0.modulus),
        r matches Ok(cipher) ==> is_encryption(cipher@, message@, decoded_public_key(der@)->Ok_0),
        r matches Err(text) ==> text@ == "message too long"@,
{
    let key = rsa::RsaPublicKey::from_public_key_der(der).expect("a document that decodes");
    match key.encrypt(&mut rand::rng(), rsa::Pkcs1v15Encrypt, message) {
        Ok(cipher) => Ok(cipher),
        Err(e) => Err(format!("{e}")),
    }
}

/// Why a request could not be answered: which step failed, and what the step
/// said of it.
#[derive(Debug)]
pub enum Refusal {
    /// The server's document holds no public key.
    Key(String),
    /// The shared secret could not be encrypted.
    Secret(String),
    /// The server's token could not be encrypted.
    Token(String),
}

/// The words that open the message for a refusal.
pub open spec fn refusal_start(refusal: Refusal) -> Seq<char> {
    match refusal {
        Refusal::Key(_) => "Failed to parse RSA public key: "@,
        Refusal::Secret(_) => "Failed to encrypt shared secret: "@,
        Refusal::Token(_) => "Failed to encrypt verify token: "@,
    }
}

/// What the failed step said.
pub open spec fn refusal_detail(refusal: Refusal) -> Seq<char> {
    match refusal {
        Refusal::Key(detail) => detail@,
        Refusal::Secret(detail) => detail@,
        Refusal::Token(detail) => detail@,
    }
}

/// Whether `e` is the message made of these words.
pub open spec fn says(e: ReadingError, words: Seq<char>) -> bool {
    e matches ReadingError::Message(text) && text@ == words
}

/// The words for a document that holds no key, given those of the decoder.
pub open spec fn key_complaint(words: Seq<char>) -> Seq<char> {
    "Failed to parse RSA public key: "@ + words
}

/// The words for a token that is too long for the key.
pub open spec fn token_complaint() -> Seq<char> {
    "Failed to encrypt verify token: "@ + "message too long"@
}

/// A shared secret, and what the server is sent for it.
#[derive(Debug)]
pub struct Handshake {
    /// The key of the connection from here on.
    pub secret: [u8; 16],
    /// The secret, encrypted for the server.
    pub shared_secret: Vec<u8>,
    /// The server's token, encrypted for the server.
    pub verify_token: Vec<u8>,
}

/// What `answer_request_with` does with a document that decodes to `key`.
pub open spec fn is_answer(
    r: Result<Handshake, ReadingError>,
    key: Result<KeyNumbers, Seq<char>>,
    token: Seq<u8>,
    secret: [u8; 16],
) -> bool {
    match key {
        Err(words) => r matches Err(e) && says(e, key_complaint(words)),
        Ok(key) => if token.len() + 11 > byte_length(key.modulus) {
            r matches Err(e) && says(e, token_complaint())
        } else {
            &&& r matches Ok(h)
            &&& h.secret == secret
            &&& is_encryption(h.shared_secret@, secret@, key)
            &&& is_encryption(h.verify_token@, token, key)
        },
    }
}

/// Turns the outcome of the two encryptions into the answer: the ciphers go out
/// with the secret kept, and a refusal becomes a message that names the step
/// and repeats what the step said.
pub fn conclude(secret: [u8; 16], outcome: Result<(Vec<u8>, Vec<u8>), Refusal>) -> (r: Result<
    Handshake,
    ReadingError,
>)
    ensures
        match outcome {
            Ok((shared, token)) => r == Ok::<Handshake, ReadingError>(
                Handshake { secret, shared_secret: shared, verify_token: token },
            ),
            Err(refusal) => r matches Err(ReadingError::Message(text)) && text@ == refusal_start(
                refusal,
            ) + refusal_detail(refusal),
        },
{
    let mut text = String::new();
    match outcome {
        Ok((shared_secret, verify_token)) => {
            return Ok(Handshake { secret, shared_secret, verify_token });
        },
        Err(Refusal::Key(detail)) => {
            text.append("Failed to parse RSA public key: ");
            text.append(detail.as_str());
        },
        Err(Refusal::Secret(detail)) => {
            text.append("Failed to encrypt shared secret: ");
            text.append(detail.as_str());
        },
        Err(Refusal::Token(detail)) => {
            text.append("Failed to encrypt verify token: ");
            text.append(detail.as_str());
        },
    }
    Err(ReadingError::Message(text))
}

/// Answers an encryption request with the given shared secret.
///
/// The server's key document is decoded, then the secret and the server's
/// token are encrypted under the key.  A document that holds no key, and a
/// token that is too long for the key, are errors.  A secret is never too long:
/// it has sixteen bytes, and a key takes at least 117.
pub fn answer_request_with(public_key: &[u8], verify_token: &[u8], secret: [u8; 16]) -> (r: Result<
    Handshake,
    ReadingError,
>)
    requires
        public_key@.len() < DOCUMENT_LIMIT,
    ensures
        is_answer(r, decoded_public_key(public_key@), verify_token@, secret),
        decoded_public_key(public_key@) matches Ok(key) ==> is_key_size(key),
{
    conclude(
        secret,
        match decode_public_key(public_key) {
            Err(words) => Err(Refusal::Key(words)),
            Ok(()) => match encrypt(public_key, secret.as_slice()) {
                Err(words) => Err(Refusal::Secret(words)),
                Ok(shared) => match encrypt(public_key, verify_token) {
                    Err(words) => Err(Refusal::Token(words)),
                    Ok(token) => Ok((shared, token)),
                },
            },
        },
    )
}

/// Answers an encryption request with a fresh random shared secret.
pub fn answer_request(public_key: &[u8], verify_token: &[u8]) -> (r: Result<
    Handshake,
    ReadingError,
>)
    requires
        public_key@.len() < DOCUMENT_LIMIT,
    ensures
        exists|secret: [u8; 16]|
            is_answer(r, decoded_public_key(public_key@), verify_token@, secret),
        decoded_public_key(public_key@) matches Ok(key) ==> is_key_size(key),
{
    let secret: [u8; 16] = draw_secret();
    answer_request_with(public_key, verify_token, secret)
}

} // verus!
