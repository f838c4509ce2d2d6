//! The signer: HMAC-SHA256 over the protocol's message, printed as lowercase hex.

use vstd::prelude::*;
use vstd::string::*;
use vstd::utf8::encode_utf8;
use hmac::Mac;
use crate::numbers::{decimal_string, decimal_text, hex_digit};

verus! {

/// The HMAC-SHA256 digest of a message under a key, as the `hmac` and `sha2`
/// crates compute it.
pub uninterp spec fn hmac_sha256_digest(key: Seq<u8>, message: Seq<u8>) -> Seq<u8>;

/// Two lowercase hexadecimal digits per byte, high nibble first.
pub open spec fn hex_text(bytes: Seq<u8>) -> Seq<char> {
    Seq::new(
        2 * bytes.len(),
        |i: int| hex_digit(if i % 2 == 0 { bytes[i / 2] as int / 16 } else { bytes[i / 2] as int % 16 }),
    )
}

/// Whether a character is a lowercase hexadecimal digit.
pub open spec fn is_hex_char(c: char) -> bool {
    ('0' <= c && c <= '9') || ('a' <= c && c <= 'f')
}

/// Whether a text has the shape of a signature: 64 lowercase hexadecimal
/// digits, two for each of the digest's 32 bytes.
pub open spec fn is_signature(text: Seq<char>) -> bool {
    &&& text.len() == 64
    &&& forall|i: int| 0 <= i < text.len() ==> is_hex_char(#[trigger] text[i])
}

/// The hex text of bytes holds two characters for each byte, and nothing but
/// lowercase hexadecimal digits.
pub proof fn hex_text_is_lowercase_hex(bytes: Seq<u8>)
    ensures
        hex_text(bytes).len() == 2 * bytes.len(),
        forall|i: int| 0 <= i < hex_text(bytes).len() ==> is_hex_char(#[trigger] hex_text(bytes)[i]),
{
    assert forall|n: int| 0 <= n < 16 implies is_hex_char(#[trigger] hex_digit(n)) by {
        if n == 0 {
        } else if n == 1 {
        } else if n == 2 {
        } else if n == 3 {
        } else if n == 4 {
        } else if n == 5 {
        } else if n == 6 {
        } else if n == 7 {
        } else if n == 8 {
        } else if n == 9 {
        } else if n == 10 {
        } else if n == 11 {
        } else if n == 12 {
        } else if n == 13 {
        } else if n == 14 {
        } else {
        }
    }
    assert forall|i: int| 0 <= i < hex_text(bytes).len() implies is_hex_char(
        #[trigger] hex_text(bytes)[i],
    ) by {
        let byte = bytes[i / 2] as int;
        assert(0 <= byte / 16 < 16 && 0 <= byte % 16 < 16);
    }
}

/// The message that the exchange expects to be signed: timestamp, API key,
/// receive window and canonical payload, with nothing between them.
pub open spec fn signing_message(
    timestamp: u128,
    api_key: Seq<char>,
    recv_window: Seq<char>,
    payload: Seq<char>,
) -> Seq<char> {
    decimal_text(timestamp as nat) + api_key + recv_window + payload
}

/// The signature of a message under a secret: the hex text of the HMAC-SHA256
/// digest of the message's UTF-8 bytes, keyed by the secret's UTF-8 bytes.
pub open spec fn signature_text(secret: Seq<char>, message: Seq<char>) -> Seq<char> {
    hex_text(hmac_sha256_digest(encode_utf8(secret), encode_utf8(message)))
}

/// Runs `Hmac::<Sha256>::new_from_slice`, `update` and `finalize` of the `hmac`
/// crate. `new_from_slice` takes a key of any length (a long one is hashed, a
/// short one padded), so a digest always comes back; SHA-256 makes it 32 bytes.
#[verifier::external_body]
fn hmac_sha256(key: &[u8], message: &[u8]) -> (r: Option<Vec<u8>>)
    ensures
        r is Some,
        r->0@ == hmac_sha256_digest(key@, message@),
        r->0@.len() == 32,
{
    let mut mac = hmac::Hmac::<sha2::Sha256>::new_from_slice(key).ok()?;
    mac.update(message);
    Some(mac.finalize().into_bytes().to_vec())
}

/// Calls `hex::encode`, which prints each byte as two digits out of
/// `0123456789abcdef`, the high nibble first.
#[verifier::external_body]
fn hex_encode(bytes: &[u8]) -> (r: String)
    ensures
        r@ == hex_text(bytes@),
{
    hex::encode(bytes)
}

/// Signs a message with a secret.
pub fn sign(secret: &str, message: &str) -> (r: String)
    ensures
        r@ == signature_text(secret@, message@),
        is_signature(r@),
{
    let digest = hmac_sha256(secret.as_bytes(), message.as_bytes());
    match digest {
        Some(bytes) => {
            proof {
                hex_text_is_lowercase_hex(bytes@);
            }
            hex_encode(bytes.as_slice())
        },
        None => String::new(),
    }
}

/// Builds the message to sign out of its four parts.
pub fn message_to_sign(timestamp: u128, api_key: &str, recv_window: &str, payload: &str) -> (r: String)
    ensures
        r@ == signing_message(timestamp, api_key@, recv_window@, payload@),
{
    let mut message = decimal_string(timestamp);
    message.append(api_key);
    message.append(recv_window);
    message.append(payload);
    message
}

/// Equal inputs give equal signatures: a signature depends on nothing but the
/// secret, the timestamp, the API key, the receive window and the payload.
pub proof fn signature_is_deterministic(
    secret_a: Seq<char>,
    secret_b: Seq<char>,
    timestamp_a: u128,
    timestamp_b: u128,
    api_key_a: Seq<char>,
    api_key_b: Seq<char>,
    recv_window_a: Seq<char>,
    recv_window_b: Seq<char>,
    payload_a: Seq<char>,
    payload_b: Seq<char>,
)
    requires
        secret_a == secret_b,
        timestamp_a == timestamp_b,
        api_key_a == api_key_b,
        recv_window_a == recv_window_b,
        payload_a == payload_b,
    ensures
        signature_text(secret_a, signing_message(timestamp_a, api_key_a, recv_window_a, payload_a))
            == signature_text(
            secret_b,
            signing_message(timestamp_b, api_key_b, recv_window_b, payload_b),
        ),
{
}

} // verus!
