//! Session tokens.
//!
//! A token names a user and a session, carries the time of issue, and is
//! sealed with an HMAC-SHA256 tag under a secret that the issuer shares
//! with whoever admits users to a session. Whoever holds the secret can
//! recompute the tag and so detect a token that was altered or made up.
//!
//! The token is the Base64 form of `user:session:time:tag`, where `time` is
//! in seconds since the Unix epoch, in decimal, and `tag` is the HMAC of
//! `user:session:time` in lower-case hexadecimal.

use crate::clock::unix_time;
use hmac::Mac;
use vstd::prelude::*;
use vstd::string::StringExecFns;
use vstd::utf8::encode_utf8;

verus! {

/// `String::push` appends one character.
pub assume_specification[ String::push ](text: &mut String, c: char)
    ensures
        final(text)@ == old(text)@.push(c),
;

/// The Base64 encoding, standard alphabet with padding, of the UTF-8 bytes
/// of `text`.
pub uninterp spec fn base64_standard(text: Seq<char>) -> Seq<char>;

/// The HMAC-SHA256 tag of `message` under `key`.
pub uninterp spec fn hmac_sha256(key: Seq<u8>, message: Seq<u8>) -> Seq<u8>;

/// Encodes the bytes of `data` with `base64::Engine::encode` on the engine
/// `base64::engine::general_purpose::STANDARD`. The result is a function of
/// `data` alone; the contract gives it its name and claims nothing more.
#[verifier::external_body]
fn base64_encode(data: &str) -> (encoded: String)
    ensures
        encoded@ == base64_standard(data@),
{
    base64::Engine::encode(&base64::engine::general_purpose::STANDARD, data.as_bytes())
}

/// Computes the tag with `hmac::Hmac<sha2::Sha256>`: `new_from_slice` on the
/// key, `update` with the message, `finalize`. The result is a function of
/// key and message alone; the contract gives it its name and claims nothing
/// more. `new_from_slice` accepts a key of any length.
#[verifier::external_body]
fn hmac_sha256_tag(key: &[u8], message: &[u8]) -> (tag: Vec<u8>)
    ensures
        tag@ == hmac_sha256(key@, message@),
{
    match hmac::Hmac::<sha2::Sha256>::new_from_slice(key) {
        Ok(mut mac) => {
            mac.update(message);
            mac.finalize().into_bytes().to_vec()
        },
        Err(_) => Vec::new(),
    }
}

/// The character of a decimal or hexadecimal digit: `0` to `9`, then `a`
/// to `f`.
pub open spec fn digit_char(digit: u8) -> char
    recommends
        digit < 16,
{
    if digit < 10 {
        (48 + digit) as u8 as char
    } else {
        (87 + digit) as u8 as char
    }
}

/// The decimal numeral of `n`, without leading zeros.
pub open spec fn decimal(n: nat) -> Seq<char>
    decreases n,
{
    if n < 10 {
        seq![digit_char(n as u8)]
    } else {
        decimal(n / 10).push(digit_char((n % 10) as u8))
    }
}

/// Two lower-case hexadecimal digits for each byte, in order.
pub open spec fn hex(bytes: Seq<u8>) -> Seq<char>
    decreases bytes.len(),
{
    if bytes.len() == 0 {
        Seq::empty()
    } else {
        hex(bytes.drop_last()).push(digit_char(bytes.last() / 16)).push(
            digit_char(bytes.last() % 16),
        )
    }
}

/// What the tag is computed over: `user:session:time`.
pub open spec fn payload(user_id: Seq<char>, session_id: Seq<char>, timestamp: u64) -> Seq<char> {
    user_id + seq![':'] + session_id + seq![':'] + decimal(timestamp as nat)
}

/// A payload with its tag: the payload, a colon, and the tag in
/// hexadecimal.
pub open spec fn sealed(payload: Seq<char>, tag: Seq<u8>) -> Seq<char> {
    payload + seq![':'] + hex(tag)
}

/// The token issued at `timestamp`: the Base64 form of the payload sealed
/// with its HMAC-SHA256 tag under `secret`. Key and message of the tag are
/// the UTF-8 bytes of secret and payload.
pub open spec fn session_token(
    user_id: Seq<char>,
    session_id: Seq<char>,
    secret: Seq<char>,
    timestamp: u64,
) -> Seq<char> {
    let payload = payload(user_id, session_id, timestamp);
    base64_standard(sealed(payload, hmac_sha256(encode_utf8(secret), encode_utf8(payload))))
}

fn digit(value: u8) -> (c: char)
    requires
        value < 16,
    ensures
        c == digit_char(value),
{
    if value < 10 {
        (48 + value) as char
    } else {
        (87 + value) as char
    }
}

/// Appends the decimal numeral of `n` to `text`.
pub fn push_decimal(text: &mut String, n: u64)
    ensures
        final(text)@ == old(text)@ + decimal(n as nat),
    decreases n,
{
    if n >= 10 {
        push_decimal(text, n / 10);
    }
    text.push(digit((n % 10) as u8));
}

/// Appends the hexadecimal form of `bytes` to `text`.
pub fn push_hex(text: &mut String, bytes: &[u8])
    ensures
        final(text)@ == old(text)@ + hex(bytes@),
{
    let mut i: usize = 0;
    while i < bytes.len()
        invariant
            i <= bytes@.len(),
            text@ == old(text)@ + hex(bytes@.take(i as int)),
        decreases bytes@.len() - i,
    {
        let byte: u8 = bytes[i];
        text.push(digit(byte / 16));
        text.push(digit(byte % 16));
        assert(bytes@.take(i + 1).drop_last() == bytes@.take(i as int));
        i += 1;
    }
    assert(bytes@.take(i as int) == bytes@);
}

/// The text that a token authenticates: `user:session:time`, the time in
/// decimal.
pub fn payload_text(user_id: &str, session_id: &str, timestamp: u64) -> (text: String)
    ensures
        text@ == payload(user_id@, session_id@, timestamp),
{
    let mut text = String::from_str(user_id);
    text.push(':');
    text.append(session_id);
    text.push(':');
    push_decimal(&mut text, timestamp);
    assert(text@ =~= payload(user_id@, session_id@, timestamp));
    text
}

/// The payload followed by a colon and `tag` in hexadecimal.
pub fn sealed_text(payload: &str, tag: &[u8]) -> (text: String)
    ensures
        text@ == sealed(payload@, tag@),
{
    let mut text = String::from_str(payload);
    text.push(':');
    push_hex(&mut text, tag);
    assert(text@ =~= sealed(payload@, tag@));
    text
}

/// The token for `user_id` in `session_id` under `secret`, issued at
/// `timestamp` seconds since the Unix epoch.
pub fn session_token_at(user_id: &str, session_id: &str, secret: &str, timestamp: u64) -> (token:
    String)
    ensures
        token@ == session_token(user_id@, session_id@, secret@, timestamp),
{
    let payload = payload_text(user_id, session_id, timestamp);
    let tag = hmac_sha256_tag(secret.as_bytes(), payload.as_str().as_bytes());
    let text = sealed_text(payload.as_str(), tag.as_slice());
    base64_encode(text.as_str())
}

/// The token for `user_id` in `session_id` under `secret`, issued now by
/// the system clock.
pub fn generate_session_token(user_id: String, session_id: String, secret: String) -> (token:
    String)
    ensures
        exists|timestamp: u64|
            token@ == #[trigger] session_token(user_id@, session_id@, secret@, timestamp),
{
    session_token_at(user_id.as_str(), session_id.as_str(), secret.as_str(), unix_time())
}

} // verus!
