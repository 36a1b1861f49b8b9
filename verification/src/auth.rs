//! Request signing: HMAC-SHA256 over the parameter string, hex-encoded.

use vstd::prelude::*;
use vstd::string::StringExecFns;
use vstd::utf8::encode_utf8;

use hmac::Mac;

use crate::text::{dec_u64, u64_to_string};

verus! {

/// What HMAC-SHA256 computes for a key and a message (the 32-byte tag).
pub uninterp spec fn hmac_sha256(key: Seq<u8>, message: Seq<u8>) -> Seq<u8>;

/// The lower-case hexadecimal digit of a value below 16.
pub open spec fn hex_digit(n: int) -> char {
    if n == 0 { '0' }
    else if n == 1 { '1' }
    else if n == 2 { '2' }
    else if n == 3 { '3' }
    else if n == 4 { '4' }
    else if n == 5 { '5' }
    else if n == 6 { '6' }
    else if n == 7 { '7' }
    else if n == 8 { '8' }
    else if n == 9 { '9' }
    else if n == 10 { 'a' }
    else if n == 11 { 'b' }
    else if n == 12 { 'c' }
    else if n == 13 { 'd' }
    else if n == 14 { 'e' }
    else { 'f' }
}

/// Lower-case hexadecimal text of bytes: two digits per byte, high nibble first.
pub open spec fn hex_lower(bytes: Seq<u8>) -> Seq<char>
    decreases bytes.len(),
{
    if bytes.len() == 0 {
        Seq::empty()
    } else {
        seq![hex_digit(bytes[0] as int / 16), hex_digit(bytes[0] as int % 16)] + hex_lower(bytes.drop_first())
    }
}

/// Whether a character is a lower-case hexadecimal digit.
pub open spec fn is_hex_lower_digit(c: char) -> bool {
    ('0' <= c && c <= '9') || ('a' <= c && c <= 'f')
}

/// Whether text is `n` lower-case hexadecimal digits.
pub open spec fn is_hex_text(t: Seq<char>, n: nat) -> bool {
    t.len() == n && forall|i: int| 0 <= i < t.len() ==> is_hex_lower_digit(#[trigger] t[i])
}

/// Hex text has two digits per byte, each a lower-case hexadecimal digit.
pub proof fn lemma_hex_lower_text(bytes: Seq<u8>)
    ensures
        is_hex_text(hex_lower(bytes), 2 * bytes.len()),
    decreases bytes.len(),
{
    if bytes.len() > 0 {
        lemma_hex_lower_text(bytes.drop_first());
        let h = bytes[0] as int / 16;
        let l = bytes[0] as int % 16;
        let head = seq![hex_digit(h), hex_digit(l)];
        let rest = hex_lower(bytes.drop_first());
        assert(is_hex_lower_digit(hex_digit(h)));
        assert(is_hex_lower_digit(hex_digit(l)));
        assert forall|i: int| 0 <= i < (head + rest).len() implies is_hex_lower_digit(
            #[trigger] (head + rest)[i],
        ) by {
            if i >= 2 {
                assert((head + rest)[i] == rest[i - 2]);
            }
        }
    }
}

/// The signature of a message: hex of HMAC-SHA256 keyed with the secret,
/// both taken as their UTF-8 bytes.
pub open spec fn signature(secret: Seq<char>, message: Seq<char>) -> Seq<char> {
    hex_lower(hmac_sha256(encode_utf8(secret), encode_utf8(message)))
}

/// The parameter string before its signature: the query, then `recvWindow`
/// and `timestamp`.
pub open spec fn unsigned_params(query: Seq<char>, server_time: u64, recv_window: u64) -> Seq<
    char,
> {
    let tail = "recvWindow="@ + dec_u64(recv_window) + "&timestamp="@ + dec_u64(server_time);
    if query.len() == 0 {
        tail
    } else {
        query + "&"@ + tail
    }
}

/// The fully signed parameter string.
pub open spec fn signed_params(
    secret: Seq<char>,
    query: Seq<char>,
    server_time: u64,
    recv_window: u64,
) -> Seq<char> {
    let base = unsigned_params(query, server_time, recv_window);
    base + "&signature="@ + signature(secret, base)
}

/// Calls `Hmac::<Sha256>::new_from_slice`, `update` and `finalize`; claims
/// that the tag is what HMAC-SHA256 computes for the key and message, and
/// that it is 32 bytes long, the output size of SHA-256.
/// `new_from_slice` accepts a key of any length for HMAC, so the `expect`
/// does not fail.
#[verifier::external_body]
fn hmac_sha256_tag(key: &[u8], message: &[u8]) -> (res: Vec<u8>)
    ensures
        res@ == hmac_sha256(key@, message@),
        res@.len() == 32,
{
    let mut mac = <hmac::Hmac<sha2::Sha256> as Mac>::new_from_slice(key).expect(
        "HMAC can accept any key length",
    );
    mac.update(message);
    mac.finalize().into_bytes().to_vec()
}

/// Calls `hex::encode`; claims that it writes each byte as two lower-case
/// hexadecimal digits, high nibble first, as its source shows.
#[verifier::external_body]
fn hex_encode(bytes: &[u8]) -> (res: String)
    ensures
        res@ == hex_lower(bytes@),
{
    hex::encode(bytes)
}

/// Generate an HMAC-SHA256 signature for the given message using the secret key.
/// The signature is 64 lower-case hexadecimal digits.
pub fn sign(secret_key: &str, message: &str) -> (res: String)
    ensures
        res@ == signature(secret_key@, message@),
        is_hex_text(res@, 64),
{
    let tag = hmac_sha256_tag(secret_key.as_bytes(), message.as_bytes());
    proof {
        lemma_hex_lower_text(tag@);
    }
    hex_encode(tag.as_slice())
}

/// Append timestamp, recvWindow, and signature to a parameter/query string.
/// Returns the fully signed parameter string.
pub fn sign_params(secret_key: &str, query: &str, server_time: u64, recv_window: u64) -> (res:
    String)
    ensures
        res@ == signed_params(secret_key@, query@, server_time, recv_window),
        is_hex_text(signature(secret_key@, unsigned_params(query@, server_time, recv_window)), 64),
{
    let mut signed = String::new();
    if !query.is_empty() {
        signed.append(query);
        signed.append("&");
    }
    signed.append("recvWindow=");
    signed.append(u64_to_string(recv_window).as_str());
    signed.append("&timestamp=");
    signed.append(u64_to_string(server_time).as_str());
    assert(signed@ =~= unsigned_params(query@, server_time, recv_window));
    let signature = sign(secret_key, signed.as_str());
    signed.append("&signature=");
    signed.append(signature.as_str());
    signed
}

} // verus!
