//! The `Sec-WebSocket-Accept` value of a WebSocket opening handshake.

use vstd::prelude::*;
use vstd::string::*;
use vstd::utf8::*;

verus! {

/// The SHA-1 digest of a byte string, as computed by `ring::digest::digest`
/// with `SHA1_FOR_LEGACY_USE_ONLY`.
pub uninterp spec fn sha1_digest(data: Seq<u8>) -> Seq<u8>;

/// The text that `base64::encode` gives for a byte string: the standard
/// alphabet, with padding.
pub uninterp spec fn base64_text(data: Seq<u8>) -> Seq<char>;

/// The GUID that the WebSocket protocol appends to the client's key.
pub open spec fn accept_guid() -> Seq<char> {
    "258EAFA5-E914-47DA-95CA-C5AB0DC85B11"@
}

/// The accept value for a client key: the base64 text of the SHA-1 digest of
/// the UTF-8 bytes of the key followed by the GUID.
pub open spec fn accept_value(key: Seq<char>) -> Seq<char> {
    base64_text(sha1_digest(encode_utf8(key + accept_guid())))
}

/// The length that the input of one digest stays below: the digest counts
/// its input in bits, in 64 bits.
pub open spec fn digest_input_limit() -> int {
    0x2000_0000_0000_0000
}

/// Most bytes that a key may have in UTF-8, so that the GUID fits behind it
/// in one digest.
pub open spec fn key_limit() -> int {
    digest_input_limit() - 36
}

/// The UTF-8 bytes of two texts, one after the other, are the bytes of the
/// first followed by the bytes of the second.
pub proof fn lemma_encode_utf8_concat(a: Seq<char>, b: Seq<char>)
    ensures
        encode_utf8(a + b) == encode_utf8(a) + encode_utf8(b),
    decreases a.len(),
{
    if a.len() == 0 {
        assert(a + b =~= b);
        assert(encode_utf8(a) + encode_utf8(b) =~= encode_utf8(b));
    } else {
        assert((a + b).drop_first() =~= a.drop_first() + b);
        assert((a + b)[0] == a[0]);
        lemma_encode_utf8_concat(a.drop_first(), b);
        assert(encode_utf8(a + b) =~= encode_utf8(a) + encode_utf8(b));
    }
}

/// The GUID has 36 characters, all of them ASCII, and so 36 bytes.
pub proof fn lemma_guid_bytes()
    ensures
        encode_utf8(accept_guid()).len() == 36,
{
    reveal_strlit("258EAFA5-E914-47DA-95CA-C5AB0DC85B11");
    assert(is_ascii_chars(accept_guid()));
    is_ascii_chars_encode_utf8(accept_guid());
}

/// Calls `ring::digest::digest` with `SHA1_FOR_LEGACY_USE_ONLY` and copies the
/// digest out. Trusted: the result is the SHA-1 digest of `data`, 20 bytes
/// long. The call panics where the input's length in bits overflows 64 bits,
/// so such input is left out.
#[verifier::external_body]
fn sha1(data: &[u8]) -> (digest: Vec<u8>)
    requires
        data@.len() < digest_input_limit(),
    ensures
        digest@ == sha1_digest(data@),
        digest@.len() == 20,
{
    ring::digest::digest(&ring::digest::SHA1_FOR_LEGACY_USE_ONLY, data).as_ref().to_vec()
}

/// Calls `base64::encode`. Trusted: the result is the standard base64 text of
/// `data`. The call panics where the encoded length overflows `usize`, so
/// such input is left out.
#[verifier::external_body]
fn base64_encode(data: &[u8]) -> (text: String)
    requires
        4 * (data@.len() / 3 + 1) <= usize::MAX,
    ensures
        text@ == base64_text(data@),
{
    base64::encode(data)
}

/// Computes the `Sec-WebSocket-Accept` value for the client's
/// `Sec-WebSocket-Key`.
pub fn op_http_websocket_accept_header(key: &str) -> (accept: String)
    requires
        encode_utf8(key@).len() < key_limit(),
    ensures
        accept@ == accept_value(key@),
{
    proof {
        lemma_encode_utf8_concat(key@, accept_guid());
        lemma_guid_bytes();
    }
    let mut text = String::from_str(key);
    text.append("258EAFA5-E914-47DA-95CA-C5AB0DC85B11");
    let digest = sha1(text.as_str().as_bytes());
    base64_encode(digest.as_slice())
}

} // verus!
