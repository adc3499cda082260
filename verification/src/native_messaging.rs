//! The browser-extension channel (Chrome native messaging): each message is
//! a 4-byte length in the machine's byte order followed by that many bytes
//! of JSON.
use vstd::prelude::*;

use crate::text::str_eq;

verus! {

broadcast use vstd::string::group_string_axioms;

/// A request from the browser extension.
pub struct IncomingMessage {
    pub action: String,
    pub url: String,
    pub filename: String,
    pub referrer: Option<String>,
}

/// A reply to the browser extension.
pub struct OutgoingMessage {
    pub status: String,
    pub message: String,
}

/// The reply to a message: an `add_download` request is accepted (and
/// forwarded to the user interface by the caller); anything else gets no
/// reply.
pub fn handle_incoming(msg: &IncomingMessage) -> (r: Option<OutgoingMessage>)
    ensures
        msg.action@ == "add_download"@ ==> (r matches Some(o) && o.status@ == "success"@
            && o.message@ == "Added to Best Download Manager queue"@),
        msg.action@ != "add_download"@ ==> r is None,
{
    if str_eq(msg.action.as_str(), "add_download") {
        Some(
            OutgoingMessage {
                status: String::from_str("success"),
                message: String::from_str("Added to Best Download Manager queue"),
            },
        )
    } else {
        None
    }
}

/// `n` in little-endian byte order.
pub open spec fn le_bytes(n: u32) -> Seq<u8> {
    seq![
        (n % 256) as u8,
        ((n / 256) % 256) as u8,
        ((n / 65536) % 256) as u8,
        ((n / 16777216) % 256) as u8,
    ]
}

/// `n` in big-endian byte order.
pub open spec fn be_bytes(n: u32) -> Seq<u8> {
    seq![
        ((n / 16777216) % 256) as u8,
        ((n / 65536) % 256) as u8,
        ((n / 256) % 256) as u8,
        (n % 256) as u8,
    ]
}

/// `u32::to_ne_bytes`.
///
/// Trusted: claims that the bytes are `n` in little- or big-endian order;
/// which one depends on the machine and is not stated.
#[verifier::external_body]
fn u32_to_ne_bytes(n: u32) -> (r: [u8; 4])
    ensures
        r@ == le_bytes(n) || r@ == be_bytes(n),
{
    n.to_ne_bytes()
}

/// `u32::from_ne_bytes`.
///
/// Trusted: claims that the result reads the bytes in little- or big-endian
/// order; which one depends on the machine and is not stated.
#[verifier::external_body]
fn u32_from_ne_bytes(b: [u8; 4]) -> (r: u32)
    ensures
        le_bytes(r) == b@ || be_bytes(r) == b@,
{
    u32::from_ne_bytes(b)
}

/// `String::from_utf8`: the bytes as text when they are valid UTF-8.
///
/// Trusted: claims exactly what the documentation says: success iff the
/// bytes are valid UTF-8, and then the decoded text.
#[verifier::external_body]
fn string_from_utf8(bytes: Vec<u8>) -> (r: Option<String>)
    ensures
        r is Some <==> vstd::utf8::valid_utf8(bytes@),
        r matches Some(s) ==> s@ == vstd::utf8::decode_utf8(bytes@),
{
    String::from_utf8(bytes).ok()
}

/// The payload length announced by a frame header.
pub fn frame_length(header: [u8; 4]) -> (r: usize)
    ensures
        le_bytes(r as u32) == header@ || be_bytes(r as u32) == header@,
        r <= u32::MAX,
{
    let n = u32_from_ne_bytes(header);
    n as usize
}

/// A message's text, when its payload is valid UTF-8.
pub fn payload_text(payload: Vec<u8>) -> (r: Option<String>)
    ensures
        r is Some <==> vstd::utf8::valid_utf8(payload@),
        r matches Some(s) ==> s@ == vstd::utf8::decode_utf8(payload@),
{
    string_from_utf8(payload)
}

/// A frame around `json`: its length (truncated to 32 bits) in the machine's
/// byte order, then the bytes themselves.
pub fn frame(json: &[u8]) -> (r: Vec<u8>)
    ensures
        r@.len() == json@.len() + 4,
        r@.skip(4) == json@,
        r@.take(4) == le_bytes((json@.len() % 0x1_0000_0000) as u32) || r@.take(4) == be_bytes(
            (json@.len() % 0x1_0000_0000) as u32,
        ),
{
    let len64 = json.len() as u64;
    let n: u32 = (len64 % 0x1_0000_0000) as u32;
    let h = u32_to_ne_bytes(n);
    let mut out: Vec<u8> = Vec::new();
    let mut i: usize = 0;
    while i < 4
        invariant
            i <= 4,
            out@ == h@.take(i as int),
        decreases 4 - i,
    {
        out.push(h[i]);
        i = i + 1;
        assert(out@ == h@.take(i as int));
    }
    let mut k: usize = 0;
    while k < json.len()
        invariant
            k <= json@.len(),
            out@ == h@ + json@.take(k as int),
        decreases json@.len() - k,
    {
        out.push(json[k]);
        k = k + 1;
        assert(out@ == h@ + json@.take(k as int));
    }
    assert(json@.take(k as int) == json@);
    assert(out@.skip(4) =~= json@);
    assert(out@.take(4) =~= h@);
    out
}

} // verus!
