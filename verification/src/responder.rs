//! The record responder's fixed payload: a minimal HTTP response whose
//! body is the node's record text.  The responder writes these bytes,
//! unchanged, to every client that connects.

use vstd::prelude::*;
use vstd::string::StringSliceAdditionalSpecFns;

verus! {

/// The decimal digits of `n`, most significant first, as ASCII bytes.
pub open spec fn dec_rep(n: nat) -> Seq<u8>
    decreases n,
{
    if n < 10 {
        seq![(48 + n) as u8]
    } else {
        dec_rep(n / 10).push((48 + n % 10) as u8)
    }
}

/// Everything of the response before the body length.
pub open spec fn head_bytes() -> Seq<u8> {
    "HTTP/1.1 200 OK\r\nContent-Type: text/plain\r\nContent-Length: ".spec_bytes()
}

/// Everything between the body length and the body.
pub open spec fn tail_bytes() -> Seq<u8> {
    "\r\nConnection: close\r\n\r\n".spec_bytes()
}

/// The complete response for a given body: a 200 status line, the
/// `text/plain` content type, the exact byte length of the body, a
/// close-after-response header, a blank line, and the body itself.
pub open spec fn response_bytes(body: Seq<u8>) -> Seq<u8> {
    head_bytes() + dec_rep(body.len()) + tail_bytes() + body
}

/// Render `n` in decimal, most significant digit first.
pub fn decimal_digits(n: usize) -> (r: Vec<u8>)
    ensures
        r@ == dec_rep(n as nat),
    decreases n,
{
    if n < 10 {
        let mut v: Vec<u8> = Vec::new();
        v.push(48 + (n as u8));
        assert(v@ =~= dec_rep(n as nat));
        v
    } else {
        let mut v = decimal_digits(n / 10);
        v.push(48 + ((n % 10) as u8));
        assert(v@ =~= dec_rep(n as nat));
        v
    }
}

/// Render the complete fixed response for `body`.
pub fn render_response(body: &[u8]) -> (r: Vec<u8>)
    ensures
        r@ == response_bytes(body@),
{
    let mut out: Vec<u8> = Vec::new();
    out.extend_from_slice("HTTP/1.1 200 OK\r\nContent-Type: text/plain\r\nContent-Length: ".as_bytes());
    let mut digits = decimal_digits(body.len());
    out.append(&mut digits);
    out.extend_from_slice("\r\nConnection: close\r\n\r\n".as_bytes());
    out.extend_from_slice(body);
    assert(out@ =~= response_bytes(body@));
    out
}

/// Render the complete fixed response for a text body, such as the
/// node's record text.
pub fn render_text_response(body: &str) -> (r: Vec<u8>)
    ensures
        r@ == response_bytes(body.spec_bytes()),
{
    render_response(body.as_bytes())
}

} // verus!
