//! The response format, and the two fixed responses that are ever sent.

use crate::request::{
    classification_of, classification_of_bytes, classify, lossy_text, requests_root,
    Classification,
};
use vstd::prelude::*;
use vstd::string::StringSliceAdditionalSpecFns;
use vstd::utf8::{decode_utf8, encode_utf8, is_ascii_chars, is_ascii_chars_encode_utf8, valid_utf8};

verus! {

/// The ASCII code of the digit zero; the other nine digits follow it.
pub const ASCII_ZERO: u8 = 48;

/// The ASCII digit that stands for `d`, a value below ten.
pub open spec fn digit(d: nat) -> u8 {
    (ASCII_ZERO + d) as u8
}

/// `n` written in decimal: most significant digit first, no leading zero.
pub open spec fn decimal(n: nat) -> Seq<u8>
    decreases n,
{
    if n < 10 {
        seq![digit(n)]
    } else {
        decimal(n / 10).push(digit(n % 10))
    }
}

/// The number that a sequence of ASCII digits denotes.
pub open spec fn decimal_value(digits: Seq<u8>) -> nat
    decreases digits.len(),
{
    if digits.len() == 0 {
        0
    } else {
        decimal_value(digits.drop_last()) * 10 + (digits.last() - ASCII_ZERO) as nat
    }
}

/// The line break that ends the status line and every header.
pub open spec fn line_break() -> Seq<u8> {
    "\r\n".spec_bytes()
}

/// Everything that precedes the body: the status line, the header that
/// announces `body_len` bytes, the content type header, and the blank line.
pub open spec fn head(status_line: Seq<u8>, body_len: nat) -> Seq<u8> {
    status_line + line_break() + "Content-Length: ".spec_bytes() + decimal(body_len)
        + line_break() + "Content-Type: text/plain".spec_bytes() + line_break() + line_break()
}

/// A whole response as it goes over the wire. The announced length is that
/// of the body that follows.
pub open spec fn wire(status_line: Seq<u8>, body: Seq<u8>) -> Seq<u8> {
    head(status_line, body.len()) + body
}

/// The status line that answers a request of the given class.
pub open spec fn status_line_of(class: Classification) -> Seq<u8> {
    match class {
        Classification::Match => "HTTP/1.1 200 OK".spec_bytes(),
        Classification::NoMatch => "HTTP/1.1 404 NOT FOUND".spec_bytes(),
    }
}

/// The body that answers a request of the given class.
pub open spec fn body_of(class: Classification) -> Seq<u8> {
    match class {
        Classification::Match => "Hello, World!".spec_bytes(),
        Classification::NoMatch => "Not Found".spec_bytes(),
    }
}

/// The bytes that answer a request of the given class.
pub open spec fn response_of(class: Classification) -> Seq<u8> {
    wire(status_line_of(class), body_of(class))
}

/// Appends `n` in decimal to `out`.
pub fn push_decimal(out: &mut Vec<u8>, n: usize)
    ensures
        final(out)@ == old(out)@ + decimal(n as nat),
    decreases n,
{
    if n >= 10 {
        push_decimal(out, n / 10);
    }
    let low: u8 = (n % 10) as u8;
    out.push(ASCII_ZERO + low);
    assert(out@ =~= old(out)@ + decimal(n as nat));
}

/// Writes a response out: status line, `Content-Length` with the length of
/// `body` in bytes, `Content-Type: text/plain`, a blank line, then `body`.
pub fn render(status_line: &[u8], body: &[u8]) -> (out: Vec<u8>)
    ensures
        out@ == wire(status_line@, body@),
{
    let mut out: Vec<u8> = Vec::new();
    out.extend_from_slice(status_line);
    out.extend_from_slice("\r\n".as_bytes());
    out.extend_from_slice("Content-Length: ".as_bytes());
    push_decimal(&mut out, body.len());
    out.extend_from_slice("\r\n".as_bytes());
    out.extend_from_slice("Content-Type: text/plain".as_bytes());
    out.extend_from_slice("\r\n".as_bytes());
    out.extend_from_slice("\r\n".as_bytes());
    out.extend_from_slice(body);
    out
}

/// The response to a request of the given class: status 200 with the body
/// `Hello, World!` for a match, status 404 with the body `Not Found` otherwise.
pub fn response_for(class: Classification) -> (out: Vec<u8>)
    ensures
        out@ == response_of(class),
        class == Classification::Match ==> out@
            == "HTTP/1.1 200 OK\r\nContent-Length: 13\r\nContent-Type: text/plain\r\n\r\nHello, World!".spec_bytes(),
        class == Classification::NoMatch ==> out@
            == "HTTP/1.1 404 NOT FOUND\r\nContent-Length: 9\r\nContent-Type: text/plain\r\n\r\nNot Found".spec_bytes(),
{
    proof {
        lemma_match_response();
        lemma_no_match_response();
    }
    match class {
        Classification::Match => render("HTTP/1.1 200 OK".as_bytes(), "Hello, World!".as_bytes()),
        Classification::NoMatch => render(
            "HTTP/1.1 404 NOT FOUND".as_bytes(),
            "Not Found".as_bytes(),
        ),
    }
}

/// The response to the bytes of a request, whatever they are: the bytes are
/// decoded permissively and classified, and the class picks the response.
pub fn respond(request: &[u8]) -> (out: Vec<u8>)
    ensures
        out@ == response_of(classification_of(lossy_text(request@))),
        requests_root(lossy_text(request@)) ==> out@ == wire(
            "HTTP/1.1 200 OK".spec_bytes(),
            "Hello, World!".spec_bytes(),
        ),
        !requests_root(lossy_text(request@)) ==> out@ == wire(
            "HTTP/1.1 404 NOT FOUND".spec_bytes(),
            "Not Found".spec_bytes(),
        ),
        valid_utf8(request@) ==> out@ == response_of(classification_of(decode_utf8(request@))),
        valid_utf8(request@) ==> out@ == response_of(classification_of_bytes(request@)),
{
    response_for(classify(request))
}

/// Decimal notation loses nothing: the digits of `n` denote `n` again. They
/// are ASCII digits, at least one, and the first is a zero only for zero.
pub proof fn lemma_decimal_denotes(n: nat)
    ensures
        decimal_value(decimal(n)) == n,
        decimal(n).len() >= 1,
        forall|i: int| 0 <= i < decimal(n).len() ==> ASCII_ZERO <= #[trigger] decimal(n)[i] <= ASCII_ZERO + 9,
        decimal(n)[0] == ASCII_ZERO <==> n == 0,
    decreases n,
{
    if n < 10 {
        assert(decimal(n).drop_last() =~= Seq::<u8>::empty());
        assert(decimal_value(decimal(n).drop_last()) == 0);
    } else {
        lemma_decimal_denotes(n / 10);
        assert(decimal(n).drop_last() =~= decimal(n / 10));
    }
}

/// The announced length can be read off a response and is the length of the
/// body: behind the status line, a line break and the 16 bytes of the header's
/// name stand the decimal digits of the body's length, and the body is what
/// ends the response.
pub proof fn lemma_announced_length(status_line: Seq<u8>, body: Seq<u8>)
    ensures
        ({
            let message = wire(status_line, body);
            let digits = decimal(body.len());
            let at: int = status_line.len() as int + 18;
            let end: int = at + digits.len();
            &&& message.len() == end + 30 + body.len()
            &&& message.subrange(0, status_line.len() as int) == status_line
            &&& message.subrange(at - 16, at) == "Content-Length: ".spec_bytes()
            &&& message.subrange(at, end) == digits
            &&& message.subrange(end, end + 2) == line_break()
            &&& message.subrange(message.len() - body.len(), message.len() as int) == body
            &&& decimal_value(digits) == body.len()
        }),
{
    reveal_strlit("\r\n");
    reveal_strlit("Content-Length: ");
    reveal_strlit("Content-Type: text/plain");
    assert(is_ascii_chars("\r\n"@));
    assert(is_ascii_chars("Content-Length: "@));
    assert(is_ascii_chars("Content-Type: text/plain"@));
    is_ascii_chars_encode_utf8("\r\n"@);
    is_ascii_chars_encode_utf8("Content-Length: "@);
    is_ascii_chars_encode_utf8("Content-Type: text/plain"@);
    lemma_decimal_denotes(body.len());
    let message = wire(status_line, body);
    let digits = decimal(body.len());
    let at: int = status_line.len() as int + 18;
    let end: int = at + digits.len();
    assert(message.subrange(0, status_line.len() as int) =~= status_line);
    assert(message.subrange(at - 16, at) =~= "Content-Length: ".spec_bytes());
    assert(message.subrange(at, end) =~= digits);
    assert(message.subrange(end, end + 2) =~= line_break());
    assert(message.subrange(message.len() - body.len(), message.len() as int) =~= body);
}

/// Encoding text piece by piece gives the encoding of the whole.
proof fn lemma_encode_concat(front: Seq<char>, back: Seq<char>)
    ensures
        encode_utf8(front + back) == encode_utf8(front) + encode_utf8(back),
    decreases front.len(),
{
    if front.len() == 0 {
        assert(front + back =~= back);
        assert(encode_utf8(front) + encode_utf8(back) =~= encode_utf8(back));
    } else {
        lemma_encode_concat(front.drop_first(), back);
        assert((front + back).drop_first() =~= front.drop_first() + back);
        assert(encode_utf8(front + back) =~= encode_utf8(front) + encode_utf8(back));
    }
}

/// A response as text, with the announced length given as text too.
spec fn text_wire(status_line: Seq<char>, length: Seq<char>, body: Seq<char>) -> Seq<char> {
    status_line + "\r\n"@ + "Content-Length: "@ + length + "\r\n"@ + "Content-Type: text/plain"@
        + "\r\n"@ + "\r\n"@ + body
}

/// The encoding of a response given as text is the wire format of its
/// encoded parts, provided that the length given is the one announced.
proof fn lemma_text_wire(status_line: Seq<char>, length: Seq<char>, body: Seq<char>)
    requires
        encode_utf8(length) == decimal(encode_utf8(body).len()),
    ensures
        encode_utf8(text_wire(status_line, length, body)) == wire(
            encode_utf8(status_line),
            encode_utf8(body),
        ),
{
    let a = status_line + "\r\n"@;
    let b = a + "Content-Length: "@;
    let c = b + length;
    let d = c + "\r\n"@;
    let e = d + "Content-Type: text/plain"@;
    let f = e + "\r\n"@;
    let g = f + "\r\n"@;
    lemma_encode_concat(status_line, "\r\n"@);
    lemma_encode_concat(a, "Content-Length: "@);
    lemma_encode_concat(b, length);
    lemma_encode_concat(c, "\r\n"@);
    lemma_encode_concat(d, "Content-Type: text/plain"@);
    lemma_encode_concat(e, "\r\n"@);
    lemma_encode_concat(f, "\r\n"@);
    lemma_encode_concat(g, body);
}

/// The response to a match is, byte for byte, the fixed 200 message, and its
/// body has 13 bytes.
pub proof fn lemma_match_response()
    ensures
        response_of(Classification::Match)
            == "HTTP/1.1 200 OK\r\nContent-Length: 13\r\nContent-Type: text/plain\r\n\r\nHello, World!".spec_bytes(),
        body_of(Classification::Match).len() == 13,
{
    reveal_strlit("HTTP/1.1 200 OK\r\nContent-Length: 13\r\nContent-Type: text/plain\r\n\r\nHello, World!");
    reveal_strlit("HTTP/1.1 200 OK");
    reveal_strlit("\r\n");
    reveal_strlit("Content-Length: ");
    reveal_strlit("13");
    reveal_strlit("Content-Type: text/plain");
    reveal_strlit("Hello, World!");
    let whole = "HTTP/1.1 200 OK\r\nContent-Length: 13\r\nContent-Type: text/plain\r\n\r\nHello, World!"@;
    assert(whole =~= text_wire("HTTP/1.1 200 OK"@, "13"@, "Hello, World!"@));
    assert(is_ascii_chars("Hello, World!"@));
    is_ascii_chars_encode_utf8("Hello, World!"@);
    assert(is_ascii_chars("13"@));
    is_ascii_chars_encode_utf8("13"@);
    reveal_with_fuel(decimal, 2);
    assert(encode_utf8("13"@) =~= decimal(13));
    lemma_text_wire("HTTP/1.1 200 OK"@, "13"@, "Hello, World!"@);
}

/// The response to anything else is, byte for byte, the fixed 404 message,
/// and its body has 9 bytes.
pub proof fn lemma_no_match_response()
    ensures
        response_of(Classification::NoMatch)
            == "HTTP/1.1 404 NOT FOUND\r\nContent-Length: 9\r\nContent-Type: text/plain\r\n\r\nNot Found".spec_bytes(),
        body_of(Classification::NoMatch).len() == 9,
{
    reveal_strlit("HTTP/1.1 404 NOT FOUND\r\nContent-Length: 9\r\nContent-Type: text/plain\r\n\r\nNot Found");
    reveal_strlit("HTTP/1.1 404 NOT FOUND");
    reveal_strlit("\r\n");
    reveal_strlit("Content-Length: ");
    reveal_strlit("9");
    reveal_strlit("Content-Type: text/plain");
    reveal_strlit("Not Found");
    let whole = "HTTP/1.1 404 NOT FOUND\r\nContent-Length: 9\r\nContent-Type: text/plain\r\n\r\nNot Found"@;
    assert(whole =~= text_wire("HTTP/1.1 404 NOT FOUND"@, "9"@, "Not Found"@));
    assert(is_ascii_chars("Not Found"@));
    is_ascii_chars_encode_utf8("Not Found"@);
    assert(is_ascii_chars("9"@));
    is_ascii_chars_encode_utf8("9"@);
    assert(encode_utf8("9"@) =~= decimal(9));
    lemma_text_wire("HTTP/1.1 404 NOT FOUND"@, "9"@, "Not Found"@);
}

} // verus!
