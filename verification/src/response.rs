//! The wire form of a response: a status line, the two headers, a blank line
//! and the body, in HTTP/1.0 style.

use crate::decimal::{decimal, decimal_value, is_digit, lemma_decimal_round_trip, lemma_decimal_shape, push_decimal};
use crate::reason::{canonical_reason, is_printable, lookup_reason};
use crate::rotation::{EntryView, ResponseEntry};
use vstd::prelude::*;
use vstd::string::StringSliceAdditionalSpecFns;
use vstd::utf8::encode_utf8;

verus! {

/// The status line: protocol version, status number, reason phrase.
pub open spec fn status_line(status: u16, reason: Seq<u8>) -> Seq<u8> {
    "HTTP/1.0 ".spec_bytes() + decimal(status as nat) + " ".spec_bytes() + reason
        + "\r\n".spec_bytes()
}

/// The header that announces the end of the connection after one response.
pub open spec fn connection_header() -> Seq<u8> {
    "Connection: close\r\n".spec_bytes()
}

/// The header that gives the body's length in bytes.
pub open spec fn content_length_header(length: nat) -> Seq<u8> {
    "Content-length: ".spec_bytes() + decimal(length) + "\r\n".spec_bytes()
}

/// All that precedes the body: status line, headers and the blank line.
pub open spec fn response_head(status: u16, reason: Seq<u8>, body_length: nat) -> Seq<u8> {
    status_line(status, reason) + connection_header() + content_length_header(body_length)
        + "\r\n".spec_bytes()
}

/// The whole response as it goes out: the head, then the body as it is.
pub open spec fn response_bytes(status: u16, reason: Seq<u8>, body: Seq<u8>) -> Seq<u8> {
    response_head(status, reason, body.len()) + body
}

/// Frames `body` as a response under `status` with the given reason phrase.
pub fn frame_response(status: u16, reason: &[u8], body: &[u8]) -> (wire: Vec<u8>)
    ensures
        wire@ == response_bytes(status, reason@, body@),
{
    let mut wire: Vec<u8> = Vec::new();
    wire.extend_from_slice("HTTP/1.0 ".as_bytes());
    push_decimal(&mut wire, status as usize);
    wire.extend_from_slice(" ".as_bytes());
    wire.extend_from_slice(reason);
    wire.extend_from_slice("\r\n".as_bytes());
    wire.extend_from_slice("Connection: close\r\n".as_bytes());
    wire.extend_from_slice("Content-length: ".as_bytes());
    push_decimal(&mut wire, body.len());
    wire.extend_from_slice("\r\n".as_bytes());
    wire.extend_from_slice("\r\n".as_bytes());
    wire.extend_from_slice(body);
    assert(wire@ =~= response_bytes(status, reason@, body@));
    wire
}

/// A status for which no canonical reason phrase is known, so that no status
/// line can be written for it.
#[derive(Debug, Clone, Copy, PartialEq, Eq, Structural)]
pub struct UnknownStatus {
    pub status: u16,
}

/// What rendering an entry gives: its wire form under the canonical reason
/// phrase of its status, or the refusal of a status that has none.
pub open spec fn rendered(entry: EntryView) -> Result<Seq<u8>, UnknownStatus> {
    match canonical_reason(entry.status) {
        Some(reason) => Ok(response_bytes(entry.status, encode_utf8(reason), entry.body)),
        None => Err(UnknownStatus { status: entry.status }),
    }
}

/// The outcome of rendering with the bytes as a mathematical sequence.
pub open spec fn render_view(result: Result<Vec<u8>, UnknownStatus>) -> Result<
    Seq<u8>,
    UnknownStatus,
> {
    match result {
        Ok(wire) => Ok(wire@),
        Err(error) => Err(error),
    }
}

/// Renders `entry` for the wire, or refuses it where its status has no
/// canonical reason phrase. Nothing is emitted for a refused entry.
///
/// A status outside 100 to 999 is always refused, and status 200 is always
/// rendered, with the phrase `OK`. A phrase that is used is printable ASCII.
pub fn render(entry: &ResponseEntry) -> (result: Result<Vec<u8>, UnknownStatus>)
    ensures
        render_view(result) == rendered(entry@),
        result is Ok ==> is_printable(canonical_reason(entry.status).unwrap()),
        !(100 <= entry.status <= 999) ==> result is Err,
        entry.status == 200 ==> render_view(result) == Ok::<Seq<u8>, UnknownStatus>(
            response_bytes(200, "OK".spec_bytes(), entry.body@),
        ),
{
    match lookup_reason(entry.status) {
        Some(text) => Ok(frame_response(entry.status, text.as_bytes(), entry.body.as_slice())),
        None => Err(UnknownStatus { status: entry.status }),
    }
}

/// The number that a `Content-length` header announces: what stands between
/// the header's name and the end of its line, read as a decimal number.
pub open spec fn announced_length(header: Seq<u8>) -> nat {
    decimal_value(header.subrange("Content-length: ".spec_bytes().len() as int, header.len() - 2))
}

/// Whether a blank line, the end of one line followed at once by the end of
/// another, begins at index `at` of `wire`.
pub open spec fn blank_line_at(wire: Seq<u8>, at: int) -> bool {
    &&& 0 <= at
    &&& at + 4 <= wire.len()
    &&& wire[at] == 13
    &&& wire[at + 1] == 10
    &&& wire[at + 2] == 13
    &&& wire[at + 3] == 10
}

/// Whether `text` holds no carriage return, so that it cannot end a line.
pub open spec fn stays_on_line(text: Seq<u8>) -> bool {
    forall|i: int| 0 <= i < text.len() ==> #[trigger] text[i] != 13
}

/// The literal parts of a response, byte by byte.
proof fn lemma_literals()
    ensures
        "HTTP/1.0 ".spec_bytes() =~= seq![72u8, 84, 84, 80, 47, 49, 46, 48, 32],
        " ".spec_bytes() =~= seq![32u8],
        "\r\n".spec_bytes() =~= seq![13u8, 10],
        "Connection: close\r\n".spec_bytes() =~= seq![
            67u8,
            111,
            110,
            110,
            101,
            99,
            116,
            105,
            111,
            110,
            58,
            32,
            99,
            108,
            111,
            115,
            101,
            13,
            10,
        ],
        "Content-length: ".spec_bytes() =~= seq![
            67u8,
            111,
            110,
            116,
            101,
            110,
            116,
            45,
            108,
            101,
            110,
            103,
            116,
            104,
            58,
            32,
        ],
{
    reveal_strlit("HTTP/1.0 ");
    reveal_strlit(" ");
    reveal_strlit("\r\n");
    reveal_strlit("Connection: close\r\n");
    reveal_strlit("Content-length: ");
    vstd::utf8::is_ascii_chars_encode_utf8("HTTP/1.0 "@);
    vstd::utf8::is_ascii_chars_encode_utf8(" "@);
    vstd::utf8::is_ascii_chars_encode_utf8("\r\n"@);
    vstd::utf8::is_ascii_chars_encode_utf8("Connection: close\r\n"@);
    vstd::utf8::is_ascii_chars_encode_utf8("Content-length: "@);
}

/// The `Content-length` header announces exactly the length it was written
/// for, and a response is its head followed by the body and nothing more.
pub proof fn lemma_content_length_exact(status: u16, reason: Seq<u8>, body: Seq<u8>)
    ensures
        announced_length(content_length_header(body.len())) == body.len(),
        response_bytes(status, reason, body).len() == response_head(
            status,
            reason,
            body.len(),
        ).len() + body.len(),
        response_bytes(status, reason, body).subrange(
            0,
            response_head(status, reason, body.len()).len() as int,
        ) == response_head(status, reason, body.len()),
        response_bytes(status, reason, body).subrange(
            response_head(status, reason, body.len()).len() as int,
            response_bytes(status, reason, body).len() as int,
        ) == body,
{
    let header = content_length_header(body.len());
    let name = "Content-length: ".spec_bytes();
    lemma_literals();
    lemma_decimal_round_trip(body.len());
    assert(header.subrange(name.len() as int, header.len() - 2) =~= decimal(body.len()));
    let wire = response_bytes(status, reason, body);
    let head = response_head(status, reason, body.len());
    assert(wire.subrange(0, head.len() as int) =~= head);
    assert(wire.subrange(head.len() as int, wire.len() as int) =~= body);
}

/// Where the reason phrase holds no carriage return, the first blank line of
/// a response is the one that ends its head. A reader that takes the head up
/// to the first blank line is left with the body, all of it and nothing else.
pub proof fn lemma_body_follows_first_blank_line(status: u16, reason: Seq<u8>, body: Seq<u8>)
    requires
        stays_on_line(reason),
    ensures
        blank_line_at(
            response_bytes(status, reason, body),
            response_head(status, reason, body.len()).len() - 4,
        ),
        forall|at: int|
            blank_line_at(response_bytes(status, reason, body), at) ==> at >= response_head(
                status,
                reason,
                body.len(),
            ).len() - 4,
{
    let wire = response_bytes(status, reason, body);
    let head = response_head(status, reason, body.len());
    let opening = "HTTP/1.0 ".spec_bytes() + decimal(status as nat) + " ".spec_bytes() + reason;
    let length = decimal(body.len());
    let first = opening.len() as int;
    let second = first + 19;
    let last = second + 18 + length.len();
    lemma_literals();
    lemma_decimal_shape(status as nat);
    lemma_decimal_shape(body.len());
    assert(head.len() == last + 4);
    assert forall|i: int| 0 <= i < first implies wire[i] != 13 by {
        assert(wire[i] == opening[i]);
        let version = "HTTP/1.0 ".spec_bytes();
        let number = decimal(status as nat);
        if i < version.len() {
        } else if i < version.len() + number.len() {
            assert(is_digit(number[i - version.len()]));
        } else if i < version.len() + number.len() + 1 {
        } else {
            assert(opening[i] == reason[i - version.len() - number.len() - 1]);
        }
    }
    assert(wire[first] == 13 && wire[first + 1] == 10 && wire[first + 2] == 67);
    assert forall|i: int| first + 2 <= i < second implies wire[i] != 13 by {
        assert(wire[i] == "Connection: close\r\n".spec_bytes()[i - first - 2]);
    }
    assert(wire[second] == 13 && wire[second + 1] == 10 && wire[second + 2] == 67);
    assert forall|i: int| second + 2 <= i < last implies wire[i] != 13 by {
        if i < second + 18 {
            assert(wire[i] == "Content-length: ".spec_bytes()[i - second - 2]);
        } else {
            assert(wire[i] == length[i - second - 18]);
            assert(is_digit(length[i - second - 18]));
        }
    }
    assert(wire[last] == 13 && wire[last + 1] == 10 && wire[last + 2] == 13 && wire[last + 3]
        == 10);
    assert forall|at: int| blank_line_at(wire, at) implies at >= last by {
        if at < last {
            assert(wire[at] == 13);
            assert(wire[at + 2] == 13);
        }
    }
}

/// Printable text is encoded one byte to the character, and none of its
/// bytes is a carriage return.
pub proof fn lemma_printable_stays_on_line(text: Seq<char>)
    requires
        is_printable(text),
    ensures
        encode_utf8(text).len() == text.len(),
        stays_on_line(encode_utf8(text)),
{
    assert(vstd::utf8::is_ascii_chars(text));
    vstd::utf8::is_ascii_chars_encode_utf8(text);
    assert forall|i: int| 0 <= i < encode_utf8(text).len() implies #[trigger] encode_utf8(
        text,
    )[i] != 13 by {
        assert(' ' <= text[i] <= '~');
        assert(text[i] as u8 == encode_utf8(text)[i]);
    }
}

} // verus!
