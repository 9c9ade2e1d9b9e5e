//! Permissive decoding of bytes as text: what is no valid UTF-8 is replaced,
//! never refused.

use vstd::prelude::*;
use vstd::string::StringSliceAdditionalSpecFns;
use vstd::utf8::{decode_utf8, encode_utf8, valid_utf8};

verus! {

/// The text that std's lossy decoding makes of `bytes`: the text that the
/// bytes encode, with U+FFFD in place of each sequence that is no valid
/// UTF-8.
pub uninterp spec fn lossy_utf8(bytes: Seq<u8>) -> Seq<char>;

/// Decodes `bytes` with std's `String::from_utf8_lossy`.
///
/// Nothing of this is proved. The contract names the outcome and adds what
/// the documentation promises of valid input: it is decoded as it stands.
#[verifier::external_body]
fn from_utf8_lossy(bytes: &[u8]) -> (text: String)
    ensures
        text@ == lossy_utf8(bytes@),
        valid_utf8(bytes@) ==> text@ == decode_utf8(bytes@),
{
    String::from_utf8_lossy(bytes).into_owned()
}

/// The text of a request as it goes into the log. Every request has one:
/// bytes that are no valid UTF-8 are replaced, and a request that is valid
/// UTF-8 reads exactly as it was sent.
pub fn request_text(request: &[u8]) -> (text: String)
    ensures
        text@ == lossy_utf8(request@),
        valid_utf8(request@) ==> text@ == decode_utf8(request@) && encode_utf8(text@)
            == request@,
{
    let text = from_utf8_lossy(request);
    proof {
        if valid_utf8(request@) {
            vstd::utf8::decode_utf8_encode_utf8(request@);
        }
    }
    text
}

/// The body that a file's contents make: the contents read as text, encoded
/// again.
pub open spec fn body_bytes(contents: Seq<u8>) -> Seq<u8> {
    encode_utf8(lossy_utf8(contents))
}

/// Turns a file's contents into a response body. The body is always valid
/// UTF-8, and contents that are valid UTF-8 are served byte for byte.
pub fn body_from_contents(contents: &[u8]) -> (body: Vec<u8>)
    ensures
        body@ == body_bytes(contents@),
        valid_utf8(body@),
        valid_utf8(contents@) ==> body@ == contents@,
{
    let text = from_utf8_lossy(contents);
    proof {
        vstd::utf8::encode_utf8_valid_utf8(text@);
        if valid_utf8(contents@) {
            vstd::utf8::decode_utf8_encode_utf8(contents@);
        }
    }
    vstd::slice::slice_to_vec(text.as_str().as_bytes())
}

} // verus!
