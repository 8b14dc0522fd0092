//! Lines of text for the log of the handheld, as the bytes that go on the
//! wire.

use vstd::prelude::*;
use vstd::string::StringSliceAdditionalSpecFns;
use vstd::utf8::{encode_utf8, valid_utf8};

verus! {

/// What `String::from_utf8_lossy` makes of a sequence of bytes, encoded as
/// UTF-8 again: the text that the bytes spell, with a replacement
/// character for every stretch of them that is not valid UTF-8.
pub uninterp spec fn utf8_lossy(bytes: Seq<u8>) -> Seq<u8>;

/// `String::from_utf8_lossy` of std, and the bytes of the string that it
/// returns. Bytes that are valid UTF-8 come back as they are.
#[verifier::external_body]
pub(crate) fn lossy_text(bytes: &Vec<u8>) -> (shown: Vec<u8>)
    ensures
        shown@ == utf8_lossy(bytes@),
        valid_utf8(bytes@) ==> shown@ == bytes@,
{
    String::from_utf8_lossy(bytes).into_owned().into_bytes()
}

/// `String::from_utf8` of std: the string whose bytes are `bytes`, if they
/// are valid UTF-8, and nothing if they are not.
#[verifier::external_body]
pub(crate) fn utf8_text(bytes: Vec<u8>) -> (text: Option<String>)
    ensures
        text is Some <==> valid_utf8(bytes@),
        text matches Some(string) ==> encode_utf8(string@) == bytes@,
{
    String::from_utf8(bytes).ok()
}

/// The bytes of a fixed text.
pub open spec fn text(fixed: &str) -> Seq<u8> {
    fixed.spec_bytes()
}

/// A line of fixed text.
pub fn fixed_line(fixed: &str) -> (line: Vec<u8>)
    ensures
        line@ == text(fixed),
{
    let mut line: Vec<u8> = Vec::new();
    line.extend_from_slice(fixed.as_bytes());
    line
}

/// A line about something whose name is shown as `shown`: the bytes of
/// `head`, then `shown`, then the bytes of `tail`.
pub fn line_about(head: &str, shown: &Vec<u8>, tail: &str) -> (line: Vec<u8>)
    ensures
        line@ == text(head) + shown@ + text(tail),
{
    let mut line: Vec<u8> = Vec::new();
    line.extend_from_slice(head.as_bytes());
    line.extend_from_slice(shown.as_slice());
    line.extend_from_slice(tail.as_bytes());
    line
}

/// A line about the database or the conduit of a name. The name is shown
/// as text, whatever its bytes are.
pub fn named_line(head: &str, name: &Vec<u8>, tail: &str) -> (line: Vec<u8>)
    ensures
        line@ == text(head) + utf8_lossy(name@) + text(tail),
        valid_utf8(name@) ==> line@ == text(head) + name@ + text(tail),
{
    let shown = lossy_text(name);
    line_about(head, &shown, tail)
}

} // verus!
