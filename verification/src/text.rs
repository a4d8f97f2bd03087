//! Text processing: decodes a borrowed byte string, uppercases it behind a
//! fixed prefix, and hands the result out as an owned handle that can be
//! released at most once.
use vstd::prelude::*;

verus! {

use vstd::string::StringExecFns;

/// What UTF-8 decoding yields for a byte sequence: the decoded characters,
/// or nothing when the bytes are not valid UTF-8.
pub uninterp spec fn decoded_utf8(bytes: Seq<u8>) -> Option<Seq<char>>;

/// The Unicode uppercase mapping of a character sequence.
pub uninterp spec fn upper_of(s: Seq<char>) -> Seq<char>;

/// Relies on str::from_utf8: it returns Ok exactly on valid UTF-8 input, and
/// the decoded text is a function of the bytes alone.
#[verifier::external_body]
fn decode_utf8(bytes: &[u8]) -> (r: Option<&str>)
    ensures
        r is Some <==> decoded_utf8(bytes@) is Some,
        r is Some ==> r->0@ == decoded_utf8(bytes@)->0,
{
    std::str::from_utf8(bytes).ok()
}

/// Relies on str::to_uppercase: the Unicode uppercase mapping, a function of
/// the characters alone.
#[verifier::external_body]
fn to_upper(s: &str) -> (r: String)
    ensures
        r@ == upper_of(s@),
{
    s.to_uppercase()
}

/// The text that processing a byte string produces: the fixed prefix followed
/// by the uppercased input, or by the fallback text when the bytes do not
/// decode.
pub open spec fn process_string_spec(input: Seq<u8>) -> Seq<char> {
    match decoded_utf8(input) {
        Some(chars) => "Processed: "@ + upper_of(chars),
        None => "Processed: "@ + "INVALID"@,
    }
}

/// A heap-allocated text buffer owned by the caller. The only operations are
/// reading the text and consuming the handle: consumption takes the handle by
/// value, so a released buffer can be neither read again nor released twice.
pub struct OwnedText {
    text: String,
}

impl View for OwnedText {
    type V = Seq<char>;

    closed spec fn view(&self) -> Seq<char> {
        self.text@
    }
}

impl OwnedText {
    /// Borrows the held text without giving up ownership.
    pub fn read(&self) -> (r: &str)
        ensures
            r@ == self@,
    {
        self.text.as_str()
    }

    /// Consumes the handle and hands the held text over, for a caller that
    /// takes ownership of the buffer itself.
    pub fn into_string(self) -> (r: String)
        ensures
            r@ == self@,
    {
        self.text
    }
}

/// Processes a borrowed byte string and returns a new owned buffer: the text
/// "Processed: " followed by the input uppercased, or by "INVALID" when the
/// input is not valid UTF-8. Undecodable input is recovered from, never an
/// error. The caller owns the result and releases it with `free_rust_string`.
pub fn process_string(input: &[u8]) -> (r: OwnedText)
    ensures
        r@ == process_string_spec(input@),
{
    let mut out = String::from_str("Processed: ");
    match decode_utf8(input) {
        Some(s) => {
            let up = to_upper(s);
            out.append(up.as_str());
        },
        None => {
            out.append("INVALID");
        },
    }
    OwnedText { text: out }
}

/// Releases a buffer previously returned by `process_string`; a no-op on an
/// absent buffer. The handle is consumed by value, so the same buffer cannot
/// be released twice and cannot be read after release.
pub fn free_rust_string(s: Option<OwnedText>) {
    match s {
        Some(_) => (),
        None => (),
    }
}

/// Law: `process_string` has no hidden state. Its contract determines the
/// result from the input bytes alone, so repeated calls with the same input
/// yield identical output.
pub proof fn lemma_process_string_repeatable(input: Seq<u8>, r1: Seq<char>, r2: Seq<char>)
    requires
        r1 == process_string_spec(input),
        r2 == process_string_spec(input),
    ensures
        r1 == r2,
{
}

} // verus!
