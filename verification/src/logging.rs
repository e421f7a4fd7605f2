//! Classifying log messages: a message whose lowercase form contains one of
//! the error markers is rendered as an error line; everything else is an
//! ordinary log line.

use crate::strutil::{contains_seq, contains_str};
use vstd::prelude::*;
use vstd::string::*;

verus! {

/// What `str::to_lowercase` returns for a string.
pub uninterp spec fn lower_of(s: Seq<char>) -> Seq<char>;

/// Relies on `str::to_lowercase`: the Unicode lowercase form, a function of
/// the input characters alone; an empty string stays empty.
#[verifier::external_body]
fn lowercase(s: &str) -> (r: String)
    ensures
        r@ == lower_of(s@),
        s@.len() == 0 ==> r@.len() == 0,
{
    s.to_lowercase()
}

/// The lowercased message contains one of the error markers.
pub open spec fn error_marked(lowered: Seq<char>) -> bool {
    ||| contains_seq(lowered, "error"@)
    ||| contains_seq(lowered, "fail"@)
    ||| contains_seq(lowered, "l\u{1ed7}i"@)
}

/// Classifies an already-lowercased message.
pub fn is_error_text(lowered: &str) -> (r: bool)
    ensures
        r == error_marked(lowered@),
{
    contains_str(lowered, "error") || contains_str(lowered, "fail") || contains_str(
        lowered,
        "l\u{1ed7}i",
    )
}

/// Whether a log message is rendered as an error line: its lowercase form
/// contains one of the error markers.
pub fn is_error_message(message: &str) -> (r: bool)
    ensures
        r == error_marked(lower_of(message@)),
{
    let lowered = lowercase(message);
    is_error_text(lowered.as_str())
}

} // verus!
