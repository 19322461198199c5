//! The content type under which a file is served.

use vstd::prelude::*;
use crate::path::Filename;

verus! {

/// The content type that `mime_guess` gives for a file name: the first
/// media type that it knows for the extension of the name, and
/// `application/octet-stream` where it knows none.
pub uninterp spec fn guessed_content_type(file_name: Seq<char>) -> Seq<char>;

/// `mime_guess::from_path` on the file name, then
/// `MimeGuess::first_or_octet_stream`, written out as text. Not proved:
/// that the result is the content type that `guessed_content_type` stands
/// for. The guess reads the name only, never the disk.
#[verifier::external_body]
fn guess(file_name: &str) -> (r: String)
    ensures
        r@ == guessed_content_type(file_name@),
{
    mime_guess::from_path(file_name).first_or_octet_stream().to_string()
}

/// The content type for a file, by the extension of its name.
pub fn content_type(file_name: &Filename) -> (r: String)
    ensures
        r@ == guessed_content_type(file_name@),
{
    guess(file_name.display())
}

} // verus!
