use vstd::prelude::*;
use crate::report::FileError;

verus! {

/// Cause recorded for a file whose media type cannot be inferred.
pub const UNKNOWN_CONTENT_TYPE: &'static str = "cannot detect content type";

/// The media type that the registry of known extensions gives first for
/// the extension of `key`, if it has one.
pub uninterp spec fn guessed_content_type(key: Seq<char>) -> Option<Seq<char>>;

/// Relies on `mime_guess::from_path` and `MimeGuess::first`: the first media
/// type listed in the crate's fixed table for the key's extension, as its
/// essence string; no type when the extension is missing or not listed.
#[verifier::external_body]
fn guess_content_type(key: &str) -> (r: Option<String>)
    ensures
        match r {
            Some(t) => guessed_content_type(key@) == Some(t@),
            None => guessed_content_type(key@) is None,
        },
{
    match mime_guess::from_path(key).first() {
        Some(m) => Some(m.essence_str().to_string()),
        None => None,
    }
}

/// Relies on `mime::TEXT_HTML`, whose essence string is `text/html`.
#[verifier::external_body]
pub(crate) fn html_content_type() -> (r: String)
    ensures
        r@ == "text/html"@,
{
    mime_guess::mime::TEXT_HTML.essence_str().to_string()
}

/// The content type to send for `key`, from the media type `guess` found
/// for it: that type, or a failure of this one file when none was found.
pub fn content_type_from_guess(key: &str, guess: Option<String>) -> (r: Result<String, FileError>)
    ensures
        match guess {
            Some(t) => r == Ok::<String, FileError>(t),
            None => r matches Err(e) && e.key@ == key@ && e.cause@ == UNKNOWN_CONTENT_TYPE@,
        },
{
    match guess {
        Some(t) => Ok(t),
        None => Err(FileError::new(String::from_str(key), String::from_str(UNKNOWN_CONTENT_TYPE))),
    }
}

/// The content type to send for `key`, inferred from its extension.
pub fn content_type_for(key: &str) -> (r: Result<String, FileError>)
    ensures
        match guessed_content_type(key@) {
            Some(t) => r matches Ok(s) && s@ == t,
            None => r matches Err(e) && e.key@ == key@ && e.cause@ == UNKNOWN_CONTENT_TYPE@,
        },
{
    content_type_from_guess(key, guess_content_type(key))
}

} // verus!
