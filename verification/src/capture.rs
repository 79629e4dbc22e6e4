//! What a screen capture hands to the upload.

use vstd::prelude::*;
use crate::error::{outcome_view, Error, Failure};

verus! {

/// A captured image: its content and its media type.
#[derive(Debug, PartialEq, Eq)]
pub struct ImageData {
    pub bytes: Vec<u8>,
    pub mime_type: String,
}

/// The path of the URI `uri` as `url::Url` gives it, percent-encoded, and
/// `None` where `url::Url::parse` rejects `uri`.
pub uninterp spec fn uri_path(uri: Seq<char>) -> Option<Seq<char>>;

/// What `urlencoding::decode` makes of `text`, and `None` where it rejects
/// `text`.
pub uninterp spec fn percent_decoded(text: Seq<char>) -> Option<Seq<char>>;

/// Calls `url::Url::parse` and takes the path of the URL. Believed of it:
/// whether it accepts `uri`, and the path it gives, depend on `uri` alone.
#[verifier::external_body]
fn path_of_uri(uri: &str) -> (path: Option<String>)
    ensures
        match path {
            Some(encoded) => uri_path(uri@) == Some(encoded@),
            None => uri_path(uri@) is None,
        },
{
    match url::Url::parse(uri) {
        Ok(parsed) => Some(parsed.path().to_string()),
        Err(_) => None,
    }
}

/// Calls `urlencoding::decode`, which replaces each `%` and two hexadecimal
/// digits by the byte they stand for and fails where the bytes it gets are
/// no UTF-8. Believed of it: whether it accepts `text`, and the text it
/// gives, depend on `text` alone.
#[verifier::external_body]
fn percent_decode(text: &str) -> (decoded: Option<String>)
    ensures
        match decoded {
            Some(plain) => percent_decoded(text@) == Some(plain@),
            None => percent_decoded(text@) is None,
        },
{
    match urlencoding::decode(text) {
        Ok(plain) => Some(plain.into_owned()),
        Err(_) => None,
    }
}

/// The path of the screenshot file in the file system, where `uri` is the
/// URI that the capture answered with: the path of the URI, with its percent
/// escapes decoded.
pub open spec fn screenshot_path(uri: Seq<char>) -> Result<Seq<char>, Failure> {
    match uri_path(uri) {
        Some(encoded) => match percent_decoded(encoded) {
            Some(path) => Ok(path),
            None => Err(Failure::UriCodec),
        },
        None => Err(Failure::UriCodec),
    }
}

/// Finds the screenshot file that the URI of a capture names.
pub fn locate_screenshot(uri: &str) -> (path: Result<String, Error>)
    ensures
        outcome_view(path) == screenshot_path(uri@),
{
    match path_of_uri(uri) {
        Some(encoded) => match percent_decode(encoded.as_str()) {
            Some(path) => Ok(path),
            None => Err(Error::UriCodec),
        },
        None => Err(Error::UriCodec),
    }
}

} // verus!
