//! An image file that was read for upload.

use vstd::prelude::*;
use vstd::string::*;

verus! {

/// The media type that `mime_guess` finds for the extension of `path`, and
/// `None` where it knows none.
pub uninterp spec fn guessed_media_type(path: Seq<char>) -> Option<Seq<char>>;

/// The media type of a file of which nothing is known.
pub open spec fn octet_stream() -> Seq<char> {
    "application/octet-stream"@
}

/// The media type of an image for which `guess` is what is known of its
/// kind: the guess, or `application/octet-stream` where there is none.
pub open spec fn media_type_or_default(guess: Option<Seq<char>>) -> Seq<char> {
    match guess {
        Some(media_type) => media_type,
        None => octet_stream(),
    }
}

/// The media type an image read from `path` is sent with.
pub open spec fn media_type_of(path: Seq<char>) -> Seq<char> {
    media_type_or_default(guessed_media_type(path))
}

/// The value of a media type that may be missing.
pub open spec fn guess_view(guess: Option<String>) -> Option<Seq<char>> {
    match guess {
        Some(media_type) => Some(media_type@),
        None => None,
    }
}

/// Calls `mime_guess::from_path` and takes the first guess, written as
/// text. Believed of it: the guess depends on the text of `path` alone. The
/// crate reads nothing from disk for it and documents that every entry of
/// its table is a well-formed media type.
#[verifier::external_body]
fn first_guess(path: &str) -> (guess: Option<String>)
    ensures
        match guess {
            Some(media_type) => guessed_media_type(path@) == Some(media_type@),
            None => guessed_media_type(path@) is None,
        },
{
    match mime_guess::from_path(path).first() {
        Some(media_type) => Some(media_type.to_string()),
        None => None,
    }
}

/// Stores data about a read image file.
#[derive(Debug, PartialEq, Eq)]
pub struct Image {
    path: String,
    bytes: Vec<u8>,
    mime_type: String,
}

/// The mathematical value of an [`Image`].
pub struct ImageContent {
    pub path: Seq<char>,
    pub bytes: Seq<u8>,
    pub mime_type: Seq<char>,
}

impl View for Image {
    type V = ImageContent;

    closed spec fn view(&self) -> ImageContent {
        ImageContent { path: self.path@, bytes: self.bytes@, mime_type: self.mime_type@ }
    }
}

impl Clone for Image {
    fn clone(&self) -> (copy: Image)
        ensures
            copy@ == self@,
    {
        Image {
            path: self.path.clone(),
            bytes: self.bytes.clone(),
            mime_type: self.mime_type.clone(),
        }
    }
}

impl Image {
    /// The image at `path` with the content `bytes`, of the media type
    /// `guess`, or of `application/octet-stream` where that is `None`.
    pub fn new(path: String, bytes: Vec<u8>, guess: Option<String>) -> (image: Image)
        ensures
            image@ == (ImageContent {
                path: path@,
                bytes: bytes@,
                mime_type: media_type_or_default(guess_view(guess)),
            }),
    {
        let mime_type = match guess {
            Some(media_type) => media_type,
            None => String::from_str("application/octet-stream"),
        };
        Image { path, bytes, mime_type }
    }

    /// The image that was read from `path` with the content `bytes`. Its
    /// media type is guessed from the extension of the path; where there is
    /// no guess, it is `application/octet-stream`.
    pub fn read(path: String, bytes: Vec<u8>) -> (image: Image)
        ensures
            image@ == (ImageContent { path: path@, bytes: bytes@, mime_type: media_type_of(path@) }),
    {
        let guess = first_guess(path.as_str());
        Image::new(path, bytes, guess)
    }

    pub fn path(&self) -> (path: &String)
        ensures
            path@ == self@.path,
    {
        &self.path
    }

    pub fn bytes(&self) -> (bytes: &Vec<u8>)
        ensures
            bytes@ == self@.bytes,
    {
        &self.bytes
    }

    pub fn mime_type(&self) -> (mime_type: &String)
        ensures
            mime_type@ == self@.mime_type,
    {
        &self.mime_type
    }
}

} // verus!
