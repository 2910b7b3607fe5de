//! Server icons as `data:` URLs.

use vstd::prelude::*;
use crate::text::starts_with;
use base64::Engine;

verus! {

/// Why the media type of a file could not be found.
#[derive(Debug)]
pub enum MimeTypeDetectError {
    DetectError { message: String },
    PathError { message: String },
    IOError { message: String },
}

/// The message of a detection error, as shown to the user.
pub open spec fn detect_error_message(e: MimeTypeDetectError) -> Seq<char> {
    match e {
        MimeTypeDetectError::DetectError { message } => "failed to detect mime type: "@ + message@,
        MimeTypeDetectError::PathError { message } => "path is not valid unicode: "@ + message@,
        MimeTypeDetectError::IOError { message } => "failed to read file: "@ + message@,
    }
}

impl MimeTypeDetectError {
    /// The message shown to the user.
    pub fn to_string(&self) -> (r: String)
        ensures
            r@ == detect_error_message(*self),
    {
        match self {
            MimeTypeDetectError::DetectError { message } => String::from_str(
                "failed to detect mime type: ",
            ).concat(message.as_str()),
            MimeTypeDetectError::PathError { message } => String::from_str(
                "path is not valid unicode: ",
            ).concat(message.as_str()),
            MimeTypeDetectError::IOError { message } => String::from_str("failed to read file: ").concat(
                message.as_str(),
            ),
        }
    }
}

/// Why an image could not be encoded.
#[derive(Debug)]
pub enum ImageEncodeError {
    ReadError { message: String },
    NotImageError { message: String },
    DetectTypeError { message: String },
}

/// The message of an encoding error, as shown to the user.
pub open spec fn encode_error_message(e: ImageEncodeError) -> Seq<char> {
    match e {
        ImageEncodeError::ReadError { message } => "read error: "@ + message@,
        ImageEncodeError::NotImageError { message } => "not image error: "@ + message@,
        ImageEncodeError::DetectTypeError { message } => "detect type error: "@ + message@,
    }
}

impl ImageEncodeError {
    /// The message shown to the user.
    pub fn to_string(&self) -> (r: String)
        ensures
            r@ == encode_error_message(*self),
    {
        match self {
            ImageEncodeError::ReadError { message } => String::from_str("read error: ").concat(message.as_str()),
            ImageEncodeError::NotImageError { message } => String::from_str("not image error: ").concat(
                message.as_str(),
            ),
            ImageEncodeError::DetectTypeError { message } => String::from_str("detect type error: ").concat(
                message.as_str(),
            ),
        }
    }
}

/// Whether a media type is an image type.
pub open spec fn is_image_type(mime_type: Seq<char>) -> bool {
    "image/"@.len() <= mime_type.len() && mime_type.subrange(0, "image/"@.len() as int) == "image/"@
}

/// Checks the detected media type of a file to encode: a detection error
/// becomes a `DetectTypeError` with its message; a type that is not an image
/// type becomes a `NotImageError`; an image type is handed back.
pub fn check_image_mime_type(detected: Result<String, MimeTypeDetectError>) -> (r: Result<String, ImageEncodeError>)
    ensures
        match detected {
            Err(e) => r matches Err(ImageEncodeError::DetectTypeError { message }) && message@
                == detect_error_message(e),
            Ok(m) => if is_image_type(m@) {
                r == Ok::<String, ImageEncodeError>(m)
            } else {
                r matches Err(ImageEncodeError::NotImageError { message }) && message@
                    == "expected image got: "@ + m@
            },
        },
{
    match detected {
        Err(e) => Err(ImageEncodeError::DetectTypeError { message: e.to_string() }),
        Ok(m) => {
            if starts_with(m.as_str(), "image/") {
                Ok(m)
            } else {
                Err(
                    ImageEncodeError::NotImageError {
                        message: String::from_str("expected image got: ").concat(m.as_str()),
                    },
                )
            }
        },
    }
}

/// The text that the standard Base64 engine of the `base64` crate
/// (`general_purpose::STANDARD`, padded) gives for bytes.
pub uninterp spec fn base64_standard(bytes: Seq<u8>) -> Seq<char>;

/// `base64::engine::general_purpose::STANDARD.encode`. Trusted: the result
/// is `base64_standard` of the bytes.
#[verifier::external_body]
fn encode_base64(bytes: &[u8]) -> (r: String)
    ensures
        r@ == base64_standard(bytes@),
{
    base64::engine::general_purpose::STANDARD.encode(bytes)
}

/// The `data:` URL of an image: `data:<type>;base64,<content in Base64>`.
pub fn image_data_url(mime_type: &str, bytes: &[u8]) -> (r: String)
    ensures
        r@ == "data:"@ + mime_type@ + ";base64,"@ + base64_standard(bytes@),
{
    let encoded = encode_base64(bytes);
    String::from_str("data:").concat(mime_type).concat(";base64,").concat(encoded.as_str())
}

} // verus!
