//! Choosing the media type of a file to upload.

use vstd::prelude::*;

verus! {

/// Files larger than this (512 MiB) are typed by their extension alone.
pub const MAX_FILE_SIZE: u64 = 536870912;

/// The media type used when nothing better is known.
pub const FALLBACK_MIME_TYPE: &'static str = "application/octet-stream";

/// Why the media type of a file could not be found.
#[derive(Debug)]
pub enum MimeTypeDetectError {
    DetectError(String),
    PathError(String),
    IOError(String),
}

/// The message of a detection error, as shown to the user.
pub open spec fn detect_error_message(e: MimeTypeDetectError) -> Seq<char> {
    match e {
        MimeTypeDetectError::DetectError(m) => "failed to detect mime type: "@ + m@,
        MimeTypeDetectError::PathError(m) => "path is not valid unicode: "@ + m@,
        MimeTypeDetectError::IOError(m) => "failed to read file: "@ + m@,
    }
}

impl MimeTypeDetectError {
    /// The message shown to the user.
    pub fn to_string(&self) -> (r: String)
        ensures
            r@ == detect_error_message(*self),
    {
        match self {
            MimeTypeDetectError::DetectError(m) => String::from_str("failed to detect mime type: ").concat(
                m.as_str(),
            ),
            MimeTypeDetectError::PathError(m) => String::from_str("path is not valid unicode: ").concat(
                m.as_str(),
            ),
            MimeTypeDetectError::IOError(m) => String::from_str("failed to read file: ").concat(m.as_str()),
        }
    }
}

/// The first media type that `mime_guess::from_path` guesses for a path from
/// its extension, as `Mime::essence_str` gives it.
pub uninterp spec fn guessed_mime_type(path: Seq<char>) -> Option<Seq<char>>;

/// `mime_guess::from_path(path).first()`, by its essence (type and subtype,
/// no parameters). Trusted: the result is `guessed_mime_type` of the path.
/// The guess looks at the extension only; the disk is not read.
#[verifier::external_body]
fn guess_mime_type(path: &str) -> (r: Option<String>)
    ensures
        match r {
            Some(m) => guessed_mime_type(path@) == Some(m@),
            None => guessed_mime_type(path@) is None,
        },
{
    match mime_guess::from_path(path).first() {
        Some(mime) => Some(mime.essence_str().to_string()),
        None => None,
    }
}

/// The message of the error when no media type is known for a path.
pub open spec fn unknown_type_message(path: Seq<char>) -> Seq<char> {
    "failed to detect mime type by contents or extension for path "@ + path
}

/// The media type of a file by its extension, or an error when the
/// extension names no known type.
pub fn detect_mime_type_by_extension(path: &str) -> (r: Result<String, MimeTypeDetectError>)
    ensures
        match guessed_mime_type(path@) {
            Some(m) => r is Ok && r->Ok_0@ == m,
            None => r matches Err(MimeTypeDetectError::DetectError(msg)) && msg@
                == unknown_type_message(path@),
        },
{
    match guess_mime_type(path) {
        Some(m) => Ok(m),
        None => Err(
            MimeTypeDetectError::DetectError(
                String::from_str("failed to detect mime type by contents or extension for path ").concat(
                    path,
                ),
            ),
        ),
    }
}

/// The media type by extension, or the fallback type.
pub open spec fn type_by_extension_or_fallback(path: Seq<char>) -> Seq<char> {
    match guessed_mime_type(path) {
        Some(m) => m,
        None => FALLBACK_MIME_TYPE@,
    }
}

fn mime_type_by_extension_or_fallback(path: &str) -> (r: String)
    ensures
        r@ == type_by_extension_or_fallback(path@),
{
    match detect_mime_type_by_extension(path) {
        Ok(m) => m,
        Err(_) => String::from_str(FALLBACK_MIME_TYPE),
    }
}

/// The media type of a file of the given size. Up to `MAX_FILE_SIZE` the
/// type found from the content wins; above it, or when the content gave
/// none, the type by extension is used, and failing that the fallback type.
pub fn detect_mime_type(path: &str, size: u64, by_content: Option<Result<String, MimeTypeDetectError>>) -> (r: String)
    ensures
        r@ == if size > MAX_FILE_SIZE {
            type_by_extension_or_fallback(path@)
        } else {
            match by_content {
                Some(Ok(m)) => m@,
                _ => type_by_extension_or_fallback(path@),
            }
        },
{
    if size > MAX_FILE_SIZE {
        return mime_type_by_extension_or_fallback(path);
    }
    match by_content {
        Some(Ok(m)) => m,
        _ => mime_type_by_extension_or_fallback(path),
    }
}

/// The text that `String::from_utf8_lossy` reads from bytes (invalid
/// sequences replaced by U+FFFD).
pub uninterp spec fn utf8_lossy_text(bytes: Seq<u8>) -> Seq<char>;

/// `String::from_utf8_lossy`, copied into a new string. Trusted: the result
/// is `utf8_lossy_text` of the bytes.
#[verifier::external_body]
fn utf8_lossy(bytes: &[u8]) -> (r: String)
    ensures
        r@ == utf8_lossy_text(bytes@),
{
    String::from_utf8_lossy(bytes).to_string()
}

/// What `regex::Regex::new(pattern)` and then `is_match(text)` give: `None`
/// when the pattern does not compile, else whether it matches.
pub uninterp spec fn regex_match_result(pattern: Seq<char>, text: Seq<char>) -> Option<bool>;

/// Whether a text starts with `<svg ` (an `<svg` tag with attributes).
pub open spec fn starts_with_svg_tag(text: Seq<char>) -> bool {
    "<svg "@.len() <= text.len() && text.subrange(0, "<svg "@.len() as int) == "<svg "@
}

/// `regex::Regex::new(pattern)?.is_match(text)`. Trusted: the result is
/// `regex_match_result` of the pattern and the text; for the SVG pattern
/// `^<svg .*` (anchored at the start, then any run of characters, possibly
/// empty) it compiles and matches exactly the texts that start with `<svg `.
#[verifier::external_body]
fn regex_is_match(pattern: &str, text: &str) -> (r: Option<bool>)
    ensures
        r == regex_match_result(pattern@, text@),
        pattern@ == "^<svg .*"@ ==> r == Some(starts_with_svg_tag(text@)),
{
    match regex::Regex::new(pattern) {
        Ok(re) => Some(re.is_match(text)),
        Err(_) => None,
    }
}

/// The pattern that an SVG image's text starts with.
pub const SVG_PATTERN: &'static str = "^<svg .*";

/// Whether file content is an SVG image: its text, read leniently as UTF-8,
/// matches `^<svg .*`, that is, starts with `<svg `.
pub fn is_svg_image(bytes: &[u8]) -> (r: bool)
    ensures
        r == (regex_match_result(SVG_PATTERN@, utf8_lossy_text(bytes@)) == Some(true)),
        r == starts_with_svg_tag(utf8_lossy_text(bytes@)),
{
    let text = utf8_lossy(bytes);
    match regex_is_match(SVG_PATTERN, text.as_str()) {
        Some(m) => m,
        None => false,
    }
}

} // verus!
