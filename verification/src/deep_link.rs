//! Uploads requested through `mikupush://` links: which request file a link
//! names, and how the shared paths are read.

use vstd::prelude::*;
use crate::text::starts_with;

verus! {

/// What `str::replace` makes of a text: every non-overlapping occurrence of
/// `from`, left to right, replaced by `to`.
pub uninterp spec fn replaced(s: Seq<char>, from: Seq<char>, to: Seq<char>) -> Seq<char>;

/// `str::replace`. Trusted: the result is `replaced` of the three texts.
#[verifier::external_body]
fn replace_all(s: &str, from: &str, to: &str) -> (r: String)
    ensures
        r@ == replaced(s@, from@, to@),
{
    s.replace(from, to)
}

/// Whether a link path asks to share files: it starts with `/share`.
pub open spec fn is_share_path(path: Seq<char>) -> bool {
    "/share"@.len() <= path.len() && path.subrange(0, "/share"@.len() as int) == "/share"@
}

/// The request file that a link's path names: for a path starting with
/// `/share`, the path with every `/share/` removed; for any other path,
/// nothing.
pub fn shared_request_file(url_path: &str) -> (r: Option<String>)
    ensures
        match r {
            Some(f) => is_share_path(url_path@) && f@ == replaced(url_path@, "/share/"@, ""@),
            None => !is_share_path(url_path@),
        },
{
    if starts_with(url_path, "/share") {
        Some(replace_all(url_path, "/share/", ""))
    } else {
        None
    }
}

/// What `urlencoding::decode` makes of a text: the decoded text, or `None`
/// when the decoded bytes are not UTF-8.
pub uninterp spec fn percent_decoded(s: Seq<char>) -> Option<Seq<char>>;

/// `urlencoding::decode`. Trusted: the result is `percent_decoded` of the
/// text; the crate's source hands a text without `%` back unchanged.
#[verifier::external_body]
fn percent_decode(s: &str) -> (r: Option<String>)
    ensures
        match r {
            Some(d) => percent_decoded(s@) == Some(d@),
            None => percent_decoded(s@) is None,
        },
        !s@.contains('%') ==> r is Some && r->0@ == s@,
{
    match urlencoding::decode(s) {
        Ok(decoded) => Some(decoded.into_owned()),
        Err(_) => None,
    }
}

/// A shared path as the share extension writes it: percent-encoded; a path
/// that does not decode to UTF-8 is taken as it is.
pub fn decode_shared_path(path: String) -> (r: String)
    ensures
        r@ == match percent_decoded(path@) {
            Some(d) => d,
            None => path@,
        },
        !path@.contains('%') ==> r@ == path@,
{
    match percent_decode(path.as_str()) {
        Some(d) => d,
        None => path,
    }
}

/// What `serde_json` makes of bytes read as a JSON array of strings: the
/// strings in order, or the message of the parse error.
pub uninterp spec fn json_string_list(bytes: Seq<u8>) -> Result<Seq<Seq<char>>, Seq<char>>;

/// `serde_json::from_slice::<Vec<String>>`. Trusted: the result is
/// `json_string_list` of the bytes (the error by its `Display` message).
#[verifier::external_body]
fn parse_string_list(bytes: &[u8]) -> (r: Result<Vec<String>, String>)
    ensures
        match r {
            Ok(v) => json_string_list(bytes@) == Ok::<Seq<Seq<char>>, Seq<char>>(
                v@.map_values(|s: String| s@),
            ),
            Err(e) => json_string_list(bytes@) == Err::<Seq<Seq<char>>, Seq<char>>(e@),
        },
{
    match serde_json::from_slice::<Vec<String>>(bytes) {
        Ok(list) => Ok(list),
        Err(err) => Err(err.to_string()),
    }
}

/// A shared path as it is queued: percent-decoded when asked (a path that
/// does not decode to UTF-8 is taken as it is), else as it is.
pub open spec fn queued_path(path: Seq<char>, decode: bool) -> Seq<char> {
    if decode {
        match percent_decoded(path) {
            Some(d) => d,
            None => path,
        }
    } else {
        path
    }
}

/// The paths that a share request file lists, from its bytes (a JSON array
/// of strings), each decoded when `decode` is set (the share extension
/// percent-encodes them on macOS). Bytes that are not such an array give the
/// parse error's message after `failed to parse share requests paths: `.
pub fn shared_request_paths(bytes: &[u8], decode: bool) -> (r: Result<Vec<String>, String>)
    ensures
        match json_string_list(bytes@) {
            Err(e) => r is Err && r->Err_0@ == "failed to parse share requests paths: "@ + e,
            Ok(list) => r is Ok && r->Ok_0@.len() == list.len() && forall|i: int|
                0 <= i < list.len() ==> (#[trigger] r->Ok_0@[i])@ == queued_path(list[i], decode),
        },
{
    let list = match parse_string_list(bytes) {
        Ok(list) => list,
        Err(e) => {
            return Err(String::from_str("failed to parse share requests paths: ").concat(e.as_str()));
        },
    };
    let ghost texts = list@.map_values(|s: String| s@);
    let mut paths: Vec<String> = Vec::new();
    let mut i: usize = 0;
    while i < list.len()
        invariant
            i <= list@.len(),
            texts == list@.map_values(|s: String| s@),
            paths@.len() == i,
            forall|j: int| 0 <= j < i ==> (#[trigger] paths@[j])@ == queued_path(texts[j], decode),
        decreases list.len() - i,
    {
        let path = list[i].clone();
        if decode {
            paths.push(decode_shared_path(path));
        } else {
            paths.push(path);
        }
        i = i + 1;
    }
    Ok(paths)
}

} // verus!
