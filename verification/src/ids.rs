//! Identifiers and timestamps handed out by outside crates.

use vstd::prelude::*;

verus! {

/// What `uuid::Uuid::parse_str` makes of a text: the id in its hyphenated
/// lower-case form, or the message of the parse error.
pub uninterp spec fn uuid_parse_result(text: Seq<char>) -> Result<Seq<char>, Seq<char>>;

/// Views a result of two strings as a result of two character sequences.
pub open spec fn string_result_view(r: Result<String, String>) -> Result<Seq<char>, Seq<char>> {
    match r {
        Ok(s) => Ok(s@),
        Err(e) => Err(e@),
    }
}

/// Whether an id is in the form that parsing gives back: it parses as a
/// UUID to itself (hyphenated, lower case).
pub open spec fn is_canonical_id(id: Seq<char>) -> bool {
    uuid_parse_result(id) == Ok::<Seq<char>, Seq<char>>(id)
}

/// Parses an id with `uuid::Uuid::parse_str`.
/// Trusted: the result is `uuid_parse_result` of the text; the id comes back
/// through `Uuid`'s `Display` (hyphenated form), the error through its
/// `Display` message. Nothing else is claimed of either.
#[verifier::external_body]
pub(crate) fn parse_uuid(text: &str) -> (r: Result<String, String>)
    ensures
        string_result_view(r) == uuid_parse_result(text@),
{
    match uuid::Uuid::parse_str(text) {
        Ok(id) => Ok(id.to_string()),
        Err(err) => Err(err.to_string()),
    }
}

/// A fresh random id: `uuid::Uuid::new_v4()` in its hyphenated lower-case
/// form (`Uuid`'s `Display`). Trusted: the value is random; what is claimed
/// is only that it is in the form that parsing gives back, so it parses to
/// itself. `new_v4` panics only when the operating system's random source
/// fails, a fault of the environment that no input rules out.
#[verifier::external_body]
pub(crate) fn new_random_id() -> (id: String)
    ensures
        is_canonical_id(id@),
{
    uuid::Uuid::new_v4().to_string()
}

/// The current time: `chrono::Utc::now().timestamp_micros()`, microseconds
/// since the Unix epoch. Trusted to return; nothing is claimed of the value,
/// which is the machine's clock. `Utc::now` panics only when the clock is
/// set before 1970, a fault of the environment that no input rules out.
#[verifier::external_body]
pub(crate) fn utc_now_micros() -> (t: i64) {
    chrono::Utc::now().timestamp_micros()
}

} // verus!
