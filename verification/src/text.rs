//! Text helpers: comparisons proved here, and the two case and space
//! operations of `std` that the library relies on.

use vstd::prelude::*;

verus! {

/// What `str::to_lowercase` makes of a text (Unicode lower-case mapping).
pub uninterp spec fn lowercase(s: Seq<char>) -> Seq<char>;

/// What `str::trim` makes of a text (leading and trailing Unicode white
/// space removed).
pub uninterp spec fn trimmed(s: Seq<char>) -> Seq<char>;

/// Whether a text is made of the ASCII lower-case letters `a` to `z` only.
pub open spec fn is_ascii_lower(s: Seq<char>) -> bool {
    forall|i: int| 0 <= i < s.len() ==> 'a' <= #[trigger] s[i] <= 'z'
}

/// The lower-case form of a text: the text itself when it is ASCII
/// lower-case already, else what `str::to_lowercase` makes of it.
pub open spec fn lower_form(s: Seq<char>) -> Seq<char> {
    if is_ascii_lower(s) {
        s
    } else {
        lowercase(s)
    }
}

/// `str::to_lowercase`. Trusted: the result is `lowercase` of the text, and
/// a text of ASCII lower-case letters comes back unchanged (each of them is
/// its own lower-case mapping in Unicode).
#[verifier::external_body]
pub(crate) fn to_lowercase(s: &str) -> (r: String)
    ensures
        r@ == lowercase(s@),
        is_ascii_lower(s@) ==> r@ == s@,
{
    s.to_lowercase()
}

/// `str::trim`, copied into a new string. Trusted: the result is `trimmed`
/// of the text.
#[verifier::external_body]
pub(crate) fn trim(s: &str) -> (r: String)
    ensures
        r@ == trimmed(s@),
{
    s.trim().to_string()
}

/// Whether two texts are equal.
pub fn str_eq(a: &str, b: &str) -> (r: bool)
    ensures
        r == (a@ == b@),
{
    String::from_str(a) == String::from_str(b)
}

/// Whether a text begins with a prefix.
pub fn starts_with(s: &str, prefix: &str) -> (r: bool)
    ensures
        r == (prefix@.len() <= s@.len() && s@.subrange(0, prefix@.len() as int) == prefix@),
{
    let n = s.unicode_len();
    let m = prefix.unicode_len();
    if m > n {
        return false;
    }
    let head = s.substring_char(0, m);
    str_eq(head, prefix)
}

} // verus!
