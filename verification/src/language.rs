//! The interface language: which languages are available and which one is
//! used.

use vstd::prelude::*;
use crate::text::{lower_form, to_lowercase};

verus! {

/// The language used when neither the configuration nor the system names an
/// available one.
pub const FALLBACK_LANGUAGE: &'static str = "en";

/// Whether a character separates a language from its region (`en-US`,
/// `es_ES`).
pub open spec fn is_region_separator(c: char) -> bool {
    c == '-' || c == '_'
}

/// The length of the language part of a locale: everything before the first
/// region separator.
pub open spec fn language_part_len(s: Seq<char>) -> nat
    decreases s.len(),
{
    if s.len() == 0 {
        0
    } else if is_region_separator(s[0]) {
        0
    } else {
        1 + language_part_len(s.drop_first())
    }
}

/// Whether a (lower-case) language is one the interface is translated into.
pub open spec fn is_available_language(l: Seq<char>) -> bool {
    l == "en"@ || l == "es"@
}

/// The available language that a locale names, if any: its language part in
/// lower case, when that is available.
pub open spec fn normalized_language(s: Seq<char>) -> Option<Seq<char>> {
    let l = lower_form(s.take(language_part_len(s) as int));
    if is_available_language(l) {
        Some(l)
    } else {
        None
    }
}

pub proof fn lemma_language_part_len(s: Seq<char>, p: int)
    requires
        0 <= p <= s.len(),
        forall|i: int| 0 <= i < p ==> !is_region_separator(#[trigger] s[i]),
        p == s.len() || is_region_separator(s[p]),
    ensures
        language_part_len(s) == p,
    decreases s.len(),
{
    if s.len() > 0 && p > 0 {
        let t = s.drop_first();
        assert forall|i: int| 0 <= i < p - 1 implies !is_region_separator(#[trigger] t[i]) by {
            assert(t[i] == s[i + 1]);
        }
        if p < s.len() {
            assert(t[p - 1] == s[p]);
        }
        lemma_language_part_len(t, p - 1);
    }
}

/// The available language that a locale or language setting names: its
/// language part (before any `-` or `_`) in lower case, when it is English
/// (`en`) or Spanish (`es`).
pub fn normalize_available_language(language: &str) -> (r: Option<String>)
    ensures
        match r {
            Some(l) => normalized_language(language@) == Some(l@),
            None => normalized_language(language@) is None,
        },
{
    let n = language.unicode_len();
    let mut p: usize = 0;
    while p < n && language.get_char(p) != '-' && language.get_char(p) != '_'
        invariant
            p <= n,
            n == language@.len(),
            forall|i: int| 0 <= i < p ==> !is_region_separator(#[trigger] language@[i]),
        decreases n - p,
    {
        p = p + 1;
    }
    proof {
        lemma_language_part_len(language@, p as int);
    }
    let part = language.substring_char(0, p);
    let lower = to_lowercase(part);
    assert(lower@ == lower_form(part@));
    proof {
        reveal_strlit("en");
        reveal_strlit("es");
    }
    if lower == String::from_str("en") || lower == String::from_str("es") {
        Some(lower)
    } else {
        None
    }
}

/// The available language that the optional text names, if any.
pub open spec fn normalized_opt(s: Option<String>) -> Option<Seq<char>> {
    match s {
        Some(t) => normalized_language(t@),
        None => None,
    }
}

/// The language in use for a configured language and a system locale: the
/// configured one when it is available, else the system's when it is
/// available, else English.
pub open spec fn resolved_language(configured: Option<String>, system_locale: Option<String>) -> Seq<char> {
    match normalized_opt(configured) {
        Some(l) => l,
        None => match normalized_opt(system_locale) {
            Some(l) => l,
            None => FALLBACK_LANGUAGE@,
        },
    }
}

/// The language to use: the configured one when it is available, else the
/// system's when it is available, else English. A failure to read the
/// configuration is passed on.
pub fn resolve_current_language(configured: Result<Option<String>, String>, system_locale: Option<String>) -> (r: Result<String, String>)
    ensures
        match configured {
            Err(e) => r == Err::<String, String>(e),
            Ok(c) => r is Ok && r->Ok_0@ == resolved_language(c, system_locale),
        },
{
    match configured {
        Err(e) => Err(e),
        Ok(c) => {
            if let Some(language) = c {
                if let Some(l) = normalize_available_language(language.as_str()) {
                    return Ok(l);
                }
            }
            match system_locale {
                Some(locale) => match normalize_available_language(locale.as_str()) {
                    Some(l) => Ok(l),
                    None => Ok(String::from_str(FALLBACK_LANGUAGE)),
                },
                None => Ok(String::from_str(FALLBACK_LANGUAGE)),
            }
        },
    }
}

/// The language a user selects, ready to be stored: the available language
/// it names, or an error when it names none.
pub fn selected_language(language: &str) -> (r: Result<String, String>)
    ensures
        match normalized_language(language@) {
            Some(l) => r is Ok && r->Ok_0@ == l,
            None => r is Err && r->Err_0@ == "selected language is not available"@,
        },
{
    match normalize_available_language(language) {
        Some(l) => Ok(l),
        None => Err(String::from_str("selected language is not available")),
    }
}

} // verus!
