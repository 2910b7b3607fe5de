//! The colour theme of the interface.

use vstd::prelude::*;

verus! {

/// The colour theme the user picked.
#[derive(Debug, Clone, Copy, PartialEq, Eq, Structural)]
pub enum Theme {
    Light,
    Dark,
    System,
}

/// The stored name of a theme.
pub open spec fn theme_name(t: Theme) -> Seq<char> {
    match t {
        Theme::Light => "light"@,
        Theme::Dark => "dark"@,
        Theme::System => "system"@,
    }
}

/// The theme that a stored name stands for; any other name means the
/// default theme, `System`.
pub open spec fn theme_from_name(name: Seq<char>) -> Theme {
    if name == "light"@ {
        Theme::Light
    } else if name == "dark"@ {
        Theme::Dark
    } else {
        Theme::System
    }
}

impl Theme {
    /// Reads a theme from its stored name; any other text gives the default.
    pub fn from_string(value: String) -> (t: Theme)
        ensures
            t == theme_from_name(value@),
    {
        if value == String::from_str("light") {
            Theme::Light
        } else if value == String::from_str("dark") {
            Theme::Dark
        } else if value == String::from_str("system") {
            Theme::System
        } else {
            Theme::default()
        }
    }

    /// The stored name of this theme.
    pub fn to_string(&self) -> (r: String)
        ensures
            r@ == theme_name(*self),
    {
        match self {
            Theme::Light => String::from_str("light"),
            Theme::Dark => String::from_str("dark"),
            Theme::System => String::from_str("system"),
        }
    }
}

impl Default for Theme {
    fn default() -> (t: Theme)
        ensures
            t == Theme::System,
    {
        Theme::System
    }
}

/// Reading back the stored name of a theme gives the same theme.
pub proof fn lemma_theme_name_round_trip(t: Theme)
    ensures
        theme_from_name(theme_name(t)) == t,
{
    reveal_strlit("light");
    reveal_strlit("dark");
    reveal_strlit("system");
    assert("system"@.len() != "light"@.len() && "system"@.len() != "dark"@.len());
    assert("dark"@.len() != "light"@.len());
}

} // verus!
