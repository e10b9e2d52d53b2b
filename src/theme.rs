use vstd::prelude::*;
use crate::fields::{text_field, text_of};
use crate::json::{json_of, parse_json};
use crate::text::same_text;

verus! {

/// A canonical display theme.
#[derive(PartialEq, Eq, Structural, Clone, Copy, Debug)]
pub enum ThemeId {
    Light,
    Dark,
    AfterDark,
    Her,
    Forest,
    Sky,
    Clays,
    Stones,
    Solarized,
}

/// The theme shown where none has been chosen.
pub const DEFAULT_THEME: ThemeId = ThemeId::Dark;

/// The canonical name of each theme, as it is persisted.
pub open spec fn theme_name(t: ThemeId) -> Seq<char> {
    match t {
        ThemeId::Light => "Light"@,
        ThemeId::Dark => "Dark"@,
        ThemeId::AfterDark => "After Dark"@,
        ThemeId::Her => "Her"@,
        ThemeId::Forest => "Forest"@,
        ThemeId::Sky => "Sky"@,
        ThemeId::Clays => "Clays"@,
        ThemeId::Stones => "Stones"@,
        ThemeId::Solarized => "Solarized"@,
    }
}

/// The theme that a canonical name names.
pub open spec fn theme_named(s: Seq<char>) -> Option<ThemeId> {
    if s == "Light"@ {
        Some(ThemeId::Light)
    } else if s == "Dark"@ {
        Some(ThemeId::Dark)
    } else if s == "After Dark"@ {
        Some(ThemeId::AfterDark)
    } else if s == "Her"@ {
        Some(ThemeId::Her)
    } else if s == "Forest"@ {
        Some(ThemeId::Forest)
    } else if s == "Sky"@ {
        Some(ThemeId::Sky)
    } else if s == "Clays"@ {
        Some(ThemeId::Clays)
    } else if s == "Stones"@ {
        Some(ThemeId::Stones)
    } else if s == "Solarized"@ {
        Some(ThemeId::Solarized)
    } else {
        None
    }
}

/// The theme that a lower-case alias stands for.
pub open spec fn alias_theme(s: Seq<char>) -> Option<ThemeId> {
    if s == "light"@ || s == "light-soft"@ {
        Some(ThemeId::Light)
    } else if s == "dark"@ || s == "dark-soft"@ || s == "dark-dimmed"@ {
        Some(ThemeId::Dark)
    } else if s == "after-dark"@ {
        Some(ThemeId::AfterDark)
    } else if s == "her"@ {
        Some(ThemeId::Her)
    } else if s == "forest"@ {
        Some(ThemeId::Forest)
    } else if s == "sky"@ {
        Some(ThemeId::Sky)
    } else if s == "clays"@ {
        Some(ThemeId::Clays)
    } else if s == "stones"@ {
        Some(ThemeId::Stones)
    } else if s == "solarized"@ {
        Some(ThemeId::Solarized)
    } else {
        None
    }
}

/// Characters that lower-casing leaves as they are: ASCII, and no capital.
pub open spec fn is_ascii_lower(s: Seq<char>) -> bool {
    forall|i: int| 0 <= i < s.len() ==> (s[i] as u32) < 128 && !('A' <= #[trigger] s[i] <= 'Z')
}

/// The lower-case form of a text, as `str::to_lowercase` gives it.
pub uninterp spec fn lower_of(s: Seq<char>) -> Seq<char>;

/// Relies on `str::to_lowercase`: the result depends on the characters
/// alone, and ASCII characters that are not capitals stay as they are.
#[verifier::external_body]
pub(crate) fn lowercase(s: &str) -> (r: String)
    ensures
        r@ == lower_of(s@),
        is_ascii_lower(s@) ==> r@ == s@,
{
    s.to_lowercase()
}

impl ThemeId {
    /// The canonical name.
    pub fn name(&self) -> (r: &'static str)
        ensures
            r@ == theme_name(*self),
    {
        match self {
            ThemeId::Light => "Light",
            ThemeId::Dark => "Dark",
            ThemeId::AfterDark => "After Dark",
            ThemeId::Her => "Her",
            ThemeId::Forest => "Forest",
            ThemeId::Sky => "Sky",
            ThemeId::Clays => "Clays",
            ThemeId::Stones => "Stones",
            ThemeId::Solarized => "Solarized",
        }
    }

    /// The theme with canonical name `s`.
    pub fn from_name(s: &str) -> (r: Option<ThemeId>)
        ensures
            r == theme_named(s@),
    {
        if same_text(s, "Light") {
            Some(ThemeId::Light)
        } else if same_text(s, "Dark") {
            Some(ThemeId::Dark)
        } else if same_text(s, "After Dark") {
            Some(ThemeId::AfterDark)
        } else if same_text(s, "Her") {
            Some(ThemeId::Her)
        } else if same_text(s, "Forest") {
            Some(ThemeId::Forest)
        } else if same_text(s, "Sky") {
            Some(ThemeId::Sky)
        } else if same_text(s, "Clays") {
            Some(ThemeId::Clays)
        } else if same_text(s, "Stones") {
            Some(ThemeId::Stones)
        } else if same_text(s, "Solarized") {
            Some(ThemeId::Solarized)
        } else {
            None
        }
    }
}

/// The theme that a lower-case alias stands for.
pub fn theme_for_alias(s: &str) -> (r: Option<ThemeId>)
    ensures
        r == alias_theme(s@),
{
    if same_text(s, "light") || same_text(s, "light-soft") {
        Some(ThemeId::Light)
    } else if same_text(s, "dark") || same_text(s, "dark-soft") || same_text(s, "dark-dimmed") {
        Some(ThemeId::Dark)
    } else if same_text(s, "after-dark") {
        Some(ThemeId::AfterDark)
    } else if same_text(s, "her") {
        Some(ThemeId::Her)
    } else if same_text(s, "forest") {
        Some(ThemeId::Forest)
    } else if same_text(s, "sky") {
        Some(ThemeId::Sky)
    } else if same_text(s, "clays") {
        Some(ThemeId::Clays)
    } else if same_text(s, "stones") {
        Some(ThemeId::Stones)
    } else if same_text(s, "solarized") {
        Some(ThemeId::Solarized)
    } else {
        None
    }
}

/// The theme that a theme name stands for, whatever its case.
pub fn resolve_theme_name(raw: &str) -> (r: Option<ThemeId>)
    ensures
        r == alias_theme(lower_of(raw@)),
        is_ascii_lower(raw@) ==> r == alias_theme(raw@),
{
    let lower = lowercase(raw);
    theme_for_alias(lower.as_str())
}

/// The theme name that a theme-sync message carries.
pub open spec fn message_theme(text: Seq<char>) -> Option<Seq<char>> {
    match json_of(text) {
        Some(j) => text_of(j.get("theme"@)),
        None => None,
    }
}

/// Reads the `theme` string of a theme-sync message; `None` where the
/// message is not JSON or has no such string.
pub fn theme_of_message(text: &str) -> (r: Option<String>)
    ensures
        r.deep_view() == message_theme(text@),
{
    match parse_json(text) {
        Some(doc) => text_field(&doc, "theme"),
        None => None,
    }
}

} // verus!
