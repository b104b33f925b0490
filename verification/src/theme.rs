//! The theme record: eight named colour strings, with a built-in default.

use vstd::prelude::*;

verus! {

/// Ghost mirror of a [`Theme`]: the eight colour strings as character
/// sequences, in the same named-field correspondence.
pub struct ThemeView {
    pub background_color: Seq<char>,
    pub primary_color: Seq<char>,
    pub secondary_color: Seq<char>,
    pub tertiary_color: Seq<char>,
    pub accent_color: Seq<char>,
    pub text_primary: Seq<char>,
    pub text_secondary: Seq<char>,
    pub shadow_color: Seq<char>,
}

/// One visual palette: eight named colour strings in a CSS-compatible colour
/// syntax. The strings are opaque to this crate; they are carried verbatim,
/// never parsed or validated. A value is immutable once constructed: the
/// store replaces its theme wholesale, never field by field.
pub struct Theme {
    pub background_color: String,
    pub primary_color: String,
    pub secondary_color: String,
    pub tertiary_color: String,
    pub accent_color: String,
    pub text_primary: String,
    pub text_secondary: String,
    pub shadow_color: String,
}

impl View for Theme {
    type V = ThemeView;

    open spec fn view(&self) -> ThemeView {
        ThemeView {
            background_color: self.background_color@,
            primary_color: self.primary_color@,
            secondary_color: self.secondary_color@,
            tertiary_color: self.tertiary_color@,
            accent_color: self.accent_color@,
            text_primary: self.text_primary@,
            text_secondary: self.text_secondary@,
            shadow_color: self.shadow_color@,
        }
    }
}

/// The built-in default palette, field by field.
pub open spec fn default_theme_view() -> ThemeView {
    ThemeView {
        background_color: "#0A0C11"@,
        primary_color: "#004d4d"@,
        secondary_color: "#006666"@,
        tertiary_color: "#008080"@,
        accent_color: "#00cccc"@,
        text_primary: "#e6f3f3"@,
        text_secondary: "#001a1a"@,
        shadow_color: "rgba(0, 204, 204, 0.2)"@,
    }
}

impl Default for Theme {
    /// A fresh theme holds exactly the built-in default colour values.
    fn default() -> (r: Theme)
        ensures
            r@ == default_theme_view(),
    {
        Theme {
            background_color: "#0A0C11".to_owned(),
            primary_color: "#004d4d".to_owned(),
            secondary_color: "#006666".to_owned(),
            tertiary_color: "#008080".to_owned(),
            accent_color: "#00cccc".to_owned(),
            text_primary: "#e6f3f3".to_owned(),
            text_secondary: "#001a1a".to_owned(),
            shadow_color: "rgba(0, 204, 204, 0.2)".to_owned(),
        }
    }
}

impl Clone for Theme {
    /// A clone equals the original in every field.
    fn clone(&self) -> (r: Theme)
        ensures
            r == *self,
    {
        Theme {
            background_color: self.background_color.clone(),
            primary_color: self.primary_color.clone(),
            secondary_color: self.secondary_color.clone(),
            tertiary_color: self.tertiary_color.clone(),
            accent_color: self.accent_color.clone(),
            text_primary: self.text_primary.clone(),
            text_secondary: self.text_secondary.clone(),
            shadow_color: self.shadow_color.clone(),
        }
    }
}

} // verus!
