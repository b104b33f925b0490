//! Rendering a theme as a block of CSS custom-property declarations.

use vstd::prelude::*;

use crate::store::ThemeStore;
use crate::theme::{Theme, ThemeView};

verus! {

/// The exact text `get_theme_css` renders: one `:root { ... }` block holding
/// eight `--<name>: <value>;` lines in fixed order, each value substituted
/// verbatim — no escaping, no validation.
pub open spec fn css_of(t: ThemeView) -> Seq<char> {
    ":root {\n"@ + "    --background-color: "@ + t.background_color + ";\n"@
        + "    --primary-color: "@ + t.primary_color + ";\n"@
        + "    --secondary-color: "@ + t.secondary_color + ";\n"@
        + "    --tertiary-color: "@ + t.tertiary_color + ";\n"@
        + "    --accent-color: "@ + t.accent_color + ";\n"@
        + "    --text-primary: "@ + t.text_primary + ";\n"@
        + "    --text-secondary: "@ + t.text_secondary + ";\n"@
        + "    --shadow-color: "@ + t.shadow_color + ";\n"@ + "}"@
}

/// Appends one `--<name>: <value>;` declaration line.
fn push_declaration(out: &mut String, name: &str, value: &str)
    ensures
        final(out)@ == old(out)@ + name@ + value@ + ";\n"@,
{
    out.append(name);
    out.append(value);
    out.append(";\n");
}

/// Renders a theme as the CSS text [`css_of`] describes.
pub fn render_theme_css(theme: &Theme) -> (r: String)
    ensures
        r@ == css_of(theme@),
{
    let mut out: String = ":root {\n".to_owned();
    push_declaration(&mut out, "    --background-color: ", theme.background_color.as_str());
    push_declaration(&mut out, "    --primary-color: ", theme.primary_color.as_str());
    push_declaration(&mut out, "    --secondary-color: ", theme.secondary_color.as_str());
    push_declaration(&mut out, "    --tertiary-color: ", theme.tertiary_color.as_str());
    push_declaration(&mut out, "    --accent-color: ", theme.accent_color.as_str());
    push_declaration(&mut out, "    --text-primary: ", theme.text_primary.as_str());
    push_declaration(&mut out, "    --text-secondary: ", theme.text_secondary.as_str());
    push_declaration(&mut out, "    --shadow-color: ", theme.shadow_color.as_str());
    out.append("}");
    out
}

impl ThemeStore {
    /// Renders the current theme as one `:root { ... }` block of the eight
    /// CSS custom-property declarations, in fixed order, each value carried
    /// over verbatim.
    pub fn get_theme_css(&self) -> (r: String)
        ensures
            r@ == css_of(self.current@),
    {
        let theme = self.get_current_theme();
        render_theme_css(&theme)
    }
}

} // verus!
