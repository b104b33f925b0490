use practice_theme::{PracticeColors, PracticeEntry, Theme, ThemeStore};

fn palette(prefix: &str) -> PracticeColors {
    PracticeColors {
        background_color: format!("{}-bg", prefix),
        primary_color: format!("{}-primary", prefix),
        secondary_color: format!("{}-secondary", prefix),
        tertiary_color: format!("{}-tertiary", prefix),
        accent_color: format!("{}-accent", prefix),
        text_primary: format!("{}-text1", prefix),
        text_secondary: format!("{}-text2", prefix),
        shadow_color: format!("{}-shadow", prefix),
    }
}

fn entry(id: &str, prefix: &str) -> PracticeEntry {
    PracticeEntry { id: id.to_string(), colors: palette(prefix) }
}

#[test]
fn test_set_theme() {
    let mut store = ThemeStore::new(Vec::new());
    store.set_theme("whm_basic");
    let theme = store.get_current_theme();
    assert_eq!(theme.background_color, "#0A0C11");
    assert_eq!(theme.primary_color, "#004d4d");
}

#[test]
fn test_default_theme() {
    let default_theme = Theme::default();
    assert_eq!(default_theme.background_color, "#0A0C11");
    assert_eq!(default_theme.primary_color, "#004d4d");
    assert_eq!(default_theme.secondary_color, "#006666");
}

#[test]
fn default_theme_all_eight_fields() {
    let t = Theme::default();
    assert_eq!(t.background_color, "#0A0C11");
    assert_eq!(t.primary_color, "#004d4d");
    assert_eq!(t.secondary_color, "#006666");
    assert_eq!(t.tertiary_color, "#008080");
    assert_eq!(t.accent_color, "#00cccc");
    assert_eq!(t.text_primary, "#e6f3f3");
    assert_eq!(t.text_secondary, "#001a1a");
    assert_eq!(t.shadow_color, "rgba(0, 204, 204, 0.2)");
}

#[test]
fn fresh_store_holds_default_theme() {
    let store = ThemeStore::new(vec![entry("p1", "one")]);
    let t = store.get_current_theme();
    let d = Theme::default();
    assert_eq!(t.background_color, d.background_color);
    assert_eq!(t.primary_color, d.primary_color);
    assert_eq!(t.secondary_color, d.secondary_color);
    assert_eq!(t.tertiary_color, d.tertiary_color);
    assert_eq!(t.accent_color, d.accent_color);
    assert_eq!(t.text_primary, d.text_primary);
    assert_eq!(t.text_secondary, d.text_secondary);
    assert_eq!(t.shadow_color, d.shadow_color);
}

#[test]
fn miss_falls_back_to_default() {
    let mut store = ThemeStore::new(vec![entry("p1", "one"), entry("p2", "two")]);
    store.set_theme("p2");
    assert_eq!(store.get_current_theme().background_color, "two-bg");
    store.set_theme("absent");
    let t = store.get_current_theme();
    assert_eq!(t.background_color, "#0A0C11");
    assert_eq!(t.primary_color, "#004d4d");
    assert_eq!(t.secondary_color, "#006666");
    assert_eq!(t.tertiary_color, "#008080");
    assert_eq!(t.accent_color, "#00cccc");
    assert_eq!(t.text_primary, "#e6f3f3");
    assert_eq!(t.text_secondary, "#001a1a");
    assert_eq!(t.shadow_color, "rgba(0, 204, 204, 0.2)");
}

#[test]
fn miss_on_empty_identifier() {
    let mut store = ThemeStore::new(vec![entry("p1", "one")]);
    store.set_theme("");
    assert_eq!(store.get_current_theme().background_color, "#0A0C11");
}

#[test]
fn hit_propagates_all_eight_fields() {
    let mut store = ThemeStore::new(vec![entry("p1", "one"), entry("p2", "two")]);
    store.set_theme("p2");
    let t = store.get_current_theme();
    assert_eq!(t.background_color, "two-bg");
    assert_eq!(t.primary_color, "two-primary");
    assert_eq!(t.secondary_color, "two-secondary");
    assert_eq!(t.tertiary_color, "two-tertiary");
    assert_eq!(t.accent_color, "two-accent");
    assert_eq!(t.text_primary, "two-text1");
    assert_eq!(t.text_secondary, "two-text2");
    assert_eq!(t.shadow_color, "two-shadow");
}

#[test]
fn first_matching_entry_wins() {
    let mut store = ThemeStore::new(vec![entry("p", "one"), entry("p", "two")]);
    store.set_theme("p");
    assert_eq!(store.get_current_theme().background_color, "one-bg");
}

#[test]
fn css_of_default_theme_exact() {
    let store = ThemeStore::new(Vec::new());
    let expected = ":root {\n    --background-color: #0A0C11;\n    --primary-color: #004d4d;\n    --secondary-color: #006666;\n    --tertiary-color: #008080;\n    --accent-color: #00cccc;\n    --text-primary: #e6f3f3;\n    --text-secondary: #001a1a;\n    --shadow-color: rgba(0, 204, 204, 0.2);\n}";
    assert_eq!(store.get_theme_css(), expected);
}

#[test]
fn css_of_custom_palette_exact() {
    let mut store = ThemeStore::new(vec![entry("p9", "nine")]);
    store.set_theme("p9");
    let expected = ":root {\n    --background-color: nine-bg;\n    --primary-color: nine-primary;\n    --secondary-color: nine-secondary;\n    --tertiary-color: nine-tertiary;\n    --accent-color: nine-accent;\n    --text-primary: nine-text1;\n    --text-secondary: nine-text2;\n    --shadow-color: nine-shadow;\n}";
    assert_eq!(store.get_theme_css(), expected);
}

#[test]
fn css_carries_values_verbatim() {
    // No escaping, no validation: a malformed colour string passes through.
    let mut colors = palette("x");
    colors.background_color = "not } a real { color;".to_string();
    let mut store =
        ThemeStore::new(vec![PracticeEntry { id: "odd".to_string(), colors }]);
    store.set_theme("odd");
    let css = store.get_theme_css();
    assert!(css.contains("    --background-color: not } a real { color;;\n"));
}

#[test]
fn repeated_reads_are_identical() {
    let mut store = ThemeStore::new(vec![entry("p1", "one")]);
    store.set_theme("p1");
    let t1 = store.get_current_theme();
    let t2 = store.get_current_theme();
    assert_eq!(t1.background_color, t2.background_color);
    assert_eq!(t1.primary_color, t2.primary_color);
    assert_eq!(t1.secondary_color, t2.secondary_color);
    assert_eq!(t1.tertiary_color, t2.tertiary_color);
    assert_eq!(t1.accent_color, t2.accent_color);
    assert_eq!(t1.text_primary, t2.text_primary);
    assert_eq!(t1.text_secondary, t2.text_secondary);
    assert_eq!(t1.shadow_color, t2.shadow_color);
    assert_eq!(store.get_theme_css(), store.get_theme_css());
}

#[test]
fn update_replaces_wholesale() {
    // After any sequence of updates the value is one full palette, never a mix.
    let mut store = ThemeStore::new(vec![entry("p1", "one"), entry("p2", "two")]);
    store.set_theme("p1");
    store.set_theme("p2");
    let t = store.get_current_theme();
    assert_eq!(t.background_color, "two-bg");
    assert_eq!(t.shadow_color, "two-shadow");
}

#[test]
fn cloned_theme_equals_original() {
    let t = Theme::default();
    let c = t.clone();
    assert_eq!(c.background_color, t.background_color);
    assert_eq!(c.shadow_color, t.shadow_color);
}
