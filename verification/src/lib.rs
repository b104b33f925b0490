//! A single "current theme" for a practice application.
//!
//! A [`Theme`](theme::Theme) is a record of eight named colour strings. A
//! [`ThemeStore`](store::ThemeStore) owns the one current theme together with
//! the registry of practice palettes it resolves identifiers against:
//! `set_theme` looks an identifier up and replaces the current theme wholesale
//! (falling back to the built-in default on a miss), `get_current_theme`
//! returns a copy of the current value, and `get_theme_css` renders it as a
//! block of CSS custom-property declarations.
//!
//! The store is a plain owned value; a host that shares it across threads
//! wraps it in a lock of its choosing, and a host with a rendering surface
//! applies the copy it reads back after each update.

pub mod css;
pub mod laws;
pub mod store;
pub mod theme;

pub use store::{PracticeColors, PracticeEntry, ThemeStore};
pub use theme::Theme;
