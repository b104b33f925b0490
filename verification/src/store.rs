//! The theme store: one current theme, resolved against a practice registry.

use vstd::prelude::*;

use crate::theme::{default_theme_view, Theme, ThemeView};

verus! {

/// One practice's declared colour palette: the same eight named colour
/// strings a [`Theme`] carries, as the registry declares them.
pub struct PracticeColors {
    pub background_color: String,
    pub primary_color: String,
    pub secondary_color: String,
    pub tertiary_color: String,
    pub accent_color: String,
    pub text_primary: String,
    pub text_secondary: String,
    pub shadow_color: String,
}

/// One registry entry: a practice identifier and its palette.
pub struct PracticeEntry {
    pub id: String,
    pub colors: PracticeColors,
}

/// The theme a palette yields, field for field in the documented named
/// correspondence: no transposition, no truncation.
pub open spec fn palette_theme_view(c: PracticeColors) -> ThemeView {
    ThemeView {
        background_color: c.background_color@,
        primary_color: c.primary_color@,
        secondary_color: c.secondary_color@,
        tertiary_color: c.tertiary_color@,
        accent_color: c.accent_color@,
        text_primary: c.text_primary@,
        text_secondary: c.text_secondary@,
        shadow_color: c.shadow_color@,
    }
}

/// Registry lookup: the palette of the first entry whose identifier equals
/// `id`, or `None` when no entry carries it.
pub open spec fn resolve(reg: Seq<PracticeEntry>, id: Seq<char>) -> Option<PracticeColors>
    decreases reg.len(),
{
    if reg.len() == 0 {
        None
    } else if reg[0].id@ == id {
        Some(reg[0].colors)
    } else {
        resolve(reg.drop_first(), id)
    }
}

/// The theme an update commits: the resolved palette on a hit, the built-in
/// default on a miss.
pub open spec fn resolved_theme_view(reg: Seq<PracticeEntry>, id: Seq<char>) -> ThemeView {
    match resolve(reg, id) {
        Some(c) => palette_theme_view(c),
        None => default_theme_view(),
    }
}

/// The holder of the single current theme, together with the registry of
/// practice palettes it resolves identifiers against.
///
/// The store is an owned value: exclusive access for updates comes from
/// `&mut`, so a host that shares one store across threads wraps it in a
/// mutual-exclusion lock. Updates replace the current theme wholesale; a
/// host with a rendering surface reads the committed value back (via
/// [`ThemeStore::get_current_theme`]) after each update and applies that
/// copy, so the surface is never touched while the store is borrowed.
pub struct ThemeStore {
    pub registry: Vec<PracticeEntry>,
    pub current: Theme,
}

impl ThemeStore {
    /// A fresh store over the given registry, holding the default theme.
    pub fn new(registry: Vec<PracticeEntry>) -> (r: ThemeStore)
        ensures
            r.registry == registry,
            r.current@ == default_theme_view(),
    {
        ThemeStore { registry, current: Theme::default() }
    }

    /// Resolves `practice_id` and replaces the current theme wholesale: with
    /// the resolved palette on a hit, with the built-in default on a miss.
    /// Never fails; an unknown identifier is defined to mean "use default".
    pub fn set_theme(&mut self, practice_id: &str)
        ensures
            final(self).registry == old(self).registry,
            final(self).current@ == resolved_theme_view(old(self).registry@, practice_id@),
    {
        let id: String = practice_id.to_owned();
        match find_practice(&self.registry, &id) {
            Some(i) => {
                let c = &self.registry[i].colors;
                self.current = Theme {
                    background_color: c.background_color.clone(),
                    primary_color: c.primary_color.clone(),
                    secondary_color: c.secondary_color.clone(),
                    tertiary_color: c.tertiary_color.clone(),
                    accent_color: c.accent_color.clone(),
                    text_primary: c.text_primary.clone(),
                    text_secondary: c.text_secondary.clone(),
                    shadow_color: c.shadow_color.clone(),
                };
            },
            None => {
                self.current = Theme::default();
            },
        }
    }

    /// Returns a copy of the current theme.
    pub fn get_current_theme(&self) -> (r: Theme)
        ensures
            r == self.current,
    {
        self.current.clone()
    }
}

/// The index of the first registry entry whose identifier equals `id`, tied
/// to what [`resolve`] yields.
fn find_practice(registry: &Vec<PracticeEntry>, id: &String) -> (r: Option<usize>)
    ensures
        match r {
            Some(i) => i < registry@.len() && registry@[i as int].id@ == id@
                && resolve(registry@, id@) == Some(registry@[i as int].colors),
            None => resolve(registry@, id@) is None,
        },
{
    let n = registry.len();
    let mut i: usize = 0;
    proof {
        assert(registry@.skip(0) =~= registry@);
    }
    while i < n
        invariant
            n == registry@.len(),
            i <= n,
            resolve(registry@, id@) == resolve(registry@.skip(i as int), id@),
        decreases n - i,
    {
        if registry[i].id == *id {
            proof {
                assert(registry@.skip(i as int)[0] == registry@[i as int]);
            }
            return Some(i);
        }
        proof {
            assert(registry@.skip(i as int)[0] == registry@[i as int]);
            assert(registry@.skip(i as int).drop_first() =~= registry@.skip(i as int + 1));
        }
        i = i + 1;
    }
    proof {
        assert(registry@.skip(n as int) =~= Seq::<PracticeEntry>::empty());
    }
    None
}

} // verus!
