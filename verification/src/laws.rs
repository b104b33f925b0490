//! Laws of the store, proved once and for all inputs.

use vstd::prelude::*;

use crate::css::css_of;
use crate::store::{
    palette_theme_view, resolve, resolved_theme_view, PracticeEntry, ThemeStore,
};
use crate::theme::{default_theme_view, Theme};

verus! {

/// Resolve-miss fallback: for any identifier no registry entry carries, an
/// update commits exactly the built-in default theme.
pub proof fn lemma_miss_falls_back_to_default(reg: Seq<PracticeEntry>, id: Seq<char>)
    requires
        forall|i: int| 0 <= i < reg.len() ==> (#[trigger] reg[i]).id@ != id,
    ensures
        resolve(reg, id) is None,
        resolved_theme_view(reg, id) == default_theme_view(),
    decreases reg.len(),
{
    if reg.len() > 0 {
        let sub = reg.drop_first();
        assert forall|j: int| 0 <= j < sub.len() implies (#[trigger] sub[j]).id@ != id by {
            assert(sub[j] == reg[j + 1]);
        }
        lemma_miss_falls_back_to_default(sub, id);
    }
}

/// Resolve-hit propagation: when entry `i` is the first whose identifier
/// equals `id`, an update commits that entry's palette, field for field.
pub proof fn lemma_first_hit_propagates(reg: Seq<PracticeEntry>, id: Seq<char>, i: int)
    requires
        0 <= i < reg.len(),
        reg[i].id@ == id,
        forall|j: int| 0 <= j < i ==> (#[trigger] reg[j]).id@ != id,
    ensures
        resolve(reg, id) == Some(reg[i].colors),
        resolved_theme_view(reg, id) == palette_theme_view(reg[i].colors),
    decreases i,
{
    if i > 0 {
        let sub = reg.drop_first();
        assert(reg[0].id@ != id);
        assert(sub[i - 1] == reg[i]);
        assert forall|j: int| 0 <= j < i - 1 implies (#[trigger] sub[j]).id@ != id by {
            assert(sub[j] == reg[j + 1]);
        }
        lemma_first_hit_propagates(sub, id, i - 1);
    }
}

/// Whole-value update: whatever the registry and the identifier, the theme
/// an update commits is drawn from a single source — one registry entry's
/// full palette, or the built-in default — never a mixture of two.
pub proof fn lemma_update_from_single_source(reg: Seq<PracticeEntry>, id: Seq<char>)
    ensures
        resolved_theme_view(reg, id) == default_theme_view() || exists|i: int|
            0 <= i < reg.len() && (#[trigger] reg[i]).id@ == id && resolved_theme_view(reg, id)
                == palette_theme_view(reg[i].colors),
    decreases reg.len(),
{
    if reg.len() == 0 {
    } else if reg[0].id@ == id {
        assert(0 <= 0 < reg.len() && reg[0].id@ == id && resolved_theme_view(reg, id)
            == palette_theme_view(reg[0].colors));
    } else {
        let sub = reg.drop_first();
        lemma_update_from_single_source(sub, id);
        if exists|j: int| 0 <= j < sub.len() && (#[trigger] sub[j]).id@ == id
            && resolved_theme_view(sub, id) == palette_theme_view(sub[j].colors) {
            let j = choose|j: int| 0 <= j < sub.len() && (#[trigger] sub[j]).id@ == id
                && resolved_theme_view(sub, id) == palette_theme_view(sub[j].colors);
            assert(sub[j] == reg[j + 1]);
            assert(0 <= j + 1 < reg.len() && reg[j + 1].id@ == id && resolved_theme_view(reg, id)
                == palette_theme_view(reg[j + 1].colors));
        }
    }
}

/// Idempotence of the read paths: without an intervening update, any two
/// results of `get_current_theme` are equal, and so are any two results of
/// `get_theme_css` — the contracts of both pin each result to the stored
/// value alone, so reads never mutate what they return.
pub proof fn lemma_reads_idempotent(s: ThemeStore, t1: Theme, t2: Theme, c1: Seq<char>, c2: Seq<char>)
    requires
        t1 == s.current,
        t2 == s.current,
        c1 == css_of(s.current@),
        c2 == css_of(s.current@),
    ensures
        t1 == t2,
        c1 == c2,
{
}

} // verus!
