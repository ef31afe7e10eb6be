//! A card: one rank and one suit, owned by value.

use vstd::prelude::*;

use crate::anzug::Anzug;
use crate::fluent::{join, join_spec, opt_view, Catalog, Locale, ToLocaleString};
use crate::rang::{default_value, Rang};

verus! {

/// What identifies a card: rank name, rank value, suit name.
pub type KarteView = (Seq<char>, u8, Seq<char>);

#[derive(Clone, Debug)]
pub struct Karte {
    pub rang: Rang,
    pub anzug: Anzug,
}

impl Karte {
    pub open spec fn view(&self) -> KarteView {
        (self.rang.name@, self.rang.value, self.anzug.name@)
    }

    /// A card from raw names; the rank takes its default value.
    pub fn new(rang: &str, anzug: &str) -> (r: Karte)
        ensures
            r@ == (rang@, default_value(rang@), anzug@),
    {
        Karte { rang: Rang::new(rang), anzug: Anzug::new(anzug) }
    }

    pub fn new_from_structs(rang: Rang, anzug: Anzug) -> (r: Karte)
        ensures
            r.rang == rang,
            r.anzug == anzug,
    {
        Karte { rang, anzug }
    }

    /// Rank short text followed by the suit's letter.
    pub fn to_txt_string(&self, catalog: &Catalog, lid: &Locale) -> (r: Option<String>)
        ensures
            opt_view(r) == join_spec(
                catalog.resolved(self.rang.name@, "-short"@, lid.tag@),
                catalog.resolved(self.anzug.name@, "-letter"@, lid.tag@),
            ),
    {
        let rang = self.rang.short(catalog, lid);
        let anzug = self.anzug.letter(catalog, lid);
        join(rang, anzug)
    }

    pub fn duplicate(&self) -> (r: Karte)
        ensures
            r@ == self@,
    {
        Karte { rang: self.rang.duplicate(), anzug: self.anzug.duplicate() }
    }
}

impl ToLocaleString for Karte {
    /// Rank short text followed by the suit's glyph.
    open spec fn locale_text(&self, catalog: Catalog, lid: Seq<char>) -> Option<Seq<char>> {
        join_spec(
            catalog.resolved(self.rang.name@, "-short"@, lid),
            catalog.resolved(self.anzug.name@, "-symbol"@, lid),
        )
    }

    fn to_locale_string(&self, catalog: &Catalog, lid: &Locale) -> (r: Option<String>) {
        let rang = self.rang.short(catalog, lid);
        let anzug = self.anzug.symbol(catalog, lid);
        join(rang, anzug)
    }
}

/// Rendering a card is resolving its rank's short text and its suit's
/// symbol by name, in the same locale, and joining them: two cards with
/// the same names render alike.
pub proof fn lemma_render_by_names(a: Karte, b: Karte, catalog: Catalog, lid: Seq<char>)
    requires
        a.rang.name@ == b.rang.name@,
        a.anzug.name@ == b.anzug.name@,
    ensures
        a.locale_text(catalog, lid) == join_spec(
            catalog.resolved(a.rang.name@, "-short"@, lid),
            catalog.resolved(a.anzug.name@, "-symbol"@, lid),
        ),
        a.locale_text(catalog, lid) == b.locale_text(catalog, lid),
{
}

impl PartialEq for Karte {
    fn eq(&self, other: &Karte) -> (r: bool) {
        self.rang.name == other.rang.name && self.rang.value == other.rang.value
            && self.anzug.name == other.anzug.name
    }
}

impl vstd::std_specs::cmp::PartialEqSpecImpl for Karte {
    open spec fn obeys_eq_spec() -> bool {
        true
    }

    open spec fn eq_spec(&self, other: &Karte) -> bool {
        self@ == other@
    }
}

impl Eq for Karte {
}

} // verus!
