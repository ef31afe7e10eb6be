//! A card's suit, identified by its canonical name.

use vstd::prelude::*;

use crate::fluent::{opt_view, Catalog, Locale, ToLocaleString};

verus! {

#[derive(Clone, Debug)]
pub struct Anzug {
    pub name: String,
}

impl Anzug {
    pub fn new(name: &str) -> (r: Anzug)
        ensures
            r.name@ == name@,
    {
        Anzug { name: String::from_str(name) }
    }

    /// The suit's letter in `lid`, for text without glyphs.
    pub fn letter(&self, catalog: &Catalog, lid: &Locale) -> (r: Option<String>)
        ensures
            opt_view(r) == catalog.resolved(self.name@, "-letter"@, lid.tag@),
    {
        catalog.resolve(self.name.as_str(), "-letter", lid)
    }

    /// The suit's glyph.
    pub fn symbol(&self, catalog: &Catalog, lid: &Locale) -> (r: Option<String>)
        ensures
            opt_view(r) == catalog.resolved(self.name@, "-symbol"@, lid.tag@),
    {
        catalog.resolve(self.name.as_str(), "-symbol", lid)
    }

    /// The full name of the suit in `lid`.
    pub fn long_name(&self, catalog: &Catalog, lid: &Locale) -> (r: Option<String>)
        ensures
            opt_view(r) == catalog.resolved(self.name@, "-name"@, lid.tag@),
    {
        catalog.resolve(self.name.as_str(), "-name", lid)
    }

    pub fn duplicate(&self) -> (r: Anzug)
        ensures
            r.name@ == self.name@,
    {
        Anzug { name: self.name.clone() }
    }
}

impl ToLocaleString for Anzug {
    open spec fn locale_text(&self, catalog: Catalog, lid: Seq<char>) -> Option<Seq<char>> {
        catalog.resolved(self.name@, "-symbol"@, lid)
    }

    fn to_locale_string(&self, catalog: &Catalog, lid: &Locale) -> (r: Option<String>) {
        self.symbol(catalog, lid)
    }
}

} // verus!
