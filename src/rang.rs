//! A card's rank: its canonical name and its numeric value.

use vstd::prelude::*;

use crate::bundled::bundled_table;
use crate::fluent::{
    numeric_spec, opt_view, resolve_spec, us_english_tag, Catalog, Locale, ToLocaleString,
    Valuable, get_value_u8,
};

verus! {

/// The value a rank named `name` starts with: its bundled US English
/// `-value` text read as a number, or 0.
pub open spec fn default_value(name: Seq<char>) -> u8 {
    numeric_spec(resolve_spec(bundled_table(), us_english_tag(), us_english_tag(), name + "-value"@))
}

#[derive(Clone, Debug)]
pub struct Rang {
    pub name: String,
    pub value: u8,
}

impl Rang {
    pub open spec fn view(&self) -> (Seq<char>, u8) {
        (self.name@, self.value)
    }

    /// A rank with its default value from the bundled translations.
    pub fn new(name: &str) -> (r: Rang)
        ensures
            r.name@ == name@,
            r.value == default_value(name@),
    {
        Rang { name: String::from_str(name), value: get_value_u8(name) }
    }

    /// A rank whose value is read from `catalog` in its default locale.
    pub fn new_in(catalog: &Catalog, name: &str) -> (r: Rang)
        ensures
            r.name@ == name@,
            r.value == numeric_spec(catalog.resolved(name@, "-value"@, catalog.fallback.tag@)),
    {
        Rang { name: String::from_str(name), value: catalog.numeric(name) }
    }

    /// The short rendering: a numeral, or the rank's initial in `lid`.
    pub fn short(&self, catalog: &Catalog, lid: &Locale) -> (r: Option<String>)
        ensures
            opt_view(r) == catalog.resolved(self.name@, "-short"@, lid.tag@),
    {
        catalog.resolve(self.name.as_str(), "-short", lid)
    }

    /// The full name of the rank in `lid`.
    pub fn long_name(&self, catalog: &Catalog, lid: &Locale) -> (r: Option<String>)
        ensures
            opt_view(r) == catalog.resolved(self.name@, "-name"@, lid.tag@),
    {
        catalog.resolve(self.name.as_str(), "-name", lid)
    }

    pub fn duplicate(&self) -> (r: Rang)
        ensures
            r@ == self@,
    {
        Rang { name: self.name.clone(), value: self.value }
    }
}

impl ToLocaleString for Rang {
    open spec fn locale_text(&self, catalog: Catalog, lid: Seq<char>) -> Option<Seq<char>> {
        catalog.resolved(self.name@, "-short"@, lid)
    }

    fn to_locale_string(&self, catalog: &Catalog, lid: &Locale) -> (r: Option<String>) {
        self.short(catalog, lid)
    }
}

impl Valuable for Rang {
    open spec fn identity(&self) -> Seq<char> {
        self.name@
    }

    open spec fn value(&self) -> u8 {
        self.value
    }

    fn revise_value(&mut self, new_value: u8) {
        self.value = new_value;
    }

    fn get_value(&self) -> (r: u8) {
        self.value
    }
}

} // verus!
