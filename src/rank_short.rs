//! The short rendering of a rank: its numeral or its initial letter.

use vstd::prelude::*;

use crate::bundled::bundled_table;
use crate::fluent::{opt_view, resolve_spec, us_english_tag, Catalog, Locale, ToLocaleString};

verus! {

/// A rank's canonical name, rendered through its `-short` key.
#[derive(Clone, Debug)]
pub struct RankShort(pub String);

impl RankShort {
    pub fn new(name: &str) -> (r: RankShort)
        ensures
            r.0@ == name@,
    {
        RankShort(String::from_str(name))
    }

    pub fn as_str(&self) -> (r: &str)
        ensures
            r@ == self.0@,
    {
        self.0.as_str()
    }

    /// The rendering in US English with the bundled translations.
    pub fn to_string(&self) -> (r: Option<String>)
        ensures
            opt_view(r) == resolve_spec(bundled_table(), us_english_tag(), us_english_tag(), self.0@ + "-short"@),
    {
        self.to_locale_string(&Catalog::bundled(), &Locale::us_english())
    }
}

impl ToLocaleString for RankShort {
    open spec fn locale_text(&self, catalog: Catalog, lid: Seq<char>) -> Option<Seq<char>> {
        catalog.resolved(self.0@, "-short"@, lid)
    }

    fn to_locale_string(&self, catalog: &Catalog, lid: &Locale) -> (r: Option<String>) {
        catalog.resolve(self.0.as_str(), "-short", lid)
    }
}

impl PartialEq for RankShort {
    fn eq(&self, other: &RankShort) -> (r: bool) {
        self.0 == other.0
    }
}

impl vstd::std_specs::cmp::PartialEqSpecImpl for RankShort {
    open spec fn obeys_eq_spec() -> bool {
        true
    }

    open spec fn eq_spec(&self, other: &RankShort) -> bool {
        self.0@ == other.0@
    }
}

impl Eq for RankShort {
}

} // verus!
