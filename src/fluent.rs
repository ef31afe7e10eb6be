//! Resolution of localized texts: a catalog of translations keyed by
//! locale and composed key, with a fallback locale for misses.

use vstd::prelude::*;

use crate::bundled::bundled_table;

verus! {

/// A locale, identified by its language tag (`en-US`, `de`).
#[derive(Debug)]
pub struct Locale {
    pub tag: String,
}

impl Locale {
    pub fn new(tag: &str) -> (r: Locale)
        ensures
            r.tag@ == tag@,
    {
        Locale { tag: String::from_str(tag) }
    }

    /// The fallback locale of the bundled translations.
    pub fn us_english() -> (r: Locale)
        ensures
            r.tag@ == us_english_tag(),
    {
        Locale::new("en-US")
    }

    pub fn german() -> (r: Locale)
        ensures
            r.tag@ == german_tag(),
    {
        Locale::new("de")
    }
}

pub open spec fn us_english_tag() -> Seq<char> {
    "en-US"@
}

pub open spec fn german_tag() -> Seq<char> {
    "de"@
}

/// One translation: the text shown for `key` in the locale `locale`.
#[derive(Debug)]
pub struct Entry {
    pub locale: String,
    pub key: String,
    pub text: String,
}

impl Entry {
    pub open spec fn view(&self) -> (Seq<char>, Seq<char>, Seq<char>) {
        (self.locale@, self.key@, self.text@)
    }
}

/// A translation store: entries searched in order, and the locale that
/// a lookup falls back to when the requested one has no entry.
#[derive(Debug)]
pub struct Catalog {
    pub fallback: Locale,
    pub entries: Vec<Entry>,
}

/// The text of the first entry for `(locale, key)`, if any.
pub open spec fn find_text(
    entries: Seq<(Seq<char>, Seq<char>, Seq<char>)>,
    locale: Seq<char>,
    key: Seq<char>,
) -> Option<Seq<char>>
    decreases entries.len(),
{
    if entries.len() == 0 {
        None
    } else if entries[0].0 == locale && entries[0].1 == key {
        Some(entries[0].2)
    } else {
        find_text(entries.drop_first(), locale, key)
    }
}

/// What a lookup of `key` in `locale` yields, falling back to the
/// catalog's default locale on a miss.
pub open spec fn resolve_spec(
    entries: Seq<(Seq<char>, Seq<char>, Seq<char>)>,
    fallback: Seq<char>,
    locale: Seq<char>,
    key: Seq<char>,
) -> Option<Seq<char>> {
    match find_text(entries, locale, key) {
        Some(t) => Some(t),
        None => find_text(entries, fallback, key),
    }
}

pub open spec fn opt_view(o: Option<String>) -> Option<Seq<char>> {
    match o {
        Some(s) => Some(s@),
        None => None,
    }
}

impl Catalog {
    pub open spec fn view(&self) -> Seq<(Seq<char>, Seq<char>, Seq<char>)> {
        self.entries@.map_values(|e: Entry| e@)
    }

    /// What resolving `name` + `suffix` in `locale` yields in this catalog.
    pub open spec fn resolved(&self, name: Seq<char>, suffix: Seq<char>, locale: Seq<char>) -> Option<
        Seq<char>,
    > {
        resolve_spec(self@, self.fallback.tag@, locale, name + suffix)
    }

    /// An empty catalog that falls back to `fallback`.
    pub fn new(fallback: Locale) -> (r: Catalog)
        ensures
            r@ == Seq::<(Seq<char>, Seq<char>, Seq<char>)>::empty(),
            r.fallback.tag@ == fallback.tag@,
    {
        Catalog { fallback, entries: Vec::new() }
    }

    /// Appends a translation; an earlier entry for the same locale and key
    /// keeps precedence.
    pub fn add(&mut self, locale: &str, key: &str, text: &str)
        ensures
            final(self)@ == old(self)@.push((locale@, key@, text@)),
            final(self).fallback == old(self).fallback,
    {
        let e = Entry {
            locale: String::from_str(locale),
            key: String::from_str(key),
            text: String::from_str(text),
        };
        self.entries.push(e);
        assert(self@ =~= old(self)@.push((locale@, key@, text@)));
    }

    /// The text stored for `key` in `locale` itself, without fallback.
    pub fn lookup(&self, locale: &String, key: &String) -> (r: Option<String>)
        ensures
            opt_view(r) == find_text(self@, locale@, key@),
    {
        let n = self.entries.len();
        let mut i: usize = 0;
        assert(self@.subrange(0, n as int) =~= self@);
        while i < n
            invariant
                n == self.entries@.len(),
                0 <= i <= n,
                find_text(self@, locale@, key@) == find_text(self@.subrange(i as int, n as int), locale@, key@),
            decreases n - i,
        {
            let e = &self.entries[i];
            assert(self@.subrange(i as int, n as int).drop_first() =~= self@.subrange(i as int + 1, n as int));
            if e.locale == *locale && e.key == *key {
                return Some(e.text.clone());
            }
            i = i + 1;
        }
        None
    }

    /// Resolves `name` + `suffix` in `locale`, falling back to the
    /// catalog's default locale; `None` when neither has it.
    pub fn resolve(&self, name: &str, suffix: &str, locale: &Locale) -> (r: Option<String>)
        ensures
            opt_view(r) == self.resolved(name@, suffix@, locale.tag@),
    {
        let mut key = String::from_str(name);
        key.append(suffix);
        match self.lookup(&locale.tag, &key) {
            Some(t) => Some(t),
            None => self.lookup(&self.fallback.tag, &key),
        }
    }
}

pub open spec fn is_digit(c: char) -> bool {
    '0' <= c && c <= '9'
}

pub open spec fn digit_value(c: char) -> int {
    (c as u32) as int - ('0' as u32) as int
}

/// The number that a run of decimal digits denotes.
pub open spec fn digits_value(s: Seq<char>) -> int
    decreases s.len(),
{
    if s.len() == 0 {
        0
    } else {
        digits_value(s.drop_last()) * 10 + digit_value(s.last())
    }
}

/// `s` without a leading `+`.
pub open spec fn unsigned_part(s: Seq<char>) -> Seq<char> {
    if s.len() > 0 && s[0] == '+' {
        s.drop_first()
    } else {
        s
    }
}

/// A decimal `u8`: an optional `+`, then one or more digits whose value
/// is at most 255.
pub open spec fn parse_u8_spec(s: Seq<char>) -> Option<u8> {
    let d = unsigned_part(s);
    if d.len() > 0 && (forall|i: int| 0 <= i < d.len() ==> is_digit(#[trigger] d[i]))
        && digits_value(d) <= 255 {
        Some(digits_value(d) as u8)
    } else {
        None
    }
}

/// A numeric value read from a translation: its parse, or 0 when the key
/// is unresolved or its text is no number.
pub open spec fn numeric_spec(text: Option<Seq<char>>) -> u8 {
    match text {
        Some(t) => match parse_u8_spec(t) {
            Some(v) => v,
            None => 0,
        },
        None => 0,
    }
}

proof fn lemma_digits_nonneg(s: Seq<char>)
    requires
        forall|i: int| 0 <= i < s.len() ==> is_digit(#[trigger] s[i]),
    ensures
        digits_value(s) >= 0,
    decreases s.len(),
{
    if s.len() > 0 {
        let t = s.drop_last();
        assert forall|i: int| 0 <= i < t.len() implies is_digit(#[trigger] t[i]) by {
            assert(t[i] == s[i]);
        }
        lemma_digits_nonneg(t);
        assert(is_digit(s[s.len() - 1]));
    }
}

/// Parses a decimal `u8` as `str::parse::<u8>` does.
pub fn parse_u8(s: &str) -> (r: Option<u8>)
    ensures
        r == parse_u8_spec(s@),
{
    let n = s.unicode_len();
    let mut start: usize = 0;
    if n > 0 && s.get_char(0) == '+' {
        start = 1;
    }
    let ghost d = unsigned_part(s@);
    assert(d =~= s@.subrange(start as int, n as int));
    if start >= n {
        return None;
    }
    let mut acc: u32 = 0;
    let mut i: usize = start;
    while i < n
        invariant
            start <= i <= n,
            n == s@.len(),
            d == s@.subrange(start as int, n as int),
            d == unsigned_part(s@),
            forall|j: int| 0 <= j < i - start ==> is_digit(#[trigger] d[j]),
            acc <= 256,
            acc == (if digits_value(d.subrange(0, i - start)) < 256 {
                digits_value(d.subrange(0, i - start))
            } else {
                256
            }),
        decreases n - i,
    {
        let c = s.get_char(i);
        assert(c == d[i - start]);
        if !('0' <= c && c <= '9') {
            assert(!is_digit(d[i - start]));
            return None;
        }
        let dv: u32 = (c as u32) - ('0' as u32);
        proof {
            let pre = d.subrange(0, i - start);
            let post = d.subrange(0, i + 1 - start);
            assert(post.drop_last() =~= pre);
            assert(post.last() == c);
            assert forall|j: int| 0 <= j < pre.len() implies is_digit(#[trigger] pre[j]) by {
                assert(pre[j] == d[j]);
            }
            lemma_digits_nonneg(pre);
        }
        acc = acc * 10 + dv;
        if acc > 256 {
            acc = 256;
        }
        i = i + 1;
    }
    assert(d.subrange(0, n - start) =~= d);
    if acc <= 255 {
        Some(acc as u8)
    } else {
        None
    }
}

impl Catalog {
    /// Resolves `name` + `-value` in this catalog's default locale and reads
    /// it as a number; 0 where it is missing or no number.
    pub fn numeric(&self, name: &str) -> (r: u8)
        ensures
            r == numeric_spec(self.resolved(name@, "-value"@, self.fallback.tag@)),
    {
        match self.resolve(name, "-value", &self.fallback) {
            Some(t) => match parse_u8(t.as_str()) {
                Some(v) => v,
                None => 0,
            },
            None => 0,
        }
    }
}

/// The bundled text of `name` + `-value` in US English.
pub fn get_value(name: &str) -> (r: Option<String>)
    ensures
        opt_view(r) == resolve_spec(bundled_table(), us_english_tag(), us_english_tag(), name@ + "-value"@),
{
    let c = Catalog::bundled();
    c.resolve(name, "-value", &Locale::us_english())
}

/// The bundled numeric value of `name`: the parse of its US English
/// `-value` text, or 0 where that is missing or no number.
pub fn get_value_u8(name: &str) -> (r: u8)
    ensures
        r == numeric_spec(resolve_spec(bundled_table(), us_english_tag(), us_english_tag(), name@ + "-value"@)),
{
    match get_value(name) {
        Some(t) => match parse_u8(t.as_str()) {
            Some(v) => v,
            None => 0,
        },
        None => 0,
    }
}

/// Both texts joined, where both resolved.
pub open spec fn join_spec(a: Option<Seq<char>>, b: Option<Seq<char>>) -> Option<Seq<char>> {
    match (a, b) {
        (Some(x), Some(y)) => Some(x + y),
        _ => None,
    }
}

/// Joins two resolved texts; `None` where either is missing.
pub fn join(a: Option<String>, b: Option<String>) -> (r: Option<String>)
    ensures
        opt_view(r) == join_spec(opt_view(a), opt_view(b)),
{
    match (a, b) {
        (Some(x), Some(y)) => {
            let mut x = x;
            x.append(y.as_str());
            Some(x)
        },
        _ => None,
    }
}

/// Rendering in a locale, through a catalog of translations.
pub trait ToLocaleString {
    /// The text this value renders to in `lid`, `None` where a key is
    /// unresolved in both `lid` and the catalog's default locale.
    spec fn locale_text(&self, catalog: Catalog, lid: Seq<char>) -> Option<Seq<char>>;

    fn to_locale_string(&self, catalog: &Catalog, lid: &Locale) -> (r: Option<String>)
        ensures
            opt_view(r) == self.locale_text(*catalog, lid.tag@),
    ;
}

/// A numeric value that a deck variant may revise.
pub trait Valuable {
    /// What identifies the value's owner; a revision leaves it alone.
    spec fn identity(&self) -> Seq<char>;

    spec fn value(&self) -> u8;

    fn revise_value(&mut self, new_value: u8)
        ensures
            final(self).value() == new_value,
            final(self).identity() == old(self).identity(),
    ;

    fn get_value(&self) -> (r: u8)
        ensures
            r == self.value(),
    ;
}

} // verus!
