//! The translations that ship with the library: English, the fallback,
//! and German.

use vstd::prelude::*;

use crate::fluent::{us_english_tag, Catalog, Locale};

verus! {
/// English rank texts and values, as (locale, key, text).
pub open spec fn english_ranks() -> Seq<(Seq<char>, Seq<char>, Seq<char>)> {
    seq![
        ("en-US"@, "two-short"@, "2"@),
        ("en-US"@, "two-name"@, "Two"@),
        ("en-US"@, "two-value"@, "2"@),
        ("en-US"@, "three-short"@, "3"@),
        ("en-US"@, "three-name"@, "Three"@),
        ("en-US"@, "three-value"@, "3"@),
        ("en-US"@, "four-short"@, "4"@),
        ("en-US"@, "four-name"@, "Four"@),
        ("en-US"@, "four-value"@, "4"@),
        ("en-US"@, "five-short"@, "5"@),
        ("en-US"@, "five-name"@, "Five"@),
        ("en-US"@, "five-value"@, "5"@),
        ("en-US"@, "six-short"@, "6"@),
        ("en-US"@, "six-name"@, "Six"@),
        ("en-US"@, "six-value"@, "6"@),
        ("en-US"@, "seven-short"@, "7"@),
        ("en-US"@, "seven-name"@, "Seven"@),
        ("en-US"@, "seven-value"@, "7"@),
        ("en-US"@, "eight-short"@, "8"@),
        ("en-US"@, "eight-name"@, "Eight"@),
        ("en-US"@, "eight-value"@, "8"@),
        ("en-US"@, "nine-short"@, "9"@),
        ("en-US"@, "nine-name"@, "Nine"@),
        ("en-US"@, "nine-value"@, "9"@),
        ("en-US"@, "ten-short"@, "10"@),
        ("en-US"@, "ten-name"@, "Ten"@),
        ("en-US"@, "ten-value"@, "10"@),
        ("en-US"@, "jack-short"@, "J"@),
        ("en-US"@, "jack-name"@, "Jack"@),
        ("en-US"@, "jack-value"@, "11"@),
        ("en-US"@, "queen-short"@, "Q"@),
        ("en-US"@, "queen-name"@, "Queen"@),
        ("en-US"@, "queen-value"@, "12"@),
        ("en-US"@, "king-short"@, "K"@),
        ("en-US"@, "king-name"@, "King"@),
        ("en-US"@, "king-value"@, "13"@),
        ("en-US"@, "ace-short"@, "A"@),
        ("en-US"@, "ace-name"@, "Ace"@),
        ("en-US"@, "ace-value"@, "14"@),
    ]
}

/// English suit texts and symbols, as (locale, key, text).
pub open spec fn english_suits() -> Seq<(Seq<char>, Seq<char>, Seq<char>)> {
    seq![
        ("en-US"@, "spades-letter"@, "S"@),
        ("en-US"@, "spades-name"@, "Spades"@),
        ("en-US"@, "spades-symbol"@, "♠"@),
        ("en-US"@, "hearts-letter"@, "H"@),
        ("en-US"@, "hearts-name"@, "Hearts"@),
        ("en-US"@, "hearts-symbol"@, "♥"@),
        ("en-US"@, "diamonds-letter"@, "D"@),
        ("en-US"@, "diamonds-name"@, "Diamonds"@),
        ("en-US"@, "diamonds-symbol"@, "♦"@),
        ("en-US"@, "clubs-letter"@, "C"@),
        ("en-US"@, "clubs-name"@, "Clubs"@),
        ("en-US"@, "clubs-symbol"@, "♣"@),
    ]
}

/// German rank texts, as (locale, key, text).
pub open spec fn german_ranks() -> Seq<(Seq<char>, Seq<char>, Seq<char>)> {
    seq![
        ("de"@, "two-name"@, "Zwei"@),
        ("de"@, "three-name"@, "Drei"@),
        ("de"@, "four-name"@, "Vier"@),
        ("de"@, "five-name"@, "Fünf"@),
        ("de"@, "six-name"@, "Sechs"@),
        ("de"@, "seven-name"@, "Sieben"@),
        ("de"@, "eight-name"@, "Acht"@),
        ("de"@, "nine-name"@, "Neun"@),
        ("de"@, "ten-name"@, "Zehn"@),
        ("de"@, "jack-short"@, "B"@),
        ("de"@, "jack-name"@, "Bube"@),
        ("de"@, "queen-short"@, "D"@),
        ("de"@, "queen-name"@, "Dame"@),
        ("de"@, "king-short"@, "K"@),
        ("de"@, "king-name"@, "König"@),
        ("de"@, "ace-short"@, "A"@),
        ("de"@, "ace-name"@, "Ass"@),
    ]
}

/// German suit texts, as (locale, key, text).
pub open spec fn german_suits() -> Seq<(Seq<char>, Seq<char>, Seq<char>)> {
    seq![
        ("de"@, "spades-letter"@, "S"@),
        ("de"@, "spades-name"@, "Spaten"@),
        ("de"@, "hearts-letter"@, "H"@),
        ("de"@, "hearts-name"@, "Herz"@),
        ("de"@, "diamonds-letter"@, "D"@),
        ("de"@, "diamonds-name"@, "Diamanten"@),
        ("de"@, "clubs-letter"@, "K"@),
        ("de"@, "clubs-name"@, "Klee"@),
    ]
}

/// The bundled translations in lookup order.
pub open spec fn bundled_table() -> Seq<(Seq<char>, Seq<char>, Seq<char>)> {
    english_ranks() + english_suits() + german_ranks() + german_suits()
}

fn add_english_ranks(c: &mut Catalog)
    ensures
        final(c)@ == old(c)@ + english_ranks(),
        final(c).fallback == old(c).fallback,
{
    let ghost start = c@;
    c.add("en-US", "two-short", "2");
    c.add("en-US", "two-name", "Two");
    c.add("en-US", "two-value", "2");
    c.add("en-US", "three-short", "3");
    c.add("en-US", "three-name", "Three");
    c.add("en-US", "three-value", "3");
    c.add("en-US", "four-short", "4");
    c.add("en-US", "four-name", "Four");
    c.add("en-US", "four-value", "4");
    c.add("en-US", "five-short", "5");
    c.add("en-US", "five-name", "Five");
    c.add("en-US", "five-value", "5");
    c.add("en-US", "six-short", "6");
    c.add("en-US", "six-name", "Six");
    c.add("en-US", "six-value", "6");
    c.add("en-US", "seven-short", "7");
    c.add("en-US", "seven-name", "Seven");
    c.add("en-US", "seven-value", "7");
    c.add("en-US", "eight-short", "8");
    c.add("en-US", "eight-name", "Eight");
    c.add("en-US", "eight-value", "8");
    c.add("en-US", "nine-short", "9");
    c.add("en-US", "nine-name", "Nine");
    c.add("en-US", "nine-value", "9");
    c.add("en-US", "ten-short", "10");
    c.add("en-US", "ten-name", "Ten");
    c.add("en-US", "ten-value", "10");
    c.add("en-US", "jack-short", "J");
    c.add("en-US", "jack-name", "Jack");
    c.add("en-US", "jack-value", "11");
    c.add("en-US", "queen-short", "Q");
    c.add("en-US", "queen-name", "Queen");
    c.add("en-US", "queen-value", "12");
    c.add("en-US", "king-short", "K");
    c.add("en-US", "king-name", "King");
    c.add("en-US", "king-value", "13");
    c.add("en-US", "ace-short", "A");
    c.add("en-US", "ace-name", "Ace");
    c.add("en-US", "ace-value", "14");
    assert(c@ =~= start + english_ranks());
}

fn add_english_suits(c: &mut Catalog)
    ensures
        final(c)@ == old(c)@ + english_suits(),
        final(c).fallback == old(c).fallback,
{
    let ghost start = c@;
    c.add("en-US", "spades-letter", "S");
    c.add("en-US", "spades-name", "Spades");
    c.add("en-US", "spades-symbol", "♠");
    c.add("en-US", "hearts-letter", "H");
    c.add("en-US", "hearts-name", "Hearts");
    c.add("en-US", "hearts-symbol", "♥");
    c.add("en-US", "diamonds-letter", "D");
    c.add("en-US", "diamonds-name", "Diamonds");
    c.add("en-US", "diamonds-symbol", "♦");
    c.add("en-US", "clubs-letter", "C");
    c.add("en-US", "clubs-name", "Clubs");
    c.add("en-US", "clubs-symbol", "♣");
    assert(c@ =~= start + english_suits());
}

fn add_german_ranks(c: &mut Catalog)
    ensures
        final(c)@ == old(c)@ + german_ranks(),
        final(c).fallback == old(c).fallback,
{
    let ghost start = c@;
    c.add("de", "two-name", "Zwei");
    c.add("de", "three-name", "Drei");
    c.add("de", "four-name", "Vier");
    c.add("de", "five-name", "Fünf");
    c.add("de", "six-name", "Sechs");
    c.add("de", "seven-name", "Sieben");
    c.add("de", "eight-name", "Acht");
    c.add("de", "nine-name", "Neun");
    c.add("de", "ten-name", "Zehn");
    c.add("de", "jack-short", "B");
    c.add("de", "jack-name", "Bube");
    c.add("de", "queen-short", "D");
    c.add("de", "queen-name", "Dame");
    c.add("de", "king-short", "K");
    c.add("de", "king-name", "König");
    c.add("de", "ace-short", "A");
    c.add("de", "ace-name", "Ass");
    assert(c@ =~= start + german_ranks());
}

fn add_german_suits(c: &mut Catalog)
    ensures
        final(c)@ == old(c)@ + german_suits(),
        final(c).fallback == old(c).fallback,
{
    let ghost start = c@;
    c.add("de", "spades-letter", "S");
    c.add("de", "spades-name", "Spaten");
    c.add("de", "hearts-letter", "H");
    c.add("de", "hearts-name", "Herz");
    c.add("de", "diamonds-letter", "D");
    c.add("de", "diamonds-name", "Diamanten");
    c.add("de", "clubs-letter", "K");
    c.add("de", "clubs-name", "Klee");
    assert(c@ =~= start + german_suits());
}

impl Catalog {
    /// The bundled translations, falling back to US English.
    pub fn bundled() -> (r: Catalog)
        ensures
            r@ == bundled_table(),
            r.fallback.tag@ == us_english_tag(),
    {
        let mut c = Catalog::new(Locale::us_english());
        add_english_ranks(&mut c);
        add_english_suits(&mut c);
        add_german_ranks(&mut c);
        add_german_suits(&mut c);
        assert(c@ =~= bundled_table());
        c
    }
}

} // verus!
