//! Deck variants built from rank and suit cross products.
//!
//! Cards are laid out suit by suit (spades, hearts, diamonds, clubs); within
//! a suit the ranks run from the highest down.

use vstd::prelude::*;

use vstd::arithmetic::div_mod::{lemma_fundamental_div_mod, lemma_mod_bound};

use crate::anzug::Anzug;
use crate::fluent::Valuable;
use crate::karte::{Karte, KarteView};
use crate::karten::Karten;
use crate::rang::{default_value, Rang};

verus! {

pub open spec fn suit_names() -> Seq<Seq<char>> {
    seq!["spades"@, "hearts"@, "diamonds"@, "clubs"@]
}

pub open spec fn french_rank_names() -> Seq<Seq<char>> {
    seq![
        "ace"@, "king"@, "queen"@, "jack"@, "ten"@, "nine"@, "eight"@,
        "seven"@, "six"@, "five"@, "four"@, "three"@, "two"@,
    ]
}

pub open spec fn pinochle_rank_names() -> Seq<Seq<char>> {
    seq!["ace"@, "ten"@, "king"@, "queen"@, "jack"@, "nine"@]
}

/// Pinochle counts its ranks apart from their face values.
pub open spec fn pinochle_values() -> Seq<u8> {
    seq![11u8, 10u8, 4u8, 3u8, 2u8, 0u8]
}

pub open spec fn suit_views(v: Seq<Anzug>) -> Seq<Seq<char>> {
    v.map_values(|a: Anzug| a.name@)
}

/// Where the card of suit `si` and rank `ri` lies when each suit holds
/// `width` ranks.
pub open spec fn slot(si: int, ri: int, width: int) -> int {
    si * width + ri
}

proof fn lemma_cell_before(sj: int, rj: int, si: int, nr: int)
    requires
        0 <= sj < si,
        0 <= rj < nr,
    ensures
        sj * nr + rj < si * nr,
{
    assert(sj * nr + rj < si * nr) by (nonlinear_arith)
        requires
            0 <= sj < si,
            0 <= rj < nr,
    ;
}

/// Every suit paired with every rank, suit by suit, each rank keeping
/// its value.
fn compose(ranks: &Vec<Rang>, suits: &Vec<Anzug>) -> (r: Karten)
    ensures
        r@.len() == suits@.len() * ranks@.len(),
        forall|si: int, ri: int|
            0 <= si < suits@.len() && 0 <= ri < ranks@.len() ==> r@[slot(si, ri, ranks@.len() as int)] == (
            ranks@[ri].name@,
            ranks@[ri].value,
            suits@[si].name@,
        ),
{
    let mut karten = Karten::new();
    let ns = suits.len();
    let nr = ranks.len();
    let mut si: usize = 0;
    while si < ns
        invariant
            ns == suits@.len(),
            nr == ranks@.len(),
            0 <= si <= ns,
            karten@.len() == si * nr,
            forall|sj: int, rj: int|
                0 <= sj < si && 0 <= rj < nr ==> karten@[slot(sj, rj, nr as int)] == (
                ranks@[rj].name@,
                ranks@[rj].value,
                suits@[sj].name@,
            ),
        decreases ns - si,
    {
        let mut ri: usize = 0;
        while ri < nr
            invariant
                ns == suits@.len(),
                nr == ranks@.len(),
                0 <= si < ns,
                0 <= ri <= nr,
                karten@.len() == si * nr + ri,
                forall|sj: int, rj: int|
                    0 <= sj < si && 0 <= rj < nr ==> karten@[slot(sj, rj, nr as int)] == (
                    ranks@[rj].name@,
                    ranks@[rj].value,
                    suits@[sj].name@,
                ),
                forall|rj: int|
                    0 <= rj < ri ==> karten@[slot(si as int, rj, nr as int)] == (
                    ranks@[rj].name@,
                    ranks@[rj].value,
                    suits@[si as int].name@,
                ),
            decreases nr - ri,
        {
            let ghost prev = karten@;
            let k = Karte::new_from_structs(ranks[ri].duplicate(), suits[si].duplicate());
            karten.add(k);
            assert forall|sj: int, rj: int| 0 <= sj < si && 0 <= rj < nr implies karten@[slot(sj, rj, nr as int)]
                == prev[slot(sj, rj, nr as int)] by {
                lemma_cell_before(sj, rj, si as int, nr as int);
            }
            ri = ri + 1;
        }
        assert((si + 1) * nr == si * nr + nr) by (nonlinear_arith);
        si = si + 1;
    }
    karten
}

/// Each card of `d` followed by a copy of itself.
fn doubled(d: &Karten) -> (r: Karten)
    ensures
        r@.len() == 2 * d@.len(),
        forall|k: int| 0 <= k < d@.len() ==> r@[2 * k] == d@[k] && r@[2 * k + 1] == d@[k],
{
    let mut karten = Karten::new();
    let n = d.len();
    let mut i: usize = 0;
    while i < n
        invariant
            n == d@.len(),
            0 <= i <= n,
            karten@.len() == 2 * i,
            forall|k: int| 0 <= k < i ==> karten@[2 * k] == d@[k] && karten@[2 * k + 1] == d@[k],
        decreases n - i,
    {
        let c = d.all()[i].duplicate();
        let c2 = c.duplicate();
        karten.add(c);
        karten.add(c2);
        i = i + 1;
    }
    karten
}

fn suits() -> (r: Vec<Anzug>)
    ensures
        suit_views(r@) == suit_names(),
{
    let mut v: Vec<Anzug> = Vec::new();
    v.push(Anzug::new("spades"));
    v.push(Anzug::new("hearts"));
    v.push(Anzug::new("diamonds"));
    v.push(Anzug::new("clubs"));
    assert(suit_views(v@) =~= suit_names());
    v
}

/// A card grid over distinct rank names and distinct suit names holds no
/// card twice.
proof fn lemma_grid_no_duplicates(cards: Seq<KarteView>, ranks: Seq<Seq<char>>, suits: Seq<Seq<char>>)
    requires
        ranks.len() > 0,
        cards.len() == suits.len() * ranks.len(),
        forall|si: int, ri: int|
            0 <= si < suits.len() && 0 <= ri < ranks.len() ==> (#[trigger] cards[slot(si, ri, ranks.len() as int)]).0 == ranks[ri]
                && cards[slot(si, ri, ranks.len() as int)].2 == suits[si],
        ranks.no_duplicates(),
        suits.no_duplicates(),
    ensures
        cards.no_duplicates(),
{
    let nr = ranks.len() as int;
    let ns = suits.len() as int;
    assert forall|i: int, j: int|
        0 <= i < cards.len() && 0 <= j < cards.len() && i != j implies cards[i] != cards[j] by {
        lemma_fundamental_div_mod(i, nr);
        lemma_fundamental_div_mod(j, nr);
        lemma_mod_bound(i, nr);
        lemma_mod_bound(j, nr);
        let si = i / nr;
        let ri = i % nr;
        let sj = j / nr;
        let rj = j % nr;
        assert(0 <= si < ns) by (nonlinear_arith)
            requires
                i == nr * si + ri,
                0 <= ri < nr,
                0 <= i < ns * nr,
        ;
        assert(0 <= sj < ns) by (nonlinear_arith)
            requires
                j == nr * sj + rj,
                0 <= rj < nr,
                0 <= j < ns * nr,
        ;
        assert(i == si * nr + ri) by (nonlinear_arith)
            requires
                i == nr * si + ri,
        ;
        assert(j == sj * nr + rj) by (nonlinear_arith)
            requires
                j == nr * sj + rj,
        ;
        if si == sj {
            assert(ri != rj);
            assert(cards[slot(si, ri, nr)].0 != cards[slot(sj, rj, nr)].0);
        } else {
            assert(cards[slot(si, ri, nr)].2 != cards[slot(sj, rj, nr)].2);
        }
    }
}

proof fn lemma_names_distinct()
    ensures
        french_rank_names().no_duplicates(),
        pinochle_rank_names().no_duplicates(),
        suit_names().no_duplicates(),
{
    reveal_strlit("ace");
    reveal_strlit("king");
    reveal_strlit("queen");
    reveal_strlit("jack");
    reveal_strlit("ten");
    reveal_strlit("nine");
    reveal_strlit("eight");
    reveal_strlit("seven");
    reveal_strlit("six");
    reveal_strlit("five");
    reveal_strlit("four");
    reveal_strlit("three");
    reveal_strlit("two");
    reveal_strlit("spades");
    reveal_strlit("hearts");
    reveal_strlit("diamonds");
    reveal_strlit("clubs");
    assert("ace"@[0] == 'a' && "ace"@[1] == 'c');
    assert("king"@[0] == 'k' && "king"@[1] == 'i');
    assert("queen"@[0] == 'q' && "queen"@[1] == 'u');
    assert("jack"@[0] == 'j' && "jack"@[1] == 'a');
    assert("ten"@[0] == 't' && "ten"@[1] == 'e');
    assert("nine"@[0] == 'n' && "nine"@[1] == 'i');
    assert("eight"@[0] == 'e' && "eight"@[1] == 'i');
    assert("seven"@[0] == 's' && "seven"@[1] == 'e');
    assert("six"@[0] == 's' && "six"@[1] == 'i');
    assert("five"@[0] == 'f' && "five"@[1] == 'i');
    assert("four"@[0] == 'f' && "four"@[1] == 'o');
    assert("three"@[0] == 't' && "three"@[1] == 'h');
    assert("two"@[0] == 't' && "two"@[1] == 'w');
    assert("spades"@[0] == 's' && "spades"@[1] == 'p');
    assert("hearts"@[0] == 'h' && "hearts"@[1] == 'e');
    assert("diamonds"@[0] == 'd' && "diamonds"@[1] == 'i');
    assert("clubs"@[0] == 'c' && "clubs"@[1] == 'l');
    let names = french_rank_names();
    assert forall|i: int, j: int| 0 <= i < 13 && 0 <= j < 13 && i != j implies #[trigger] names[i]
        != #[trigger] names[j] by {
        assert(i == 0 || i == 1 || i == 2 || i == 3 || i == 4 || i == 5 || i == 6 || i == 7 || i == 8 || i == 9 || i == 10 || i == 11 || i == 12);
        assert(j == 0 || j == 1 || j == 2 || j == 3 || j == 4 || j == 5 || j == 6 || j == 7 || j == 8 || j == 9 || j == 10 || j == 11 || j == 12);
    }
    let names = pinochle_rank_names();
    assert forall|i: int, j: int| 0 <= i < 6 && 0 <= j < 6 && i != j implies #[trigger] names[i]
        != #[trigger] names[j] by {
        assert(i == 0 || i == 1 || i == 2 || i == 3 || i == 4 || i == 5);
        assert(j == 0 || j == 1 || j == 2 || j == 3 || j == 4 || j == 5);
    }
    let names = suit_names();
    assert forall|i: int, j: int| 0 <= i < 4 && 0 <= j < 4 && i != j implies #[trigger] names[i]
        != #[trigger] names[j] by {
        assert(i == 0 || i == 1 || i == 2 || i == 3);
        assert(j == 0 || j == 1 || j == 2 || j == 3);
    }
}

fn french_ranks() -> (r: Vec<Rang>)
    ensures
        r@.len() == 13,
        forall|ri: int|
            0 <= ri < 13 ==> (#[trigger] r@[ri]).name@ == french_rank_names()[ri] && r@[ri].value
                == default_value(french_rank_names()[ri]),
{
    let mut v: Vec<Rang> = Vec::new();
    v.push(Rang::new("ace"));
    v.push(Rang::new("king"));
    v.push(Rang::new("queen"));
    v.push(Rang::new("jack"));
    v.push(Rang::new("ten"));
    v.push(Rang::new("nine"));
    v.push(Rang::new("eight"));
    v.push(Rang::new("seven"));
    v.push(Rang::new("six"));
    v.push(Rang::new("five"));
    v.push(Rang::new("four"));
    v.push(Rang::new("three"));
    v.push(Rang::new("two"));
    v
}

/// A rank whose value is set apart from its default.
fn valued(name: &str, value: u8) -> (r: Rang)
    ensures
        r.name@ == name@,
        r.value == value,
{
    let mut r = Rang::new(name);
    r.revise_value(value);
    r
}

fn pinochle_ranks() -> (r: Vec<Rang>)
    ensures
        r@.len() == 6,
        forall|ri: int|
            0 <= ri < 6 ==> (#[trigger] r@[ri]).name@ == pinochle_rank_names()[ri] && r@[ri].value
                == pinochle_values()[ri],
{
    let mut v: Vec<Rang> = Vec::new();
    v.push(valued("ace", 11));
    v.push(valued("ten", 10));
    v.push(valued("king", 4));
    v.push(valued("queen", 3));
    v.push(valued("jack", 2));
    v.push(valued("nine", 0));
    v
}

pub struct Kartendeck {
    pub karten: Karten,
}

impl Kartendeck {
    /// The standard 52-card deck: thirteen ranks in four suits, each rank
    /// with its default value.
    pub fn french_deck() -> (r: Kartendeck)
        ensures
            r.karten@.len() == 52,
            forall|si: int, ri: int|
                0 <= si < 4 && 0 <= ri < 13 ==> #[trigger] r.karten@[slot(si, ri, 13)] == (
                french_rank_names()[ri],
                default_value(french_rank_names()[ri]),
                suit_names()[si],
            ),
            r.karten@.no_duplicates(),
            r.karten@.contains(("ace"@, default_value("ace"@), "spades"@)),
    {
        let ranks = french_ranks();
        let suits = suits();
        let karten = compose(&ranks, &suits);
        proof {
            assert(suit_views(suits@).len() == suits@.len());
            lemma_names_distinct();
            assert forall|si: int, ri: int| 0 <= si < 4 && 0 <= ri < 13 implies #[trigger] karten@[slot(si, ri, 13)] == (
                french_rank_names()[ri],
                default_value(french_rank_names()[ri]),
                suit_names()[si],
            ) by {
                assert(suit_views(suits@)[si] == suits@[si].name@);
            }
            lemma_grid_no_duplicates(karten@, french_rank_names(), suit_names());
            assert(karten@[slot(0, 0, 13)] == ("ace"@, default_value("ace"@), "spades"@));
        }
        Kartendeck { karten }
    }

    /// The 48-card pinochle deck: six ranks from nine up in four suits,
    /// with pinochle's values, each card directly followed by its twin.
    pub fn pinochle_deck() -> (r: Kartendeck)
        ensures
            r.karten@.len() == 48,
            forall|si: int, ri: int, c: int|
                0 <= si < 4 && 0 <= ri < 6 && 0 <= c < 2 ==> #[trigger] r.karten@[2 * slot(si, ri, 6) + c]
                    == (pinochle_rank_names()[ri], pinochle_values()[ri], suit_names()[si]),
            forall|k: int| 0 <= k < 24 ==> #[trigger] r.karten@[2 * k] == r.karten@[2 * k + 1],
            forall|k1: int, k2: int, c1: int, c2: int|
                0 <= k1 < 24 && 0 <= k2 < 24 && k1 != k2 && 0 <= c1 < 2 && 0 <= c2 < 2
                    ==> #[trigger] r.karten@[2 * k1 + c1] != #[trigger] r.karten@[2 * k2 + c2],
    {
        let ranks = pinochle_ranks();
        let suits = suits();
        let single = compose(&ranks, &suits);
        proof {
            assert(suit_views(suits@).len() == suits@.len());
            lemma_names_distinct();
            assert forall|si: int, ri: int| 0 <= si < 4 && 0 <= ri < 6 implies #[trigger] single@[slot(si, ri, 6)] == (
                pinochle_rank_names()[ri],
                pinochle_values()[ri],
                suit_names()[si],
            ) by {
                assert(suit_views(suits@)[si] == suits@[si].name@);
            }
            lemma_grid_no_duplicates(single@, pinochle_rank_names(), suit_names());
        }
        let karten = doubled(&single);
        proof {
            assert forall|si: int, ri: int, c: int|
                0 <= si < 4 && 0 <= ri < 6 && 0 <= c < 2 implies #[trigger] karten@[2 * slot(si, ri, 6) + c]
                    == (pinochle_rank_names()[ri], pinochle_values()[ri], suit_names()[si]) by {
                assert(0 <= slot(si, ri, 6) < 24);
                if c == 0 {
                    assert(karten@[2 * slot(si, ri, 6)] == single@[slot(si, ri, 6)]);
                } else {
                    assert(karten@[2 * slot(si, ri, 6) + 1] == single@[slot(si, ri, 6)]);
                }
            }
            assert forall|k: int| 0 <= k < 24 implies #[trigger] karten@[2 * k] == karten@[2 * k + 1] by {
                assert(karten@[2 * k] == single@[k]);
            }
            assert forall|k1: int, k2: int, c1: int, c2: int|
                0 <= k1 < 24 && 0 <= k2 < 24 && k1 != k2 && 0 <= c1 < 2 && 0 <= c2 < 2
                    implies #[trigger] karten@[2 * k1 + c1] != #[trigger] karten@[2 * k2 + c2] by {
                assert(karten@[2 * k1 + c1] == single@[k1]);
                assert(karten@[2 * k2 + c2] == single@[k2]);
            }
        }
        Kartendeck { karten }
    }
}

} // verus!
