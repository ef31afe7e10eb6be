//! A deck: an ordered sequence of cards, duplicates allowed.

use vstd::prelude::*;

use rand::seq::SliceRandom;

use crate::karte::{Karte, KarteView};

verus! {

pub open spec fn cards_view(v: Seq<Karte>) -> Seq<KarteView> {
    v.map_values(|k: Karte| k@)
}

/// Relies on rand's `SliceRandom::shuffle` with `thread_rng`: it only
/// swaps elements, so the result is a permutation of the input.
#[verifier::external_body]
fn shuffle_cards(v: &mut Vec<Karte>)
    ensures
        cards_view(final(v)@).to_multiset() == cards_view(old(v)@).to_multiset(),
{
    v.shuffle(&mut rand::thread_rng());
}

/// Relies on rand's `SliceRandom::choose` with `thread_rng`: `None` for an
/// empty slice, otherwise a reference to one of its elements.
#[verifier::external_body]
fn choose_card(v: &Vec<Karte>) -> (r: Option<&Karte>)
    ensures
        r is None <==> v@.len() == 0,
        r matches Some(k) ==> cards_view(v@).contains(k@),
{
    v.choose(&mut rand::thread_rng())
}

/// A card that a deck holds once is gone from it after `remove_karte`
/// takes it out: `contains` turns from true to false.
pub proof fn lemma_remove_karte_clears(deck: Seq<KarteView>, karte: KarteView)
    requires
        deck.contains(karte),
        forall|i: int, j: int|
            0 <= i < deck.len() && 0 <= j < deck.len() && deck[i] == karte && deck[j] == karte
                ==> i == j,
    ensures
        !deck.remove_value(karte).contains(karte),
{
    deck.index_of_first_ensures(karte);
    let idx = deck.index_of_first(karte)->0;
    let rest = deck.remove(idx);
    if rest.contains(karte) {
        let j = choose|j: int| 0 <= j < rest.len() && rest[j] == karte;
        if j < idx {
            assert(deck[j] == karte);
        } else {
            assert(deck[j + 1] == karte);
        }
    }
}

#[derive(Clone, Debug)]
pub struct Karten(pub Vec<Karte>);

impl Karten {
    pub open spec fn view(&self) -> Seq<KarteView> {
        cards_view(self.0@)
    }

    pub fn new() -> (r: Karten)
        ensures
            r@ == Seq::<KarteView>::empty(),
    {
        Karten::new_from_vector(Vec::new())
    }

    pub fn new_from_vector(v: Vec<Karte>) -> (r: Karten)
        ensures
            r@ == cards_view(v@),
    {
        Karten(v)
    }

    /// Appends a card at the end.
    pub fn add(&mut self, elem: Karte)
        ensures
            final(self)@ == old(self)@.push(elem@),
    {
        self.0.push(elem);
        assert(self@ =~= old(self)@.push(elem@));
    }

    pub fn all(&self) -> (r: &Vec<Karte>)
        ensures
            cards_view(r@) == self@,
    {
        &self.0
    }

    pub fn len(&self) -> (r: usize)
        ensures
            r == self@.len(),
    {
        self.0.len()
    }

    /// The index of the first card equal to `karte`.
    pub fn position(&self, karte: &Karte) -> (r: Option<usize>)
        ensures
            match r {
                Some(i) => self@.index_of_first(karte@) == Some(i as int),
                None => self@.index_of_first(karte@) is None,
            },
    {
        proof {
            self@.index_of_first_ensures(karte@);
        }
        let n = self.0.len();
        let mut i: usize = 0;
        while i < n
            invariant
                n == self@.len(),
                0 <= i <= n,
                forall|j: int| 0 <= j < i ==> self@[j] != karte@,
            decreases n - i,
        {
            if self.0[i] == *karte {
                assert(self@[i as int] == karte@);
                proof {
                    self@.index_of_first_ensures(karte@);
                    let idx = self@.index_of_first(karte@)->0;
                    assert(self@.contains(karte@));
                    if idx < i {
                        assert(self@[idx] != karte@);
                    } else if idx > i {
                        assert(self@[i as int] != karte@);
                    }
                }
                return Some(i);
            }
            i = i + 1;
        }
        None
    }

    pub fn contains(&self, karte: &Karte) -> (r: bool)
        ensures
            r == self@.contains(karte@),
    {
        proof {
            self@.index_of_first_ensures(karte@);
        }
        match self.position(karte) {
            Some(_) => true,
            None => false,
        }
    }

    /// Removes and returns the card at `index`; `None` past the end.
    pub fn remove(&mut self, index: usize) -> (r: Option<Karte>)
        ensures
            index >= old(self)@.len() ==> r is None && final(self)@ == old(self)@,
            index < old(self)@.len() ==> (r matches Some(k) && k@ == old(self)@[index as int]
                && final(self)@ == old(self)@.remove(index as int)),
    {
        if index >= self.0.len() {
            return None;
        }
        let k = self.0.remove(index);
        assert(self@ =~= old(self)@.remove(index as int));
        Some(k)
    }

    /// Removes the first card equal to `karte`.
    pub fn remove_karte(&mut self, karte: &Karte) -> (r: Option<Karte>)
        ensures
            r is None <==> !old(self)@.contains(karte@),
            r matches Some(k) ==> k@ == karte@,
            final(self)@ == old(self)@.remove_value(karte@),
    {
        proof {
            old(self)@.index_of_first_ensures(karte@);
        }
        match self.position(karte) {
            None => None,
            Some(i) => self.remove(i),
        }
    }

    pub fn draw_first(&mut self) -> (r: Option<Karte>)
        ensures
            old(self)@.len() == 0 ==> r is None && final(self)@ == old(self)@,
            old(self)@.len() > 0 ==> (r matches Some(k) && k@ == old(self)@[0]
                && final(self)@ == old(self)@.drop_first()),
    {
        if self.0.len() == 0 {
            None
        } else {
            let r = self.remove(0);
            assert(old(self)@.remove(0) =~= old(self)@.drop_first());
            r
        }
    }

    pub fn draw_last(&mut self) -> (r: Option<Karte>)
        ensures
            old(self)@.len() == 0 ==> r is None && final(self)@ == old(self)@,
            old(self)@.len() > 0 ==> (r matches Some(k) && k@ == old(self)@.last()
                && final(self)@ == old(self)@.drop_last()),
    {
        if self.0.len() == 0 {
            None
        } else {
            let r = self.remove(self.0.len() - 1);
            assert(old(self)@.remove(old(self)@.len() - 1) =~= old(self)@.drop_last());
            r
        }
    }

    /// Takes the first `x` cards off the deck, in order, all or nothing.
    pub fn draw(&mut self, x: usize) -> (r: Option<Karten>)
        ensures
            x > old(self)@.len() ==> r is None && final(self)@ == old(self)@,
            x <= old(self)@.len() ==> (r matches Some(d) && d@ == old(self)@.take(x as int)
                && final(self)@ == old(self)@.skip(x as int)),
            r matches Some(d) ==> d@ + final(self)@ == old(self)@,
    {
        if x > self.len() {
            None
        } else {
            let mut karten = Karten::new();
            let mut i: usize = 0;
            while i < x
                invariant
                    0 <= i <= x,
                    x <= old(self)@.len(),
                    karten@ == old(self)@.take(i as int),
                    self@ == old(self)@.skip(i as int),
                decreases x - i,
            {
                let k = self.draw_first();
                match k {
                    Some(k) => karten.add(k),
                    None => {},
                }
                assert(karten@ =~= old(self)@.take(i as int + 1));
                assert(self@ =~= old(self)@.skip(i as int + 1));
                i = i + 1;
            }
            assert(karten@ + self@ =~= old(self)@);
            Some(karten)
        }
    }

    pub fn first(&self) -> (r: Option<&Karte>)
        ensures
            r is None <==> self@.len() == 0,
            r matches Some(k) ==> k@ == self@[0],
    {
        if self.0.len() == 0 {
            None
        } else {
            Some(&self.0[0])
        }
    }

    pub fn last(&self) -> (r: Option<&Karte>)
        ensures
            r is None <==> self@.len() == 0,
            r matches Some(k) ==> k@ == self@.last(),
    {
        if self.0.len() == 0 {
            None
        } else {
            Some(&self.0[self.0.len() - 1])
        }
    }

    pub fn get(&self, index: usize) -> (r: Option<&Karte>)
        ensures
            r is None <==> index >= self@.len(),
            r matches Some(k) ==> k@ == self@[index as int],
    {
        if index >= self.0.len() {
            None
        } else {
            Some(&self.0[index])
        }
    }

    /// One card of the deck, picked at random; the deck is unchanged.
    pub fn get_random(&self) -> (r: Option<&Karte>)
        ensures
            r is None <==> self@.len() == 0,
            r matches Some(k) ==> self@.contains(k@),
    {
        choose_card(&self.0)
    }

    /// A copy of the deck, card for card.
    pub fn duplicate(&self) -> (r: Karten)
        ensures
            r@ == self@,
    {
        let mut v: Vec<Karte> = Vec::new();
        let n = self.0.len();
        let mut i: usize = 0;
        while i < n
            invariant
                n == self@.len(),
                0 <= i <= n,
                cards_view(v@) == self@.take(i as int),
            decreases n - i,
        {
            let ghost prev = v@;
            let k = self.0[i].duplicate();
            v.push(k);
            assert(v@ == prev.push(k));
            assert(cards_view(v@) =~= cards_view(prev).push(k@));
            assert(cards_view(v@) =~= self@.take(i as int + 1));
            i = i + 1;
        }
        assert(self@.take(n as int) =~= self@);
        Karten(v)
    }

    /// A new deck with the same cards in random order; `self` is unchanged.
    pub fn suffle(&self) -> (r: Karten)
        ensures
            r@.len() == self@.len(),
            r@.to_multiset() == self@.to_multiset(),
    {
        let mut shuffled = self.duplicate();
        shuffle_cards(&mut shuffled.0);
        proof {
            shuffled@.to_multiset_ensures();
            self@.to_multiset_ensures();
        }
        shuffled
    }
}

impl PartialEq for Karten {
    fn eq(&self, other: &Karten) -> (r: bool) {
        if self.0.len() != other.0.len() {
            return false;
        }
        let n = self.0.len();
        let mut i: usize = 0;
        while i < n
            invariant
                n == self@.len(),
                n == other@.len(),
                0 <= i <= n,
                forall|j: int| 0 <= j < i ==> self@[j] == other@[j],
            decreases n - i,
        {
            if !(self.0[i] == other.0[i]) {
                assert(self@[i as int] != other@[i as int]);
                return false;
            }
            i = i + 1;
        }
        assert(self@ =~= other@);
        true
    }
}

impl vstd::std_specs::cmp::PartialEqSpecImpl for Karten {
    open spec fn obeys_eq_spec() -> bool {
        true
    }

    open spec fn eq_spec(&self, other: &Karten) -> bool {
        self@ == other@
    }
}

} // verus!
