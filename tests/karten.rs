use spielkartenlib::{Anzug, Catalog, Karte, Karten, Kartendeck, Locale, Rang, ToLocaleString, Valuable};

#[test]
fn mod_new() {
    let expected = Karte {
        rang: Rang::new("ace"),
        anzug: Anzug::new("spades"),
    };

    assert_eq!(expected, Karte::new("ace", "spades"));
}

#[test]
fn new_from_structs() {
    let expected = Karte {
        rang: Rang::new("ace"),
        anzug: Anzug::new("spades"),
    };

    assert_eq!(
        expected,
        Karte::new_from_structs(Rang::new("ace"), Anzug::new("spades"))
    );
}

#[test]
fn mod_to_string_by_locale() {
    let karte = Karte::new("queen", "clubs");

    assert_eq!(
        karte.to_locale_string(&Catalog::bundled(), &Locale::german()),
        Some("D♣".to_string())
    );
}

#[test]
fn to_txt_string() {
    let karte = Karte::new("queen", "clubs");

    assert_eq!(
        karte.to_txt_string(&Catalog::bundled(), &Locale::german()),
        Some("DK".to_string())
    );
}

#[test]
fn new_all_add_new_from_vector() {
    let qclubs = Karte::new("queen", "clubs");
    let qhearts = Karte::new("queen", "hearts");
    let mut expected = Karten::new();
    expected.add(qclubs.clone());
    expected.add(qhearts.clone());

    let actual = Karten::new_from_vector(vec![qclubs, qhearts]);

    assert_eq!(expected, actual);
    assert_eq!(actual.all().len(), 2);
}

#[test]
fn contains() {
    let qclubs = Karte::new("queen", "clubs");
    let qhearts = Karte::new("queen", "hearts");
    let deck = Karten::new_from_vector(vec![qclubs.clone(), qhearts.clone()]);

    assert!(deck.contains(&qclubs));
    assert!(deck.contains(&qhearts));
}

#[test]
fn draw() {
    let mut zero = Karten::new();
    let qclubs = Karte::new("queen", "clubs");
    let qhearts = Karte::new("queen", "hearts");
    let qspades = Karte::new("queen", "spades");
    let mut deck =
        Karten::new_from_vector(vec![qclubs.clone(), qhearts.clone(), qspades.clone()]);

    assert!(zero.draw(2).is_none());
    assert_eq!(
        deck.draw(2).unwrap(),
        Karten::new_from_vector(vec![qclubs.clone(), qhearts.clone()])
    );
    assert_eq!(1, deck.len());
}

#[test]
fn draw_first() {
    let mut zero = Karten::new();
    let qclubs = Karte::new("queen", "clubs");
    let qhearts = Karte::new("queen", "hearts");
    let mut deck = Karten::new_from_vector(vec![qclubs.clone(), qhearts.clone()]);

    assert!(zero.draw_first().is_none());
    assert_eq!(deck.draw_first().unwrap(), qclubs);
    assert_eq!(1, deck.len());
}

#[test]
fn draw_last() {
    let mut zero = Karten::new();
    let qclubs = Karte::new("queen", "clubs");
    let qhearts = Karte::new("queen", "hearts");
    let mut deck = Karten::new_from_vector(vec![qclubs.clone(), qhearts.clone()]);

    assert!(zero.draw_last().is_none());
    assert_eq!(deck.draw_last().unwrap(), qhearts);
    assert_eq!(1, deck.len());
}

#[test]
fn first() {
    let zero = Karten::new();
    let qclubs = Karte::new("queen", "clubs");
    let qhearts = Karte::new("queen", "hearts");
    let deck = Karten::new_from_vector(vec![qclubs.clone(), qhearts.clone()]);

    assert!(zero.first().is_none());
    assert_eq!(deck.first().unwrap(), &qclubs);
}

#[test]
fn get() {
    let qclubs = Karte::new("queen", "clubs");
    let qhearts = Karte::new("queen", "hearts");
    let deck = Karten::new_from_vector(vec![qclubs.clone(), qhearts.clone()]);

    let gotten = deck.get(1);

    assert_eq!(gotten.unwrap(), &qhearts);
    assert!(deck.get(2).is_none());
}

#[test]
fn get_random() {
    let qhearts = Karte::new("queen", "hearts");
    let deck = Karten::new_from_vector(vec![qhearts.clone()]);

    let gotten = deck.get_random();

    assert_eq!(gotten.unwrap(), &qhearts);
    assert!(Karten::new().get_random().is_none());
}

#[test]
fn last() {
    let zero = Karten::new();
    let qclubs = Karte::new("queen", "clubs");
    let qhearts = Karte::new("queen", "hearts");
    let deck = Karten::new_from_vector(vec![qclubs.clone(), qhearts.clone()]);

    assert!(zero.last().is_none());
    assert_eq!(deck.last().unwrap(), &qhearts);
}

#[test]
fn len() {
    let zero = Karten::new();
    let qclubs = Karte::new("queen", "clubs");
    let qhearts = Karte::new("queen", "hearts");
    let deck = Karten::new_from_vector(vec![qclubs.clone(), qhearts.clone()]);

    assert_eq!(zero.len(), 0);
    assert_eq!(deck.len(), 2);
}

#[test]
fn position() {
    let qclubs = Karte::new("queen", "clubs");
    let qhearts = Karte::new("queen", "hearts");
    let deck = Karten::new_from_vector(vec![qclubs.clone(), qhearts.clone()]);

    assert_eq!(0, deck.position(&qclubs).unwrap());
    assert_eq!(1, deck.position(&qhearts).unwrap());
    assert_eq!(None, deck.position(&Karte::new("king", "clubs")));
}

#[test]
fn remove() {
    let qclubs = Karte::new("queen", "clubs");
    let qhearts = Karte::new("queen", "hearts");
    let mut deck = Karten::new_from_vector(vec![qclubs.clone(), qhearts.clone()]);

    let removed = deck.remove(0).unwrap();

    assert_eq!(removed, qclubs);
    assert_eq!(1, deck.len());
}

#[test]
fn remove_past_end() {
    let mut deck = Karten::new_from_vector(vec![Karte::new("queen", "clubs")]);

    assert!(deck.remove(1).is_none());
    assert_eq!(1, deck.len());
}

#[test]
fn remove_karte() {
    let qclubs = Karte::new("queen", "clubs");
    let qhearts = Karte::new("queen", "hearts");
    let mut deck = Karten::new_from_vector(vec![qclubs.clone(), qhearts.clone()]);

    let removed = deck.remove_karte(&qclubs);

    assert_eq!(removed.unwrap(), qclubs);
    assert!(deck.contains(&qhearts));
    assert!(!deck.contains(&qclubs));
}

#[test]
fn remove_karte_takes_one_of_two_equal_cards() {
    let qclubs = Karte::new("queen", "clubs");
    let qhearts = Karte::new("queen", "hearts");
    let mut deck =
        Karten::new_from_vector(vec![qclubs.clone(), qhearts.clone(), qclubs.clone()]);

    assert_eq!(deck.remove_karte(&qclubs).unwrap(), qclubs);
    assert_eq!(deck, Karten::new_from_vector(vec![qhearts.clone(), qclubs.clone()]));
    assert!(deck.contains(&qclubs));
    assert!(deck.remove_karte(&Karte::new("ace", "spades")).is_none());
}

#[test]
fn draw_keeps_order_and_rest() {
    let deck = Kartendeck::french_deck().karten;
    let mut rest = deck.clone();
    let drawn = rest.draw(5).unwrap();
    assert_eq!(drawn.len(), 5);
    assert_eq!(rest.len(), 47);
    let mut joined = drawn.clone();
    for i in 0..rest.len() {
        joined.add(rest.get(i).unwrap().clone());
    }
    assert_eq!(joined, deck);
    assert_eq!(drawn.first().unwrap(), &Karte::new("ace", "spades"));
}

#[test]
fn draw_all_and_too_many() {
    let mut deck = Kartendeck::french_deck().karten;
    let before = deck.clone();
    assert!(deck.draw(53).is_none());
    assert_eq!(deck, before);
    assert_eq!(deck.draw(52).unwrap(), before);
    assert_eq!(deck.len(), 0);
    assert_eq!(deck.draw(0).unwrap(), Karten::new());
}

#[test]
fn suffle_keeps_the_cards() {
    let deck = Kartendeck::french_deck().karten;
    let shuffled = deck.suffle();
    assert_eq!(shuffled.len(), 52);
    for c in deck.all() {
        assert!(shuffled.contains(c));
    }
    assert_eq!(deck, Kartendeck::french_deck().karten);
}

#[test]
fn suffle_reorders() {
    let deck = Kartendeck::french_deck().karten;
    let mut moved = false;
    for _ in 0..5 {
        if deck.suffle() != deck {
            moved = true;
        }
    }
    assert!(moved);
}

#[test]
fn french_deck_composition() {
    let deck = Kartendeck::french_deck().karten;
    assert_eq!(deck.len(), 52);
    assert!(deck.contains(&Karte::new("ace", "spades")));
    assert!(deck.contains(&Karte::new("two", "clubs")));
    assert_eq!(deck.last().unwrap(), &Karte::new("two", "clubs"));
    for i in 0..52 {
        for j in 0..52 {
            if i != j {
                assert_ne!(deck.get(i).unwrap(), deck.get(j).unwrap());
            }
        }
    }
}

#[test]
fn pinochle_deck_composition() {
    let deck = Kartendeck::pinochle_deck().karten;
    assert_eq!(deck.len(), 48);
    for k in 0..24 {
        assert_eq!(deck.get(2 * k).unwrap(), deck.get(2 * k + 1).unwrap());
        assert!(!std::ptr::eq(deck.get(2 * k).unwrap(), deck.get(2 * k + 1).unwrap()));
    }
    let ace = deck.first().unwrap();
    assert_eq!(ace.rang.name, "ace");
    assert_eq!(ace.rang.get_value(), 11);
    assert!(!deck.contains(&Karte::new("eight", "spades")));
    let nine = deck.last().unwrap();
    assert_eq!(nine.rang.name, "nine");
    assert_eq!(nine.anzug.name, "clubs");
    assert_eq!(nine.rang.get_value(), 0);
}

#[test]
fn contains_false_after_single_removal() {
    let mut deck = Kartendeck::french_deck().karten;
    let c = Karte::new("jack", "hearts");
    assert!(deck.contains(&c));
    assert!(deck.remove_karte(&c).is_some());
    assert!(!deck.contains(&c));
    assert_eq!(deck.len(), 51);
}

#[test]
fn render_queen_of_clubs() {
    let c = Catalog::bundled();
    let karte = Karte::new("queen", "clubs");
    assert_eq!(karte.to_txt_string(&c, &Locale::german()), Some("DK".to_string()));
    assert_eq!(karte.to_locale_string(&c, &Locale::us_english()), Some("Q♣".to_string()));
    assert_eq!(karte.to_txt_string(&c, &Locale::us_english()), Some("QC".to_string()));
}

#[test]
fn render_is_resolving_names() {
    let c = Catalog::bundled();
    let de = Locale::german();
    let karte = Karte::new("king", "hearts");
    let short = karte.rang.short(&c, &de).unwrap();
    let symbol = karte.anzug.symbol(&c, &de).unwrap();
    assert_eq!(karte.to_locale_string(&c, &de), Some(format!("{}{}", short, symbol)));
    assert_eq!(karte.to_locale_string(&c, &de), karte.to_locale_string(&c, &de));
    assert_eq!(karte.to_locale_string(&c, &de), Some("K♥".to_string()));
}

#[test]
fn rank_short_texts() {
    let c = Catalog::bundled();
    assert_eq!(Rang::new("ten").short(&c, &Locale::german()), Some("10".to_string()));
    assert_eq!(Rang::new("king").short(&c, &Locale::us_english()), Some("K".to_string()));
    assert_eq!(Rang::new("jack").short(&c, &Locale::german()), Some("B".to_string()));
    assert_eq!(Rang::new("ace").long_name(&c, &Locale::german()), Some("Ass".to_string()));
    assert_eq!(Anzug::new("spades").long_name(&c, &Locale::german()), Some("Spaten".to_string()));
}

#[test]
fn rank_unresolved_render() {
    let c = Catalog::bundled();
    let karte = Karte::new("joker", "clubs");
    assert_eq!(karte.rang.get_value(), 0);
    assert_eq!(karte.to_locale_string(&c, &Locale::us_english()), None);
}

#[test]
fn revise_value_keeps_name() {
    let mut r = Rang::new("ten");
    assert_eq!(r.get_value(), 10);
    r.revise_value(1);
    assert_eq!(r.get_value(), 1);
    assert_eq!(r.name, "ten");
    let mut c = Catalog::new(Locale::us_english());
    c.add("en-US", "ten-value", "20");
    assert_eq!(Rang::new_in(&c, "ten").get_value(), 20);
}
