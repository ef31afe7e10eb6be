use spielkartenlib::fluent::parse_u8;
use spielkartenlib::{get_value, get_value_u8, Catalog, Locale};

#[test]
fn doit() {
    let s = Catalog::bundled().lookup(&"en-US".to_string(), &"spades-letter".to_string());

    assert_eq!(Some("S".to_string()), s);
}

#[test]
fn lookup_does_not_fall_back() {
    let c = Catalog::bundled();
    assert_eq!(c.lookup(&"de".to_string(), &"ten-short".to_string()), None);
    assert_eq!(
        c.lookup(&"de".to_string(), &"queen-short".to_string()),
        Some("D".to_string())
    );
}

#[test]
fn resolve_falls_back_to_default_locale() {
    let c = Catalog::bundled();
    assert_eq!(
        c.resolve("ten", "-short", &Locale::german()),
        Some("10".to_string())
    );
    assert_eq!(
        c.resolve("clubs", "-symbol", &Locale::german()),
        Some("♣".to_string())
    );
    assert_eq!(
        c.resolve("clubs", "-letter", &Locale::new("fr")),
        Some("C".to_string())
    );
}

#[test]
fn resolve_unresolved_key() {
    let c = Catalog::bundled();
    assert_eq!(c.resolve("joker", "-short", &Locale::german()), None);
    assert_eq!(c.resolve("ace", "-color", &Locale::us_english()), None);
}

#[test]
fn first_entry_wins() {
    let mut c = Catalog::new(Locale::us_english());
    c.add("en-US", "ace-short", "A");
    c.add("en-US", "ace-short", "X");
    assert_eq!(c.resolve("ace", "-short", &Locale::us_english()), Some("A".to_string()));
}

#[test]
fn values_of_bundled_ranks() {
    assert_eq!(get_value("ten"), Some("10".to_string()));
    assert_eq!(get_value_u8("ten"), 10);
    assert_eq!(get_value_u8("ace"), 14);
    assert_eq!(get_value_u8("two"), 2);
    assert_eq!(get_value("joker"), None);
    assert_eq!(get_value_u8("joker"), 0);
}

#[test]
fn numeric_value_that_is_no_number_is_zero() {
    let mut c = Catalog::new(Locale::us_english());
    c.add("en-US", "ace-value", "eleven");
    c.add("en-US", "king-value", "300");
    c.add("en-US", "queen-value", "+12");
    assert_eq!(c.numeric("ace"), 0);
    assert_eq!(c.numeric("king"), 0);
    assert_eq!(c.numeric("queen"), 12);
    assert_eq!(c.numeric("jack"), 0);
}

#[test]
fn parse_u8_values() {
    assert_eq!(parse_u8("0"), Some(0));
    assert_eq!(parse_u8("7"), Some(7));
    assert_eq!(parse_u8("255"), Some(255));
    assert_eq!(parse_u8("256"), None);
    assert_eq!(parse_u8("0042"), Some(42));
    assert_eq!(parse_u8("+9"), Some(9));
    assert_eq!(parse_u8("+"), None);
    assert_eq!(parse_u8(""), None);
    assert_eq!(parse_u8("-1"), None);
    assert_eq!(parse_u8("1a"), None);
    assert_eq!(parse_u8("99999999999"), None);
}
