//! Playing cards and decks with locale-aware rendering.
//!
//! Ranks and suits are identified by canonical names (`"ace"`, `"spades"`);
//! their texts are resolved through a [`Catalog`] of translations, which
//! falls back to a default locale when the requested one has no entry.

pub mod anzug;
pub mod bundled;
pub mod fluent;
pub mod karte;
pub mod karten;
pub mod kartendeck;
pub mod rang;
pub mod rank_short;

pub use anzug::Anzug;
pub use fluent::{get_value, get_value_u8, Catalog, Entry, Locale, ToLocaleString, Valuable};
pub use karte::Karte;
pub use karten::Karten;
pub use kartendeck::Kartendeck;
pub use rang::Rang;
pub use rank_short::RankShort;
