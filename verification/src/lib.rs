//! Transliteration between Latin text and the Rhunes alphabet.
//!
//! The engine is a greedy, left-to-right substitution over Unicode scalars.
//! Four fixed tables drive it: one rune per Latin letter, one Latin letter per
//! rune, and two sets of multi-scalar rules that take priority over the
//! single-letter tables. A scalar that no table knows is copied unchanged, so
//! both directions are total.

pub mod char_map;
pub mod laws;
pub mod rule_set;
pub mod scan;
pub mod tables;
pub mod text;
pub mod translator;

pub use char_map::CharMap;
pub use rule_set::RuleSet;
pub use tables::Tables;
pub use translator::RhunesTranslator;
