//! The four tables that drive a translation, and the standard ones.

use vstd::prelude::*;

verus! {

/// The tables of a translator, as mathematical maps.
#[verifier::ext_equal]
pub struct Tables {
    /// The rune that stands for a Latin letter. Keys are lower-case.
    pub latin_to_rhunes: Map<char, char>,
    /// The Latin letter that a rune is read as.
    pub rhunes_to_latin: Map<char, char>,
    /// Latin patterns, lower-case, that are written as a run of runes of
    /// their own. They take priority over `latin_to_rhunes`.
    pub special_rules: Map<Seq<char>, Seq<char>>,
    /// Runs of runes that are read as a run of Latin letters of their own.
    /// They take priority over `rhunes_to_latin`.
    pub reverse_special_rules: Map<Seq<char>, Seq<char>>,
}

impl Tables {
    /// The Latin alphabet of these tables: every scalar that has a rune, or
    /// that occurs in the pattern of a special rule.
    pub open spec fn latin_alphabet(self) -> Set<char> {
        Set::new(
            |c: char|
                self.latin_to_rhunes.contains_key(c) || exists|pattern: Seq<char>|
                    #[trigger] self.special_rules.contains_key(pattern) && pattern.contains(c),
        )
    }

    /// The runic alphabet of these tables: every scalar that is read as a
    /// letter, or that occurs in the pattern of a reverse special rule.
    pub open spec fn rune_alphabet(self) -> Set<char> {
        Set::new(
            |c: char|
                self.rhunes_to_latin.contains_key(c) || exists|pattern: Seq<char>|
                    #[trigger] self.reverse_special_rules.contains_key(pattern)
                        && pattern.contains(c),
        )
    }

    /// The standard tables.
    ///
    /// The base alphabet covers `a` to `w` and `y`. Three runes serve two
    /// letters each: `ᚲ` writes `c` and `k` and reads as `k`, `ᚢ` writes `t`
    /// and `u` and reads as `u`, `ᛁ` writes `i` and `w` and reads as `w`.
    /// `x` has no rune of its own: it is written by a special rule. `z` is
    /// outside the alphabet.
    ///
    /// `sk` and `sj` are written alike; the run reads back as `sk`.
    pub open spec fn standard() -> Tables {
        Tables {
            latin_to_rhunes: map![
                'a' => 'ᚨ',
                'b' => 'ᛒ',
                'c' => 'ᚲ',
                'd' => 'ᛞ',
                'e' => 'ᛖ',
                'f' => 'ᚠ',
                'g' => 'ᚷ',
                'h' => 'ᚺ',
                'i' => 'ᛁ',
                'j' => 'ᛃ',
                'k' => 'ᚲ',
                'l' => 'ᛚ',
                'm' => 'ᛗ',
                'n' => 'ᚾ',
                'o' => 'ᛟ',
                'p' => 'ᛈ',
                'q' => 'ᚱ',
                'r' => 'ᛊ',
                's' => 'ᛏ',
                't' => 'ᚢ',
                'u' => 'ᚢ',
                'v' => 'ᚹ',
                'w' => 'ᛁ',
                'y' => 'ᛉ',
            ],
            rhunes_to_latin: map![
                'ᚨ' => 'a',
                'ᛒ' => 'b',
                'ᚲ' => 'k',
                'ᛞ' => 'd',
                'ᛖ' => 'e',
                'ᚠ' => 'f',
                'ᚷ' => 'g',
                'ᚺ' => 'h',
                'ᛁ' => 'w',
                'ᛃ' => 'j',
                'ᛚ' => 'l',
                'ᛗ' => 'm',
                'ᚾ' => 'n',
                'ᛟ' => 'o',
                'ᛈ' => 'p',
                'ᚱ' => 'q',
                'ᛊ' => 'r',
                'ᛏ' => 's',
                'ᚢ' => 'u',
                'ᚹ' => 'v',
                'ᛉ' => 'y',
            ],
            special_rules: map![
                seq!['ä'] => seq!['ᛇ'],
                seq!['ö'] => seq!['ᛟ', 'ᛖ'],
                seq!['ü'] => seq!['ᚢ', 'ᛖ'],
                seq!['å'] => seq!['ᚨ', 'ᚨ'],
                seq!['ø'] => seq!['ᚢ', 'ᚢ'],
                seq!['æ'] => seq!['ᛇ', 'ᛇ'],
                seq!['t', 'h'] => seq!['ᚦ'],
                seq!['s', 'k'] => seq!['ᚺ', 'ᚱ', 'ᚲ'],
                seq!['s', 'j'] => seq!['ᚺ', 'ᚱ', 'ᚲ'],
                seq!['x'] => seq!['ᚲ', 'ᛊ'],
                seq!['n', 'g'] => seq!['ᛜ'],
            ],
            reverse_special_rules: map![
                seq!['ᛇ'] => seq!['a', 'e'],
                seq!['ᛟ', 'ᛖ'] => seq!['o', 'e'],
                seq!['ᚢ', 'ᛖ'] => seq!['u', 'e'],
                seq!['ᚨ', 'ᚨ'] => seq!['a', 'a'],
                seq!['ᚢ', 'ᚢ'] => seq!['u', 'u'],
                seq!['ᛇ', 'ᛇ'] => seq!['a', 'e', 'a', 'e'],
                seq!['ᚦ'] => seq!['t', 'h'],
                seq!['ᚺ', 'ᚱ', 'ᚲ'] => seq!['s', 'k'],
                seq!['ᚲ', 'ᛊ'] => seq!['x'],
                seq!['ᛜ'] => seq!['n', 'g'],
            ],
        }
    }
}

} // verus!
