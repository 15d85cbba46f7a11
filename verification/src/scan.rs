//! What the two scans compute, as functions on sequences of scalars.

use crate::tables::Tables;
use crate::text::{ascii_lower, fold, in_case, unicode_uppercase};
use vstd::prelude::*;

verus! {

/// One step of a scan: how many scalars it reads at the cursor, and what it
/// writes for them.
pub struct Step {
    pub consumed: nat,
    pub written: Seq<char>,
}

impl Tables {
    /// The step that the forward scan takes at the head of a non-empty `s`.
    ///
    /// Patterns are matched against the ASCII lower-case form of the input,
    /// the longest first: a special rule for the first two scalars, then a
    /// special rule for the first scalar, then the rune of the first scalar.
    /// The rune of an upper-case letter is put in upper case, which changes
    /// it only where the table writes a letter with an ASCII letter; what a
    /// special rule writes is never changed. A scalar that nothing matches is
    /// copied as it stands.
    pub open spec fn encode_step(self, s: Seq<char>) -> Step
        recommends
            s.len() > 0,
    {
        let pair = fold(s.take(2));
        let single = fold(s.take(1));
        let letter = ascii_lower(s[0]);
        if s.len() >= 2 && self.special_rules.contains_key(pair) {
            Step { consumed: 2, written: self.special_rules[pair] }
        } else if self.special_rules.contains_key(single) {
            Step { consumed: 1, written: self.special_rules[single] }
        } else if self.latin_to_rhunes.contains_key(letter) {
            Step {
                consumed: 1,
                written: seq![in_case(self.latin_to_rhunes[letter], unicode_uppercase(s[0]))],
            }
        } else {
            Step { consumed: 1, written: seq![s[0]] }
        }
    }

    /// The Rhunes for the Latin text `s`: the steps of the forward scan, one
    /// after the other, each starting where the one before stopped.
    pub open spec fn encode(self, s: Seq<char>) -> Seq<char>
        decreases s.len(),
    {
        if s.len() == 0 {
            Seq::empty()
        } else {
            let step = self.encode_step(s);
            step.written + self.encode(s.skip(step.consumed as int))
        }
    }

    /// The step that the reverse scan takes at the head of a non-empty `s`.
    ///
    /// The longest match wins: a special rule for the first three runes, for
    /// the first two, for the first one, then the letter of the first rune.
    /// A scalar that nothing matches is copied as it stands.
    pub open spec fn decode_step(self, s: Seq<char>) -> Step
        recommends
            s.len() > 0,
    {
        if s.len() >= 3 && self.reverse_special_rules.contains_key(s.take(3)) {
            Step { consumed: 3, written: self.reverse_special_rules[s.take(3)] }
        } else if s.len() >= 2 && self.reverse_special_rules.contains_key(s.take(2)) {
            Step { consumed: 2, written: self.reverse_special_rules[s.take(2)] }
        } else if self.reverse_special_rules.contains_key(s.take(1)) {
            Step { consumed: 1, written: self.reverse_special_rules[s.take(1)] }
        } else if self.rhunes_to_latin.contains_key(s[0]) {
            Step { consumed: 1, written: seq![self.rhunes_to_latin[s[0]]] }
        } else {
            Step { consumed: 1, written: seq![s[0]] }
        }
    }

    /// The Latin text for the Rhunes `s`: the steps of the reverse scan, one
    /// after the other, each starting where the one before stopped.
    pub open spec fn decode(self, s: Seq<char>) -> Seq<char>
        decreases s.len(),
    {
        if s.len() == 0 {
            Seq::empty()
        } else {
            let step = self.decode_step(s);
            step.written + self.decode(s.skip(step.consumed as int))
        }
    }

    /// The translation of `s` in the direction that `reverse` selects: from
    /// Rhunes to Latin where it is set, from Latin to Rhunes where it is not.
    pub open spec fn translate(self, s: Seq<char>, reverse: bool) -> Seq<char> {
        if reverse {
            self.decode(s)
        } else {
            self.encode(s)
        }
    }
}

} // verus!
