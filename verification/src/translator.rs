//! The translator: the standard tables in executable form, and the two scans.

use crate::char_map::CharMap;
use crate::rule_set::RuleSet;
use crate::tables::Tables;
use crate::text::{folded_window, put_in_case, scalars, window};
use vstd::prelude::*;
use vstd::string::StringExecFns;

verus! {

/// A translator between Latin text and Rhunes.
///
/// It owns its four tables, which are filled once by [`RhunesTranslator::new`]
/// and only read afterwards.
pub struct RhunesTranslator {
    latin_to_rhunes: CharMap,
    rhunes_to_latin: CharMap,
    special_rules: RuleSet,
    reverse_special_rules: RuleSet,
}

impl View for RhunesTranslator {
    type V = Tables;

    closed spec fn view(&self) -> Tables {
        Tables {
            latin_to_rhunes: self.latin_to_rhunes@,
            rhunes_to_latin: self.rhunes_to_latin@,
            special_rules: self.special_rules@,
            reverse_special_rules: self.reverse_special_rules@,
        }
    }
}

/// Enters one letter of the base alphabet: `latin` is written `rune`, and
/// `rune` is read as `latin` from now on.
fn enter_letter(
    latin_to_rhunes: &mut CharMap,
    rhunes_to_latin: &mut CharMap,
    latin: char,
    rune: char,
)
    ensures
        final(latin_to_rhunes)@ == old(latin_to_rhunes)@.insert(latin, rune),
        final(rhunes_to_latin)@ == old(rhunes_to_latin)@.insert(rune, latin),
{
    latin_to_rhunes.insert(latin, rune);
    rhunes_to_latin.insert(rune, latin);
}

impl RhunesTranslator {
    /// A translator with the standard tables.
    pub fn new() -> (translator: Self)
        ensures
            translator@ == Tables::standard(),
    {
        let mut latin_to_rhunes = CharMap::new();
        let mut rhunes_to_latin = CharMap::new();
        enter_letter(&mut latin_to_rhunes, &mut rhunes_to_latin, 'a', 'ᚨ');
        enter_letter(&mut latin_to_rhunes, &mut rhunes_to_latin, 'b', 'ᛒ');
        enter_letter(&mut latin_to_rhunes, &mut rhunes_to_latin, 'c', 'ᚲ');
        enter_letter(&mut latin_to_rhunes, &mut rhunes_to_latin, 'd', 'ᛞ');
        enter_letter(&mut latin_to_rhunes, &mut rhunes_to_latin, 'e', 'ᛖ');
        enter_letter(&mut latin_to_rhunes, &mut rhunes_to_latin, 'f', 'ᚠ');
        enter_letter(&mut latin_to_rhunes, &mut rhunes_to_latin, 'g', 'ᚷ');
        enter_letter(&mut latin_to_rhunes, &mut rhunes_to_latin, 'h', 'ᚺ');
        enter_letter(&mut latin_to_rhunes, &mut rhunes_to_latin, 'i', 'ᛁ');
        enter_letter(&mut latin_to_rhunes, &mut rhunes_to_latin, 'j', 'ᛃ');
        enter_letter(&mut latin_to_rhunes, &mut rhunes_to_latin, 'k', 'ᚲ');
        enter_letter(&mut latin_to_rhunes, &mut rhunes_to_latin, 'l', 'ᛚ');
        enter_letter(&mut latin_to_rhunes, &mut rhunes_to_latin, 'm', 'ᛗ');
        enter_letter(&mut latin_to_rhunes, &mut rhunes_to_latin, 'n', 'ᚾ');
        enter_letter(&mut latin_to_rhunes, &mut rhunes_to_latin, 'o', 'ᛟ');
        enter_letter(&mut latin_to_rhunes, &mut rhunes_to_latin, 'p', 'ᛈ');
        enter_letter(&mut latin_to_rhunes, &mut rhunes_to_latin, 'q', 'ᚱ');
        enter_letter(&mut latin_to_rhunes, &mut rhunes_to_latin, 'r', 'ᛊ');
        enter_letter(&mut latin_to_rhunes, &mut rhunes_to_latin, 's', 'ᛏ');
        enter_letter(&mut latin_to_rhunes, &mut rhunes_to_latin, 't', 'ᚢ');
        enter_letter(&mut latin_to_rhunes, &mut rhunes_to_latin, 'u', 'ᚢ');
        enter_letter(&mut latin_to_rhunes, &mut rhunes_to_latin, 'v', 'ᚹ');
        enter_letter(&mut latin_to_rhunes, &mut rhunes_to_latin, 'w', 'ᛁ');
        enter_letter(&mut latin_to_rhunes, &mut rhunes_to_latin, 'y', 'ᛉ');

        let mut special_rules = RuleSet::new();
        special_rules.insert("ä", "ᛇ");
        special_rules.insert("ö", "ᛟᛖ");
        special_rules.insert("ü", "ᚢᛖ");
        special_rules.insert("å", "ᚨᚨ");
        special_rules.insert("ø", "ᚢᚢ");
        special_rules.insert("æ", "ᛇᛇ");
        special_rules.insert("th", "ᚦ");
        special_rules.insert("sk", "ᚺᚱᚲ");
        special_rules.insert("sj", "ᚺᚱᚲ");
        special_rules.insert("x", "ᚲᛊ");
        special_rules.insert("ng", "ᛜ");

        let mut reverse_special_rules = RuleSet::new();
        reverse_special_rules.insert("ᛇ", "ae");
        reverse_special_rules.insert("ᛟᛖ", "oe");
        reverse_special_rules.insert("ᚢᛖ", "ue");
        reverse_special_rules.insert("ᚨᚨ", "aa");
        reverse_special_rules.insert("ᚢᚢ", "uu");
        reverse_special_rules.insert("ᛇᛇ", "aeae");
        reverse_special_rules.insert("ᚦ", "th");
        reverse_special_rules.insert("ᚺᚱᚲ", "sk");
        reverse_special_rules.insert("ᚲᛊ", "x");
        reverse_special_rules.insert("ᛜ", "ng");

        let translator = RhunesTranslator {
            latin_to_rhunes,
            rhunes_to_latin,
            special_rules,
            reverse_special_rules,
        };
        proof {
            lemma_literals();
            assert(translator@.latin_to_rhunes =~= Tables::standard().latin_to_rhunes);
            assert(translator@.rhunes_to_latin =~= Tables::standard().rhunes_to_latin);
            assert(translator@.special_rules =~= Tables::standard().special_rules);
            assert(translator@.reverse_special_rules =~= Tables::standard().reverse_special_rules);
        }
        translator
    }

    /// Translates `text` in the direction that `reverse` selects: from Rhunes
    /// to Latin where it is set, from Latin to Rhunes where it is not.
    pub fn translate(&self, text: &str, reverse: bool) -> (translation: String)
        ensures
            translation@ == self@.translate(text@, reverse),
    {
        if reverse {
            self.from_rhunes(text)
        } else {
            self.to_rhunes(text)
        }
    }

    /// Translates Latin text to Rhunes.
    pub fn to_rhunes(&self, text: &str) -> (rhunes: String)
        ensures
            rhunes@ == self@.encode(text@),
            text@.len() == 0 ==> rhunes@.len() == 0,
    {
        let chars = scalars(text);
        let mut rhunes = String::new();
        let mut at: usize = 0;
        assert(chars@.skip(0) =~= chars@);
        while at < chars.len()
            invariant
                at <= chars.len(),
                self@.encode(chars@) == rhunes@ + self@.encode(chars@.skip(at as int)),
            decreases chars.len() - at,
        {
            let ghost rest = chars@.skip(at as int);
            let consumed = self.encode_at(&chars, at, &mut rhunes);
            proof {
                assert(rest.skip(consumed as int) =~= chars@.skip(at + consumed));
            }
            at += consumed;
        }
        rhunes
    }

    /// Takes one step of the forward scan at `chars[at]`: appends to `rhunes`
    /// what the step writes and returns how many scalars it consumed.
    fn encode_at(&self, chars: &Vec<char>, at: usize, rhunes: &mut String) -> (consumed: usize)
        requires
            at < chars.len(),
        ensures
            consumed == self@.encode_step(chars@.skip(at as int)).consumed,
            final(rhunes)@ == old(rhunes)@ + self@.encode_step(chars@.skip(at as int)).written,
            at + consumed <= chars.len(),
    {
        let ghost rest = chars@.skip(at as int);
        if chars.len() - at >= 2 {
            let pair = folded_window(chars, at, 2);
            assert(rest.take(2) =~= chars@.subrange(at as int, at + 2));
            if let Some(written) = self.special_rules.get(pair.as_str()) {
                rhunes.append(written);
                return 2;
            }
        }
        let single = folded_window(chars, at, 1);
        assert(rest.take(1) =~= chars@.subrange(at as int, at + 1));
        if let Some(written) = self.special_rules.get(single.as_str()) {
            rhunes.append(written);
            return 1;
        }
        let current = chars[at];
        match self.latin_to_rhunes.get(current.to_ascii_lowercase()) {
            Some(rune) => rhunes.push(put_in_case(rune, current.is_uppercase())),
            None => rhunes.push(current),
        }
        1
    }

    /// Translates Rhunes to Latin text.
    pub fn from_rhunes(&self, text: &str) -> (latin: String)
        ensures
            latin@ == self@.decode(text@),
            text@.len() == 0 ==> latin@.len() == 0,
    {
        let chars = scalars(text);
        let mut latin = String::new();
        let mut at: usize = 0;
        assert(chars@.skip(0) =~= chars@);
        while at < chars.len()
            invariant
                at <= chars.len(),
                self@.decode(chars@) == latin@ + self@.decode(chars@.skip(at as int)),
            decreases chars.len() - at,
        {
            let ghost rest = chars@.skip(at as int);
            let consumed = self.decode_at(&chars, at, &mut latin);
            proof {
                assert(rest.skip(consumed as int) =~= chars@.skip(at + consumed));
            }
            at += consumed;
        }
        latin
    }

    /// Takes one step of the reverse scan at `chars[at]`: appends to `latin`
    /// what the step writes and returns how many scalars it consumed.
    fn decode_at(&self, chars: &Vec<char>, at: usize, latin: &mut String) -> (consumed: usize)
        requires
            at < chars.len(),
        ensures
            consumed == self@.decode_step(chars@.skip(at as int)).consumed,
            final(latin)@ == old(latin)@ + self@.decode_step(chars@.skip(at as int)).written,
            at + consumed <= chars.len(),
    {
        let ghost rest = chars@.skip(at as int);
        let mut len: usize = 3;
        while len > 0
            invariant
                len <= 3,
                at < chars.len(),
                rest == chars@.skip(at as int),
                *latin == *old(latin),
                forall|longer: int|
                    len < longer <= 3 && longer <= rest.len()
                        ==> !self@.reverse_special_rules.contains_key(#[trigger] rest.take(longer)),
            decreases len,
        {
            if chars.len() - at >= len {
                let run = window(chars, at, len);
                assert(rest.take(len as int) =~= chars@.subrange(at as int, at + len));
                if let Some(written) = self.reverse_special_rules.get(run.as_str()) {
                    latin.append(written);
                    return len;
                }
            }
            len -= 1;
        }
        let current = chars[at];
        match self.rhunes_to_latin.get(current) {
            Some(letter) => latin.push(letter),
            None => latin.push(current),
        }
        1
    }
}

/// What the string literals of the standard rules hold, scalar by scalar.
proof fn lemma_literals()
    ensures
        "ä"@ == seq!['ä'],
        "ö"@ == seq!['ö'],
        "ü"@ == seq!['ü'],
        "å"@ == seq!['å'],
        "ø"@ == seq!['ø'],
        "æ"@ == seq!['æ'],
        "th"@ == seq!['t', 'h'],
        "sk"@ == seq!['s', 'k'],
        "sj"@ == seq!['s', 'j'],
        "x"@ == seq!['x'],
        "ng"@ == seq!['n', 'g'],
        "ᛇ"@ == seq!['ᛇ'],
        "ᛟᛖ"@ == seq!['ᛟ', 'ᛖ'],
        "ᚢᛖ"@ == seq!['ᚢ', 'ᛖ'],
        "ᚨᚨ"@ == seq!['ᚨ', 'ᚨ'],
        "ᚢᚢ"@ == seq!['ᚢ', 'ᚢ'],
        "ᛇᛇ"@ == seq!['ᛇ', 'ᛇ'],
        "ᚦ"@ == seq!['ᚦ'],
        "ᚺᚱᚲ"@ == seq!['ᚺ', 'ᚱ', 'ᚲ'],
        "ᚲᛊ"@ == seq!['ᚲ', 'ᛊ'],
        "ᛜ"@ == seq!['ᛜ'],
        "ae"@ == seq!['a', 'e'],
        "oe"@ == seq!['o', 'e'],
        "ue"@ == seq!['u', 'e'],
        "aa"@ == seq!['a', 'a'],
        "uu"@ == seq!['u', 'u'],
        "aeae"@ == seq!['a', 'e', 'a', 'e'],
{
    reveal_strlit("ä");
    reveal_strlit("ö");
    reveal_strlit("ü");
    reveal_strlit("å");
    reveal_strlit("ø");
    reveal_strlit("æ");
    reveal_strlit("th");
    reveal_strlit("sk");
    reveal_strlit("sj");
    reveal_strlit("x");
    reveal_strlit("ng");
    reveal_strlit("ᛇ");
    reveal_strlit("ᛟᛖ");
    reveal_strlit("ᚢᛖ");
    reveal_strlit("ᚨᚨ");
    reveal_strlit("ᚢᚢ");
    reveal_strlit("ᛇᛇ");
    reveal_strlit("ᚦ");
    reveal_strlit("ᚺᚱᚲ");
    reveal_strlit("ᚲᛊ");
    reveal_strlit("ᛜ");
    reveal_strlit("ae");
    reveal_strlit("oe");
    reveal_strlit("ue");
    reveal_strlit("aa");
    reveal_strlit("uu");
    reveal_strlit("aeae");
}

} // verus!
