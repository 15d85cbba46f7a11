//! What holds of the two scans, for every input.

use crate::tables::Tables;
use crate::text::{ascii_lower, fold, in_case};
use vstd::prelude::*;

verus! {

/// Either scan of the empty text gives the empty text.
pub proof fn law_empty_text(tables: Tables)
    ensures
        tables.encode(Seq::empty()) == Seq::<char>::empty(),
        tables.decode(Seq::empty()) == Seq::<char>::empty(),
{
}

/// Priority of the longest match, forward: where the first two scalars of a
/// text match a special rule, that rule is applied and the scan goes on behind
/// both, whatever either scalar would give alone.
pub proof fn law_pair_rule_first(tables: Tables, s: Seq<char>)
    requires
        s.len() >= 2,
        tables.special_rules.contains_key(fold(s.take(2))),
    ensures
        tables.encode(s) == tables.special_rules[fold(s.take(2))] + tables.encode(s.skip(2)),
{
}

/// Priority of the longest match, reverse: where the first three runes of a
/// text match a special rule, that rule is applied and the scan goes on behind
/// all three.
pub proof fn law_triple_rule_first(tables: Tables, s: Seq<char>)
    requires
        s.len() >= 3,
        tables.reverse_special_rules.contains_key(s.take(3)),
    ensures
        tables.decode(s) == tables.reverse_special_rules[s.take(3)] + tables.decode(s.skip(3)),
{
}

/// A text that is, up to ASCII case, the pattern of a special rule of one or
/// two scalars is written as that rule's replacement.
pub proof fn law_rule_encodes(tables: Tables, s: Seq<char>)
    requires
        1 <= s.len() <= 2,
        tables.special_rules.contains_key(fold(s)),
    ensures
        tables.encode(s) == tables.special_rules[fold(s)],
{
    let step = tables.encode_step(s);
    assert(s.take(s.len() as int) =~= s);
    assert(step.consumed == s.len() && step.written == tables.special_rules[fold(s)]);
    assert(tables.encode(s.skip(s.len() as int)) =~= Seq::<char>::empty());
    assert(step.written + Seq::<char>::empty() =~= step.written);
}

/// A single scalar that the forward tables do not know is copied unchanged.
pub proof fn law_unknown_scalar_encodes_to_itself(tables: Tables, c: char)
    requires
        !tables.special_rules.contains_key(seq![ascii_lower(c)]),
        !tables.latin_to_rhunes.contains_key(ascii_lower(c)),
    ensures
        tables.encode(seq![c]) == seq![c],
{
    let s = seq![c];
    assert(fold(s.take(1)) =~= seq![ascii_lower(c)]);
    assert(tables.encode(s.skip(1)) =~= Seq::<char>::empty());
    assert(seq![c] + Seq::<char>::empty() =~= seq![c]);
}

/// A single scalar that the reverse tables do not know is copied unchanged.
pub proof fn law_unknown_scalar_decodes_to_itself(tables: Tables, c: char)
    requires
        !tables.reverse_special_rules.contains_key(seq![c]),
        !tables.rhunes_to_latin.contains_key(c),
    ensures
        tables.decode(seq![c]) == seq![c],
{
    let s = seq![c];
    assert(s.take(1) =~= seq![c]);
    assert(tables.decode(s.skip(1)) =~= Seq::<char>::empty());
    assert(seq![c] + Seq::<char>::empty() =~= seq![c]);
}

/// A text without a scalar of the Latin alphabet, in either ASCII case, is
/// its own translation to Rhunes.
pub proof fn law_plain_text_encodes_to_itself(tables: Tables, s: Seq<char>)
    requires
        forall|i: int| 0 <= i < s.len() ==> !tables.latin_alphabet().contains(ascii_lower(s[i])),
    ensures
        tables.encode(s) == s,
    decreases s.len(),
{
    if s.len() > 0 {
        let pair = fold(s.take(2));
        let single = fold(s.take(1));
        assert(single[0] == ascii_lower(s[0]));
        assert(single.contains(ascii_lower(s[0])));
        if s.len() >= 2 {
            assert(pair[0] == ascii_lower(s[0]));
            assert(pair.contains(ascii_lower(s[0])));
        }
        assert(tables.encode_step(s).consumed == 1);
        assert(tables.encode_step(s).written == seq![s[0]]);
        let rest = s.skip(1);
        assert forall|i: int| 0 <= i < rest.len() implies !tables.latin_alphabet().contains(
            ascii_lower(rest[i]),
        ) by {
            assert(rest[i] == s[i + 1]);
        }
        law_plain_text_encodes_to_itself(tables, rest);
        assert(seq![s[0]] + rest =~= s);
    }
}

/// A text without a scalar of the runic alphabet is its own translation to
/// Latin.
pub proof fn law_plain_text_decodes_to_itself(tables: Tables, s: Seq<char>)
    requires
        forall|i: int| 0 <= i < s.len() ==> !tables.rune_alphabet().contains(s[i]),
    ensures
        tables.decode(s) == s,
    decreases s.len(),
{
    if s.len() > 0 {
        assert(s.take(1)[0] == s[0]);
        assert(s.take(1).contains(s[0]));
        if s.len() >= 2 {
            assert(s.take(2)[0] == s[0]);
            assert(s.take(2).contains(s[0]));
        }
        if s.len() >= 3 {
            assert(s.take(3)[0] == s[0]);
            assert(s.take(3).contains(s[0]));
        }
        assert(tables.decode_step(s).consumed == 1);
        assert(tables.decode_step(s).written == seq![s[0]]);
        let rest = s.skip(1);
        assert forall|i: int| 0 <= i < rest.len() implies !tables.rune_alphabet().contains(
            rest[i],
        ) by {
            assert(rest[i] == s[i + 1]);
        }
        law_plain_text_decodes_to_itself(tables, rest);
        assert(seq![s[0]] + rest =~= s);
    }
}

/// The Latin alphabet of the standard tables is `a` to `y` and the six
/// letters `ä`, `ö`, `ü`, `å`, `ø`, `æ`.
pub proof fn law_standard_latin_alphabet(c: char)
    ensures
        Tables::standard().latin_alphabet().contains(c) <==> ('a' <= c <= 'y' || c == 'ä' || c
            == 'ö' || c == 'ü' || c == 'å' || c == 'ø' || c == 'æ'),
{
    let tables = Tables::standard();
    if tables.latin_alphabet().contains(c) {
        if !tables.latin_to_rhunes.contains_key(c) {
            let pattern = choose|pattern: Seq<char>|
                #[trigger] tables.special_rules.contains_key(pattern) && pattern.contains(c);
            let i = choose|i: int| 0 <= i < pattern.len() && pattern[i] == c;
            assert(0 <= i < pattern.len() && pattern[i] == c);
        }
    }
    if c == 'x' || c == 'ä' || c == 'ö' || c == 'ü' || c == 'å' || c == 'ø' || c == 'æ' {
        let pattern = seq![c];
        assert(pattern[0] == c);
        assert(tables.special_rules.contains_key(pattern) && pattern.contains(c));
    }
}

/// The runic alphabet of the standard tables is the twenty-one runes that are
/// read as a letter and the three that only special rules read: `ᛇ`, `ᚦ`, `ᛜ`.
pub proof fn law_standard_rune_alphabet(c: char)
    ensures
        Tables::standard().rune_alphabet().contains(c) <==> (
        Tables::standard().rhunes_to_latin.contains_key(c) || c == 'ᛇ' || c == 'ᚦ' || c == 'ᛜ'),
{
    let tables = Tables::standard();
    if tables.rune_alphabet().contains(c) {
        if !tables.rhunes_to_latin.contains_key(c) {
            let pattern = choose|pattern: Seq<char>|
                #[trigger] tables.reverse_special_rules.contains_key(pattern) && pattern.contains(
                    c,
                );
            let i = choose|i: int| 0 <= i < pattern.len() && pattern[i] == c;
            assert(0 <= i < pattern.len() && pattern[i] == c);
        }
    }
    if c == 'ᛇ' || c == 'ᚦ' || c == 'ᛜ' {
        let pattern = seq![c];
        assert(pattern[0] == c);
        assert(tables.reverse_special_rules.contains_key(pattern) && pattern.contains(c));
    }
}

/// A scalar of ASCII that is no letter (a digit, a blank, a punctuation mark)
/// is outside both alphabets of the standard tables, and so is `z`.
pub proof fn law_standard_plain_scalars(c: char)
    requires
        c <= '\u{7f}',
        !('a' <= ascii_lower(c) <= 'y'),
    ensures
        !Tables::standard().latin_alphabet().contains(ascii_lower(c)),
        !Tables::standard().rune_alphabet().contains(c),
{
    law_standard_latin_alphabet(ascii_lower(c));
    law_standard_rune_alphabet(c);
}

/// The runes of the standard tables have no case: none is an ASCII letter, so
/// a rune is the same in the case of an upper-case letter and of a lower-case
/// one.
pub proof fn law_standard_runes_have_no_case(letter: char, upper: bool)
    requires
        Tables::standard().latin_to_rhunes.contains_key(letter),
    ensures
        in_case(Tables::standard().latin_to_rhunes[letter], upper)
            == Tables::standard().latin_to_rhunes[letter],
{
}

/// With the standard tables, a single letter of the base alphabet, in either
/// ASCII case, is written as its one rune.
pub proof fn law_letter_encodes(c: char)
    requires
        Tables::standard().latin_to_rhunes.contains_key(ascii_lower(c)),
    ensures
        Tables::standard().encode(seq![c]) == seq![
            Tables::standard().latin_to_rhunes[ascii_lower(c)],
        ],
{
    let tables = Tables::standard();
    let s = seq![c];
    let rune = tables.latin_to_rhunes[ascii_lower(c)];
    assert(fold(s.take(1)) =~= seq![ascii_lower(c)]);
    assert(fold(s.take(1))[0] == ascii_lower(c));
    assert(!tables.special_rules.contains_key(fold(s.take(1))));
    assert(tables.encode(s.skip(1)) =~= Seq::<char>::empty());
    assert(seq![rune] + Seq::<char>::empty() =~= seq![rune]);
}

/// With the standard tables, a single rune that is read as a letter is
/// translated to that letter.
pub proof fn law_rune_decodes(rune: char)
    requires
        Tables::standard().rhunes_to_latin.contains_key(rune),
    ensures
        Tables::standard().decode(seq![rune]) == seq![Tables::standard().rhunes_to_latin[rune]],
{
    let tables = Tables::standard();
    let s = seq![rune];
    let letter = tables.rhunes_to_latin[rune];
    assert(s.take(1) =~= s);
    assert(s.take(1)[0] == rune);
    assert(!tables.reverse_special_rules.contains_key(s.take(1)));
    assert(tables.decode(s.skip(1)) =~= Seq::<char>::empty());
    assert(seq![letter] + Seq::<char>::empty() =~= seq![letter]);
}

/// With the standard tables, a single letter of the base alphabet that is
/// written and read back comes out in lower case; it is the same letter,
/// except that `c` comes back as `k`, `t` as `u` and `i` as `w`, each sharing
/// its rune with the letter it comes back as.
pub proof fn law_letter_round_trip(c: char)
    requires
        Tables::standard().latin_to_rhunes.contains_key(ascii_lower(c)),
    ensures
        ({
            let letter = ascii_lower(c);
            let back = Tables::standard().decode(Tables::standard().encode(seq![c]));
            &&& letter == 'c' ==> back == seq!['k']
            &&& letter == 't' ==> back == seq!['u']
            &&& letter == 'i' ==> back == seq!['w']
            &&& letter != 'c' && letter != 't' && letter != 'i' ==> back == seq![letter]
        }),
{
    let tables = Tables::standard();
    law_letter_encodes(c);
    law_rune_decodes(tables.latin_to_rhunes[ascii_lower(c)]);
}

/// With the standard tables, a text that is, up to ASCII case, the pattern of
/// a special rule is written as that rule's replacement.
pub proof fn law_standard_rule_encodes(s: Seq<char>)
    requires
        Tables::standard().special_rules.contains_key(fold(s)),
    ensures
        Tables::standard().encode(s) == Tables::standard().special_rules[fold(s)],
{
    assert(1 <= fold(s).len() <= 2);
    law_rule_encodes(Tables::standard(), s);
}

/// With the standard tables, a pair of letters that a special rule writes is
/// not written as its two letters would be, one by one.
pub proof fn law_pair_differs_from_its_letters(s: Seq<char>)
    requires
        s.len() == 2,
        Tables::standard().special_rules.contains_key(fold(s)),
    ensures
        Tables::standard().encode(s) != Tables::standard().encode(s.take(1))
            + Tables::standard().encode(s.skip(1)),
{
    let tables = Tables::standard();
    let first = s.take(1);
    let second = s.skip(1);
    law_standard_rule_encodes(s);
    assert(first =~= seq![s[0]]);
    assert(second =~= seq![s[1]]);
    let pattern = fold(s);
    assert(pattern.len() == 2);
    assert(pattern[0] == ascii_lower(s[0]));
    assert(pattern[1] == ascii_lower(s[1]));
    assert(pattern == seq!['t', 'h'] || pattern == seq!['s', 'k'] || pattern == seq!['s', 'j']
        || pattern == seq!['n', 'g']);
    law_letter_encodes(s[0]);
    law_letter_encodes(s[1]);
    let separately = tables.encode(first) + tables.encode(second);
    assert(separately.len() == 2);
    assert(separately[1] == tables.latin_to_rhunes[ascii_lower(s[1])]);
    assert(tables.special_rules[fold(s)].len() != 2);
}

/// With the standard tables, what a special rule writes is read back by the
/// reverse rule for that run of runes, whichever pattern wrote it: `sk` and
/// `sj` both come back as `sk`, `ä` as `ae`.
pub proof fn law_rule_reads_back_canonically(s: Seq<char>)
    requires
        Tables::standard().special_rules.contains_key(fold(s)),
    ensures
        Tables::standard().reverse_special_rules.contains_key(
            Tables::standard().special_rules[fold(s)],
        ),
        Tables::standard().decode(Tables::standard().encode(s))
            == Tables::standard().reverse_special_rules[Tables::standard().special_rules[fold(s)]],
{
    let tables = Tables::standard();
    law_standard_rule_encodes(s);
    let runes = tables.special_rules[fold(s)];
    assert(1 <= runes.len() <= 3);
    assert(runes.take(runes.len() as int) =~= runes);
    assert(tables.reverse_special_rules.contains_key(runes));
    let step = tables.decode_step(runes);
    assert(step.consumed == runes.len());
    assert(step.written == tables.reverse_special_rules[runes]);
    assert(tables.decode(runes.skip(runes.len() as int)) =~= Seq::<char>::empty());
    assert(step.written + Seq::<char>::empty() =~= step.written);
}

/// In the standard tables every rune that writes a letter is read as a
/// letter.
pub proof fn law_letters_read_back(letter: char)
    requires
        Tables::standard().latin_to_rhunes.contains_key(letter),
    ensures
        Tables::standard().rhunes_to_latin.contains_key(
            Tables::standard().latin_to_rhunes[letter],
        ),
{
}

} // verus!
