use runes::RhunesTranslator;

#[test]
fn test_translation() {
    let translator = RhunesTranslator::new();

    // Forward translation
    let input = "När skeppen var gjorda av trä, var männen gjorda av stål.";
    let expected = "ᚾᛇᛊ ᚺᚱᚲᛖᛈᛈᛖᚾ ᚹᚨᛊ ᚷᛃᛟᛊᛞᚨ ᚨᚹ ᚢᛊᛇ, ᚹᚨᛊ ᛗᛇᚾᚾᛖᚾ ᚷᛃᛟᛊᛞᚨ ᚨᚹ ᛏᚢᚨᚨᛚ.";
    assert_eq!(translator.to_rhunes(input), expected);

    // Reverse translation (approximate)
    let back_result = translator.from_rhunes(expected);
    println!("Original: {}", input.to_lowercase());
    println!("Back: {}", back_result);
    assert_eq!(
        back_result,
        "naer skeppen var gjorda av urae, var maennen gjorda av suaal."
    );

    // Reverse translation of a line written by hand
    let written = "ᚾᛇᚱ ᚺᚱᚲᛈᛈᛇᚾ ᚢᚨᚱ ᚷᛃᛟᚱᛞᚨ ᚨᚢ ᛏᚱᛇ, ᚢᚨᚱ ᛗᛇᚾᚾᛇᚾ ᚷᛃᛟᚱᛞᚨ ᚨᚢ ᛊᛏᚨᚨᛚ.";
    assert_eq!(
        translator.from_rhunes(written),
        "naeq skppaen uaq gjoqda au sqae, uaq maennaen gjoqda au rsaal."
    );
}

#[test]
fn every_base_letter_is_written_as_its_rune() {
    let translator = RhunesTranslator::new();
    let letters = "abcdefghijklmnopqrstuvwy";
    let runes = "ᚨᛒᚲᛞᛖᚠᚷᚺᛁᛃᚲᛚᛗᚾᛟᛈᚱᛊᛏᚢᚢᚹᛁᛉ";
    assert_eq!(letters.chars().count(), 24);
    assert_eq!(runes.chars().count(), 24);
    for (letter, rune) in letters.chars().zip(runes.chars()) {
        assert_eq!(translator.to_rhunes(&letter.to_string()), rune.to_string());
        let upper = letter.to_ascii_uppercase().to_string();
        assert_eq!(translator.to_rhunes(&upper), rune.to_string());
    }
}

#[test]
fn every_base_rune_is_read_as_its_letter() {
    let translator = RhunesTranslator::new();
    let runes = "ᚨᛒᚲᛞᛖᚠᚷᚺᛁᛃᛚᛗᚾᛟᛈᚱᛊᛏᚢᚹᛉ";
    let letters = "abkdefghwjlmnopqrsuvy";
    assert_eq!(runes.chars().count(), 21);
    assert_eq!(letters.chars().count(), 21);
    for (rune, letter) in runes.chars().zip(letters.chars()) {
        assert_eq!(translator.from_rhunes(&rune.to_string()), letter.to_string());
    }
}

#[test]
fn a_letter_survives_the_round_trip_unless_it_shares_its_rune() {
    let translator = RhunesTranslator::new();
    for letter in "abdefghjklmnopqrsuvwy".chars() {
        let text = letter.to_string();
        assert_eq!(translator.from_rhunes(&translator.to_rhunes(&text)), text);
    }
    assert_eq!(translator.from_rhunes(&translator.to_rhunes("c")), "k");
    assert_eq!(translator.from_rhunes(&translator.to_rhunes("t")), "u");
    assert_eq!(translator.from_rhunes(&translator.to_rhunes("i")), "w");
    assert_eq!(translator.from_rhunes(&translator.to_rhunes("Q")), "q");
}

#[test]
fn every_special_rule_is_applied() {
    let translator = RhunesTranslator::new();
    let rules = [
        ("ä", "ᛇ"),
        ("ö", "ᛟᛖ"),
        ("ü", "ᚢᛖ"),
        ("å", "ᚨᚨ"),
        ("ø", "ᚢᚢ"),
        ("æ", "ᛇᛇ"),
        ("th", "ᚦ"),
        ("sk", "ᚺᚱᚲ"),
        ("sj", "ᚺᚱᚲ"),
        ("x", "ᚲᛊ"),
        ("ng", "ᛜ"),
    ];
    for (pattern, replacement) in rules {
        assert_eq!(translator.to_rhunes(pattern), replacement);
    }
}

#[test]
fn special_rules_ignore_ascii_case() {
    let translator = RhunesTranslator::new();
    assert_eq!(translator.to_rhunes("TH"), "ᚦ");
    assert_eq!(translator.to_rhunes("Th"), "ᚦ");
    assert_eq!(translator.to_rhunes("tH"), "ᚦ");
    assert_eq!(translator.to_rhunes("SK"), "ᚺᚱᚲ");
    assert_eq!(translator.to_rhunes("sK"), "ᚺᚱᚲ");
    assert_eq!(translator.to_rhunes("Sj"), "ᚺᚱᚲ");
    assert_eq!(translator.to_rhunes("NG"), "ᛜ");
    assert_eq!(translator.to_rhunes("X"), "ᚲᛊ");
}

#[test]
fn case_folding_stops_at_ascii() {
    let translator = RhunesTranslator::new();
    assert_eq!(translator.to_rhunes("ÄÖÜÅØÆ"), "ÄÖÜÅØÆ");
    assert_eq!(translator.to_rhunes("Ää"), "Äᛇ");
}

#[test]
fn th_is_not_t_followed_by_h() {
    let translator = RhunesTranslator::new();
    let together = translator.to_rhunes("th");
    let apart = translator.to_rhunes("t") + &translator.to_rhunes("h");
    assert_eq!(together, "ᚦ");
    assert_eq!(apart, "ᚢᚺ");
    assert_ne!(together, apart);
}

#[test]
fn a_pair_is_matched_at_the_cursor_only() {
    let translator = RhunesTranslator::new();
    assert_eq!(translator.to_rhunes("tth"), "ᚢᚦ");
    assert_eq!(translator.to_rhunes("nng"), "ᚾᛜ");
    assert_eq!(translator.to_rhunes("skj"), "ᚺᚱᚲᛃ");
    assert_eq!(translator.to_rhunes("ssk"), "ᛏᚺᚱᚲ");
    assert_eq!(translator.to_rhunes("ts"), "ᚢᛏ");
    assert_eq!(translator.to_rhunes("st"), "ᛏᚢ");
}

#[test]
fn scalars_outside_the_alphabet_pass_through() {
    let translator = RhunesTranslator::new();
    let plain = "0123456789 .,;:!?-_()[]\n\t";
    assert_eq!(translator.to_rhunes(plain), plain);
    assert_eq!(translator.from_rhunes(plain), plain);
    for c in plain.chars() {
        let text = c.to_string();
        assert_eq!(translator.to_rhunes(&text), text);
        assert_eq!(translator.from_rhunes(&text), text);
    }
    assert_eq!(translator.to_rhunes("z Z"), "z Z");
    assert_eq!(translator.to_rhunes("😀é"), "😀é");
    assert_eq!(translator.from_rhunes("😀é"), "😀é");
}

#[test]
fn runes_pass_through_the_forward_scan_and_latin_through_the_reverse() {
    let translator = RhunesTranslator::new();
    assert_eq!(translator.to_rhunes("ᚠᚦ"), "ᚠᚦ");
    assert_eq!(translator.from_rhunes("abc 123"), "abc 123");
    assert_eq!(translator.from_rhunes("ᚠᚡ"), "fᚡ");
}

#[test]
fn sj_comes_back_as_sk() {
    let translator = RhunesTranslator::new();
    let rhunes = translator.to_rhunes("sj");
    assert_eq!(rhunes, "ᚺᚱᚲ");
    assert_eq!(rhunes, translator.to_rhunes("sk"));
    assert_eq!(translator.from_rhunes(&rhunes), "sk");
    assert_eq!(translator.from_rhunes(&translator.to_rhunes("ä")), "ae");
    assert_eq!(translator.from_rhunes(&translator.to_rhunes("æ")), "aeae");
}

#[test]
fn thx_is_th_followed_by_x() {
    let translator = RhunesTranslator::new();
    let th = translator.to_rhunes("th");
    let x = translator.to_rhunes("x");
    assert_eq!(translator.to_rhunes("thx"), th + &x);
    assert_eq!(translator.to_rhunes("thx"), "ᚦᚲᛊ");
    assert_eq!(translator.from_rhunes("ᚦᚲᛊ"), "thx");
}

#[test]
fn mixed_case_ng_is_the_ng_rule() {
    let translator = RhunesTranslator::new();
    assert_eq!(translator.to_rhunes("Ng"), "ᛜ");
    assert_eq!(translator.to_rhunes("Ng"), translator.to_rhunes("ng"));
    assert_eq!(translator.to_rhunes("nG"), "ᛜ");
}

#[test]
fn empty_text_gives_empty_text() {
    let translator = RhunesTranslator::new();
    assert_eq!(translator.to_rhunes(""), "");
    assert_eq!(translator.from_rhunes(""), "");
    assert_eq!(translator.translate("", false), "");
    assert_eq!(translator.translate("", true), "");
}

#[test]
fn the_longest_run_of_runes_is_read_first() {
    let translator = RhunesTranslator::new();
    assert_eq!(translator.from_rhunes("ᚺᚱᚲ"), "sk");
    assert_eq!(translator.from_rhunes("ᚺᚱ"), "hq");
    assert_eq!(translator.from_rhunes("ᚺ"), "h");
    assert_eq!(translator.from_rhunes("ᚱᚲ"), "qk");
    assert_eq!(translator.from_rhunes("ᚺᚱᚲᛊ"), "skr");
    assert_eq!(translator.from_rhunes("ᚺᚺᚱᚲ"), "hsk");
    assert_eq!(translator.from_rhunes("ᚲᛊ"), "x");
    assert_eq!(translator.from_rhunes("ᚲ"), "k");
    assert_eq!(translator.from_rhunes("ᛊ"), "r");
}

#[test]
fn every_reverse_rule_is_applied() {
    let translator = RhunesTranslator::new();
    let rules = [
        ("ᛇ", "ae"),
        ("ᛟᛖ", "oe"),
        ("ᚢᛖ", "ue"),
        ("ᚨᚨ", "aa"),
        ("ᚢᚢ", "uu"),
        ("ᛇᛇ", "aeae"),
        ("ᚦ", "th"),
        ("ᚺᚱᚲ", "sk"),
        ("ᚲᛊ", "x"),
        ("ᛜ", "ng"),
    ];
    for (pattern, replacement) in rules {
        assert_eq!(translator.from_rhunes(pattern), replacement);
    }
}

#[test]
fn a_rune_at_the_end_of_the_text_is_still_read_by_its_rule() {
    let translator = RhunesTranslator::new();
    assert_eq!(translator.from_rhunes("ᛞᛇ"), "dae");
    assert_eq!(translator.from_rhunes("ᛇᛇᛇ"), "aeaeae");
    assert_eq!(translator.from_rhunes("ᚨᚨᚨ"), "aaa");
}

#[test]
fn letters_keep_their_rune_in_upper_case() {
    let translator = RhunesTranslator::new();
    assert_eq!(translator.to_rhunes("The Thing"), "ᚦᛖ ᚦᛁᛜ");
    assert_eq!(translator.to_rhunes("Gentoo Linux"), "ᚷᛖᚾᚢᛟᛟ ᛚᛁᚾᚢᚲᛊ");
    assert_eq!(
        translator.to_rhunes("Hello, World! 123"),
        "ᚺᛖᛚᛚᛟ, ᛁᛟᛊᛚᛞ! 123"
    );
    assert_eq!(
        translator.from_rhunes("ᚺᛖᛚᛚᛟ, ᛁᛟᛊᛚᛞ! 123"),
        "hello, world! 123"
    );
}

#[test]
fn the_flag_selects_the_direction() {
    let translator = RhunesTranslator::new();
    assert_eq!(translator.translate("thx", false), "ᚦᚲᛊ");
    assert_eq!(translator.translate("ᚦᚲᛊ", true), "thx");
    assert_eq!(translator.translate("ᚦᚲᛊ", false), "ᚦᚲᛊ");
    assert_eq!(translator.translate("thx", true), "thx");
}

#[test]
fn two_translators_agree() {
    let first = RhunesTranslator::new();
    let second = RhunesTranslator::new();
    let text = "Sju sjösjuka sjömän";
    assert_eq!(first.to_rhunes(text), second.to_rhunes(text));
    assert_eq!(first.to_rhunes(text), first.to_rhunes(text));
}
