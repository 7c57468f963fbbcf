use skim_core::skim::tokenizer::{PunctuationType, Tokenizer, WordType};

fn texts(tokenizer: &Tokenizer) -> Vec<String> {
    tokenizer.words().iter().map(|w| w.text.clone()).collect()
}

#[test]
fn new_tokenizer_is_empty() {
    let tokenizer = Tokenizer::new();
    assert!(tokenizer.is_empty());
    assert_eq!(tokenizer.len(), 0);
    assert!(tokenizer.words().is_empty());
    assert!(tokenizer.get(0).is_none());
}

#[test]
fn default_tokenizer_is_empty() {
    let tokenizer = Tokenizer::default();
    assert!(tokenizer.is_empty());
    assert_eq!(tokenizer.len(), 0);
}

#[test]
fn empty_text_has_no_words() {
    let mut tokenizer = Tokenizer::new();
    tokenizer.tokenize("");
    assert!(tokenizer.is_empty());
    assert_eq!(tokenizer.len(), 0);
}

#[test]
fn whitespace_only_text_has_no_words() {
    let mut tokenizer = Tokenizer::new();
    tokenizer.tokenize("  \t\n \r\n  ");
    assert!(tokenizer.is_empty());
}

#[test]
fn pure_punctuation_is_a_word() {
    let mut tokenizer = Tokenizer::new();
    tokenizer.tokenize("!!! ?");
    assert_eq!(tokenizer.len(), 2);
    let first = tokenizer.get(0).unwrap();
    assert_eq!(first.text, "!!!");
    assert_eq!(first.char_count, 3);
    assert_eq!(first.punctuation_type, PunctuationType::Exclamation);
    assert!(first.has_trailing_punctuation);
    assert_eq!(first.word_type, WordType::Normal);
    let second = tokenizer.get(1).unwrap();
    assert_eq!(second.text, "?");
    assert_eq!(second.punctuation_type, PunctuationType::Question);
}

#[test]
fn hello_world_round_trip() {
    let mut tokenizer = Tokenizer::new();
    tokenizer.tokenize("Hello, world!!!");
    assert_eq!(tokenizer.len(), 2);
    let hello = tokenizer.get(0).unwrap();
    assert_eq!(hello.text, "Hello,");
    assert_eq!(hello.punctuation_type, PunctuationType::Comma);
    assert!(hello.has_trailing_punctuation);
    assert_eq!(hello.word_type, WordType::Normal);
    assert_eq!(hello.char_count, 6);
    let world = tokenizer.get(1).unwrap();
    assert_eq!(world.text, "world!!!");
    assert_eq!(world.punctuation_type, PunctuationType::Exclamation);
    assert!(world.has_trailing_punctuation);
    assert_eq!(world.word_type, WordType::Normal);
    assert_eq!(world.char_count, 8);
    assert!(tokenizer.get(2).is_none());
}

#[test]
fn word_types_in_a_sentence() {
    let mut tokenizer = Tokenizer::new();
    tokenizer.tokenize("COVID19 well-known ABC 42");
    let types: Vec<WordType> = tokenizer.words().iter().map(|w| w.word_type).collect();
    assert_eq!(
        types,
        vec![WordType::Mixed, WordType::Hyphenated, WordType::AllCaps, WordType::Numeral]
    );
    assert_eq!(texts(&tokenizer), vec!["COVID19", "well-known", "ABC", "42"]);
}

#[test]
fn words_keep_order_and_duplicates() {
    let mut tokenizer = Tokenizer::new();
    tokenizer.tokenize("b a b  a\tb");
    assert_eq!(texts(&tokenizer), vec!["b", "a", "b", "a", "b"]);
}

#[test]
fn leading_and_trailing_whitespace_is_dropped() {
    let mut tokenizer = Tokenizer::new();
    tokenizer.tokenize("  one   two  ");
    assert_eq!(texts(&tokenizer), vec!["one", "two"]);
}

#[test]
fn unicode_whitespace_separates_words() {
    let mut tokenizer = Tokenizer::new();
    tokenizer.tokenize("a\tb\nc\u{00A0}d\u{3000}e\u{2003}f");
    assert_eq!(texts(&tokenizer), vec!["a", "b", "c", "d", "e", "f"]);
}

#[test]
fn zero_width_space_is_no_separator() {
    let mut tokenizer = Tokenizer::new();
    tokenizer.tokenize("a\u{200B}b");
    assert_eq!(tokenizer.len(), 1);
    assert_eq!(tokenizer.get(0).unwrap().char_count, 3);
}

#[test]
fn tokenize_replaces_the_words() {
    let mut tokenizer = Tokenizer::new();
    tokenizer.tokenize("one two three");
    assert_eq!(tokenizer.len(), 3);
    tokenizer.tokenize("four");
    assert_eq!(texts(&tokenizer), vec!["four"]);
    tokenizer.tokenize("");
    assert!(tokenizer.is_empty());
}

#[test]
fn char_count_counts_characters_not_bytes() {
    let mut tokenizer = Tokenizer::new();
    tokenizer.tokenize("na\u{00EF}ve\u{2026} \u{65E5}\u{672C}\u{8A9E}");
    let first = tokenizer.get(0).unwrap();
    assert_eq!(first.text, "na\u{00EF}ve\u{2026}");
    assert_eq!(first.char_count, 6);
    assert_eq!(first.punctuation_type, PunctuationType::Ellipsis);
    let second = tokenizer.get(1).unwrap();
    assert_eq!(second.char_count, 3);
    assert_eq!(second.word_type, WordType::Normal);
}

#[test]
fn make_word_classifies_a_token() {
    let word = Tokenizer::make_word(String::from("U.S.A."));
    assert_eq!(word.text, "U.S.A.");
    assert_eq!(word.char_count, 6);
    assert!(word.has_trailing_punctuation);
    assert_eq!(word.punctuation_type, PunctuationType::Period);
    assert_eq!(word.word_type, WordType::AllCaps);
}

#[test]
fn punctuation_three_dots_is_ellipsis() {
    assert_eq!(Tokenizer::analyze_punctuation("wait..."), (true, PunctuationType::Ellipsis));
    assert_eq!(Tokenizer::analyze_punctuation("..."), (true, PunctuationType::Ellipsis));
    assert_eq!(Tokenizer::analyze_punctuation("wait....."), (true, PunctuationType::Ellipsis));
}

#[test]
fn punctuation_ellipsis_character_is_ellipsis() {
    assert_eq!(Tokenizer::analyze_punctuation("wait\u{2026}"), (true, PunctuationType::Ellipsis));
    assert_eq!(Tokenizer::analyze_punctuation("\u{2026}"), (true, PunctuationType::Ellipsis));
}

#[test]
fn punctuation_two_dots_is_period() {
    assert_eq!(Tokenizer::analyze_punctuation("wait.."), (true, PunctuationType::Period));
    assert_eq!(Tokenizer::analyze_punctuation("."), (true, PunctuationType::Period));
    assert_eq!(Tokenizer::analyze_punctuation("a..b."), (true, PunctuationType::Period));
    assert_eq!(Tokenizer::analyze_punctuation("...a."), (true, PunctuationType::Period));
}

#[test]
fn punctuation_last_character_wins() {
    assert_eq!(Tokenizer::analyze_punctuation("what?!"), (true, PunctuationType::Exclamation));
    assert_eq!(Tokenizer::analyze_punctuation("what!?"), (true, PunctuationType::Question));
    assert_eq!(Tokenizer::analyze_punctuation("end.)"), (false, PunctuationType::Absent));
    assert_eq!(Tokenizer::analyze_punctuation("...?"), (true, PunctuationType::Question));
}

#[test]
fn punctuation_comma_class() {
    assert_eq!(Tokenizer::analyze_punctuation("a,"), (true, PunctuationType::Comma));
    assert_eq!(Tokenizer::analyze_punctuation("a;"), (true, PunctuationType::Comma));
    assert_eq!(Tokenizer::analyze_punctuation("a:"), (true, PunctuationType::Comma));
}

#[test]
fn punctuation_absent() {
    assert_eq!(Tokenizer::analyze_punctuation("word"), (false, PunctuationType::Absent));
    assert_eq!(Tokenizer::analyze_punctuation(""), (false, PunctuationType::Absent));
    assert_eq!(Tokenizer::analyze_punctuation("a.b"), (false, PunctuationType::Absent));
    assert_eq!(Tokenizer::analyze_punctuation("it's"), (false, PunctuationType::Absent));
}

#[test]
fn word_type_empty_after_stripping_is_normal() {
    assert_eq!(Tokenizer::analyze_word_type(""), WordType::Normal);
    assert_eq!(Tokenizer::analyze_word_type("!?."), WordType::Normal);
    assert_eq!(Tokenizer::analyze_word_type("(\u{2026})"), WordType::Normal);
}

#[test]
fn word_type_hyphenated_needs_a_letter() {
    assert_eq!(Tokenizer::analyze_word_type("well-known"), WordType::Hyphenated);
    assert_eq!(Tokenizer::analyze_word_type("a-"), WordType::Hyphenated);
    assert_eq!(Tokenizer::analyze_word_type("-a"), WordType::Hyphenated);
    assert_eq!(Tokenizer::analyze_word_type("\u{00E9}-"), WordType::Hyphenated);
    assert_eq!(Tokenizer::analyze_word_type("-"), WordType::Normal);
    assert_eq!(Tokenizer::analyze_word_type("--"), WordType::Normal);
    assert_eq!(Tokenizer::analyze_word_type("3-4"), WordType::Numeral);
}

#[test]
fn word_type_hyphenated_comes_before_mixed() {
    assert_eq!(Tokenizer::analyze_word_type("A1-"), WordType::Hyphenated);
    assert_eq!(Tokenizer::analyze_word_type("COVID-19"), WordType::Hyphenated);
    assert_eq!(Tokenizer::analyze_word_type("X-RAY"), WordType::Hyphenated);
}

#[test]
fn word_type_mixed() {
    assert_eq!(Tokenizer::analyze_word_type("COVID19"), WordType::Mixed);
    assert_eq!(Tokenizer::analyze_word_type("iPhone12"), WordType::Mixed);
    assert_eq!(Tokenizer::analyze_word_type("1st,"), WordType::Mixed);
}

#[test]
fn word_type_numeral() {
    assert_eq!(Tokenizer::analyze_word_type("42"), WordType::Numeral);
    assert_eq!(Tokenizer::analyze_word_type("2024"), WordType::Numeral);
    assert_eq!(Tokenizer::analyze_word_type("$500"), WordType::Numeral);
    assert_eq!(Tokenizer::analyze_word_type("3.14"), WordType::Numeral);
    assert_eq!(Tokenizer::analyze_word_type("7"), WordType::Numeral);
}

#[test]
fn word_type_all_caps_needs_two_letters() {
    assert_eq!(Tokenizer::analyze_word_type("ABC"), WordType::AllCaps);
    assert_eq!(Tokenizer::analyze_word_type("AB"), WordType::AllCaps);
    assert_eq!(Tokenizer::analyze_word_type("A"), WordType::Normal);
    assert_eq!(Tokenizer::analyze_word_type("I,"), WordType::Normal);
    assert_eq!(Tokenizer::analyze_word_type("Ab"), WordType::Normal);
    assert_eq!(Tokenizer::analyze_word_type("aB"), WordType::Normal);
    assert_eq!(Tokenizer::analyze_word_type("U.S.A."), WordType::AllCaps);
    assert_eq!(Tokenizer::analyze_word_type("\u{00C9}COLE"), WordType::AllCaps);
}

#[test]
fn word_type_normal() {
    assert_eq!(Tokenizer::analyze_word_type("hello"), WordType::Normal);
    assert_eq!(Tokenizer::analyze_word_type("Hello,"), WordType::Normal);
    assert_eq!(Tokenizer::analyze_word_type("(world)"), WordType::Normal);
}

#[test]
fn word_type_digit_of_another_script_is_no_digit() {
    // U+0663 is a number, so it stays after stripping, but it is no ASCII
    // digit and no letter.
    assert_eq!(Tokenizer::analyze_word_type("\u{0663}"), WordType::Normal);
    assert_eq!(Tokenizer::analyze_word_type("a\u{0663}"), WordType::Normal);
    assert_eq!(Tokenizer::analyze_word_type("AB\u{0663}"), WordType::AllCaps);
}

#[test]
fn complexity_multipliers() {
    assert_eq!(WordType::Normal.complexity_multiplier().hundredths, 100);
    assert_eq!(WordType::Numeral.complexity_multiplier().hundredths, 140);
    assert_eq!(WordType::AllCaps.complexity_multiplier().hundredths, 125);
    assert_eq!(WordType::Hyphenated.complexity_multiplier().hundredths, 130);
    assert_eq!(WordType::Mixed.complexity_multiplier().hundredths, 135);
}

#[test]
fn pause_multipliers() {
    assert_eq!(PunctuationType::Absent.pause_multiplier().hundredths, 100);
    assert_eq!(PunctuationType::Comma.pause_multiplier().hundredths, 150);
    assert_eq!(PunctuationType::Period.pause_multiplier().hundredths, 200);
    assert_eq!(PunctuationType::Question.pause_multiplier().hundredths, 220);
    assert_eq!(PunctuationType::Exclamation.pause_multiplier().hundredths, 220);
    assert_eq!(PunctuationType::Ellipsis.pause_multiplier().hundredths, 250);
}

#[test]
fn word_count_is_the_number_of_token_starts() {
    let text = " The  quick\tbrown fox \n jumps ";
    let chars: Vec<char> = text.chars().collect();
    let mut starts = 0;
    for i in 0..chars.len() {
        if !chars[i].is_whitespace() && (i == 0 || chars[i - 1].is_whitespace()) {
            starts += 1;
        }
    }
    let mut tokenizer = Tokenizer::new();
    tokenizer.tokenize(text);
    assert_eq!(tokenizer.len(), starts);
    assert_eq!(tokenizer.len(), 5);
}

#[test]
fn tokens_hold_no_whitespace() {
    let mut tokenizer = Tokenizer::new();
    tokenizer.tokenize("one, two\u{00A0}three\r\nfour");
    assert_eq!(tokenizer.len(), 4);
    for word in tokenizer.words() {
        assert!(!word.text.is_empty());
        assert!(!word.text.chars().any(|c| c.is_whitespace()));
        assert_eq!(word.char_count, word.text.chars().count());
    }
}
