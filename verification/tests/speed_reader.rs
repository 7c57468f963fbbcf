use skim_core::playback::{Factor, PlaybackConfig};
use skim_core::speed_reader::tokenizer::Tokenizer;
use skim_core::speed_reader::SpeedReader;

fn plain_texts(tokenizer: &Tokenizer) -> Vec<String> {
    tokenizer.words().iter().map(|w| w.text.clone()).collect()
}

fn reader(text: &str) -> SpeedReader {
    let mut reader = SpeedReader::new();
    reader.load_text(String::from(text));
    reader
}

#[test]
fn plain_tokenizer_starts_empty() {
    let tokenizer = Tokenizer::new();
    assert!(tokenizer.is_empty());
    assert_eq!(tokenizer.len(), 0);
    assert!(tokenizer.get(0).is_none());
    assert!(Tokenizer::default().is_empty());
}

#[test]
fn plain_tokenizer_splits_at_word_boundaries() {
    let mut tokenizer = Tokenizer::new();
    tokenizer.tokenize("The quick (\"brown\") fox can't jump 32.3 feet, right?");
    assert_eq!(
        plain_texts(&tokenizer),
        vec!["The", "quick", "brown", "fox", "can't", "jump", "32.3", "feet", "right"]
    );
    assert_eq!(tokenizer.len(), 9);
    assert!(!tokenizer.is_empty());
}

#[test]
fn plain_tokenizer_drops_punctuation_and_whitespace() {
    let mut tokenizer = Tokenizer::new();
    tokenizer.tokenize("  ... !? \n");
    assert!(tokenizer.is_empty());
    tokenizer.tokenize("");
    assert!(tokenizer.is_empty());
}

#[test]
fn plain_tokenizer_counts_characters() {
    let mut tokenizer = Tokenizer::new();
    tokenizer.tokenize("na\u{00EF}ve caf\u{00E9}s, hello!");
    assert_eq!(plain_texts(&tokenizer), vec!["na\u{00EF}ve", "caf\u{00E9}s", "hello"]);
    let first = tokenizer.get(0).unwrap();
    assert_eq!(first.char_count, 5);
    assert!(!first.has_trailing_punctuation);
    let third = tokenizer.get(2).unwrap();
    assert_eq!(third.char_count, 5);
    assert!(!third.has_trailing_punctuation);
}

#[test]
fn plain_tokenizer_replaces_the_words() {
    let mut tokenizer = Tokenizer::new();
    tokenizer.tokenize("one two three");
    assert_eq!(tokenizer.len(), 3);
    tokenizer.tokenize("four");
    assert_eq!(plain_texts(&tokenizer), vec!["four"]);
}

#[test]
fn plain_word_flags_trailing_punctuation() {
    for text in ["end.", "end!", "end?", "end,", "end;", "end:"] {
        let word = Tokenizer::make_word(String::from(text));
        assert_eq!(word.text, text);
        assert_eq!(word.char_count, 4);
        assert!(word.has_trailing_punctuation);
    }
    for text in ["end", "end)", "a.b", "end\u{2026}", ""] {
        let word = Tokenizer::make_word(String::from(text));
        assert_eq!(word.char_count, text.chars().count());
        assert!(!word.has_trailing_punctuation);
    }
}

#[test]
fn plain_words_from_segments_keep_order() {
    let segments = vec![String::from("b."), String::from("a"), String::from("b.")];
    let words = Tokenizer::words_from_segments(segments);
    assert_eq!(words.len(), 3);
    assert_eq!(words[0].text, "b.");
    assert!(words[0].has_trailing_punctuation);
    assert_eq!(words[0].char_count, 2);
    assert_eq!(words[1].text, "a");
    assert!(!words[1].has_trailing_punctuation);
    assert_eq!(words[2].text, "b.");
    assert!(Tokenizer::words_from_segments(Vec::new()).is_empty());
}

#[test]
fn reader_starts_empty() {
    let reader = SpeedReader::new();
    assert_eq!(reader.get_word_count(), 0);
    assert!(reader.get_current_word().is_none());
    assert!(reader.is_at_start());
    assert!(reader.is_at_end());
    let progress = reader.get_progress_percent();
    assert_eq!((progress.numerator, progress.denominator), (0, 1));
}

#[test]
fn reader_times_words_by_length() {
    let mut reader = reader("Hello reader, extraordinary!");
    assert_eq!(reader.get_word_count(), 3);
    let token = reader.get_current_word().unwrap();
    assert_eq!(token.text, "Hello");
    assert_eq!(token.index, 0);
    assert_eq!(token.total, 3);
    assert_eq!(token.display_time_ms, 200);
    let token = reader.advance().unwrap();
    assert_eq!(token.text, "reader");
    assert_eq!(token.display_time_ms, 230);
    let token = reader.advance().unwrap();
    assert_eq!(token.text, "extraordinary");
    assert_eq!(token.display_time_ms, 260);
    assert!(reader.advance().is_none());
    assert!(reader.is_at_end());
}

#[test]
fn reader_navigation() {
    let mut reader = reader("one two three");
    assert!(reader.go_back().is_none());
    assert_eq!(reader.seek_to(2).unwrap().text, "three");
    assert!(reader.seek_to(3).is_none());
    assert_eq!(reader.get_current_word().unwrap().index, 2);
    assert_eq!(reader.go_back().unwrap().text, "two");
    let progress = reader.get_progress_percent();
    assert_eq!((progress.numerator, progress.denominator), (1, 2));
    reader.reset();
    assert!(reader.is_at_start());
    assert!(!reader.is_at_end());
    assert_eq!(reader.create_word_token(1).unwrap().text, "two");
    assert!(reader.create_word_token(3).is_none());
}

#[test]
fn reader_set_config_changes_the_speed() {
    let mut reader = reader("word");
    reader.set_config(PlaybackConfig {
        wpm: 600,
        pause_on_punctuation: true,
        punctuation_multiplier: Factor { hundredths: 300 },
    });
    assert_eq!(reader.get_current_word().unwrap().display_time_ms, 100);
    reader.set_config(PlaybackConfig {
        wpm: 0,
        pause_on_punctuation: false,
        punctuation_multiplier: Factor { hundredths: 0 },
    });
    assert_eq!(reader.get_current_word().unwrap().display_time_ms, u32::MAX);
}

#[test]
fn reader_load_text_resets_the_cursor() {
    let mut reader = reader("one two three");
    reader.seek_to(2);
    reader.load_text(String::from("four, five"));
    assert_eq!(reader.get_word_count(), 2);
    assert_eq!(reader.get_current_word().unwrap().text, "four");
    reader.seek_to(1);
    reader.load_text(String::new());
    assert_eq!(reader.get_word_count(), 0);
    assert!(reader.get_current_word().is_none());
}
