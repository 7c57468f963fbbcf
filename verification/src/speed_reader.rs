//! The plain reader: words as Unicode segmentation finds them, with a single
//! flag for trailing punctuation, and a playback engine that times each word
//! by its length and that flag.

pub mod tokenizer;

use crate::playback::{
    after_advance, after_go_back, after_seek, at_end, can_advance, cursor_in_range, display_time,
    duration_ms, progress, progress_ratio, token_is, Factor, PlaybackConfig, Ratio, WordToken,
    WordTokenView,
};
use crate::speed_reader::tokenizer::{
    tokenization, unicode_word_segments, word_views, Tokenizer, WordView,
};
use vstd::prelude::*;

verus! {

/// The display duration of a word under a configuration, in milliseconds.
/// Trailing punctuation lengthens it by the configured multiplier, when the
/// configuration asks for pauses.
pub open spec fn display_time_ms(word: WordView, config: PlaybackConfig) -> int {
    if config.pause_on_punctuation && word.has_trailing_punctuation {
        duration_ms(
            config.wpm as int,
            word.char_count,
            100,
            config.punctuation_multiplier.hundredths as int,
            100,
        )
    } else {
        duration_ms(config.wpm as int, word.char_count, 100, 100, 100)
    }
}

/// The token for position `index` of `words`, if that is a position.
pub open spec fn token_at(words: Seq<WordView>, config: PlaybackConfig, index: nat) -> Option<
    WordTokenView,
> {
    if index < words.len() {
        Some(
            WordTokenView {
                text: words[index as int].text,
                index: index,
                total: words.len(),
                display_time_ms: display_time_ms(words[index as int], config),
            },
        )
    } else {
        None
    }
}

/// The state of a [`SpeedReader`]: its words, its configuration and its cursor.
pub struct SpeedReaderView {
    pub words: Seq<WordView>,
    pub config: PlaybackConfig,
    pub index: nat,
}

/// A reading session: the words of one text, and a cursor on them. The cursor always stands on a word, or at zero when there is none.
pub struct SpeedReader {
    tokenizer: Tokenizer,
    config: PlaybackConfig,
    current_index: usize,
}

impl View for SpeedReader {
    type V = SpeedReaderView;

    closed spec fn view(&self) -> SpeedReaderView {
        SpeedReaderView {
            words: word_views(self.tokenizer@),
            config: self.config,
            index: self.current_index as nat,
        }
    }
}

impl SpeedReader {
    #[verifier::type_invariant]
    spec fn cursor_on_a_word(self) -> bool {
        cursor_in_range(self.tokenizer@.len(), self.current_index as nat)
    }

    /// A session without words, at 300 words per minute, pausing on
    /// punctuation with a multiplier of 1.5.
    pub fn new() -> (s: Self)
        ensures
            s@.words.len() == 0,
            s@.index == 0,
            s@.config == (PlaybackConfig {
                wpm: 300,
                pause_on_punctuation: true,
                punctuation_multiplier: Factor { hundredths: 150 },
            }),
    {
        Self {
            tokenizer: Tokenizer::new(),
            config: PlaybackConfig {
                wpm: 300,
                pause_on_punctuation: true,
                punctuation_multiplier: Factor { hundredths: 150 },
            },
            current_index: 0,
        }
    }

    /// Replaces the words by those of `text` and puts the cursor on the first.
    pub fn load_text(&mut self, text: String)
        ensures
            final(self)@.words == tokenization(text@),
            final(self)@.words.len() == unicode_word_segments(text@).len(),
            final(self)@.index == 0,
            final(self)@.config == old(self)@.config,
    {
        let mut tokenizer = Tokenizer::new();
        tokenizer.tokenize(text.as_str());
        self.current_index = 0;
        self.tokenizer = tokenizer;
    }

    /// The number of words of the text.
    pub fn get_word_count(&self) -> (count: usize)
        ensures
            count == self@.words.len(),
    {
        self.tokenizer.len()
    }

    /// Replaces the configuration; the next token is timed by the new one.
    pub fn set_config(&mut self, config: PlaybackConfig)
        ensures
            final(self)@ == (SpeedReaderView { config: config, ..old(self)@ }),
    {
        proof {
            use_type_invariant(&*self);
        }
        self.config = config;
    }

    /// The token of the word under the cursor; `None` when there are no words.
    pub fn get_current_word(&self) -> (token: Option<WordToken>)
        ensures
            token_is(token, token_at(self@.words, self@.config, self@.index)),
            token is Some <==> self@.words.len() > 0,
            cursor_in_range(self@.words.len(), self@.index),
    {
        proof {
            use_type_invariant(self);
        }
        self.create_word_token(self.current_index)
    }

    /// Moves the cursor one word forward and returns that word's token. On
    /// the last word, and without words, nothing changes and `None` returns.
    pub fn advance(&mut self) -> (token: Option<WordToken>)
        ensures
            final(self)@ == (SpeedReaderView {
                index: after_advance(old(self)@.words.len(), old(self)@.index),
                ..old(self)@
            }),
            token is Some <==> can_advance(old(self)@.words.len(), old(self)@.index),
            token is Some ==> token_is(
                token,
                token_at(final(self)@.words, final(self)@.config, final(self)@.index),
            ),
            cursor_in_range(final(self)@.words.len(), final(self)@.index),
    {
        proof {
            use_type_invariant(&*self);
        }
        let len = self.tokenizer.len();
        if self.current_index + 1 < len {
            self.current_index = self.current_index + 1;
            self.create_word_token(self.current_index)
        } else {
            None
        }
    }

    /// Moves the cursor one word back and returns that word's token. On the
    /// first word nothing changes and `None` returns.
    pub fn go_back(&mut self) -> (token: Option<WordToken>)
        ensures
            final(self)@ == (SpeedReaderView { index: after_go_back(old(self)@.index), ..old(self)@ }),
            token is Some <==> old(self)@.index > 0,
            token is Some ==> token_is(
                token,
                token_at(final(self)@.words, final(self)@.config, final(self)@.index),
            ),
            cursor_in_range(final(self)@.words.len(), final(self)@.index),
    {
        proof {
            use_type_invariant(&*self);
        }
        if self.current_index > 0 {
            self.current_index = self.current_index - 1;
            self.create_word_token(self.current_index)
        } else {
            None
        }
    }

    /// Puts the cursor on the word at `index` and returns its token. When
    /// `index` is no position of the text nothing changes and `None` returns.
    pub fn seek_to(&mut self, index: usize) -> (token: Option<WordToken>)
        ensures
            final(self)@ == (SpeedReaderView {
                index: after_seek(old(self)@.words.len(), old(self)@.index, index as nat),
                ..old(self)@
            }),
            token is Some <==> index < old(self)@.words.len(),
            token is Some ==> token_is(
                token,
                token_at(final(self)@.words, final(self)@.config, index as nat),
            ),
            cursor_in_range(final(self)@.words.len(), final(self)@.index),
    {
        proof {
            use_type_invariant(&*self);
        }
        if index < self.tokenizer.len() {
            self.current_index = index;
            self.create_word_token(self.current_index)
        } else {
            None
        }
    }

    /// Puts the cursor back on the first word.
    pub fn reset(&mut self)
        ensures
            final(self)@ == (SpeedReaderView { index: 0, ..old(self)@ }),
    {
        self.current_index = 0;
    }

    /// Whether the cursor stands on the first word.
    pub fn is_at_start(&self) -> (b: bool)
        ensures
            b == (self@.index == 0),
    {
        self.current_index == 0
    }

    /// Whether the cursor stands on the last word, or there are no words.
    pub fn is_at_end(&self) -> (b: bool)
        ensures
            b == at_end(self@.words.len(), self@.index),
            b == !can_advance(self@.words.len(), self@.index),
    {
        self.tokenizer.is_empty() || self.current_index >= self.tokenizer.len() - 1
    }

    /// How far the cursor has come, as a fraction between zero and one.
    pub fn get_progress_percent(&self) -> (r: Ratio)
        ensures
            (r.numerator as nat, r.denominator as nat) == progress(
                self@.words.len(),
                self@.index,
            ),
    {
        progress_ratio(self.tokenizer.len(), self.current_index)
    }

    /// The token of the word at `index`, timed by the configuration; `None`
    /// when `index` is no position of the text.
    pub fn create_word_token(&self, index: usize) -> (token: Option<WordToken>)
        ensures
            token_is(token, token_at(self@.words, self@.config, index as nat)),
    {
        match self.tokenizer.get(index) {
            Some(word) => {
                let multiplier = if self.config.pause_on_punctuation
                    && word.has_trailing_punctuation {
                    self.config.punctuation_multiplier
                } else {
                    Factor::one()
                };
                let display_time_ms = display_time(
                    self.config.wpm,
                    word.char_count,
                    Factor::one(),
                    multiplier,
                    Factor::one(),
                );
                Some(
                    WordToken {
                        text: word.text.clone(),
                        index,
                        total: self.tokenizer.len(),
                        display_time_ms,
                    },
                )
            },
            None => None,
        }
    }
}

} // verus!
