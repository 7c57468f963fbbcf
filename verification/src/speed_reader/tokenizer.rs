//! Splits text at Unicode word boundaries and flags trailing punctuation.

use unicode_segmentation::UnicodeSegmentation;
use vstd::prelude::*;

verus! {

/// One word of the text.
#[derive(Debug, Clone)]
pub struct Word {
    /// The word as it stands in the text.
    pub text: String,
    /// Whether the word ends in one of `.` `!` `?` `,` `;` `:`.
    pub has_trailing_punctuation: bool,
    /// The number of characters of `text`.
    pub char_count: usize,
}

/// The mathematical value of a [`Word`].
pub struct WordView {
    pub text: Seq<char>,
    pub has_trailing_punctuation: bool,
    pub char_count: nat,
}

impl View for Word {
    type V = WordView;

    open spec fn view(&self) -> WordView {
        WordView {
            text: self.text@,
            has_trailing_punctuation: self.has_trailing_punctuation,
            char_count: self.char_count as nat,
        }
    }
}

/// What `UnicodeSegmentation::unicode_words` yields for `text`, each word as
/// its characters: the substrings between word boundaries of Unicode Standard
/// Annex 29 that hold an alphanumeric character, in the order of the text.
pub uninterp spec fn unicode_word_segments(text: Seq<char>) -> Seq<Seq<char>>;

/// The characters of each string of a sequence.
pub open spec fn string_views(strings: Seq<String>) -> Seq<Seq<char>> {
    strings.map_values(|s: String| s@)
}

/// Calls `UnicodeSegmentation::unicode_words` of the crate
/// `unicode-segmentation` and collects the words it yields as owned strings.
/// Believed, not proved: the words are a function of the text alone, named
/// [`unicode_word_segments`].
#[verifier::external_body]
pub(crate) fn unicode_words(text: &str) -> (segments: Vec<String>)
    ensures
        string_views(segments@) == unicode_word_segments(text@),
{
    text.unicode_words().map(|w| w.to_string()).collect()
}

/// Whether `c` is one of the punctuation marks that can end a word.
pub open spec fn is_punctuation(c: char) -> bool {
    c == '.' || c == '!' || c == '?' || c == ',' || c == ';' || c == ':'
}

/// Whether the last character of `t` is a punctuation mark.
pub open spec fn ends_in_punctuation(t: Seq<char>) -> bool {
    t.len() > 0 && is_punctuation(t.last())
}

/// The word that a segment gives.
pub open spec fn classify(t: Seq<char>) -> WordView {
    WordView { text: t, has_trailing_punctuation: ends_in_punctuation(t), char_count: t.len() }
}

/// The words that a sequence of segments gives, in its order.
pub open spec fn classify_all(segments: Seq<Seq<char>>) -> Seq<WordView> {
    segments.map_values(|t: Seq<char>| classify(t))
}

/// The words of a text, in the order of the text.
pub open spec fn tokenization(text: Seq<char>) -> Seq<WordView> {
    classify_all(unicode_word_segments(text))
}

/// The values of a sequence of words.
pub open spec fn word_views(words: Seq<Word>) -> Seq<WordView> {
    words.map_values(|w: Word| w@)
}

/// The words of a text, kept from one call of [`Tokenizer::tokenize`] to the
/// next.
pub struct Tokenizer {
    words: Vec<Word>,
}

impl View for Tokenizer {
    type V = Seq<Word>;

    closed spec fn view(&self) -> Seq<Word> {
        self.words@
    }
}

impl Tokenizer {
    /// A tokenizer that holds no words.
    pub fn new() -> (t: Self)
        ensures
            t@.len() == 0,
    {
        Self { words: Vec::new() }
    }

    /// Replaces the words held by the words of `text`.
    pub fn tokenize(&mut self, text: &str)
        ensures
            word_views(final(self)@) == tokenization(text@),
    {
        let segments = unicode_words(text);
        self.words = Self::words_from_segments(segments);
    }

    /// The words that the segments of a text give, one for each segment and
    /// in the same order.
    pub fn words_from_segments(segments: Vec<String>) -> (words: Vec<Word>)
        ensures
            word_views(words@) == classify_all(string_views(segments@)),
    {
        let mut words: Vec<Word> = Vec::new();
        let ghost all = segments@;
        for segment in it: segments
            invariant
                it.seq() == all,
                word_views(words@) == classify_all(string_views(all.take(it.index() as int))),
        {
            let ghost i = it.index() as int;
            let ghost before = words@;
            let word = Self::make_word(segment);
            words.push(word);
            proof {
                assert(all.take(i + 1) =~= all.take(i).push(segment));
                all.take(i).lemma_push_map_commute(|s: String| s@, segment);
                string_views(all.take(i)).lemma_push_map_commute(
                    |t: Seq<char>| classify(t),
                    segment@,
                );
                before.lemma_push_map_commute(|w: Word| w@, word);
            }
        }
        proof {
            assert(all.take(all.len() as int) =~= all);
        }
        words
    }

    /// The word that the segment `text` gives.
    pub fn make_word(text: String) -> (w: Word)
        ensures
            w@ == classify(text@),
    {
        let mut last: Option<char> = None;
        let mut char_count: usize = 0;
        let total = text.as_str().unicode_len();
        for c in it: text.as_str().chars()
            invariant
                it.seq() == text@,
                total == text@.len(),
                char_count == it.index(),
                it.index() <= total,
                last == (if it.index() == 0 {
                    None
                } else {
                    Some(text@[it.index() - 1])
                }),
        {
            last = Some(c);
            char_count = char_count + 1;
        }
        let has_trailing_punctuation = match last {
            Some(c) => c == '.' || c == '!' || c == '?' || c == ',' || c == ';' || c == ':',
            None => false,
        };
        Word { text, has_trailing_punctuation, char_count }
    }

    /// The words of the last text, in its order.
    pub fn words(&self) -> (r: &[Word])
        ensures
            r@ == self@,
    {
        self.words.as_slice()
    }

    /// The number of words held.
    pub fn len(&self) -> (n: usize)
        ensures
            n == self@.len(),
    {
        self.words.len()
    }

    /// Whether no word is held.
    pub fn is_empty(&self) -> (b: bool)
        ensures
            b == (self@.len() == 0),
    {
        self.words.len() == 0
    }

    /// The word at `index`, if there is one.
    pub fn get(&self, index: usize) -> (r: Option<&Word>)
        ensures
            match r {
                Some(w) => index < self@.len() && *w == self@[index as int],
                None => index >= self@.len(),
            },
    {
        if index < self.words.len() {
            Some(&self.words[index])
        } else {
            None
        }
    }
}

impl Default for Tokenizer {
    fn default() -> (t: Self)
        ensures
            t@.len() == 0,
    {
        Self::new()
    }
}

} // verus!
