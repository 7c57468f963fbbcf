//! Splits text at whitespace and classifies each token.

use crate::chars::{
    char_is_alphabetic, char_is_alphanumeric, char_is_uppercase, char_is_whitespace,
    is_alphabetic, is_alphanumeric, is_ascii_digit, is_uppercase, is_whitespace,
};
use crate::playback::Factor;
use vstd::prelude::*;

verus! {

/// The structural class of a word. The classes exclude one another.
#[derive(Debug, Clone, Copy, PartialEq, Eq, Structural)]
pub enum WordType {
    Normal,
    /// Digits and no letter.
    Numeral,
    /// At least two letters, all of them uppercase.
    AllCaps,
    /// A hyphen and a letter.
    Hyphenated,
    /// Letters and digits.
    Mixed,
}

/// The class of a word's trailing punctuation.
#[derive(Debug, Clone, Copy, PartialEq, Eq, Structural)]
pub enum PunctuationType {
    /// No punctuation at the end.
    Absent,
    /// `,` `;` `:`
    Comma,
    /// `.`
    Period,
    /// `?`
    Question,
    /// `!`
    Exclamation,
    /// `...` or the single character U+2026
    Ellipsis,
}

impl WordType {
    /// The complexity factor of the class, in hundredths.
    pub open spec fn complexity_hundredths(self) -> int {
        match self {
            WordType::Normal => 100,
            WordType::Numeral => 140,
            WordType::AllCaps => 125,
            WordType::Hyphenated => 130,
            WordType::Mixed => 135,
        }
    }

    /// How much longer a word of this class stays on screen.
    pub fn complexity_multiplier(&self) -> (f: Factor)
        ensures
            f.hundredths == self.complexity_hundredths(),
    {
        match self {
            WordType::Normal => Factor { hundredths: 100 },
            WordType::Numeral => Factor { hundredths: 140 },
            WordType::AllCaps => Factor { hundredths: 125 },
            WordType::Hyphenated => Factor { hundredths: 130 },
            WordType::Mixed => Factor { hundredths: 135 },
        }
    }
}

impl PunctuationType {
    /// The pause factor of the class, in hundredths.
    pub open spec fn pause_hundredths(self) -> int {
        match self {
            PunctuationType::Absent => 100,
            PunctuationType::Comma => 150,
            PunctuationType::Period => 200,
            PunctuationType::Question => 220,
            PunctuationType::Exclamation => 220,
            PunctuationType::Ellipsis => 250,
        }
    }

    /// How much longer a word stays on screen when it ends in this class.
    pub fn pause_multiplier(&self) -> (f: Factor)
        ensures
            f.hundredths == self.pause_hundredths(),
    {
        match self {
            PunctuationType::Absent => Factor { hundredths: 100 },
            PunctuationType::Comma => Factor { hundredths: 150 },
            PunctuationType::Period => Factor { hundredths: 200 },
            PunctuationType::Question => Factor { hundredths: 220 },
            PunctuationType::Exclamation => Factor { hundredths: 220 },
            PunctuationType::Ellipsis => Factor { hundredths: 250 },
        }
    }
}

/// One token of the text with its classes.
#[derive(Debug, Clone)]
pub struct Word {
    /// The token as it stands in the text, punctuation included.
    pub text: String,
    pub has_trailing_punctuation: bool,
    pub punctuation_type: PunctuationType,
    /// The number of characters of `text`.
    pub char_count: usize,
    pub word_type: WordType,
}

/// The mathematical value of a [`Word`].
pub struct WordView {
    pub text: Seq<char>,
    pub has_trailing_punctuation: bool,
    pub punctuation_type: PunctuationType,
    pub char_count: nat,
    pub word_type: WordType,
}

impl View for Word {
    type V = WordView;

    open spec fn view(&self) -> WordView {
        WordView {
            text: self.text@,
            has_trailing_punctuation: self.has_trailing_punctuation,
            punctuation_type: self.punctuation_type,
            char_count: self.char_count as nat,
            word_type: self.word_type,
        }
    }
}

/// The end of the run of non-whitespace characters that holds position `from`:
/// the first position at or after `from` that is whitespace or past the end.
pub open spec fn run_end(s: Seq<char>, from: int) -> int
    decreases s.len() - from,
{
    if from < 0 || from >= s.len() || char_is_whitespace(s[from]) {
        from
    } else {
        run_end(s, from + 1)
    }
}

/// The maximal runs of non-whitespace characters of `s` that start at or
/// after `from`, in the order of the text.
pub open spec fn tokens_from(s: Seq<char>, from: int) -> Seq<Seq<char>>
    decreases s.len() - from,
    via tokens_from_decreases
{
    if from < 0 || from >= s.len() {
        Seq::empty()
    } else if char_is_whitespace(s[from]) {
        tokens_from(s, from + 1)
    } else {
        seq![s.subrange(from, run_end(s, from))] + tokens_from(s, run_end(s, from))
    }
}

#[via_fn]
proof fn tokens_from_decreases(s: Seq<char>, from: int) {
    if 0 <= from < s.len() && !char_is_whitespace(s[from]) {
        lemma_run_end_bounds(s, from);
    }
}

/// The whitespace-delimited tokens of `s`.
pub open spec fn tokens(s: Seq<char>) -> Seq<Seq<char>> {
    tokens_from(s, 0)
}

/// A run ends after its start, unless it starts on whitespace or past the
/// end, and never past the end of the text.
pub proof fn lemma_run_end_bounds(s: Seq<char>, from: int)
    requires
        0 <= from <= s.len(),
    ensures
        from <= run_end(s, from) <= s.len(),
        from < s.len() && !char_is_whitespace(s[from]) ==> from < run_end(s, from),
        run_end(s, from) < s.len() ==> char_is_whitespace(s[run_end(s, from)]),
        forall|i: int| from <= i < run_end(s, from) ==> !char_is_whitespace(#[trigger] s[i]),
    decreases s.len() - from,
{
    if from < s.len() && !char_is_whitespace(s[from]) {
        lemma_run_end_bounds(s, from + 1);
    }
}

/// Whether `t` ends in three dots or in the single ellipsis character.
pub open spec fn ends_with_ellipsis(t: Seq<char>) -> bool {
    let n = t.len() as int;
    ||| n >= 3 && t[n - 1] == '.' && t[n - 2] == '.' && t[n - 3] == '.'
    ||| n >= 1 && t[n - 1] == '\u{2026}'
}

/// The punctuation class of a token: an ellipsis at its end comes first,
/// then its last character alone decides.
pub open spec fn punctuation_of(t: Seq<char>) -> PunctuationType {
    if ends_with_ellipsis(t) {
        PunctuationType::Ellipsis
    } else if t.len() == 0 {
        PunctuationType::Absent
    } else if t.last() == '.' {
        PunctuationType::Period
    } else if t.last() == '?' {
        PunctuationType::Question
    } else if t.last() == '!' {
        PunctuationType::Exclamation
    } else if t.last() == ',' || t.last() == ';' || t.last() == ':' {
        PunctuationType::Comma
    } else {
        PunctuationType::Absent
    }
}

/// Whether a character counts for the word type: alphanumeric, or a hyphen.
pub open spec fn is_kept(c: char) -> bool {
    char_is_alphanumeric(c) || c == '-'
}

/// The token without the characters that do not count for its word type.
pub open spec fn cleaned(t: Seq<char>) -> Seq<char> {
    t.filter(|c: char| is_kept(c))
}

/// Whether some character of `s` is a letter.
pub open spec fn has_letter(s: Seq<char>) -> bool {
    s.any(|c: char| char_is_alphabetic(c))
}

/// Whether some character of `s` is an ASCII digit.
pub open spec fn has_digit(s: Seq<char>) -> bool {
    s.any(|c: char| is_ascii_digit(c))
}

/// Whether some character of `s` is a hyphen.
pub open spec fn has_hyphen(s: Seq<char>) -> bool {
    s.any(|c: char| c == '-')
}

/// The letters of `s`, in order.
pub open spec fn letters(s: Seq<char>) -> Seq<char> {
    s.filter(|c: char| char_is_alphabetic(c))
}

/// Whether every character of `s` is uppercase.
pub open spec fn all_uppercase(s: Seq<char>) -> bool {
    s.all(|c: char| char_is_uppercase(c))
}

/// The word type of a cleaned token; the first rule that applies decides.
pub open spec fn word_type_of_cleaned(clean: Seq<char>) -> WordType {
    if clean.len() == 0 {
        WordType::Normal
    } else if has_hyphen(clean) && clean.len() > 1 && has_letter(clean) {
        WordType::Hyphenated
    } else if has_letter(clean) && has_digit(clean) {
        WordType::Mixed
    } else if has_digit(clean) {
        WordType::Numeral
    } else if letters(clean).len() >= 2 && all_uppercase(letters(clean)) {
        WordType::AllCaps
    } else {
        WordType::Normal
    }
}

/// The word type of a token as it stands in the text.
pub open spec fn word_type_of(t: Seq<char>) -> WordType {
    word_type_of_cleaned(cleaned(t))
}

/// The classified word that a token gives.
pub open spec fn classify(t: Seq<char>) -> WordView {
    WordView {
        text: t,
        has_trailing_punctuation: punctuation_of(t) != PunctuationType::Absent,
        punctuation_type: punctuation_of(t),
        char_count: t.len(),
        word_type: word_type_of(t),
    }
}

/// The classified words of a text, in the order of the text.
pub open spec fn tokenization(s: Seq<char>) -> Seq<WordView> {
    tokens(s).map_values(|t: Seq<char>| classify(t))
}

/// The values of a sequence of words.
pub open spec fn word_views(words: Seq<Word>) -> Seq<WordView> {
    words.map_values(|w: Word| w@)
}

/// The word-type characters of `text`, in order.
fn strip(text: &str) -> (clean: Vec<char>)
    ensures
        clean@ == cleaned(text@),
{
    let mut clean: Vec<char> = Vec::new();
    for c in it: text.chars()
        invariant
            it.seq() == text@,
            clean@ == cleaned(text@.take(it.index() as int)),
    {
        let ghost before = text@.take(it.index() as int);
        let ghost after = text@.take(it.index() + 1);
        if is_alphanumeric(c) || c == '-' {
            clean.push(c);
        }
        proof {
            assert(after =~= before.push(c));
            before.lemma_filter_push(c, |c: char| is_kept(c));
        }
    }
    proof {
        assert(text@.take(text@.len() as int) =~= text@);
    }
    clean
}

/// Extending a sequence by one character keeps "all uppercase" exactly when
/// the new character is uppercase too.
proof fn lemma_all_uppercase_push(s: Seq<char>, c: char)
    ensures
        all_uppercase(s.push(c)) == (all_uppercase(s) && char_is_uppercase(c)),
{
    let p = |c: char| char_is_uppercase(c);
    if all_uppercase(s) && char_is_uppercase(c) {
        assert forall|i: int| 0 <= i < s.push(c).len() implies #[trigger] p(s.push(c)[i]) by {
            if i < s.len() {
                assert(p(s[i]));
            }
        }
    }
    if all_uppercase(s.push(c)) {
        assert(p(s.push(c)[s.len() as int]));
        assert forall|i: int| 0 <= i < s.len() implies #[trigger] p(s[i]) by {
            assert(p(s.push(c)[i]));
        }
    }
}

/// The word type of a token that holds only word-type characters.
fn classify_cleaned(clean: &Vec<char>) -> (t: WordType)
    ensures
        t == word_type_of_cleaned(clean@),
{
    let n = clean.len();
    if n == 0 {
        return WordType::Normal;
    }
    let mut any_letter = false;
    let mut any_digit = false;
    let mut any_hyphen = false;
    let mut letter_count: usize = 0;
    let mut all_upper = true;
    let mut i: usize = 0;
    proof {
        assert(letters(clean@.take(0)).len() == 0) by {
            clean@.take(0).lemma_filter_len(|c: char| char_is_alphabetic(c));
        }
    }
    while i < n
        invariant
            n == clean.len(),
            i <= n,
            any_letter == has_letter(clean@.take(i as int)),
            any_digit == has_digit(clean@.take(i as int)),
            any_hyphen == has_hyphen(clean@.take(i as int)),
            letter_count == letters(clean@.take(i as int)).len(),
            letter_count <= i,
            all_upper == all_uppercase(letters(clean@.take(i as int))),
        decreases n - i,
    {
        let c = clean[i];
        proof {
            let before = clean@.take(i as int);
            clean@.lemma_take_any_succ(|c: char| char_is_alphabetic(c), i as int);
            clean@.lemma_take_any_succ(|c: char| is_ascii_digit(c), i as int);
            clean@.lemma_take_any_succ(|c: char| c == '-', i as int);
            assert(clean@.take(i + 1) =~= before.push(c));
            before.lemma_filter_push(c, |c: char| char_is_alphabetic(c));
            lemma_all_uppercase_push(letters(before), c);
        }
        if is_alphabetic(c) {
            any_letter = true;
            letter_count = letter_count + 1;
            if !is_uppercase(c) {
                all_upper = false;
            }
        }
        if c >= '0' && c <= '9' {
            any_digit = true;
        }
        if c == '-' {
            any_hyphen = true;
        }
        i = i + 1;
    }
    proof {
        assert(clean@.take(n as int) =~= clean@);
    }
    if any_hyphen && n > 1 && any_letter {
        WordType::Hyphenated
    } else if any_letter && any_digit {
        WordType::Mixed
    } else if any_digit {
        WordType::Numeral
    } else if letter_count >= 2 && all_upper {
        WordType::AllCaps
    } else {
        WordType::Normal
    }
}

/// If every position from `from` up to `end` holds no whitespace, and `end`
/// is whitespace or the end of the text, the run that starts at `from` ends
/// at `end`.
pub proof fn lemma_run_end_is(s: Seq<char>, from: int, end: int)
    requires
        0 <= from <= end <= s.len(),
        forall|j: int| from <= j < end ==> !char_is_whitespace(#[trigger] s[j]),
        end == s.len() || char_is_whitespace(s[end]),
    ensures
        run_end(s, from) == end,
    decreases end - from,
{
    if from < end {
        lemma_run_end_is(s, from + 1, end);
    }
}

/// The classified words of a text, kept from one call of
/// [`Tokenizer::tokenize`] to the next.
pub struct Tokenizer {
    words: Vec<Word>,
}

impl View for Tokenizer {
    type V = Seq<Word>;

    closed spec fn view(&self) -> Seq<Word> {
        self.words@
    }
}

impl Tokenizer {
    /// A tokenizer that holds no words.
    pub fn new() -> (t: Self)
        ensures
            t@.len() == 0,
    {
        Self { words: Vec::new() }
    }

    /// Replaces the words held by the classified tokens of `text`.
    pub fn tokenize(&mut self, text: &str)
        ensures
            word_views(final(self)@) == tokenization(text@),
    {
        let mut words: Vec<Word> = Vec::new();
        // The token that the scan is inside of; empty between tokens.
        let mut current = String::new();
        // Where `current` begins, or the position of the scan between tokens.
        let ghost mut start: int = 0;
        // The tokens that lie before `start`.
        let ghost mut done: Seq<Seq<char>> = Seq::empty();
        proof {
            assert(done + tokens_from(text@, 0) =~= tokens(text@));
            assert(word_views(words@) =~= done.map_values(|t: Seq<char>| classify(t)));
        }
        for c in it: text.chars()
            invariant
                it.seq() == text@,
                0 <= start <= it.index() <= text@.len(),
                current@ == text@.subrange(start, it.index() as int),
                forall|j: int| start <= j < it.index() ==> !char_is_whitespace(#[trigger] text@[j]),
                tokens(text@) == done + tokens_from(text@, start),
                word_views(words@) == done.map_values(|t: Seq<char>| classify(t)),
        {
            let ghost i = it.index() as int;
            if is_whitespace(c) {
                if !current.as_str().is_empty() {
                    let token = current;
                    current = String::new();
                    let ghost before = words@;
                    let word = Self::make_word(token);
                    words.push(word);
                    proof {
                        lemma_run_end_is(text@, start, i);
                        assert(tokens_from(text@, start) == seq![token@] + tokens_from(text@, i));
                        assert(tokens_from(text@, i) == tokens_from(text@, i + 1));
                        assert(done.push(token@) + tokens_from(text@, i + 1) =~= done + tokens_from(
                            text@,
                            start,
                        ));
                        done.lemma_push_map_commute(|t: Seq<char>| classify(t), token@);
                        before.lemma_push_map_commute(|w: Word| w@, word);
                        done = done.push(token@);
                    }
                }
                proof {
                    start = i + 1;
                    assert(current@ =~= text@.subrange(start, i + 1));
                }
            } else {
                current.push(c);
                proof {
                    assert(current@ =~= text@.subrange(start, i + 1));
                }
            }
        }
        if !current.as_str().is_empty() {
            let token = current;
            let ghost before = words@;
            let word = Self::make_word(token);
            words.push(word);
            proof {
                let n = text@.len() as int;
                lemma_run_end_is(text@, start, n);
                assert(tokens_from(text@, start) == seq![token@] + tokens_from(text@, n));
                assert(done.push(token@) =~= done + tokens_from(text@, start));
                done.lemma_push_map_commute(|t: Seq<char>| classify(t), token@);
                before.lemma_push_map_commute(|w: Word| w@, word);
            }
        } else {
            proof {
                assert(done + tokens_from(text@, start) =~= done);
            }
        }
        self.words = words;
    }

    /// The classified word that the token `text` gives.
    pub fn make_word(text: String) -> (w: Word)
        ensures
            w@ == classify(text@),
    {
        let (has_trailing_punctuation, punctuation_type) = Self::analyze_punctuation(text.as_str());
        let word_type = Self::analyze_word_type(text.as_str());
        let char_count = text.as_str().unicode_len();
        Word { text, has_trailing_punctuation, punctuation_type, char_count, word_type }
    }

    /// The punctuation class of a token, and whether it has one.
    pub fn analyze_punctuation(text: &str) -> (r: (bool, PunctuationType))
        ensures
            r.1 == punctuation_of(text@),
            r.0 == (r.1 != PunctuationType::Absent),
    {
        let mut last: Option<char> = None;
        let mut dots: usize = 0;
        for c in it: text.chars()
            invariant
                it.seq() == text@,
                it.index() <= text@.len(),
                last == (if it.index() == 0 {
                    None
                } else {
                    Some(text@[it.index() - 1])
                }),
                dots <= 3,
                dots <= it.index(),
                forall|j: int| it.index() - dots <= j < it.index() ==> #[trigger] text@[j] == '.',
                dots < 3 && dots < it.index() ==> text@[it.index() - dots - 1] != '.',
        {
            if c == '.' {
                if dots < 3 {
                    dots = dots + 1;
                }
            } else {
                dots = 0;
            }
            last = Some(c);
        }
        if dots == 3 {
            return (true, PunctuationType::Ellipsis);
        }
        match last {
            Some('\u{2026}') => (true, PunctuationType::Ellipsis),
            Some('.') => (true, PunctuationType::Period),
            Some('?') => (true, PunctuationType::Question),
            Some('!') => (true, PunctuationType::Exclamation),
            Some(',') | Some(';') | Some(':') => (true, PunctuationType::Comma),
            _ => (false, PunctuationType::Absent),
        }
    }

    /// The word type of a token.
    pub fn analyze_word_type(text: &str) -> (t: WordType)
        ensures
            t == word_type_of(text@),
    {
        let clean = strip(text);
        classify_cleaned(&clean)
    }

    /// The words of the last text, in its order.
    pub fn words(&self) -> (r: &[Word])
        ensures
            r@ == self@,
    {
        self.words.as_slice()
    }

    /// The number of words held.
    pub fn len(&self) -> (n: usize)
        ensures
            n == self@.len(),
    {
        self.words.len()
    }

    /// Whether no word is held.
    pub fn is_empty(&self) -> (b: bool)
        ensures
            b == (self@.len() == 0),
    {
        self.words.len() == 0
    }

    /// The word at `index`, if there is one.
    pub fn get(&self, index: usize) -> (r: Option<&Word>)
        ensures
            match r {
                Some(w) => index < self@.len() && *w == self@[index as int],
                None => index >= self@.len(),
            },
    {
        if index < self.words.len() {
            Some(&self.words[index])
        } else {
            None
        }
    }
}

impl Default for Tokenizer {
    fn default() -> (t: Self)
        ensures
            t@.len() == 0,
    {
        Self::new()
    }
}

} // verus!
