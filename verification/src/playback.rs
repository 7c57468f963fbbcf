//! What the playback engines share: the configuration, the token handed out
//! for a word, cursor movement, and display durations.
//!
//! Durations are computed in exact decimal arithmetic. Every factor of the
//! duration formula has at most two decimal places, so a factor is held as a
//! whole number of hundredths and the duration is the floor of an exact
//! quotient of integers.

use vstd::prelude::*;

verus! {

/// A non-negative decimal factor, counted in hundredths: `150` stands for 1.5.
#[derive(Debug, Clone, Copy, PartialEq, Eq, Structural)]
pub struct Factor {
    pub hundredths: u32,
}

impl Factor {
    /// The factor 1.0.
    pub fn one() -> (f: Factor)
        ensures
            f.hundredths == 100,
    {
        Factor { hundredths: 100 }
    }
}

/// How a caller wants words timed.
#[derive(Debug, Clone, Copy, PartialEq, Eq, Structural)]
pub struct PlaybackConfig {
    /// Target reading speed in words per minute.
    pub wpm: u32,
    /// Whether trailing punctuation lengthens a word's duration.
    pub pause_on_punctuation: bool,
    /// Scales the pause that punctuation adds.
    pub punctuation_multiplier: Factor,
}

/// What an engine hands out for one word.
#[derive(Debug, Clone)]
pub struct WordToken {
    /// The token as it stands in the text.
    pub text: String,
    /// The position of the word.
    pub index: usize,
    /// The number of words at the time of the call.
    pub total: usize,
    /// How long the word stays on screen, in milliseconds.
    pub display_time_ms: u32,
}

/// The mathematical value of a [`WordToken`].
pub struct WordTokenView {
    pub text: Seq<char>,
    pub index: nat,
    pub total: nat,
    pub display_time_ms: int,
}

impl View for WordToken {
    type V = WordTokenView;

    open spec fn view(&self) -> WordTokenView {
        WordTokenView {
            text: self.text@,
            index: self.index as nat,
            total: self.total as nat,
            display_time_ms: self.display_time_ms as int,
        }
    }
}

/// Whether an optional token has the value `expected`.
pub open spec fn token_is(token: Option<WordToken>, expected: Option<WordTokenView>) -> bool {
    match token {
        Some(t) => expected == Some(t@),
        None => expected is None,
    }
}

/// A fraction `numerator / denominator` with a positive denominator.
#[derive(Debug, Clone, Copy, PartialEq, Eq, Structural)]
pub struct Ratio {
    pub numerator: usize,
    pub denominator: usize,
}

/// The longest duration that can be reported, in milliseconds.
pub open spec fn max_duration() -> int {
    u32::MAX as int
}

/// The factor for a word's length, in hundredths: 1.3 above eight characters,
/// 1.15 above five, 1.0 otherwise.
pub open spec fn length_hundredths(char_count: nat) -> int {
    if char_count > 8 {
        130
    } else if char_count > 5 {
        115
    } else {
        100
    }
}

/// The product `60000 * length * pause * multiplier * complexity` of the
/// duration formula, before it is divided by the reading speed. The four
/// factors are in hundredths, so the product counts units of 1/10^8.
pub open spec fn duration_product(
    char_count: nat,
    pause: int,
    multiplier: int,
    complexity: int,
) -> int {
    60_000 * length_hundredths(char_count) * pause * multiplier * complexity
}

/// The display duration in milliseconds:
/// `floor(60000 / wpm * length * pause * multiplier * complexity)` with the
/// factors `pause`, `multiplier` and `complexity` given in hundredths, capped
/// at [`max_duration`].
///
/// A reading speed of zero asks for an unbounded duration; it is capped like
/// any other, unless one of the factors is zero, which leaves zero.
pub open spec fn duration_ms(
    wpm: int,
    char_count: nat,
    pause: int,
    multiplier: int,
    complexity: int,
) -> int {
    let product = duration_product(char_count, pause, multiplier, complexity);
    if product == 0 {
        0
    } else if wpm == 0 {
        max_duration()
    } else {
        let exact = product / (wpm * 100_000_000);
        if exact > max_duration() {
            max_duration()
        } else {
            exact
        }
    }
}

/// The length factor of a word of `char_count` characters.
pub fn length_factor(char_count: usize) -> (f: Factor)
    ensures
        f.hundredths == length_hundredths(char_count as nat),
{
    if char_count > 8 {
        Factor { hundredths: 130 }
    } else if char_count > 5 {
        Factor { hundredths: 115 }
    } else {
        Factor { hundredths: 100 }
    }
}

/// Computes [`duration_ms`] without overflow: the product fits 128 bits for
/// every value of the factors.
pub fn display_time(
    wpm: u32,
    char_count: usize,
    pause: Factor,
    multiplier: Factor,
    complexity: Factor,
) -> (ms: u32)
    ensures
        ms == duration_ms(
            wpm as int,
            char_count as nat,
            pause.hundredths as int,
            multiplier.hundredths as int,
            complexity.hundredths as int,
        ),
{
    let length: u128 = length_factor(char_count).hundredths as u128;
    let p: u128 = pause.hundredths as u128;
    let m: u128 = multiplier.hundredths as u128;
    let c: u128 = complexity.hundredths as u128;
    assert(p * m <= 0xffff_ffff * 0xffff_ffff) by (nonlinear_arith)
        requires
            0 <= p <= 0xffff_ffff,
            0 <= m <= 0xffff_ffff,
    ;
    let scaled: u128 = 60_000 * length;
    let pm: u128 = p * m;
    assert(scaled * pm <= 7_800_000 * (0xffff_ffff * 0xffff_ffff)) by (nonlinear_arith)
        requires
            0 <= scaled <= 7_800_000,
            0 <= pm <= 0xffff_ffff * 0xffff_ffff,
    ;
    let spm: u128 = scaled * pm;
    assert(spm * c <= 7_800_000 * (0xffff_ffff * 0xffff_ffff) * 0xffff_ffff) by (nonlinear_arith)
        requires
            0 <= spm <= 7_800_000 * (0xffff_ffff * 0xffff_ffff),
            0 <= c <= 0xffff_ffff,
    ;
    let product: u128 = spm * c;
    assert(product == duration_product(
        char_count as nat,
        pause.hundredths as int,
        multiplier.hundredths as int,
        complexity.hundredths as int,
    )) by (nonlinear_arith)
        requires
            product == (60_000 * length) * (p * m) * c,
            length == length_hundredths(char_count as nat),
            p == pause.hundredths,
            m == multiplier.hundredths,
            c == complexity.hundredths,
    ;
    if product == 0 {
        0
    } else if wpm == 0 {
        u32::MAX
    } else {
        let exact: u128 = product / (wpm as u128 * 100_000_000);
        if exact > u32::MAX as u128 {
            u32::MAX
        } else {
            exact as u32
        }
    }
}

/// Whether a cursor at `index` over `len` words can move forward.
pub open spec fn can_advance(len: nat, index: nat) -> bool {
    index + 1 < len
}

/// Where a cursor at `index` over `len` words stands after one step forward:
/// one further, or where it was when it is at the end.
pub open spec fn after_advance(len: nat, index: nat) -> nat {
    if can_advance(len, index) {
        index + 1
    } else {
        index
    }
}

/// Where a cursor stands after one step back: one before, or where it was
/// when it is at the start.
pub open spec fn after_go_back(index: nat) -> nat {
    if index > 0 {
        (index - 1) as nat
    } else {
        index
    }
}

/// Where a cursor at `index` over `len` words stands after a request to move
/// to `target`: at `target` if that is a position, else where it was.
pub open spec fn after_seek(len: nat, index: nat, target: nat) -> nat {
    if target < len {
        target
    } else {
        index
    }
}

/// Where a cursor stands after `steps` steps forward.
pub open spec fn after_advances(len: nat, index: nat, steps: nat) -> nat
    decreases steps,
{
    if steps == 0 {
        index
    } else {
        after_advances(len, after_advance(len, index), (steps - 1) as nat)
    }
}

/// Whether a cursor at `index` over `len` words is at the end: there are no
/// words, or it stands on the last one.
pub open spec fn at_end(len: nat, index: nat) -> bool {
    len == 0 || index >= len - 1
}

/// Whether `index` is a place where a cursor over `len` words may stand: on a
/// word, or at zero when there are none.
pub open spec fn cursor_in_range(len: nat, index: nat) -> bool {
    if len == 0 {
        index == 0
    } else {
        index < len
    }
}

/// The numerator and denominator of the progress of a cursor at `index` over
/// `len` words: `index / max(len - 1, 1)`, and zero when there are no words.
pub open spec fn progress(len: nat, index: nat) -> (nat, nat) {
    if len == 0 {
        (0, 1)
    } else if len - 1 > 1 {
        (index, (len - 1) as nat)
    } else {
        (index, 1)
    }
}

/// Computes [`progress`].
pub fn progress_ratio(len: usize, index: usize) -> (r: Ratio)
    ensures
        (r.numerator as nat, r.denominator as nat) == progress(len as nat, index as nat),
{
    if len == 0 {
        Ratio { numerator: 0, denominator: 1 }
    } else if len - 1 > 1 {
        Ratio { numerator: index, denominator: len - 1 }
    } else {
        Ratio { numerator: index, denominator: 1 }
    }
}

/// A step forward never leaves the words: a cursor that stands in range
/// stands in range after it, and so never beyond the last word.
pub proof fn lemma_advance_stays_in_range(len: nat, index: nat)
    requires
        cursor_in_range(len, index),
    ensures
        cursor_in_range(len, after_advance(len, index)),
        len > 0 ==> after_advance(len, index) <= len - 1,
{
}

/// At the end, any number of steps forward leaves the cursor where it is, and
/// none of them can move.
pub proof fn lemma_advance_at_end_stays(len: nat, index: nat, steps: nat)
    requires
        at_end(len, index),
    ensures
        after_advances(len, index, steps) == index,
        !can_advance(len, after_advances(len, index, steps)),
    decreases steps,
{
    if steps > 0 {
        lemma_advance_at_end_stays(len, index, (steps - 1) as nat);
    }
}

/// Progress is zero when there are no words and when there is one word whose
/// cursor is in range.
pub proof fn lemma_progress_zero(len: nat, index: nat)
    requires
        len <= 1,
        cursor_in_range(len, index),
    ensures
        progress(len, index).0 == 0,
        progress(len, index).1 == 1,
{
}

/// Progress grows strictly with the cursor: of two positions over the same
/// words, the later one has the greater progress. With at most one word
/// there are no two positions; the law holds from two words on.
pub proof fn lemma_progress_strictly_increases(len: nat, earlier: nat, later: nat)
    requires
        earlier < later < len,
    ensures
        progress(len, earlier).1 == progress(len, later).1,
        progress(len, earlier).1 > 0,
        progress(len, earlier).0 < progress(len, later).0,
        progress(len, earlier).0 * progress(len, later).1 < progress(len, later).0 * progress(
            len,
            earlier,
        ).1,
{
    let d = progress(len, earlier).1;
    assert(earlier * d < later * d) by (nonlinear_arith)
        requires
            earlier < later,
            d > 0,
    ;
}

/// Progress never exceeds one while the cursor is in range, and is one on the
/// last of two or more words.
pub proof fn lemma_progress_at_most_one(len: nat, index: nat)
    requires
        cursor_in_range(len, index),
    ensures
        progress(len, index).0 <= progress(len, index).1,
        len >= 2 && index == len - 1 ==> progress(len, index).0 == progress(len, index).1,
{
}

} // verus!
