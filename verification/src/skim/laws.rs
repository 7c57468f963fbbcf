//! What holds of the tokens of every text.

use crate::chars::{char_is_whitespace, is_blank};
use crate::skim::tokenizer::{lemma_run_end_bounds, run_end, tokenization, tokens, tokens_from};
use vstd::prelude::*;

verus! {

/// Every token is a run: it is not empty and holds no whitespace.
pub proof fn lemma_tokens_are_runs(s: Seq<char>, from: int, k: int)
    requires
        0 <= from <= s.len(),
        0 <= k < tokens_from(s, from).len(),
    ensures
        tokens_from(s, from)[k].len() > 0,
        forall|j: int|
            0 <= j < tokens_from(s, from)[k].len() ==> !char_is_whitespace(
                #[trigger] tokens_from(s, from)[k][j],
            ),
    decreases s.len() - from,
{
    if from < s.len() {
        if char_is_whitespace(s[from]) {
            lemma_tokens_are_runs(s, from + 1, k);
        } else {
            lemma_run_end_bounds(s, from);
            if k > 0 {
                lemma_tokens_are_runs(s, run_end(s, from), k - 1);
            }
        }
    }
}

/// There are no tokens from `from` on exactly when all that follows is
/// whitespace.
pub proof fn lemma_no_tokens_from(s: Seq<char>, from: int)
    requires
        0 <= from <= s.len(),
    ensures
        tokens_from(s, from).len() == 0 <==> forall|i: int|
            from <= i < s.len() ==> char_is_whitespace(#[trigger] s[i]),
    decreases s.len() - from,
{
    if from < s.len() {
        if char_is_whitespace(s[from]) {
            lemma_no_tokens_from(s, from + 1);
        }
    }
}

/// A text has no tokens exactly when it is blank: empty, or whitespace only.
pub proof fn lemma_blank_has_no_tokens(s: Seq<char>)
    ensures
        tokens(s).len() == 0 <==> is_blank(s),
        tokenization(s).len() == 0 <==> is_blank(s),
{
    lemma_no_tokens_from(s, 0);
}

/// Whether a token starts at position `i`: the character there is no
/// whitespace, and it is the first of the text or follows whitespace.
pub open spec fn is_token_start(s: Seq<char>, i: int) -> bool {
    &&& 0 <= i < s.len()
    &&& !char_is_whitespace(s[i])
    &&& (i == 0 || char_is_whitespace(s[i - 1]))
}

/// The number of positions at or after `from` where a token starts.
pub open spec fn token_starts_from(s: Seq<char>, from: int) -> nat
    decreases s.len() - from,
{
    if from < 0 || from >= s.len() {
        0
    } else if is_token_start(s, from) {
        1 + token_starts_from(s, from + 1)
    } else {
        token_starts_from(s, from + 1)
    }
}

/// No token starts inside a run.
proof fn lemma_no_start_inside_run(s: Seq<char>, from: int, end: int)
    requires
        0 <= from <= end <= s.len(),
        from > 0,
        forall|j: int| from - 1 <= j < end ==> !char_is_whitespace(#[trigger] s[j]),
    ensures
        token_starts_from(s, from) == token_starts_from(s, end),
    decreases end - from,
{
    if from < end {
        lemma_no_start_inside_run(s, from + 1, end);
    }
}

/// From the start of the text or from behind whitespace, there are as many
/// tokens as positions where a token starts.
pub proof fn lemma_token_count_from(s: Seq<char>, from: int)
    requires
        0 <= from <= s.len(),
        from == 0 || char_is_whitespace(s[from - 1]),
    ensures
        tokens_from(s, from).len() == token_starts_from(s, from),
    decreases s.len() - from,
{
    if from < s.len() {
        if char_is_whitespace(s[from]) {
            lemma_token_count_from(s, from + 1);
        } else {
            let end = run_end(s, from);
            lemma_run_end_bounds(s, from);
            lemma_no_start_inside_run(s, from + 1, end);
            assert(token_starts_from(s, from) == 1 + token_starts_from(s, end));
            assert(tokens_from(s, from).len() == 1 + tokens_from(s, end).len());
            if end < s.len() {
                lemma_token_count_from(s, end + 1);
                assert(tokens_from(s, end) == tokens_from(s, end + 1));
                assert(token_starts_from(s, end) == token_starts_from(s, end + 1));
            }
        }
    }
}

/// The number of tokens of a text is the number of its positions that hold
/// no whitespace and stand first or behind whitespace.
pub proof fn lemma_token_count(s: Seq<char>)
    ensures
        tokens(s).len() == token_starts_from(s, 0),
        tokenization(s).len() == token_starts_from(s, 0),
{
    lemma_token_count_from(s, 0);
}

/// The characters of `s` that are no whitespace, in order.
pub open spec fn without_whitespace(s: Seq<char>) -> Seq<char> {
    s.filter(|c: char| !char_is_whitespace(c))
}

/// A text without whitespace is left as it is when whitespace is removed.
proof fn lemma_run_without_whitespace(s: Seq<char>)
    requires
        forall|i: int| 0 <= i < s.len() ==> !char_is_whitespace(#[trigger] s[i]),
    ensures
        without_whitespace(s) == s,
    decreases s.len(),
{
    let keep = |c: char| !char_is_whitespace(c);
    if s.len() == 0 {
        s.lemma_filter_len(keep);
        assert(s.filter(keep) =~= s);
    } else {
        lemma_run_without_whitespace(s.drop_last());
        s.drop_last().lemma_filter_push(s.last(), keep);
        assert(s.drop_last().push(s.last()) =~= s);
    }
}

/// The tokens from `from` on, one after the other, are the characters from
/// `from` on without the whitespace.
pub proof fn lemma_tokens_from_concatenate(s: Seq<char>, from: int)
    requires
        0 <= from <= s.len(),
    ensures
        tokens_from(s, from).flatten() == without_whitespace(s.skip(from)),
    decreases s.len() - from,
{
    let keep = |c: char| !char_is_whitespace(c);
    if from == s.len() {
        s.skip(from).lemma_filter_len(keep);
        assert(without_whitespace(s.skip(from)) =~= Seq::<char>::empty());
    } else if char_is_whitespace(s[from]) {
        lemma_tokens_from_concatenate(s, from + 1);
        let head = Seq::<char>::empty().push(s[from]);
        assert(s.skip(from) =~= head + s.skip(from + 1));
        Seq::filter_distributes_over_add(head, s.skip(from + 1), keep);
        Seq::<char>::empty().lemma_filter_push(s[from], keep);
        Seq::<char>::empty().lemma_filter_len(keep);
        assert(head.filter(keep) =~= Seq::<char>::empty());
        assert(head.filter(keep) + s.skip(from + 1).filter(keep) =~= s.skip(from + 1).filter(
            keep,
        ));
    } else {
        let end = run_end(s, from);
        lemma_run_end_bounds(s, from);
        lemma_tokens_from_concatenate(s, end);
        let run = s.subrange(from, end);
        let all = seq![run] + tokens_from(s, end);
        assert(all.first() == run);
        assert(all.drop_first() =~= tokens_from(s, end));
        assert(all.flatten() == run + tokens_from(s, end).flatten());
        lemma_run_without_whitespace(run);
        assert(s.skip(from) =~= run + s.skip(end));
        Seq::filter_distributes_over_add(run, s.skip(end), keep);
    }
}

/// The tokens of a text, one after the other, are the text without its
/// whitespace: no character is lost, added or moved.
pub proof fn lemma_tokens_concatenate(s: Seq<char>)
    ensures
        tokens(s).flatten() == without_whitespace(s),
{
    lemma_tokens_from_concatenate(s, 0);
    assert(s.skip(0) =~= s);
}

} // verus!
