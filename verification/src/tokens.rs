//! Token estimation and context windows.
//!
//! Token counts are estimates: a quarter of the characters or eleven tenths of
//! the words, whichever is more, and never less than one.

use vstd::prelude::*;
use crate::decimal::{all_digits, char_to_digit, decimal_value, is_digit, parse_decimal};
use crate::text::{chars_of, contains_chars, contains_run, lowercase_of, split_words, word_spans};

verus! {

/// The context window assumed where nothing says otherwise.
pub const DEFAULT_CONTEXT_WINDOW: usize = 4096;

/// The context window assumed for models whose name mentions `32k`.
pub const LARGE_CONTEXT_WINDOW: usize = 32_000;

/// The token estimate of a text.
pub open spec fn approx_tokens_of(text: Seq<char>) -> nat {
    let by_chars = (text.len() + 3) / 4;
    let by_words = (11 * word_spans(text).len() + 9) / 10;
    if by_chars >= by_words && by_chars >= 1 {
        by_chars
    } else if by_words >= 1 {
        by_words
    } else {
        1
    }
}

/// Estimates the tokens of `text`.
pub fn approx_tokens(text: &str) -> (tokens: usize)
    ensures
        tokens == approx_tokens_of(text@),
        tokens >= 1,
{
    let chars = chars_of(text);
    let spans = split_words(&chars);
    let n = chars.len();
    let words = spans.len();
    let by_chars: usize = n / 4 + if n % 4 != 0 {
        1
    } else {
        0
    };
    let by_words: usize = words + words / 10 + if words % 10 != 0 {
        1
    } else {
        0
    };
    if by_chars >= by_words && by_chars >= 1 {
        by_chars
    } else if by_words >= 1 {
        by_words
    } else {
        1
    }
}

/// The token estimate of a text as it is stored in a row.
pub open spec fn token_estimate_of(text: Seq<char>) -> i64 {
    if approx_tokens_of(text) <= i64::MAX {
        approx_tokens_of(text) as i64
    } else {
        i64::MAX
    }
}

/// Estimates the tokens of `text` for storing them in a row.
pub fn token_estimate(text: &str) -> (tokens: i64)
    ensures
        tokens == token_estimate_of(text@),
        tokens >= 1,
{
    let tokens: u128 = approx_tokens(text) as u128;
    if tokens <= 0x7fff_ffff_ffff_ffff {
        tokens as i64
    } else {
        i64::MAX
    }
}

/// The ASCII digits of `s`, in order.
pub open spec fn digits_in(s: Seq<char>) -> Seq<char>
    decreases s.len(),
{
    if s.len() == 0 {
        s
    } else if is_digit(s.last()) {
        digits_in(s.drop_last()).push(s.last())
    } else {
        digits_in(s.drop_last())
    }
}

/// The number a run of digits writes, where it is not empty and fits `usize`.
pub open spec fn digits_value(digits: Seq<char>) -> Option<nat> {
    if digits.len() > 0 && all_digits(digits) && decimal_value(digits) <= usize::MAX {
        Some(decimal_value(digits))
    } else {
        None
    }
}

/// The context window that a capability tag declares, if it declares one.
///
/// `ctx-<N>` declares `N` tokens; a plus sign may precede the digits.
/// `ctx-<N>k` declares `N` thousand, where `N` is read from the digits between
/// the prefix and the final `k`, whatever stands between them. A window that
/// does not fit the machine's word is not declared.
pub open spec fn context_tag_value(tag: Seq<char>) -> Option<nat> {
    if tag.len() >= 4 && tag.take(4) == seq!['c', 't', 'x', '-'] {
        let rest = tag.skip(4);
        if rest.len() > 0 && rest.last() == 'k' {
            match digits_value(digits_in(rest.drop_last())) {
                Some(thousands) => if thousands * 1000 <= usize::MAX {
                    Some(thousands * 1000)
                } else {
                    None
                },
                None => None,
            }
        } else if rest.len() > 0 && rest.first() == '+' {
            digits_value(rest.skip(1))
        } else {
            digits_value(rest)
        }
    } else {
        None
    }
}

/// Collects the ASCII digits of `chars[from..to]`.
fn collect_digits(chars: &Vec<char>, from: usize, to: usize) -> (digits: Vec<char>)
    requires
        from <= to <= chars.len(),
    ensures
        digits@ == digits_in(chars@.subrange(from as int, to as int)),
        all_digits(digits@),
{
    let mut digits: Vec<char> = Vec::new();
    let mut i: usize = from;
    while i < to
        invariant
            from <= i <= to <= chars.len(),
            digits@ == digits_in(chars@.subrange(from as int, i as int)),
            all_digits(digits@),
        decreases to - i,
    {
        proof {
            let next = chars@.subrange(from as int, i + 1);
            assert(next.drop_last() == chars@.subrange(from as int, i as int));
        }
        if char_to_digit(chars[i]).is_some() {
            digits.push(chars[i]);
        }
        i += 1;
    }
    digits
}

/// Reads the context window that a capability tag declares.
pub fn parse_context_tag(tag: &str) -> (window: Option<usize>)
    ensures
        window is Some <==> context_tag_value(tag@) is Some,
        window is Some ==> window.unwrap() == context_tag_value(tag@).unwrap(),
{
    let chars = chars_of(tag);
    let n = chars.len();
    if n < 4 {
        return None;
    }
    if !(chars[0] == 'c' && chars[1] == 't' && chars[2] == 'x' && chars[3] == '-') {
        return None;
    }
    assert(tag@.take(4) == seq!['c', 't', 'x', '-']);
    let ghost rest = tag@.skip(4);
    if n > 4 && chars[n - 1] == 'k' {
        assert(rest.drop_last() == chars@.subrange(4, n - 1));
        let digits = collect_digits(&chars, 4, n - 1);
        let parsed = parse_decimal(&digits, 0, digits.len());
        assert(digits@.subrange(0, digits@.len() as int) == digits@);
        match parsed {
            Some(thousands) => thousands.checked_mul(1000),
            None => None,
        }
    } else if n > 4 && chars[4] == '+' {
        assert(rest.skip(1) == chars@.subrange(5, n as int));
        parse_decimal(&chars, 5, n)
    } else {
        parse_decimal(&chars, 4, n)
    }
}

/// The window declared by the first tag of `tags` that declares one.
pub open spec fn first_context_tag(tags: Seq<String>) -> Option<nat>
    decreases tags.len(),
{
    if tags.len() == 0 {
        None
    } else {
        match context_tag_value(tags.first()@) {
            Some(window) => Some(window),
            None => first_context_tag(tags.drop_first()),
        }
    }
}

/// The window that a model's name suggests where no tag declares one.
pub open spec fn window_by_name(model_id: Seq<char>) -> nat {
    if contains_run(lowercase_of(model_id), seq!['3', '2', 'k']) {
        LARGE_CONTEXT_WINDOW as nat
    } else {
        DEFAULT_CONTEXT_WINDOW as nat
    }
}

/// The effective context window of a model with the capability tags `tags`.
pub open spec fn context_window_of(tags: Seq<String>, model_id: Seq<char>) -> nat {
    match first_context_tag(tags) {
        Some(window) => window,
        None => window_by_name(model_id),
    }
}

/// The window that a model's name suggests.
pub fn context_window_by_name(model_id: &str) -> (window: usize)
    ensures
        window == window_by_name(model_id@),
{
    let lowered = model_id.to_lowercase();
    let hay = chars_of(lowered.as_str());
    let mut needle: Vec<char> = Vec::new();
    needle.push('3');
    needle.push('2');
    needle.push('k');
    assert(needle@ == seq!['3', '2', 'k']);
    if contains_chars(&hay, &needle) {
        LARGE_CONTEXT_WINDOW
    } else {
        DEFAULT_CONTEXT_WINDOW
    }
}

/// Resolves the context window: the first capability tag that declares one,
/// else the model's name, else the default.
pub fn context_window(tags: &Vec<String>, model_id: &str) -> (window: usize)
    ensures
        window == context_window_of(tags@, model_id@),
{
    let mut i: usize = 0;
    assert(tags@.skip(0) == tags@);
    while i < tags.len()
        invariant
            i <= tags.len(),
            first_context_tag(tags@) == first_context_tag(tags@.skip(i as int)),
        decreases tags.len() - i,
    {
        assert(tags@.skip(i as int).drop_first() == tags@.skip(i + 1));
        match parse_context_tag(tags[i].as_str()) {
            Some(window) => {
                return window;
            },
            None => {},
        }
        i += 1;
    }
    context_window_by_name(model_id)
}

} // verus!
