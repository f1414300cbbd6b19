//! Character-level helpers shared by the estimators, parsers and templates.
//!
//! Text is handled as sequences of `char`. Which characters are whitespace is
//! written out here. The other facts about Unicode that the library relies on
//! (which characters are alphanumeric, how a string is case-folded) come from
//! the standard library and are named rather than restated.

use vstd::prelude::*;
use vstd::string::StringSliceAdditionalSpecFns;

verus! {

/// Whether `c` is whitespace: whether it has the Unicode property
/// `White_Space`. The characters that have it are the controls U+0009 to
/// U+000D and U+0085, the space U+0020, the no-break spaces U+00A0 and U+202F,
/// the Ogham space mark U+1680, the spaces of fixed width U+2000 to U+200A,
/// the line and paragraph separators U+2028 and U+2029, the mathematical
/// space U+205F and the ideographic space U+3000.
pub open spec fn whitespace_char(c: char) -> bool {
    let code = c as u32;
    ||| 0x0009 <= code <= 0x000D
    ||| code == 0x0020
    ||| code == 0x0085
    ||| code == 0x00A0
    ||| code == 0x1680
    ||| 0x2000 <= code <= 0x200A
    ||| code == 0x2028
    ||| code == 0x2029
    ||| code == 0x202F
    ||| code == 0x205F
    ||| code == 0x3000
}

/// `char::is_whitespace`: whether the character has the Unicode property
/// `White_Space`, whose members the Unicode character database lists; they
/// are written out in [`whitespace_char`].
pub assume_specification[ char::is_whitespace ](c: char) -> (b: bool)
    ensures
        b == whitespace_char(c),
;

/// Whether the standard library classifies `c` as alphabetic or numeric.
pub uninterp spec fn alphanumeric_char(c: char) -> bool;

/// `char::is_alphanumeric`: the result depends on the character alone.
pub assume_specification[ char::is_alphanumeric ](c: char) -> (b: bool)
    ensures
        b == alphanumeric_char(c),
;

/// The lowercase form that the standard library gives a string.
pub uninterp spec fn lowercase_of(s: Seq<char>) -> Seq<char>;

/// `str::to_lowercase`: the result is a function of the characters alone.
pub assume_specification[ str::to_lowercase ](s: &str) -> (r: String)
    ensures
        r@ == lowercase_of(s@),
;

/// The uppercase form that the standard library gives a string.
pub uninterp spec fn uppercase_of(s: Seq<char>) -> Seq<char>;

/// `str::to_uppercase`: the result is a function of the characters alone.
pub assume_specification[ str::to_uppercase ](s: &str) -> (r: String)
    ensures
        r@ == uppercase_of(s@),
;

/// `String::push` appends one character at the end.
pub assume_specification[ String::push ](s: &mut String, c: char)
    ensures
        final(s)@ == old(s)@.push(c),
;

/// The characters of `s`, in order.
pub fn chars_of(s: &str) -> (out: Vec<char>)
    ensures
        out@ == s@,
{
    broadcast use vstd::string::group_string_axioms;

    let mut out: Vec<char> = Vec::new();
    for c in it: s.chars()
        invariant
            it.seq() == s@,
            out@ == s@.take(it.index()),
    {
        out.push(c);
    }
    out
}

/// Appends the characters `chars[from..to]` to `out`.
pub fn push_chars(out: &mut String, chars: &Vec<char>, from: usize, to: usize)
    requires
        from <= to <= chars.len(),
    ensures
        final(out)@ == old(out)@ + chars@.subrange(from as int, to as int),
{
    let mut i: usize = from;
    while i < to
        invariant
            from <= i <= to <= chars.len(),
            out@ == old(out)@ + chars@.subrange(from as int, i as int),
        decreases to - i,
    {
        out.push(chars[i]);
        i += 1;
    }
}

/// The string made of the characters `chars[from..to]`.
pub fn string_of_range(chars: &Vec<char>, from: usize, to: usize) -> (out: String)
    requires
        from <= to <= chars.len(),
    ensures
        out@ == chars@.subrange(from as int, to as int),
{
    let mut out = String::new();
    push_chars(&mut out, chars, from, to);
    out
}

/// Copies an optional text.
pub fn clone_text(text: &Option<String>) -> (copy: Option<String>)
    ensures
        copy == *text,
{
    match text {
        Some(t) => Some(t.clone()),
        None => None,
    }
}

/// Whether two string slices hold the same characters.
pub fn str_eq(a: &str, b: &str) -> (same: bool)
    ensures
        same == (a@ == b@),
{
    let x = a.as_bytes();
    let y = b.as_bytes();
    proof {
        vstd::utf8::encode_utf8_decode_utf8(a@);
        vstd::utf8::encode_utf8_decode_utf8(b@);
    }
    if x.len() != y.len() {
        return false;
    }
    let mut i: usize = 0;
    while i < x.len()
        invariant
            i <= x.len(),
            x.len() == y.len(),
            x@.take(i as int) == y@.take(i as int),
            x@ == y@ <==> a@ == b@,
        decreases x.len() - i,
    {
        if x[i] != y[i] {
            return false;
        }
        i += 1;
    }
    assert(x@.take(x@.len() as int) == x@);
    assert(y@.take(y@.len() as int) == y@);
    true
}

/// Whether `needle` occurs in `hay` as a contiguous run of characters.
pub open spec fn contains_run(hay: Seq<char>, needle: Seq<char>) -> bool {
    exists|i: int| occurs_at(hay, needle, i)
}

/// Whether `needle` occurs in `hay` starting at position `i`.
pub open spec fn occurs_at(hay: Seq<char>, needle: Seq<char>, i: int) -> bool {
    0 <= i && i + needle.len() <= hay.len() && hay.subrange(i, i + needle.len()) == needle
}

/// Whether `needle` occurs in `hay` at position `at`.
fn matches_at(hay: &Vec<char>, needle: &Vec<char>, at: usize) -> (found: bool)
    requires
        at + needle.len() <= hay.len(),
    ensures
        found == occurs_at(hay@, needle@, at as int),
{
    let mut j: usize = 0;
    while j < needle.len()
        invariant
            j <= needle.len(),
            at + needle.len() <= hay.len(),
            hay@.subrange(at as int, at + j) == needle@.take(j as int),
        decreases needle.len() - j,
    {
        if hay[at + j] != needle[j] {
            return false;
        }
        j += 1;
    }
    assert(needle@.take(needle@.len() as int) == needle@);
    true
}

/// Substring search over characters.
pub fn contains_chars(hay: &Vec<char>, needle: &Vec<char>) -> (found: bool)
    ensures
        found == contains_run(hay@, needle@),
{
    if needle.len() > hay.len() {
        return false;
    }
    let last: usize = hay.len() - needle.len();
    let mut i: usize = 0;
    loop
        invariant
            i <= last,
            last == hay.len() - needle.len(),
            needle.len() <= hay.len(),
            forall|k: int| 0 <= k < i ==> !occurs_at(hay@, needle@, k),
        decreases last - i,
    {
        if matches_at(hay, needle, i) {
            return true;
        }
        if i == last {
            return false;
        }
        i += 1;
    }
}

/// A class of characters that trimming removes from the ends of a text.
#[derive(Clone, Copy, Debug)]
pub enum Trim {
    /// Whitespace, as the standard library classifies it.
    Whitespace,
    /// Everything that is neither alphabetic nor numeric.
    NonAlphanumeric,
}

impl Trim {
    /// Whether trimming by this class removes `c`.
    pub open spec fn drops(self, c: char) -> bool {
        match self {
            Trim::Whitespace => whitespace_char(c),
            Trim::NonAlphanumeric => !alphanumeric_char(c),
        }
    }

    /// Whether trimming by this class removes `c`.
    pub fn drops_char(self, c: char) -> (dropped: bool)
        ensures
            dropped == self.drops(c),
    {
        match self {
            Trim::Whitespace => c.is_whitespace(),
            Trim::NonAlphanumeric => !c.is_alphanumeric(),
        }
    }
}

/// `s` without its leading characters of class `class`.
pub open spec fn trim_front(s: Seq<char>, class: Trim) -> Seq<char>
    decreases s.len(),
{
    if s.len() > 0 && class.drops(s.first()) {
        trim_front(s.drop_first(), class)
    } else {
        s
    }
}

/// `s` without its trailing characters of class `class`.
pub open spec fn trim_back(s: Seq<char>, class: Trim) -> Seq<char>
    decreases s.len(),
{
    if s.len() > 0 && class.drops(s.last()) {
        trim_back(s.drop_last(), class)
    } else {
        s
    }
}

/// `s` without leading and trailing characters of class `class`.
pub open spec fn trimmed(s: Seq<char>, class: Trim) -> Seq<char> {
    trim_back(trim_front(s, class), class)
}

/// The bounds of `chars[from..to]` once characters of class `class` are
/// removed from both of its ends.
pub fn trim_range(chars: &Vec<char>, from: usize, to: usize, class: Trim) -> (span: (usize, usize))
    requires
        from <= to <= chars.len(),
    ensures
        from <= span.0 <= span.1 <= to,
        chars@.subrange(span.0 as int, span.1 as int) == trimmed(
            chars@.subrange(from as int, to as int),
            class,
        ),
{
    let mut a: usize = from;
    while a < to && class.drops_char(chars[a])
        invariant
            from <= a <= to <= chars.len(),
            trim_front(chars@.subrange(from as int, to as int), class) == trim_front(
                chars@.subrange(a as int, to as int),
                class,
            ),
        decreases to - a,
    {
        assert(chars@.subrange(a as int, to as int).drop_first() == chars@.subrange(
            a + 1,
            to as int,
        ));
        a += 1;
    }
    let mut b: usize = to;
    while b > a && class.drops_char(chars[b - 1])
        invariant
            a <= b <= to <= chars.len(),
            trim_back(chars@.subrange(a as int, to as int), class) == trim_back(
                chars@.subrange(a as int, b as int),
                class,
            ),
        decreases b - a,
    {
        assert(chars@.subrange(a as int, b as int).drop_last() == chars@.subrange(
            a as int,
            b - 1,
        ));
        b -= 1;
    }
    (a, b)
}

/// The bounds, in `s`, of its whitespace-separated words, in order. A word is
/// a maximal run of characters that are not whitespace.
pub open spec fn word_spans(s: Seq<char>) -> Seq<(int, int)>
    decreases s.len(),
{
    if s.len() == 0 {
        Seq::empty()
    } else {
        let before = word_spans(s.drop_last());
        let n = s.len() as int;
        if whitespace_char(s.last()) {
            before
        } else if n >= 2 && !whitespace_char(s[n - 2]) && before.len() > 0 {
            before.drop_last().push((before.last().0, n))
        } else {
            before.push((n - 1, n))
        }
    }
}

/// The whitespace-separated words of `s`, in order.
pub open spec fn words_of(s: Seq<char>) -> Seq<Seq<char>> {
    Seq::new(word_spans(s).len(), |i: int| s.subrange(word_spans(s)[i].0, word_spans(s)[i].1))
}

/// Whether the spans in `spans` are the entries of `expected`.
pub open spec fn spans_match(spans: Seq<(usize, usize)>, expected: Seq<(int, int)>) -> bool {
    &&& spans.len() == expected.len()
    &&& forall|i: int|
        0 <= i < spans.len() ==> (#[trigger] spans[i]).0 == expected[i].0 && spans[i].1
            == expected[i].1
}

/// Splits `chars` at whitespace and returns the bounds of each word.
pub fn split_words(chars: &Vec<char>) -> (spans: Vec<(usize, usize)>)
    ensures
        spans_match(spans@, word_spans(chars@)),
        forall|i: int| 0 <= i < spans.len() ==> (#[trigger] spans[i]).0 < spans[i].1 <= chars.len(),
        2 * spans.len() <= chars.len() + 1,
{
    let mut spans: Vec<(usize, usize)> = Vec::new();
    let mut start: usize = 0;
    let mut in_word: bool = false;
    let mut i: usize = 0;
    while i < chars.len()
        invariant
            i <= chars.len(),
            in_word <==> (i > 0 && !whitespace_char(chars@[i - 1])),
            in_word ==> start < i,
            forall|k: int| 0 <= k < spans.len() ==> (#[trigger] spans[k]).0 < spans[k].1 <= i,
            in_word ==> 2 * spans.len() + 1 <= i,
            !in_word ==> 2 * spans.len() <= i,
            !in_word ==> spans_match(spans@, word_spans(chars@.take(i as int))),
            in_word ==> word_spans(chars@.take(i as int)).len() == spans.len() + 1,
            in_word ==> spans_match(spans@, word_spans(chars@.take(i as int)).drop_last()),
            in_word ==> word_spans(chars@.take(i as int)).last() == (start as int, i as int),
        decreases chars.len() - i,
    {
        let c = chars[i];
        let ghost prefix = chars@.take(i as int);
        let ghost next = chars@.take(i + 1);
        proof {
            assert(next.drop_last() == prefix);
        }
        if c.is_whitespace() {
            if in_word {
                spans.push((start, i));
            }
            in_word = false;
        } else {
            if !in_word {
                start = i;
            }
            in_word = true;
        }
        i += 1;
    }
    assert(chars@.take(chars@.len() as int) == chars@);
    if in_word {
        spans.push((start, i));
    }
    spans
}

/// The texts of a list of strings.
pub open spec fn views(strings: Seq<String>) -> Seq<Seq<char>> {
    Seq::new(strings.len(), |i: int| strings[i]@)
}

/// Pushing a string onto a list pushes its text onto the list's texts.
pub proof fn lemma_views_push(strings: Seq<String>, last: String)
    ensures
        views(strings.push(last)) == views(strings).push(last@),
{
}

/// Whether `a` comes before `b` in the order of texts, given that the two
/// agree below the place `from`: at the first place where they differ `a` has
/// the character with the smaller code, or `a` ends there and `b` goes on.
pub open spec fn before_from(a: Seq<char>, b: Seq<char>, from: int) -> bool
    decreases a.len() - from,
{
    if from >= b.len() {
        false
    } else if from >= a.len() {
        true
    } else if a[from] != b[from] {
        (a[from] as u32) < (b[from] as u32)
    } else {
        before_from(a, b, from + 1)
    }
}

/// Whether `a` comes before `b` in the order of texts, which compares them
/// character by character.
pub open spec fn text_before(a: Seq<char>, b: Seq<char>) -> bool {
    before_from(a, b, 0)
}

/// Whether `a` comes before `b` in the order of texts.
pub fn comes_before(a: &Vec<char>, b: &Vec<char>) -> (before: bool)
    ensures
        before == text_before(a@, b@),
{
    let mut i: usize = 0;
    while i < a.len() && i < b.len()
        invariant
            i <= a.len(),
            i <= b.len(),
            text_before(a@, b@) == before_from(a@, b@, i as int),
        decreases a.len() - i,
    {
        if a[i] != b[i] {
            return (a[i] as u32) < (b[i] as u32);
        }
        i += 1;
    }
    i < b.len()
}

/// The order of texts is transitive.
pub proof fn lemma_before_transitive(a: Seq<char>, b: Seq<char>, c: Seq<char>, from: int)
    requires
        0 <= from,
        before_from(a, b, from),
        before_from(b, c, from),
    ensures
        before_from(a, c, from),
    decreases a.len() - from,
{
    if from < a.len() && a[from] == b[from] && b[from] == c[from] {
        lemma_before_transitive(a, b, c, from + 1);
    }
}

/// No text comes before itself.
pub proof fn lemma_before_irreflexive(a: Seq<char>, from: int)
    requires
        0 <= from,
    ensures
        !before_from(a, a, from),
    decreases a.len() - from,
{
    if from < a.len() {
        lemma_before_irreflexive(a, from + 1);
    }
}

/// Whether `text` is among `list`.
pub fn contains_text(list: &Vec<String>, text: &String) -> (found: bool)
    ensures
        found == views(list@).contains(text@),
{
    let mut i: usize = 0;
    while i < list.len()
        invariant
            i <= list.len(),
            forall|k: int| 0 <= k < i ==> views(list@)[k] != text@,
        decreases list.len() - i,
    {
        if list[i] == *text {
            assert(views(list@)[i as int] == text@);
            return true;
        }
        i += 1;
    }
    false
}

/// The texts `parts`, in order, with `separator` between neighbours.
pub open spec fn joined(parts: Seq<Seq<char>>, separator: Seq<char>) -> Seq<char>
    decreases parts.len(),
{
    if parts.len() == 0 {
        Seq::empty()
    } else if parts.len() == 1 {
        parts[0]
    } else {
        joined(parts.drop_last(), separator) + separator + parts.last()
    }
}

/// Joins `parts` with `separator` between neighbours.
pub fn join_texts(parts: &Vec<String>, separator: &str) -> (text: String)
    ensures
        text@ == joined(views(parts@), separator@),
{
    let mut text = String::new();
    let mut i: usize = 0;
    let ghost all = views(parts@);
    while i < parts.len()
        invariant
            i <= parts.len(),
            all == views(parts@),
            text@ == joined(all.take(i as int), separator@),
        decreases parts.len() - i,
    {
        proof {
            assert(all.take(i + 1).drop_last() == all.take(i as int));
        }
        if i > 0 {
            text.append(separator);
        }
        text.append(parts[i].as_str());
        i += 1;
    }
    assert(all.take(all.len() as int) == all);
    text
}

} // verus!
