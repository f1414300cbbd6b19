//! Choosing what of a conversation goes into its summary.
//!
//! The excerpt set is the chronological tail of the conversation and, where a
//! message is about to be appended, that message and every earlier message
//! that shares a keyword with it.

use vstd::prelude::*;
use crate::records::MessageRecord;
use crate::text::{
    Trim, chars_of, contains_chars, contains_run, contains_text, lemma_views_push, lowercase_of,
    spans_match, split_words, string_of_range, trim_range, trimmed, views, word_spans, words_of,
};

verus! {

/// How many of the latest messages always go into the excerpt set.
pub const TAIL_LENGTH: usize = 12;

/// A word is a keyword candidate when it has more characters than this.
pub const KEYWORD_MIN_LENGTH: usize = 4;

/// The keyword that a word stands for: the word without the characters at its
/// ends that are neither letters nor digits, in lowercase.
pub open spec fn keyword_of(word: Seq<char>) -> Seq<char> {
    lowercase_of(trimmed(word, Trim::NonAlphanumeric))
}

/// The keywords of a list of words: for each word of more than four
/// characters its keyword, unless that is empty or was found before.
pub open spec fn keywords_from(words: Seq<Seq<char>>) -> Seq<Seq<char>>
    decreases words.len(),
{
    if words.len() == 0 {
        Seq::empty()
    } else {
        let before = keywords_from(words.drop_last());
        let keyword = keyword_of(words.last());
        if words.last().len() > KEYWORD_MIN_LENGTH && keyword.len() > 0 && !before.contains(
            keyword,
        ) {
            before.push(keyword)
        } else {
            before
        }
    }
}

/// The keywords of a text, in the order of their first occurrence.
pub open spec fn keywords_of(text: Seq<char>) -> Seq<Seq<char>> {
    keywords_from(words_of(text))
}

/// No keyword occurs twice among the keywords of a list of words.
pub proof fn lemma_keywords_distinct(words: Seq<Seq<char>>)
    ensures
        keywords_from(words).no_duplicates(),
    decreases words.len(),
{
    if words.len() > 0 {
        lemma_keywords_distinct(words.drop_last());
    }
}

/// Extracts the keywords of `text`: a set, held as a list in which no keyword
/// occurs twice.
pub fn extract_keywords(text: &str) -> (keywords: Vec<String>)
    ensures
        views(keywords@) == keywords_of(text@),
        views(keywords@).no_duplicates(),
{
    proof {
        lemma_keywords_distinct(words_of(text@));
    }
    let chars = chars_of(text);
    let spans = split_words(&chars);
    let ghost words = words_of(text@);
    let mut keywords: Vec<String> = Vec::new();
    let mut i: usize = 0;
    while i < spans.len()
        invariant
            i <= spans.len(),
            chars@ == text@,
            words == words_of(text@),
            words.len() == spans.len(),
            spans_match(spans@, word_spans(chars@)),
            forall|k: int| 0 <= k < spans.len() ==> (#[trigger] spans[k]).0 < spans[k].1 <= chars.len(),
            views(keywords@) == keywords_from(words.take(i as int)),
        decreases spans.len() - i,
    {
        let (from, to) = spans[i];
        proof {
            assert(words.take(i + 1).drop_last() == words.take(i as int));
        }
        if to - from > KEYWORD_MIN_LENGTH {
            let (a, b) = trim_range(&chars, from, to, Trim::NonAlphanumeric);
            let core = string_of_range(&chars, a, b);
            let keyword = core.as_str().to_lowercase();
            if keyword.as_str().unicode_len() > 0 && !contains_text(&keywords, &keyword) {
                keywords.push(keyword);
            }
        }
        i += 1;
    }
    assert(words.take(words.len() as int) == words);
    keywords
}

/// The line that stands for a message in the excerpt set.
pub open spec fn excerpt_line(role: Seq<char>, body: Seq<char>) -> Seq<char> {
    role + ": "@ + body
}

/// Whether the lowercase form of `body` contains one of `keywords`.
pub open spec fn mentions_keyword(body: Seq<char>, keywords: Seq<Seq<char>>) -> bool {
    exists|k: int| 0 <= k < keywords.len() && contains_run(lowercase_of(body), #[trigger] keywords[k])
}

/// The lines of the messages that mention a keyword, the latest first.
pub open spec fn recalled_lines(messages: Seq<MessageRecord>, keywords: Seq<Seq<char>>) -> Seq<
    Seq<char>,
>
    decreases messages.len(),
{
    if messages.len() == 0 {
        Seq::empty()
    } else {
        let earlier = recalled_lines(messages.drop_last(), keywords);
        let last = messages.last();
        if mentions_keyword(last.body@, keywords) {
            seq![excerpt_line(last.role@, last.body@)] + earlier
        } else {
            earlier
        }
    }
}

/// The lines of the messages from position `from` on, in order.
pub open spec fn tail_lines(messages: Seq<MessageRecord>, from: int) -> Seq<Seq<char>> {
    Seq::new(
        (messages.len() - from) as nat,
        |i: int| excerpt_line(messages[from + i].role@, messages[from + i].body@),
    )
}

/// Where the chronological tail of a conversation of `count` messages begins.
pub open spec fn tail_start(count: nat) -> int {
    if count > TAIL_LENGTH {
        count - TAIL_LENGTH
    } else {
        0
    }
}

/// The excerpt set of a conversation.
///
/// Without a pending message it is the tail alone. With one, it is the earlier
/// messages that mention one of its keywords (the latest first), then the
/// pending message, then the tail.
pub open spec fn excerpts_of(
    messages: Seq<MessageRecord>,
    pending: Option<(Seq<char>, Seq<char>)>,
) -> Seq<Seq<char>> {
    let start = tail_start(messages.len());
    match pending {
        None => tail_lines(messages, start),
        Some((role, body)) => recalled_lines(messages.take(start), keywords_of(body)) + seq![
            excerpt_line(role, body),
        ] + tail_lines(messages, start),
    }
}

/// The texts of a pending message.
pub open spec fn pending_texts(pending: Option<(&str, &str)>) -> Option<(Seq<char>, Seq<char>)> {
    match pending {
        Some((role, body)) => Some((role@, body@)),
        None => None,
    }
}

/// Builds the line that stands for a message.
pub fn format_excerpt(role: &str, body: &str) -> (line: String)
    ensures
        line@ == excerpt_line(role@, body@),
{
    let mut line = role.to_owned();
    line.append(": ");
    line.append(body);
    line
}

/// Whether the lowercase form of `body` contains one of `needles`.
fn mentions_any(
    body: &str,
    needles: &Vec<Vec<char>>,
    Ghost(keywords): Ghost<Seq<Seq<char>>>,
) -> (found: bool)
    requires
        needles.len() == keywords.len(),
        forall|k: int| 0 <= k < needles.len() ==> (#[trigger] needles[k])@ == keywords[k],
    ensures
        found == mentions_keyword(body@, keywords),
{
    let lowered = body.to_lowercase();
    let hay = chars_of(lowered.as_str());
    let mut k: usize = 0;
    while k < needles.len()
        invariant
            k <= needles.len(),
            hay@ == lowercase_of(body@),
            needles.len() == keywords.len(),
            forall|j: int| 0 <= j < needles.len() ==> (#[trigger] needles[j])@ == keywords[j],
            forall|j: int| 0 <= j < k ==> !contains_run(hay@, #[trigger] keywords[j]),
        decreases needles.len() - k,
    {
        if contains_chars(&hay, &needles[k]) {
            return true;
        }
        k += 1;
    }
    false
}

/// Selects the excerpt set of a conversation, see [`excerpts_of`].
pub fn select_conversation_excerpts(
    messages: &Vec<MessageRecord>,
    pending_message: Option<(&str, &str)>,
) -> (excerpts: Vec<String>)
    ensures
        views(excerpts@) == excerpts_of(messages@, pending_texts(pending_message)),
{
    let total = messages.len();
    let start: usize = if total > TAIL_LENGTH {
        total - TAIL_LENGTH
    } else {
        0
    };
    let mut excerpts: Vec<String> = Vec::new();
    if let Some((role, body)) = pending_message {
        let keywords = extract_keywords(body);
        let mut needles: Vec<Vec<char>> = Vec::new();
        let mut n: usize = 0;
        while n < keywords.len()
            invariant
                n <= keywords.len(),
                needles.len() == n,
                forall|k: int| 0 <= k < n ==> (#[trigger] needles[k])@ == views(keywords@)[k],
            decreases keywords.len() - n,
        {
            let needle = chars_of(keywords[n].as_str());
            needles.push(needle);
            n += 1;
        }
        let ghost early = messages@.take(start as int);
        let ghost words = keywords_of(body@);
        let mut j: usize = start;
        assert(early.take(start as int) == early);
        while j > 0
            invariant
                j <= start <= messages.len(),
                early == messages@.take(start as int),
                words == keywords_of(body@),
                words == views(keywords@),
                needles.len() == keywords.len(),
                forall|k: int| 0 <= k < needles.len() ==> (#[trigger] needles[k])@ == words[k],
                views(excerpts@) + recalled_lines(early.take(j as int), words) == recalled_lines(
                    early,
                    words,
                ),
            decreases j,
        {
            let message = &messages[j - 1];
            proof {
                assert(early.take(j as int).drop_last() == early.take(j - 1));
            }
            if mentions_any(message.body.as_str(), &needles, Ghost(words)) {
                let line = format_excerpt(message.role.as_str(), message.body.as_str());
                excerpts.push(line);
            }
            j -= 1;
        }
        let line = format_excerpt(role, body);
        excerpts.push(line);
    }
    let ghost head = views(excerpts@);
    let mut i: usize = start;
    while i < total
        invariant
            start <= i <= total,
            total == messages.len(),
            views(excerpts@) == head + tail_lines(messages@, start as int).take(i - start),
        decreases total - i,
    {
        let message = &messages[i];
        let line = format_excerpt(message.role.as_str(), message.body.as_str());
        proof {
            lemma_views_push(excerpts@, line);
        }
        excerpts.push(line);
        i += 1;
    }
    excerpts
}

} // verus!
