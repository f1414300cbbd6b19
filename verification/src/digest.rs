//! The daily digest: what happened on a day, told in a logbook entry and a
//! short timeline.

use vstd::prelude::*;
use crate::clock::{DAY_SECONDS, calendar_date_at, midnight_of_date, parse_date_midnight, utc_date_string};
use crate::decimal::{decimal_of, digit_char, digit_to_char, push_decimal};
use crate::agents::GatewayOutcome;
use crate::clock::Stamps;
use crate::errors::EngineError;
use crate::hashing::content_hash;
use crate::jobs::{DigestReport, JobPayload, JobRow};
use crate::journal::{LogbookEntry, NoteRow, TimelineEvent};
use crate::keyed::{find_row, holds_key, position_of};
use crate::store::{
    Store, Tables, config_of, is_event, is_text_field, log_event, names_text, read_config,
    text_field, worded,
};
use crate::summaries::{
    SummaryRequest, is_cached, is_summary_request, obtained_result, store_or_create_summary,
    summary_obtained, summary_prompt, summary_request,
};
use crate::summarizer::digest_excerpts;
use crate::ranking::{Listing, Rank, collected, lemma_collect_next, order_of, put_in_order};
use crate::records::{EventField, EventRow, EventValue, SummaryRecord};
use crate::text::{chars_of, join_texts, joined, lemma_views_push, str_eq, views};

verus! {

/// How many recent notes a digest quotes.
pub const NOTE_EXCERPTS: usize = 5;

/// How many characters of a note a digest quotes.
pub const PREVIEW_LENGTH: usize = 240;

/// The ending of an English noun for a count: none for one, `s` otherwise.
pub open spec fn plural_of(count: nat) -> Seq<char> {
    if count == 1 {
        ""@
    } else {
        "s"@
    }
}

/// The ending of an English noun for a count.
pub fn plural(count: usize) -> (ending: &'static str)
    ensures
        ending@ == plural_of(count as nat),
{
    if count == 1 {
        ""
    } else {
        "s"
    }
}

/// The day a digest is about.
#[derive(Debug)]
pub struct DigestDay {
    /// The date, written `YYYY-MM-DD`.
    pub date_key: String,
    /// The first second of the day.
    pub start: i64,
    /// The first second of the next day.
    pub end: i64,
}

/// The first second of the day on which `now` falls.
pub open spec fn midnight_before(now: i64) -> int {
    (now as int) - (now as int) % (DAY_SECONDS as int)
}

/// The first second of the day that a payload names, or of today.
pub open spec fn digest_start(payload: JobPayload, now: i64) -> Option<int> {
    match payload.date {
        Some(text) => match midnight_of_date(text@) {
            Some(start) => Some(start as int),
            None => None,
        },
        None => Some(midnight_before(now)),
    }
}

/// Whether a digest can be made for the day that a payload names: the date
/// can be read, the day ends within the range of timestamps, the day can be
/// written, and a date that the payload gives is written as the calendar
/// writes that day, so that the day's key is the payload's own text.
pub open spec fn digest_day_valid(payload: JobPayload, now: i64) -> bool {
    match digest_start(payload, now) {
        Some(start) => {
            &&& i64::MIN <= start
            &&& start + DAY_SECONDS <= i64::MAX
            &&& calendar_date_at(start as i64) is Some
            &&& payload.date matches Some(text) ==> calendar_date_at(start as i64).unwrap()
                == text@
        },
        None => false,
    }
}

/// Whether `day` is the day that a payload names: it starts at the midnight
/// of the payload's date, or of today, lasts a day, and its key is the
/// calendar's writing of that day, which is the payload's text where it gives
/// one.
pub open spec fn is_digest_day(day: DigestDay, payload: JobPayload, now: i64) -> bool {
    &&& digest_day_valid(payload, now)
    &&& day.start == digest_start(payload, now).unwrap()
    &&& day.end == day.start + DAY_SECONDS
    &&& day.date_key@ == calendar_date_at(day.start).unwrap()
    &&& payload.date matches Some(text) ==> day.date_key@ == text@
}

/// Resolves the day a digest is about: the date of the payload, or today. A
/// date that can be read but is not written as the calendar writes it (with a
/// sign before the year, say) is refused, so that the key under which the day
/// is filed is always the text that was asked for.
pub fn resolve_entry_date(payload: &JobPayload, now: i64) -> (day: Option<DigestDay>)
    ensures
        day is Some <==> digest_day_valid(*payload, now),
        day is Some ==> is_digest_day(day.unwrap(), *payload, now),
{
    let start: i64 = match &payload.date {
        Some(text) => match parse_date_midnight(text.as_str()) {
            Some(start) => start,
            None => {
                return None;
            },
        },
        None => {
            let within = match now.checked_rem_euclid(DAY_SECONDS) {
                Some(within) => within,
                None => {
                    return None;
                },
            };
            match now.checked_sub(within) {
                Some(start) => start,
                None => {
                    return None;
                },
            }
        },
    };
    let end = match start.checked_add(DAY_SECONDS) {
        Some(end) => end,
        None => {
            return None;
        },
    };
    let date_key = match utc_date_string(start) {
        Some(date_key) => date_key,
        None => {
            return None;
        },
    };
    match &payload.date {
        Some(text) => {
            if !str_eq(date_key.as_str(), text.as_str()) {
                return None;
            }
        },
        None => {},
    }
    Some(DigestDay { date_key, start, end })
}

/// How many notes were created from `start` up to `end`.
pub open spec fn notes_within(notes: Seq<NoteRow>, start: i64, end: i64) -> nat
    decreases notes.len(),
{
    if notes.len() == 0 {
        0
    } else {
        notes_within(notes.drop_last(), start, end) + if start <= notes.last().created_at < end {
            1nat
        } else {
            0nat
        }
    }
}

/// Whether an event records a call of the AI runtime from `start` up to `end`.
pub open spec fn is_ai_run(event: EventRow, start: i64, end: i64) -> bool {
    event.module@ == "ai.runtime"@ && start <= event.ts < end
}

/// Whether an event records an incident of the AI runtime: a call logged as
/// a warning or an error.
pub open spec fn is_ai_incident(event: EventRow, start: i64, end: i64) -> bool {
    is_ai_run(event, start, end) && (event.level@ == "error"@ || event.level@ == "warn"@)
}

/// How many calls of the AI runtime the log holds from `start` up to `end`.
pub open spec fn ai_runs_within(events: Seq<EventRow>, start: i64, end: i64) -> nat
    decreases events.len(),
{
    if events.len() == 0 {
        0
    } else {
        ai_runs_within(events.drop_last(), start, end) + if is_ai_run(events.last(), start, end) {
            1nat
        } else {
            0nat
        }
    }
}

/// How many incidents of the AI runtime the log holds from `start` up to `end`.
pub open spec fn ai_incidents_within(events: Seq<EventRow>, start: i64, end: i64) -> nat
    decreases events.len(),
{
    if events.len() == 0 {
        0
    } else {
        ai_incidents_within(events.drop_last(), start, end) + if is_ai_incident(
            events.last(),
            start,
            end,
        ) {
            1nat
        } else {
            0nat
        }
    }
}

/// How many jobs were created from `start` up to `end`.
pub open spec fn jobs_within(jobs: Seq<JobRow>, start: i64, end: i64) -> nat
    decreases jobs.len(),
{
    if jobs.len() == 0 {
        0
    } else {
        jobs_within(jobs.drop_last(), start, end) + if start <= jobs.last().created_at < end {
            1nat
        } else {
            0nat
        }
    }
}

/// Counts the notes created from `start` up to `end`.
pub fn count_notes(notes: &Vec<NoteRow>, start: i64, end: i64) -> (count: usize)
    ensures
        count == notes_within(notes@, start, end),
{
    let mut count: usize = 0;
    let mut i: usize = 0;
    while i < notes.len()
        invariant
            i <= notes.len(),
            count <= i,
            count == notes_within(notes@.take(i as int), start, end),
        decreases notes.len() - i,
    {
        proof {
            assert(notes@.take(i + 1).drop_last() == notes@.take(i as int));
        }
        if start <= notes[i].created_at && notes[i].created_at < end {
            count += 1;
        }
        i += 1;
    }
    assert(notes@.take(notes@.len() as int) == notes@);
    count
}

/// Counts the jobs created from `start` up to `end`.
pub fn count_jobs(jobs: &Vec<JobRow>, start: i64, end: i64) -> (count: usize)
    ensures
        count == jobs_within(jobs@, start, end),
{
    let mut count: usize = 0;
    let mut i: usize = 0;
    while i < jobs.len()
        invariant
            i <= jobs.len(),
            count <= i,
            count == jobs_within(jobs@.take(i as int), start, end),
        decreases jobs.len() - i,
    {
        proof {
            assert(jobs@.take(i + 1).drop_last() == jobs@.take(i as int));
        }
        if start <= jobs[i].created_at && jobs[i].created_at < end {
            count += 1;
        }
        i += 1;
    }
    assert(jobs@.take(jobs@.len() as int) == jobs@);
    count
}

/// Counts the calls and the incidents of the AI runtime from `start` up to
/// `end`.
pub fn count_ai_events(events: &Vec<EventRow>, start: i64, end: i64) -> (counts: (usize, usize))
    ensures
        counts.0 == ai_runs_within(events@, start, end),
        counts.1 == ai_incidents_within(events@, start, end),
{
    let mut runs: usize = 0;
    let mut incidents: usize = 0;
    let mut i: usize = 0;
    while i < events.len()
        invariant
            i <= events.len(),
            runs <= i,
            incidents <= i,
            runs == ai_runs_within(events@.take(i as int), start, end),
            incidents == ai_incidents_within(events@.take(i as int), start, end),
        decreases events.len() - i,
    {
        proof {
            assert(events@.take(i + 1).drop_last() == events@.take(i as int));
        }
        let event = &events[i];
        if start <= event.ts && event.ts < end && str_eq(event.module.as_str(), "ai.runtime") {
            runs += 1;
            if str_eq(event.level.as_str(), "error") || str_eq(event.level.as_str(), "warn") {
                incidents += 1;
            }
        }
        i += 1;
    }
    assert(events@.take(events@.len() as int) == events@);
    (runs, incidents)
}

/// The place of the note at `position` among the notes of a day: the newest
/// first, and among notes of the same second the one stored last.
pub open spec fn note_rank(notes: Seq<NoteRow>, position: int) -> Rank {
    Rank {
        first: (-(notes[position].created_at as int)) as i128,
        second: (-position) as i128,
        third: 0,
        position: position as usize,
    }
}

/// The notes of a day as a listing: the notes created from `start` up to
/// `end`, by rank.
pub struct RecentNotes {
    pub notes: Seq<NoteRow>,
    pub start: i64,
    pub end: i64,
}

impl Listing for RecentNotes {
    open spec fn rows(&self) -> nat {
        self.notes.len()
    }

    open spec fn lists(&self, position: int) -> bool {
        self.start <= self.notes[position].created_at < self.end
    }

    open spec fn rank(&self, position: int) -> Rank {
        note_rank(self.notes, position)
    }

    proof fn lemma_rank_position(&self, position: int) {
    }
}

/// The order in which the notes of a day are quoted.
pub open spec fn recent_order(notes: Seq<NoteRow>, start: i64, end: i64) -> Seq<Rank> {
    order_of(RecentNotes { notes, start, end })
}

/// The notes created from `start` up to `end`, the newest first.
pub open spec fn recent_notes(notes: Seq<NoteRow>, start: i64, end: i64) -> Seq<NoteRow> {
    let order = recent_order(notes, start, end);
    Seq::new(order.len(), |k: int| notes[order[k].position as int])
}

/// Computes the order in which the notes of a day are quoted.
fn order_recent(notes: &Vec<NoteRow>, start: i64, end: i64) -> (order: Vec<Rank>)
    ensures
        order@ == recent_order(notes@, start, end),
        forall|k: int| 0 <= k < order.len() ==> (#[trigger] order[k]).position < notes.len(),
{
    let listing: Ghost<RecentNotes> = Ghost(RecentNotes { notes: notes@, start, end });
    let mut ranks: Vec<Rank> = Vec::new();
    let mut i: usize = 0;
    while i < notes.len()
        invariant
            i <= notes.len(),
            listing@ == (RecentNotes { notes: notes@, start, end }),
            collected(listing@, ranks@, i as int),
        decreases notes.len() - i,
    {
        proof {
            lemma_collect_next(listing@, ranks@, i as int);
        }
        if start <= notes[i].created_at && notes[i].created_at < end {
            ranks.push(
                Rank {
                    first: -(notes[i].created_at as i128),
                    second: -(i as i128),
                    third: 0,
                    position: i,
                },
            );
        }
        i += 1;
    }
    put_in_order(&ranks, listing)
}

/// What a digest quotes of a note.
#[derive(Debug)]
pub struct NoteExcerpt {
    pub title: String,
    pub preview: String,
    pub created_at: i64,
}

/// The beginning of a note's body on one line: its first 240 characters,
/// with spaces for line breaks.
pub open spec fn preview_of(body: Seq<char>) -> Seq<char> {
    let shown = if body.len() > PREVIEW_LENGTH {
        PREVIEW_LENGTH as int
    } else {
        body.len() as int
    };
    Seq::new(
        shown as nat,
        |i: int|
            if body[i] == '\n' {
                ' '
            } else {
                body[i]
            },
    )
}

/// Whether `excerpt` quotes `note`.
pub open spec fn quotes(excerpt: NoteExcerpt, note: NoteRow) -> bool {
    &&& excerpt.title == note.title
    &&& excerpt.preview@ == preview_of(note.body@)
    &&& excerpt.created_at == note.created_at
}

/// Builds the preview of a note's body.
pub fn preview(body: &str) -> (text: String)
    ensures
        text@ == preview_of(body@),
{
    let chars = chars_of(body);
    let shown: usize = if chars.len() > PREVIEW_LENGTH {
        PREVIEW_LENGTH
    } else {
        chars.len()
    };
    let mut text = String::new();
    let mut i: usize = 0;
    while i < shown
        invariant
            i <= shown <= chars.len(),
            chars@ == body@,
            shown == preview_of(body@).len(),
            text@ == preview_of(body@).take(i as int),
        decreases shown - i,
    {
        let c = if chars[i] == '\n' {
            ' '
        } else {
            chars[i]
        };
        text.push(c);
        i += 1;
    }
    text
}

/// What a digest knows of its day.
#[derive(Debug)]
pub struct DailyDigestFacts {
    pub date_key: String,
    pub notes_count: usize,
    pub ai_calls: usize,
    pub ai_failures: usize,
    pub job_count: usize,
    /// The newest notes of the day, the newest first, at most five.
    pub note_excerpts: Vec<NoteExcerpt>,
}

/// The tables that a digest reads its facts from.
pub struct DigestSources {
    pub notes: Seq<NoteRow>,
    pub events: Seq<EventRow>,
    pub jobs: Seq<JobRow>,
}

/// Whether `facts` are the facts of the day `day` in the tables `sources`.
pub open spec fn are_facts_of(
    facts: DailyDigestFacts,
    sources: DigestSources,
    day: DigestDay,
) -> bool {
    let recent = recent_notes(sources.notes, day.start, day.end);
    &&& facts.date_key@ == day.date_key@
    &&& facts.notes_count == notes_within(sources.notes, day.start, day.end)
    &&& facts.ai_calls == ai_runs_within(sources.events, day.start, day.end)
    &&& facts.ai_failures == ai_incidents_within(sources.events, day.start, day.end)
    &&& facts.job_count == jobs_within(sources.jobs, day.start, day.end)
    &&& facts.note_excerpts@.len() == if recent.len() > NOTE_EXCERPTS {
        NOTE_EXCERPTS as nat
    } else {
        recent.len()
    }
    &&& forall|k: int|
        0 <= k < facts.note_excerpts@.len() ==> quotes(#[trigger] facts.note_excerpts@[k], recent[k])
}

/// Gathers the facts of a day.
pub fn gather_facts(
    notes: &Vec<NoteRow>,
    events: &Vec<EventRow>,
    jobs: &Vec<JobRow>,
    day: &DigestDay,
) -> (facts: DailyDigestFacts)
    ensures
        are_facts_of(facts, DigestSources { notes: notes@, events: events@, jobs: jobs@ }, *day),
{
    let notes_count = count_notes(notes, day.start, day.end);
    let (ai_calls, ai_failures) = count_ai_events(events, day.start, day.end);
    let job_count = count_jobs(jobs, day.start, day.end);
    let order = order_recent(notes, day.start, day.end);
    let shown: usize = if order.len() > NOTE_EXCERPTS {
        NOTE_EXCERPTS
    } else {
        order.len()
    };
    let ghost recent = recent_notes(notes@, day.start, day.end);
    let mut note_excerpts: Vec<NoteExcerpt> = Vec::new();
    let mut k: usize = 0;
    while k < shown
        invariant
            k <= shown <= order.len(),
            order@ == recent_order(notes@, day.start, day.end),
            forall|j: int| 0 <= j < order.len() ==> (#[trigger] order[j]).position < notes.len(),
            recent == recent_notes(notes@, day.start, day.end),
            note_excerpts.len() == k,
            forall|j: int| 0 <= j < k ==> quotes(#[trigger] note_excerpts@[j], recent[j]),
        decreases shown - k,
    {
        let note = &notes[order[k].position];
        note_excerpts.push(
            NoteExcerpt {
                title: note.title.clone(),
                preview: preview(note.body.as_str()),
                created_at: note.created_at,
            },
        );
        k += 1;
    }
    DailyDigestFacts {
        date_key: day.date_key.clone(),
        notes_count,
        ai_calls,
        ai_failures,
        job_count,
        note_excerpts,
    }
}

/// A number below one hundred, written with two digits.
pub open spec fn two_digits(n: int) -> Seq<char> {
    seq![digit_char(n / 10), digit_char(n % 10)]
}

/// The time of day (UTC) of a timestamp, written `HH:MM UTC`.
pub open spec fn clock_time_of(timestamp: i64) -> Seq<char> {
    let second = (timestamp as int) % (DAY_SECONDS as int);
    two_digits(second / 3600) + ":"@ + two_digits((second % 3600) / 60) + " UTC"@
}

/// Appends the time of day of a timestamp to `out`.
pub fn push_clock_time(out: &mut String, timestamp: i64)
    ensures
        final(out)@ == old(out)@ + clock_time_of(timestamp),
{
    let second: i64 = match timestamp.checked_rem_euclid(DAY_SECONDS) {
        Some(second) => second,
        None => 0,
    };
    let hour: i64 = second / 3600;
    let minute: i64 = (second % 3600) / 60;
    out.push(digit_to_char((hour / 10) as u8));
    out.push(digit_to_char((hour % 10) as u8));
    out.append(":");
    out.push(digit_to_char((minute / 10) as u8));
    out.push(digit_to_char((minute % 10) as u8));
    out.append(" UTC");
}

/// The sentence on the notes of a day.
pub open spec fn notes_sentence(count: nat) -> Seq<char> {
    "Captured "@ + decimal_of(count) + " note"@ + plural_of(count) + " today."@
}

/// The sentence on the AI activity of a day.
pub open spec fn ai_sentence(calls: nat, failures: nat) -> Seq<char> {
    "Dispatched "@ + decimal_of(calls) + " AI run"@ + plural_of(calls) + " with "@ + decimal_of(
        failures,
    ) + " incident"@ + plural_of(failures) + "."@
}

/// The sentence on the jobs of a day.
pub open spec fn jobs_sentence(count: nat) -> Seq<char> {
    "Processed "@ + decimal_of(count) + " background job"@ + plural_of(count) + "."@
}

/// The sentence on the latest note of a day.
pub open spec fn latest_sentence(latest: NoteExcerpt) -> Seq<char> {
    "Latest note \""@ + latest.title@ + "\" captured at "@ + clock_time_of(latest.created_at) + "."@
}

/// The sentences that tell a day without the help of a model.
pub open spec fn fallback_sentences(facts: DailyDigestFacts) -> Seq<Seq<char>> {
    let counts = seq![
        notes_sentence(facts.notes_count as nat),
        ai_sentence(facts.ai_calls as nat, facts.ai_failures as nat),
        jobs_sentence(facts.job_count as nat),
    ];
    if facts.note_excerpts@.len() > 0 {
        counts.push(latest_sentence(facts.note_excerpts@[0]))
    } else {
        counts
    }
}

/// The text that tells a day without the help of a model.
pub open spec fn fallback_text(facts: DailyDigestFacts) -> Seq<char> {
    joined(fallback_sentences(facts), " "@)
}

/// Builds the text that tells a day without the help of a model.
pub fn fallback_summary(facts: &DailyDigestFacts) -> (text: String)
    ensures
        text@ == fallback_text(*facts),
{
    let mut parts: Vec<String> = Vec::new();
    let mut notes = "Captured ".to_owned();
    push_decimal(&mut notes, facts.notes_count as u64);
    notes.append(" note");
    notes.append(plural(facts.notes_count));
    notes.append(" today.");
    let mut ai = "Dispatched ".to_owned();
    push_decimal(&mut ai, facts.ai_calls as u64);
    ai.append(" AI run");
    ai.append(plural(facts.ai_calls));
    ai.append(" with ");
    push_decimal(&mut ai, facts.ai_failures as u64);
    ai.append(" incident");
    ai.append(plural(facts.ai_failures));
    ai.append(".");
    let mut jobs = "Processed ".to_owned();
    push_decimal(&mut jobs, facts.job_count as u64);
    jobs.append(" background job");
    jobs.append(plural(facts.job_count));
    jobs.append(".");
    parts.push(notes);
    parts.push(ai);
    parts.push(jobs);
    if facts.note_excerpts.len() > 0 {
        let latest = &facts.note_excerpts[0];
        let mut sentence = "Latest note \"".to_owned();
        sentence.append(latest.title.as_str());
        sentence.append("\" captured at ");
        push_clock_time(&mut sentence, latest.created_at);
        sentence.append(".");
        parts.push(sentence);
    }
    assert(views(parts@) =~= fallback_sentences(*facts));
    join_texts(&parts, " ")
}

/// The line that quotes a note among the facts of a day.
pub open spec fn highlight_line(excerpt: NoteExcerpt) -> Seq<char> {
    "- "@ + excerpt.title@ + " \u{2014} "@ + excerpt.preview@
}

/// The lines that quote the notes `excerpts`, in order.
pub open spec fn highlight_lines(excerpts: Seq<NoteExcerpt>) -> Seq<Seq<char>> {
    Seq::new(excerpts.len(), |i: int| highlight_line(excerpts[i]))
}

/// The facts of a day as they are put to the model that tells the day.
pub open spec fn fact_lines(facts: DailyDigestFacts) -> Seq<Seq<char>> {
    let counts = seq![
        "Date: "@ + facts.date_key@,
        "Notes captured: "@ + decimal_of(facts.notes_count as nat),
        "AI runs: "@ + decimal_of(facts.ai_calls as nat) + " ("@ + decimal_of(
            facts.ai_failures as nat,
        ) + " alerts)"@,
        "Jobs processed: "@ + decimal_of(facts.job_count as nat),
    ];
    if facts.note_excerpts@.len() > 0 {
        let latest = facts.note_excerpts@[0];
        counts.push(
            "Latest note: \""@ + latest.title@ + "\" at "@ + clock_time_of(latest.created_at),
        ).push("Recent note highlights:"@) + highlight_lines(facts.note_excerpts@)
    } else {
        counts
    }
}

/// Builds the facts of a day as they are put to the model.
pub fn build_fact_lines(facts: &DailyDigestFacts) -> (lines: Vec<String>)
    ensures
        views(lines@) == fact_lines(*facts),
{
    let mut lines: Vec<String> = Vec::new();
    let mut date = "Date: ".to_owned();
    date.append(facts.date_key.as_str());
    let mut notes = "Notes captured: ".to_owned();
    push_decimal(&mut notes, facts.notes_count as u64);
    let mut ai = "AI runs: ".to_owned();
    push_decimal(&mut ai, facts.ai_calls as u64);
    ai.append(" (");
    push_decimal(&mut ai, facts.ai_failures as u64);
    ai.append(" alerts)");
    let mut jobs = "Jobs processed: ".to_owned();
    push_decimal(&mut jobs, facts.job_count as u64);
    lines.push(date);
    lines.push(notes);
    lines.push(ai);
    lines.push(jobs);
    if facts.note_excerpts.len() == 0 {
        return lines;
    }
    let latest = &facts.note_excerpts[0];
    let mut newest = "Latest note: \"".to_owned();
    newest.append(latest.title.as_str());
    newest.append("\" at ");
    push_clock_time(&mut newest, latest.created_at);
    lines.push(newest);
    lines.push("Recent note highlights:".to_owned());
    let ghost head = views(lines@);
    let ghost quoted = highlight_lines(facts.note_excerpts@);
    let mut i: usize = 0;
    while i < facts.note_excerpts.len()
        invariant
            i <= facts.note_excerpts.len(),
            quoted == highlight_lines(facts.note_excerpts@),
            views(lines@) == head + quoted.take(i as int),
        decreases facts.note_excerpts.len() - i,
    {
        let excerpt = &facts.note_excerpts[i];
        let mut line = "- ".to_owned();
        line.append(excerpt.title.as_str());
        line.append(" \u{2014} ");
        line.append(excerpt.preview.as_str());
        proof {
            lemma_views_push(lines@, line);
        }
        lines.push(line);
        i += 1;
    }
    lines
}

/// Whether `entry` and `after` are what storing the summary of a day makes
/// of the logbook `before`: the entry of the day gets the summary, and is
/// created where the day has none.
pub open spec fn upserted(
    before: Seq<LogbookEntry>,
    after: Seq<LogbookEntry>,
    entry: LogbookEntry,
    date: Seq<char>,
    summary: Seq<char>,
    id: String,
    now: i64,
) -> bool {
    if holds_key(before, date) {
        let at = position_of(before, date);
        &&& after == before.update(at, entry)
        &&& entry.id == before[at].id
        &&& entry.entry_date == before[at].entry_date
        &&& entry.summary@ == summary
        &&& entry.created_at == before[at].created_at
    } else {
        &&& after == before.push(entry)
        &&& entry.id == id
        &&& entry.entry_date@ == date
        &&& entry.summary@ == summary
        &&& entry.created_at == now
    }
}

/// Stores the summary of a day in the logbook: the day's entry is
/// overwritten where there is one, so that a day never has two.
pub fn upsert_logbook_entry(
    logbook: &mut Vec<LogbookEntry>,
    entry_date: &str,
    summary: &str,
    id: String,
    now: i64,
) -> (entry: LogbookEntry)
    ensures
        upserted(old(logbook)@, final(logbook)@, entry, entry_date@, summary@, id, now),
{
    match find_row(logbook, entry_date) {
        Some(at) => {
            logbook[at].summary = summary.to_owned();
            logbook[at].clone()
        },
        None => {
            let entry = LogbookEntry {
                id,
                entry_date: entry_date.to_owned(),
                summary: summary.to_owned(),
                created_at: now,
            };
            logbook.push(entry.clone());
            entry
        },
    }
}

/// The timeline without the rows of one day.
pub open spec fn without_date(rows: Seq<TimelineEvent>, date: Seq<char>) -> Seq<TimelineEvent>
    decreases rows.len(),
{
    if rows.len() == 0 {
        rows
    } else if rows.last().entry_date@ == date {
        without_date(rows.drop_last(), date)
    } else {
        without_date(rows.drop_last(), date).push(rows.last())
    }
}

/// Whether `row` is the timeline row of the given kind, title and detail.
pub open spec fn is_timeline_row(
    row: TimelineEvent,
    id: String,
    date: Seq<char>,
    kind: Seq<char>,
    title: Seq<char>,
    detail: Seq<char>,
    now: i64,
) -> bool {
    &&& row.id == id
    &&& row.entry_date@ == date
    &&& row.event_time == now
    &&& row.kind@ == kind
    &&& row.title@ == title
    &&& row.detail is Some
    &&& row.detail.unwrap()@ == detail
    &&& row.created_at == now
}

/// One if the count is positive, zero otherwise.
pub open spec fn shown(count: nat) -> int {
    if count > 0 {
        1
    } else {
        0
    }
}

/// Whether `rows` is the timeline of a day: the row of the logbook capture,
/// then a row for the notes, one for the AI activity and one for the alerts,
/// each only where its count is positive.
pub open spec fn is_day_timeline(
    rows: Seq<TimelineEvent>,
    date: Seq<char>,
    summary: Seq<char>,
    notes: nat,
    calls: nat,
    failures: nat,
    stamps: Stamps,
) -> bool {
    &&& rows.len() == 1 + shown(notes) + shown(calls) + shown(failures)
    &&& is_timeline_row(
        rows[0],
        stamps.timeline_logbook_id,
        date,
        "logbook"@,
        "Daily log captured ("@ + date + ")"@,
        summary,
        stamps.now,
    )
    &&& notes > 0 ==> is_timeline_row(
        rows[1],
        stamps.timeline_notes_id,
        date,
        "notes"@,
        decimal_of(notes) + " new note"@ + plural_of(notes),
        "Review the Notes tab to explore today's captures."@,
        stamps.now,
    )
    &&& calls > 0 ==> is_timeline_row(
        rows[1 + shown(notes)],
        stamps.timeline_ai_id,
        date,
        "ai"@,
        decimal_of(calls) + " AI interaction"@ + plural_of(calls),
        "Inspect the AI Debugger console for transcripts and usage."@,
        stamps.now,
    )
    &&& failures > 0 ==> is_timeline_row(
        rows[1 + shown(notes) + shown(calls)],
        stamps.timeline_alerts_id,
        date,
        "alerts"@,
        decimal_of(failures) + " AI alert"@ + plural_of(failures),
        "Errors were detected in today's AI runs. Investigate via the debugger."@,
        stamps.now,
    )
}

/// Builds one timeline row.
fn timeline_row(
    id: &String,
    entry_date: &str,
    kind: &str,
    title: String,
    detail: &str,
    now: i64,
) -> (row: TimelineEvent)
    ensures
        is_timeline_row(row, *id, entry_date@, kind@, title@, detail@, now),
{
    TimelineEvent {
        id: id.clone(),
        entry_date: entry_date.to_owned(),
        event_time: now,
        kind: kind.to_owned(),
        title,
        detail: Some(detail.to_owned()),
        created_at: now,
    }
}

/// Builds the title of a counted timeline row.
fn counted_title(count: usize, noun: &str) -> (title: String)
    ensures
        title@ == decimal_of(count as nat) + noun@ + plural_of(count as nat),
{
    let mut title = String::new();
    push_decimal(&mut title, count as u64);
    title.append(noun);
    title.append(plural(count));
    title
}

/// Replaces the timeline of a day: the rows of the day are removed and the
/// rows of its digest are appended. Returns the new rows.
pub fn rebuild_timeline(
    timeline: &mut Vec<TimelineEvent>,
    entry_date: &str,
    summary: &str,
    notes_count: usize,
    ai_calls: usize,
    ai_failures: usize,
    stamps: &Stamps,
) -> (events: Vec<TimelineEvent>)
    ensures
        final(timeline)@ == without_date(old(timeline)@, entry_date@) + events@,
        is_day_timeline(
            events@,
            entry_date@,
            summary@,
            notes_count as nat,
            ai_calls as nat,
            ai_failures as nat,
            *stamps,
        ),
{
    let mut kept: Vec<TimelineEvent> = Vec::new();
    let mut i: usize = 0;
    while i < timeline.len()
        invariant
            i <= timeline.len(),
            timeline@ == old(timeline)@,
            kept@ == without_date(timeline@.take(i as int), entry_date@),
        decreases timeline.len() - i,
    {
        proof {
            assert(timeline@.take(i + 1).drop_last() == timeline@.take(i as int));
        }
        if !str_eq(timeline[i].entry_date.as_str(), entry_date) {
            kept.push(timeline[i].clone());
        }
        i += 1;
    }
    assert(timeline@.take(timeline@.len() as int) == timeline@);
    let mut events: Vec<TimelineEvent> = Vec::new();
    let mut title = "Daily log captured (".to_owned();
    title.append(entry_date);
    title.append(")");
    let capture = timeline_row(
        &stamps.timeline_logbook_id,
        entry_date,
        "logbook",
        title,
        summary,
        stamps.now,
    );
    events.push(capture.clone());
    kept.push(capture);
    if notes_count > 0 {
        let row = timeline_row(
            &stamps.timeline_notes_id,
            entry_date,
            "notes",
            counted_title(notes_count, " new note"),
            "Review the Notes tab to explore today's captures.",
            stamps.now,
        );
        events.push(row.clone());
        kept.push(row);
    }
    if ai_calls > 0 {
        let row = timeline_row(
            &stamps.timeline_ai_id,
            entry_date,
            "ai",
            counted_title(ai_calls, " AI interaction"),
            "Inspect the AI Debugger console for transcripts and usage.",
            stamps.now,
        );
        events.push(row.clone());
        kept.push(row);
    }
    if ai_failures > 0 {
        let row = timeline_row(
            &stamps.timeline_alerts_id,
            entry_date,
            "alerts",
            counted_title(ai_failures, " AI alert"),
            "Errors were detected in today's AI runs. Investigate via the debugger.",
            stamps.now,
        );
        events.push(row.clone());
        kept.push(row);
    }
    *timeline = kept;
    events
}

/// Why a digest fails where its day cannot be resolved.
pub const INVALID_DATE: &'static str = "invalid date supplied to daily digest job";

/// The excerpt set from which the story of a day is summarised: the text
/// that tells the day without a model, then the facts of the day.
pub open spec fn digest_texts(facts: DailyDigestFacts) -> Seq<Seq<char>> {
    seq![fallback_text(facts)] + fact_lines(facts)
}

/// The story of a day: the body of its summary where a model wrote one, else
/// the text that tells the day without a model.
pub open spec fn narrative_of(
    summary: Result<SummaryRecord, EngineError>,
    fallback: Seq<char>,
) -> Seq<char> {
    match summary {
        Ok(record) => if record.model_id is Some {
            record.body@
        } else {
            fallback
        },
        Err(_) => fallback,
    }
}

/// What the digest of the day `day`, with the facts `facts`, does to the
/// store, see [`digested`].
pub open spec fn digested_with(
    before: Tables,
    after: Tables,
    report: DigestReport,
    day: DigestDay,
    facts: DailyDigestFacts,
    reply: GatewayOutcome,
    stamps: Stamps,
) -> bool {
    let date = day.date_key@;
    let summary = obtained_result(
        before.summaries,
        after.summaries,
        "day"@,
        date,
        digest_texts(facts),
        stamps.summary_id@,
    );
    let narrative = narrative_of(summary, fallback_text(facts));
    let logged = after.events.len() - 1;
    &&& logged >= 0
    &&& summary_obtained(
        before.summaries,
        after.summaries,
        before.events,
        after.events.take(logged),
        summary,
        "day"@,
        date,
        digest_texts(facts),
        reply,
        stamps.summary_id,
        stamps.now,
    )
    &&& is_event(after.events[logged], stamps.now, "info"@, "SYS-LOG-100"@, "jobs.daily"@)
    &&& worded(
        after.events[logged],
        "Daily digest job completed"@,
        "Created or refreshed logbook and timeline entries."@,
    )
    &&& names_text(after.events[logged], "entry_date"@, date)
    &&& upserted(
        before.logbook,
        after.logbook,
        report.logbook,
        date,
        narrative,
        stamps.logbook_id,
        stamps.now,
    )
    &&& after.timeline == without_date(before.timeline, date) + report.timeline@
    &&& is_day_timeline(
        report.timeline@,
        date,
        narrative,
        facts.notes_count as nat,
        facts.ai_calls as nat,
        facts.ai_failures as nat,
        stamps,
    )
    &&& report.entry_date@ == date
    &&& after.conversations == before.conversations
    &&& after.messages == before.messages
    &&& after.links == before.links
    &&& after.jobs == before.jobs
    &&& after.providers == before.providers
    &&& after.settings == before.settings
    &&& after.notes == before.notes
}

/// The tables that a digest reads its facts from.
pub open spec fn sources_of(tables: Tables) -> DigestSources {
    DigestSources { notes: tables.notes, events: tables.events, jobs: tables.jobs }
}

/// What the digest of the day that `payload` names does to the store.
///
/// The facts of the day are gathered. Their summary is found in the cache or
/// stored, and tells the day where a model wrote it; else the template does.
/// The story goes into the day's logbook entry and into the first row of the
/// day's timeline, which is rebuilt. An event records the run. A payload
/// whose date cannot be read fails the digest and changes nothing.
pub open spec fn digested(
    before: Tables,
    after: Tables,
    result: Result<DigestReport, String>,
    payload: JobPayload,
    reply: GatewayOutcome,
    stamps: Stamps,
) -> bool {
    if !digest_day_valid(payload, stamps.now) {
        &&& result is Err
        &&& result->Err_0@ == INVALID_DATE@
        &&& after == before
    } else {
        &&& result is Ok
        &&& exists|day: DigestDay, facts: DailyDigestFacts|
            {
                &&& is_digest_day(day, payload, stamps.now)
                &&& are_facts_of(facts, sources_of(before), day)
                &&& #[trigger] digested_with(
                    before,
                    after,
                    result.unwrap(),
                    day,
                    facts,
                    reply,
                    stamps,
                )
            }
    }
}

/// Runs the digest of the day that `payload` names, see [`digested`].
///
/// `reply` is what the gateway answered to the request of
/// [`digest_request`]; it is looked at only where the day's summary is not
/// in the cache.
pub fn perform_daily_digest(
    store: &mut Store,
    payload: &JobPayload,
    reply: &GatewayOutcome,
    stamps: &Stamps,
) -> (result: Result<DigestReport, String>)
    ensures
        digested(old(store)@, final(store)@, result, *payload, *reply, *stamps),
{
    let day = match resolve_entry_date(payload, stamps.now) {
        Some(day) => day,
        None => {
            return Err(INVALID_DATE.to_owned());
        },
    };
    let facts = gather_facts(&store.notes, &store.events, &store.jobs, &day);
    let fallback = fallback_summary(&facts);
    let lines = build_fact_lines(&facts);
    let excerpts = digest_excerpts(fallback.as_str(), &lines);
    let summary = store_or_create_summary(
        &mut store.summaries,
        &mut store.events,
        "day",
        day.date_key.as_str(),
        &excerpts,
        reply,
        stamps.summary_id.clone(),
        stamps.now,
    );
    let narrative = match summary {
        Ok(record) => if record.model_id.is_some() {
            record.body
        } else {
            fallback
        },
        Err(_) => fallback,
    };
    let logbook = upsert_logbook_entry(
        &mut store.logbook,
        day.date_key.as_str(),
        narrative.as_str(),
        stamps.logbook_id.clone(),
        stamps.now,
    );
    let timeline = rebuild_timeline(
        &mut store.timeline,
        day.date_key.as_str(),
        narrative.as_str(),
        facts.notes_count,
        facts.ai_calls,
        facts.ai_failures,
        stamps,
    );
    let mut data: Vec<EventField> = Vec::new();
    data.push(text_field("entry_date", day.date_key.clone()));
    proof {
        assert(is_text_field(data@[0], "entry_date"@, day.date_key@));
    }
    log_event(
        &mut store.events,
        stamps.now,
        "info",
        "SYS-LOG-100",
        "jobs.daily",
        "Daily digest job completed",
        "Created or refreshed logbook and timeline entries.",
        data,
    );
    let report = DigestReport { entry_date: day.date_key.clone(), logbook, timeline };
    proof {
        let after = store@;
        let result: Result<DigestReport, String> = Ok(report);
        assert(digested_with(old(store)@, after, result.unwrap(), day, facts, *reply, *stamps));
    }
    Ok(report)
}

/// Whether `request` is what a digest in the store `tables` asks of the
/// gateway: nothing where its day cannot be resolved or its summary is
/// cached, else a summary of the facts of its day.
pub open spec fn digest_asks(
    tables: Tables,
    payload: JobPayload,
    now: i64,
    request: Option<SummaryRequest>,
) -> bool {
    if !digest_day_valid(payload, now) {
        request is None
    } else {
        exists|day: DigestDay, facts: DailyDigestFacts|
            {
                &&& is_digest_day(day, payload, now)
                &&& #[trigger] are_facts_of(facts, sources_of(tables), day)
                &&& request is None <==> is_cached(
                    tables.summaries,
                    "day"@,
                    day.date_key@,
                    content_hash(digest_texts(facts)),
                )
                &&& request is Some ==> is_summary_request(
                    request.unwrap(),
                    summary_prompt(digest_texts(facts)),
                    config_of(tables.settings).summarizer_model,
                )
            }
    }
}

/// Builds the request to send to the gateway before
/// [`perform_daily_digest`] with the same payload, see [`digest_asks`].
pub fn digest_request(store: &Store, payload: &JobPayload, now: i64) -> (request: Option<
    SummaryRequest,
>)
    ensures
        digest_asks(store@, *payload, now, request),
{
    let day = match resolve_entry_date(payload, now) {
        Some(day) => day,
        None => {
            return None;
        },
    };
    let facts = gather_facts(&store.notes, &store.events, &store.jobs, &day);
    let fallback = fallback_summary(&facts);
    let lines = build_fact_lines(&facts);
    let excerpts = digest_excerpts(fallback.as_str(), &lines);
    let config = read_config(&store.settings);
    let request = summary_request(
        &store.summaries,
        "day",
        day.date_key.as_str(),
        &excerpts,
        &config,
    );
    proof {
        assert(are_facts_of(facts, sources_of(store@), day));
    }
    request
}

} // verus!
