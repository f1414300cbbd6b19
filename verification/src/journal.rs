//! Notes, the daily logbook and the timeline that is derived from it, and the
//! order in which logbook and timeline are listed.

use vstd::prelude::*;
use crate::conversations::limited;
use crate::keyed::Keyed;
use crate::ranking::{Listing, Rank, collected, is_order_of, lemma_collect_next, order_of, put_in_order};
use crate::text::{
    chars_of, comes_before, lemma_before_irreflexive, lemma_before_transitive, str_eq, text_before,
};

verus! {

/// A note. Notes are kept by the surrounding application; the digest counts
/// them and quotes the latest ones.
#[derive(Debug)]
pub struct NoteRow {
    pub id: String,
    pub title: String,
    pub body: String,
    pub created_at: i64,
    pub updated_at: i64,
}

impl Keyed for NoteRow {
    open spec fn key(&self) -> Seq<char> {
        self.id@
    }

    fn key_text(&self) -> (text: &str) {
        self.id.as_str()
    }
}

/// The logbook entry of one day. There is at most one per date.
#[derive(Debug)]
pub struct LogbookEntry {
    pub id: String,
    pub entry_date: String,
    pub summary: String,
    pub created_at: i64,
}

impl Keyed for LogbookEntry {
    open spec fn key(&self) -> Seq<char> {
        self.entry_date@
    }

    fn key_text(&self) -> (text: &str) {
        self.entry_date.as_str()
    }
}

impl Clone for LogbookEntry {
    fn clone(&self) -> (copy: Self)
        ensures
            copy == *self,
    {
        LogbookEntry {
            id: self.id.clone(),
            entry_date: self.entry_date.clone(),
            summary: self.summary.clone(),
            created_at: self.created_at,
        }
    }
}

/// One row of the timeline of a day.
#[derive(Debug)]
pub struct TimelineEvent {
    pub id: String,
    pub entry_date: String,
    pub event_time: i64,
    pub kind: String,
    pub title: String,
    pub detail: Option<String>,
    pub created_at: i64,
}

impl Clone for TimelineEvent {
    fn clone(&self) -> (copy: Self)
        ensures
            copy == *self,
    {
        TimelineEvent {
            id: self.id.clone(),
            entry_date: self.entry_date.clone(),
            event_time: self.event_time,
            kind: self.kind.clone(),
            title: self.title.clone(),
            detail: self.detail.clone(),
            created_at: self.created_at,
        }
    }
}

/// How many of the entries below `upto` are about a date that comes after
/// `date` in the order of texts, in which dates written `YYYY-MM-DD` stand
/// as in the calendar.
pub open spec fn later_dates(rows: Seq<LogbookEntry>, date: Seq<char>, upto: int) -> nat
    decreases upto,
{
    if upto <= 0 {
        0
    } else {
        later_dates(rows, date, upto - 1) + if text_before(date, rows[upto - 1].entry_date@) {
            1nat
        } else {
            0nat
        }
    }
}

/// The place of the entry at `position` in the logbook: the fewer entries
/// are about a later date, the earlier it comes.
pub open spec fn logbook_rank(rows: Seq<LogbookEntry>, position: int) -> Rank {
    Rank {
        first: later_dates(rows, rows[position].entry_date@, rows.len() as int) as i128,
        second: 0,
        third: 0,
        position: position as usize,
    }
}

/// The logbook as a listing: every entry, by rank.
pub struct Logbook {
    pub rows: Seq<LogbookEntry>,
}

impl Listing for Logbook {
    open spec fn rows(&self) -> nat {
        self.rows.len()
    }

    open spec fn lists(&self, position: int) -> bool {
        true
    }

    open spec fn rank(&self, position: int) -> Rank {
        logbook_rank(self.rows, position)
    }

    proof fn lemma_rank_position(&self, position: int) {
    }
}

/// The order in which the logbook is listed.
pub open spec fn logbook_order(rows: Seq<LogbookEntry>) -> Seq<Rank> {
    order_of(Logbook { rows })
}

/// The entries of the logbook, the latest date first.
pub open spec fn logbook_by_date(rows: Seq<LogbookEntry>) -> Seq<LogbookEntry> {
    let order = logbook_order(rows);
    Seq::new(order.len(), |k: int| rows[order[k].position as int])
}

/// Among the entries below `upto` at most `upto` are about a later date.
pub proof fn lemma_later_dates_bounded(rows: Seq<LogbookEntry>, date: Seq<char>, upto: int)
    requires
        0 <= upto,
    ensures
        later_dates(rows, date, upto) <= upto,
    decreases upto,
{
    if upto > 0 {
        lemma_later_dates_bounded(rows, date, upto - 1);
    }
}

/// No more entries are about a date after `later` than about a date after
/// `earlier`, and one fewer at least where an entry is about `later` itself.
pub proof fn lemma_later_dates(
    rows: Seq<LogbookEntry>,
    earlier: Seq<char>,
    later: Seq<char>,
    upto: int,
)
    requires
        text_before(earlier, later),
        upto <= rows.len(),
    ensures
        later_dates(rows, later, upto) <= later_dates(rows, earlier, upto),
        (exists|p: int| 0 <= p < upto && (#[trigger] rows[p]).entry_date@ == later) ==> later_dates(
            rows,
            later,
            upto,
        ) < later_dates(rows, earlier, upto),
    decreases upto,
{
    if upto > 0 {
        lemma_later_dates(rows, earlier, later, upto - 1);
        let date = rows[upto - 1].entry_date@;
        if text_before(later, date) {
            lemma_before_transitive(earlier, later, date, 0);
        }
        lemma_before_irreflexive(later, 0);
    }
}

/// The logbook is listed with the latest date first: no entry of the listing
/// is about an earlier date than an entry that follows it.
pub proof fn lemma_logbook_latest_first(rows: Seq<LogbookEntry>, order: Seq<Rank>, j: int, k: int)
    requires
        is_order_of(Logbook { rows }, order),
        rows.len() <= usize::MAX,
        0 <= j < k < order.len(),
    ensures
        !text_before(
            rows[order[j].position as int].entry_date@,
            rows[order[k].position as int].entry_date@,
        ),
{
    let earlier = rows[order[j].position as int].entry_date@;
    let later = rows[order[k].position as int].entry_date@;
    lemma_later_dates_bounded(rows, earlier, rows.len() as int);
    if text_before(earlier, later) {
        lemma_later_dates(rows, earlier, later, rows.len() as int);
    }
}

/// Counts the entries that are about a date after that of the entry at
/// `position`.
fn count_later(dates: &Vec<Vec<char>>, position: usize, Ghost(rows): Ghost<Seq<LogbookEntry>>) -> (count:
    usize)
    requires
        position < dates.len(),
        dates.len() == rows.len(),
        forall|k: int| 0 <= k < dates.len() ==> (#[trigger] dates[k])@ == rows[k].entry_date@,
    ensures
        count == later_dates(rows, rows[position as int].entry_date@, rows.len() as int),
{
    let mut count: usize = 0;
    let mut j: usize = 0;
    while j < dates.len()
        invariant
            j <= dates.len(),
            position < dates.len(),
            dates.len() == rows.len(),
            forall|k: int| 0 <= k < dates.len() ==> (#[trigger] dates[k])@ == rows[k].entry_date@,
            count <= j,
            count == later_dates(rows, rows[position as int].entry_date@, j as int),
        decreases dates.len() - j,
    {
        if comes_before(&dates[position], &dates[j]) {
            count += 1;
        }
        j += 1;
    }
    count
}

/// Computes the order in which the logbook is listed.
fn order_logbook(rows: &Vec<LogbookEntry>) -> (order: Vec<Rank>)
    ensures
        order@ == logbook_order(rows@),
        forall|k: int| 0 <= k < order.len() ==> (#[trigger] order[k]).position < rows.len(),
{
    let mut dates: Vec<Vec<char>> = Vec::new();
    let mut d: usize = 0;
    while d < rows.len()
        invariant
            d <= rows.len(),
            dates.len() == d,
            forall|k: int| 0 <= k < d ==> (#[trigger] dates[k])@ == rows[k].entry_date@,
        decreases rows.len() - d,
    {
        dates.push(chars_of(rows[d].entry_date.as_str()));
        d += 1;
    }
    let listing: Ghost<Logbook> = Ghost(Logbook { rows: rows@ });
    let mut ranks: Vec<Rank> = Vec::new();
    let mut i: usize = 0;
    while i < rows.len()
        invariant
            i <= rows.len(),
            dates.len() == rows.len(),
            forall|k: int| 0 <= k < dates.len() ==> (#[trigger] dates[k])@ == rows[k].entry_date@,
            listing@ == (Logbook { rows: rows@ }),
            collected(listing@, ranks@, i as int),
        decreases rows.len() - i,
    {
        proof {
            lemma_collect_next(listing@, ranks@, i as int);
        }
        let later = count_later(&dates, i, Ghost(rows@));
        ranks.push(Rank { first: later as i128, second: 0, third: 0, position: i });
        i += 1;
    }
    put_in_order(&ranks, listing)
}

/// Lists the logbook, the latest date first, at most `limit` entries.
pub fn list_logbook_entries(rows: &Vec<LogbookEntry>, limit: Option<usize>) -> (listed: Vec<
    LogbookEntry,
>)
    ensures
        listed@ == logbook_by_date(rows@).take(
            limited(logbook_by_date(rows@).len(), limit) as int,
        ),
{
    let order = order_logbook(rows);
    let shown: usize = match limit {
        Some(n) => if n < order.len() {
            n
        } else {
            order.len()
        },
        None => order.len(),
    };
    let ghost all = logbook_by_date(rows@);
    let mut listed: Vec<LogbookEntry> = Vec::new();
    let mut k: usize = 0;
    while k < shown
        invariant
            k <= shown <= order.len(),
            order@ == logbook_order(rows@),
            forall|j: int| 0 <= j < order.len() ==> (#[trigger] order[j]).position < rows.len(),
            all == logbook_by_date(rows@),
            listed@ == all.take(k as int),
        decreases shown - k,
    {
        listed.push(rows[order[k].position].clone());
        k += 1;
    }
    listed
}

/// The place of the timeline row at `position` among the rows of its day:
/// by the time of the event, the earliest first.
pub open spec fn timeline_rank(rows: Seq<TimelineEvent>, position: int) -> Rank {
    Rank { first: rows[position].event_time as i128, second: 0, third: 0, position: position as usize }
}

/// The timeline of a day as a listing: the rows of that date, by rank.
pub struct DayTimeline {
    pub rows: Seq<TimelineEvent>,
    pub date: Seq<char>,
}

impl Listing for DayTimeline {
    open spec fn rows(&self) -> nat {
        self.rows.len()
    }

    open spec fn lists(&self, position: int) -> bool {
        self.rows[position].entry_date@ == self.date
    }

    open spec fn rank(&self, position: int) -> Rank {
        timeline_rank(self.rows, position)
    }

    proof fn lemma_rank_position(&self, position: int) {
    }
}

/// The order in which the timeline of a day is listed.
pub open spec fn timeline_order(rows: Seq<TimelineEvent>, date: Seq<char>) -> Seq<Rank> {
    order_of(DayTimeline { rows, date })
}

/// The timeline of a day: its rows in the order of their events.
pub open spec fn timeline_of(rows: Seq<TimelineEvent>, date: Seq<char>) -> Seq<TimelineEvent> {
    let order = timeline_order(rows, date);
    Seq::new(order.len(), |k: int| rows[order[k].position as int])
}

/// Lists the timeline of the day `date`, the earliest event first.
pub fn list_timeline_events(rows: &Vec<TimelineEvent>, date: &str) -> (listed: Vec<TimelineEvent>)
    ensures
        listed@ == timeline_of(rows@, date@),
{
    let listing: Ghost<DayTimeline> = Ghost(DayTimeline { rows: rows@, date: date@ });
    let mut ranks: Vec<Rank> = Vec::new();
    let mut i: usize = 0;
    while i < rows.len()
        invariant
            i <= rows.len(),
            listing@ == (DayTimeline { rows: rows@, date: date@ }),
            collected(listing@, ranks@, i as int),
        decreases rows.len() - i,
    {
        proof {
            lemma_collect_next(listing@, ranks@, i as int);
        }
        if str_eq(rows[i].entry_date.as_str(), date) {
            ranks.push(Rank { first: rows[i].event_time as i128, second: 0, third: 0, position: i });
        }
        i += 1;
    }
    let order = put_in_order(&ranks, listing);
    let ghost all = timeline_of(rows@, date@);
    let mut listed: Vec<TimelineEvent> = Vec::new();
    let mut k: usize = 0;
    while k < order.len()
        invariant
            k <= order.len(),
            order@ == timeline_order(rows@, date@),
            is_order_of(DayTimeline { rows: rows@, date: date@ }, order@),
            all == timeline_of(rows@, date@),
            listed@ == all.take(k as int),
        decreases order.len() - k,
    {
        listed.push(rows[order[k].position].clone());
        k += 1;
    }
    listed
}

} // verus!
