//! Time and identity: the two things an operation takes from its surroundings.
//!
//! Every operation of the library that creates rows receives the instant and
//! the identifiers it may use in a [`Stamps`] value, so that what it does is a
//! function of its arguments. [`Stamps::draw`] is the one place where the clock
//! is read and identifiers are generated.

use vstd::prelude::*;

verus! {

/// Seconds in a day.
pub const DAY_SECONDS: i64 = 86_400;

/// Seconds from midnight to the nightly slot, 02:00.
pub const NIGHTLY_OFFSET_SECONDS: i64 = 7_200;

/// The calendar date (UTC), written `YYYY-MM-DD`, on which the Unix timestamp
/// `timestamp` falls; `None` outside the range of dates that can be written.
pub uninterp spec fn calendar_date_at(timestamp: i64) -> Option<Seq<char>>;

/// The Unix timestamp of midnight (UTC) at the start of the date that `text`
/// writes as `YYYY-MM-DD`; `None` where `text` is no such date.
pub uninterp spec fn midnight_of_date(text: Seq<char>) -> Option<i64>;

/// `time::OffsetDateTime::now_utc().unix_timestamp()`: the current time in
/// seconds since the Unix epoch. Nothing is claimed of the value.
#[verifier::external_body]
fn unix_now() -> i64 {
    time::OffsetDateTime::now_utc().unix_timestamp()
}

/// How many characters an identifier has: 32 hexadecimal digits in five
/// groups, with a hyphen between neighbours.
pub const ID_LENGTH: usize = 36;

/// `uuid::Uuid::new_v4().to_string()`: a random identifier in hyphenated
/// form, which has 36 characters. Nothing else is claimed of the value, not
/// even that it differs from earlier ones.
#[verifier::external_body]
fn fresh_id() -> (id: String)
    ensures
        id@.len() == ID_LENGTH,
{
    uuid::Uuid::new_v4().to_string()
}

/// `time::OffsetDateTime::from_unix_timestamp`, then `date()` and its
/// `Display`: the UTC date of a timestamp, `None` where the crate reports the
/// timestamp as out of range. The text is a function of the timestamp alone.
#[verifier::external_body]
pub(crate) fn utc_date_string(timestamp: i64) -> (date: Option<String>)
    ensures
        date is Some <==> calendar_date_at(timestamp) is Some,
        date is Some ==> date.unwrap()@ == calendar_date_at(timestamp).unwrap(),
{
    match time::OffsetDateTime::from_unix_timestamp(timestamp) {
        Ok(moment) => Some(moment.date().to_string()),
        Err(_) => None,
    }
}

/// `time::Date::parse` with the description `[year]-[month]-[day]`, then
/// midnight of that date in UTC as a Unix timestamp; `None` where the crate
/// rejects the text. The result is a function of the text alone.
#[verifier::external_body]
pub(crate) fn parse_date_midnight(text: &str) -> (midnight: Option<i64>)
    ensures
        midnight == midnight_of_date(text@),
{
    let format = match time::format_description::parse_borrowed::<1>("[year]-[month]-[day]") {
        Ok(format) => format,
        Err(_) => return None,
    };
    match time::Date::parse(text, &format) {
        Ok(date) => Some(date.midnight().assume_utc().unix_timestamp()),
        Err(_) => None,
    }
}

/// The instant and the fresh identifiers that one operation may use.
///
/// Which identifier goes to which row is fixed by the field names; an
/// operation ignores the fields it has no use for.
pub struct Stamps {
    /// The current time, in seconds since the Unix epoch.
    pub now: i64,
    /// For a message appended to a conversation.
    pub message_id: String,
    /// For a summary that has to be generated.
    pub summary_id: String,
    /// For a conversation that is created.
    pub conversation_id: String,
    /// For the message that carries a summary into a new conversation.
    pub continuity_message_id: String,
    /// For a job that is enqueued.
    pub job_id: String,
    /// For the standing nightly digest job.
    pub nightly_job_id: String,
    /// For a logbook entry that is created.
    pub logbook_id: String,
    /// For the timeline row of the logbook capture.
    pub timeline_logbook_id: String,
    /// For the timeline row of the notes count.
    pub timeline_notes_id: String,
    /// For the timeline row of the AI activity.
    pub timeline_ai_id: String,
    /// For the timeline row of the alerts.
    pub timeline_alerts_id: String,
}

impl Stamps {
    /// Whether every identifier has the length of a generated one.
    pub open spec fn well_shaped(self) -> bool {
        &&& self.message_id@.len() == ID_LENGTH
        &&& self.summary_id@.len() == ID_LENGTH
        &&& self.conversation_id@.len() == ID_LENGTH
        &&& self.continuity_message_id@.len() == ID_LENGTH
        &&& self.job_id@.len() == ID_LENGTH
        &&& self.nightly_job_id@.len() == ID_LENGTH
        &&& self.logbook_id@.len() == ID_LENGTH
        &&& self.timeline_logbook_id@.len() == ID_LENGTH
        &&& self.timeline_notes_id@.len() == ID_LENGTH
        &&& self.timeline_ai_id@.len() == ID_LENGTH
        &&& self.timeline_alerts_id@.len() == ID_LENGTH
    }

    /// Reads the clock once and generates one identifier for each field.
    /// The instant and the identifiers are whatever the clock and the
    /// generator give; only the shape of the identifiers is known.
    pub fn draw() -> (stamps: Stamps)
        ensures
            stamps.well_shaped(),
    {
        Stamps {
            now: unix_now(),
            message_id: fresh_id(),
            summary_id: fresh_id(),
            conversation_id: fresh_id(),
            continuity_message_id: fresh_id(),
            job_id: fresh_id(),
            nightly_job_id: fresh_id(),
            logbook_id: fresh_id(),
            timeline_logbook_id: fresh_id(),
            timeline_notes_id: fresh_id(),
            timeline_ai_id: fresh_id(),
            timeline_alerts_id: fresh_id(),
        }
    }
}

/// The first instant strictly after `now` that is 02:00 UTC on some day.
pub open spec fn next_nightly_slot(now: int) -> int {
    let today = now - now % (DAY_SECONDS as int) + NIGHTLY_OFFSET_SECONDS as int;
    if now >= today {
        today + DAY_SECONDS as int
    } else {
        today
    }
}

/// Computes the next nightly slot after `now`; `None` where it would lie
/// beyond the largest timestamp.
pub fn next_nightly_run(now: i64) -> (slot: Option<i64>)
    ensures
        slot is Some <==> next_nightly_slot(now as int) <= i64::MAX,
        slot is Some ==> slot.unwrap() == next_nightly_slot(now as int),
{
    let wide: i128 = now as i128;
    let within: i128 = match wide.checked_rem_euclid(86_400) {
        Some(r) => r,
        None => {
            return None;
        },
    };
    let today: i128 = wide - within + 7_200;
    let slot: i128 = if wide >= today {
        today + 86_400
    } else {
        today
    };
    if slot <= i64::MAX as i128 {
        Some(slot as i64)
    } else {
        None
    }
}

} // verus!
