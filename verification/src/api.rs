//! The operations as the user interface asks for them.

use vstd::prelude::*;
use crate::agents::GatewayOutcome;
use crate::clock::{Stamps, calendar_date_at, utc_date_string};
use crate::errors::EngineError;
use crate::jobs::{DAILY_DIGEST_JOB, JobPayload, JobRow, JobState};
use crate::keyed::{find_row, holds_key, position_of};
use crate::records::{AppendResult, SummaryRecord};
use crate::rollover::rollover_excerpts;
use crate::scheduler::{JobFailure, JobRunResult, JobScheduler, job_asks, ran_now, with_job};
use crate::store::Tables;
use crate::summaries::{SummaryRequest, is_cached, is_summary_request, summary_obtained, summary_prompt};
use crate::store::config_of;
use crate::summarizer::{Summarizer, appended};
use crate::hashing::content_hash;
use crate::text::{str_eq, views};

verus! {

/// A request to append a message to a conversation.
#[derive(Debug)]
pub struct ChatAppendInput {
    pub conversation_id: String,
    pub content: String,
    /// The role of the message; `user` where absent.
    pub role: Option<String>,
}

impl ChatAppendInput {
    /// The role under which the message is stored.
    pub open spec fn role_text(self) -> Seq<char> {
        match self.role {
            Some(role) => role@,
            None => "user"@,
        }
    }

    /// The role under which the message is stored.
    pub fn role_name(&self) -> (role: &str)
        ensures
            role@ == self.role_text(),
    {
        match &self.role {
            Some(role) => role.as_str(),
            None => "user",
        }
    }
}

/// Appends the message of `input`, under the role `user` where it names
/// none, see [`appended`].
pub fn chat_append_and_maybe_rollover(
    summarizer: &mut Summarizer,
    input: &ChatAppendInput,
    reply: &GatewayOutcome,
    stamps: &Stamps,
) -> (result: Result<AppendResult, EngineError>)
    ensures
        appended(
            old(summarizer).store@,
            final(summarizer).store@,
            result,
            input.conversation_id@,
            input.role_text(),
            input.content@,
            *reply,
            *stamps,
        ),
{
    summarizer.append_and_maybe_rollover(
        input.conversation_id.as_str(),
        input.role_name(),
        input.content.as_str(),
        reply,
        stamps,
    )
}

/// A request to summarise a note, a conversation or a day.
#[derive(Debug)]
pub struct AiSummarizeInput {
    pub target_type: String,
    pub target_id: String,
}

/// Why a request of the user interface failed.
#[derive(Debug)]
pub enum ApiError {
    /// The engine refused.
    Engine(EngineError),
    /// Summaries are made of notes, conversations and days only; the text
    /// names what was asked for instead.
    UnsupportedTarget(String),
}

/// What a summary of a note is made from: its title as a heading, then its
/// body.
pub open spec fn note_text(title: Seq<char>, body: Seq<char>) -> Seq<char> {
    "# "@ + title + "\n\n"@ + body
}

/// What is wrong with a target, if anything: its type is unknown, or what
/// it names does not exist.
pub open spec fn target_failure(
    tables: Tables,
    target_type: Seq<char>,
    target_id: Seq<char>,
) -> Option<EngineError> {
    if target_type == "note"@ {
        if holds_key(tables.notes, target_id) {
            None
        } else {
            Some(EngineError::NotFound)
        }
    } else if target_type == "conversation"@ {
        if holds_key(tables.conversations, target_id) {
            None
        } else {
            Some(EngineError::NotFound)
        }
    } else if target_type == "day"@ {
        if holds_key(tables.logbook, target_id) {
            None
        } else {
            Some(EngineError::NotFound)
        }
    } else {
        None
    }
}

/// Whether summaries are made of targets of the type `target_type`.
pub open spec fn target_supported(target_type: Seq<char>) -> bool {
    target_type == "note"@ || target_type == "conversation"@ || target_type == "day"@
}

/// The excerpt set of a target: the text of a note, the tail of a
/// conversation, the logbook entry of a day.
pub open spec fn target_texts(tables: Tables, target_type: Seq<char>, target_id: Seq<char>) -> Seq<
    Seq<char>,
> {
    if target_type == "note"@ {
        let note = tables.notes[position_of(tables.notes, target_id)];
        seq![note_text(note.title@, note.body@)]
    } else if target_type == "conversation"@ {
        rollover_excerpts(tables, target_id, None)
    } else {
        seq![tables.logbook[position_of(tables.logbook, target_id)].summary@]
    }
}

/// What summarising a target does to the store: nothing where the target is
/// not supported or does not exist; else its summary is found in the cache
/// or stored.
pub open spec fn target_summarised(
    before: Tables,
    after: Tables,
    result: Result<SummaryRecord, ApiError>,
    target_type: Seq<char>,
    target_id: Seq<char>,
    reply: GatewayOutcome,
    stamps: Stamps,
) -> bool {
    if !target_supported(target_type) {
        &&& result is Err
        &&& result->Err_0 is UnsupportedTarget
        &&& result->Err_0->UnsupportedTarget_0@ == "Unsupported summary target: "@ + target_type
        &&& after == before
    } else if target_failure(before, target_type, target_id) is Some {
        &&& result is Err
        &&& result->Err_0 == ApiError::Engine(target_failure(before, target_type, target_id).unwrap())
        &&& after == before
    } else {
        &&& summary_obtained(
            before.summaries,
            after.summaries,
            before.events,
            after.events,
            engine_result(result),
            target_type,
            target_id,
            target_texts(before, target_type, target_id),
            reply,
            stamps.summary_id,
            stamps.now,
        )
        &&& result is Err ==> result->Err_0 is Engine
        &&& after == Tables { summaries: after.summaries, events: after.events, ..before }
    }
}

/// The result of the engine behind a result of the interface.
pub open spec fn engine_result(result: Result<SummaryRecord, ApiError>) -> Result<
    SummaryRecord,
    EngineError,
> {
    match result {
        Ok(summary) => Ok(summary),
        Err(ApiError::Engine(error)) => Err(error),
        Err(ApiError::UnsupportedTarget(_)) => Err(EngineError::NotFound),
    }
}

/// Builds the one excerpt of a note.
fn note_excerpt(title: &str, body: &str) -> (text: String)
    ensures
        text@ == note_text(title@, body@),
{
    let mut text = "# ".to_owned();
    text.append(title);
    text.append("\n\n");
    text.append(body);
    text
}

/// Summarises the target that `input` names, see [`target_summarised`].
pub fn ai_summarize(
    summarizer: &mut Summarizer,
    input: &AiSummarizeInput,
    reply: &GatewayOutcome,
    stamps: &Stamps,
) -> (result: Result<SummaryRecord, ApiError>)
    ensures
        target_summarised(
            old(summarizer).store@,
            final(summarizer).store@,
            result,
            input.target_type@,
            input.target_id@,
            *reply,
            *stamps,
        ),
{
    let target_type = input.target_type.as_str();
    let target_id = input.target_id.as_str();
    let summary = if str_eq(target_type, "note") {
        let content = match find_row(&summarizer.store.notes, target_id) {
            Some(at) => note_excerpt(
                summarizer.store.notes[at].title.as_str(),
                summarizer.store.notes[at].body.as_str(),
            ),
            None => {
                return Err(ApiError::Engine(EngineError::NotFound));
            },
        };
        summarizer.summarise("note", target_id, content.as_str(), reply, stamps)
    } else if str_eq(target_type, "conversation") {
        summarizer.summarise_conversation(target_id, reply, stamps)
    } else if str_eq(target_type, "day") {
        let content = match find_row(&summarizer.store.logbook, target_id) {
            Some(at) => summarizer.store.logbook[at].summary.clone(),
            None => {
                return Err(ApiError::Engine(EngineError::NotFound));
            },
        };
        summarizer.summarise("day", target_id, content.as_str(), reply, stamps)
    } else {
        let mut message = "Unsupported summary target: ".to_owned();
        message.append(target_type);
        return Err(ApiError::UnsupportedTarget(message));
    };
    match summary {
        Ok(summary) => Ok(summary),
        Err(error) => Err(ApiError::Engine(error)),
    }
}

/// Builds the request to send to the gateway before [`ai_summarize`] with
/// the same input; `None` where no answer is needed: the target is not
/// supported or does not exist, or its summary is cached.
pub fn ai_summarize_request(summarizer: &Summarizer, input: &AiSummarizeInput) -> (request: Option<
    SummaryRequest,
>)
    ensures
        request is Some <==> target_supported(input.target_type@) && target_failure(
            summarizer.store@,
            input.target_type@,
            input.target_id@,
        ) is None && !is_cached(
            summarizer.store@.summaries,
            input.target_type@,
            input.target_id@,
            content_hash(target_texts(summarizer.store@, input.target_type@, input.target_id@)),
        ),
        request is Some ==> is_summary_request(
            request.unwrap(),
            summary_prompt(target_texts(summarizer.store@, input.target_type@, input.target_id@)),
            config_of(summarizer.store@.settings).summarizer_model,
        ),
{
    let target_type = input.target_type.as_str();
    let target_id = input.target_id.as_str();
    if str_eq(target_type, "note") {
        match find_row(&summarizer.store.notes, target_id) {
            Some(at) => {
                let mut excerpts: Vec<String> = Vec::new();
                excerpts.push(
                    note_excerpt(
                        summarizer.store.notes[at].title.as_str(),
                        summarizer.store.notes[at].body.as_str(),
                    ),
                );
                assert(views(excerpts@) =~= target_texts(
                    summarizer.store@,
                    input.target_type@,
                    input.target_id@,
                ));
                summarizer.summarise_request("note", target_id, &excerpts)
            },
            None => None,
        }
    } else if str_eq(target_type, "conversation") {
        summarizer.rollover_request(target_id)
    } else if str_eq(target_type, "day") {
        match find_row(&summarizer.store.logbook, target_id) {
            Some(at) => {
                let mut excerpts: Vec<String> = Vec::new();
                excerpts.push(summarizer.store.logbook[at].summary.clone());
                assert(views(excerpts@) =~= target_texts(
                    summarizer.store@,
                    input.target_type@,
                    input.target_id@,
                ));
                summarizer.summarise_request("day", target_id, &excerpts)
            },
            None => None,
        }
    } else {
        None
    }
}

/// Whether today has no logbook entry yet, so that its digest is due.
pub open spec fn today_digest_due(tables: Tables, now: i64) -> bool {
    calendar_date_at(now) is Some && !holds_key(tables.logbook, calendar_date_at(now).unwrap())
}

/// What making sure that today has a digest does to the store.
///
/// Where today has a logbook entry, nothing happens. Else the digest of
/// today is run at once. Where today's date cannot be written, the call is
/// rejected.
pub open spec fn today_ensured(
    before: Tables,
    after: Tables,
    result: Result<Option<JobRunResult>, JobFailure>,
    reply: GatewayOutcome,
    stamps: Stamps,
) -> bool {
    if calendar_date_at(stamps.now) is None {
        &&& result is Err
        &&& result->Err_0 == JobFailure::Rejected(EngineError::StoreFailure)
        &&& after == before
    } else if !today_digest_due(before, stamps.now) {
        &&& result is Ok
        &&& result.unwrap() is None
        &&& after == before
    } else {
        exists|payload: JobPayload|
            {
                &&& payload.date is Some
                &&& payload.date.unwrap()@ == calendar_date_at(stamps.now).unwrap()
                &&& #[trigger] ran_now(
                    before,
                    after,
                    flattened(result),
                    DAILY_DIGEST_JOB@,
                    payload,
                    reply,
                    stamps,
                )
                &&& result is Ok ==> result.unwrap() is Some
            }
    }
}

/// The result of the job behind a result that may hold none.
pub open spec fn flattened(result: Result<Option<JobRunResult>, JobFailure>) -> Result<
    JobRunResult,
    JobFailure,
> {
    match result {
        Ok(Some(ran)) => Ok(ran),
        Ok(None) => Err(JobFailure::Rejected(EngineError::NotFound)),
        Err(failure) => Err(failure),
    }
}

/// Runs the digest of today unless today has a logbook entry, see
/// [`today_ensured`].
pub fn ensure_today_digest(
    scheduler: &mut JobScheduler,
    reply: &GatewayOutcome,
    stamps: &Stamps,
) -> (result: Result<Option<JobRunResult>, JobFailure>)
    ensures
        today_ensured(
            old(scheduler).summarizer.store@,
            final(scheduler).summarizer.store@,
            result,
            *reply,
            *stamps,
        ),
{
    let today = match utc_date_string(stamps.now) {
        Some(today) => today,
        None => {
            return Err(JobFailure::Rejected(EngineError::StoreFailure));
        },
    };
    if find_row(&scheduler.summarizer.store.logbook, today.as_str()).is_some() {
        return Ok(None);
    }
    match scheduler.run_now(DAILY_DIGEST_JOB, JobPayload { date: Some(today) }, reply, stamps) {
        Ok(ran) => {
            let result: Result<Option<JobRunResult>, JobFailure> = Ok(Some(ran));
            result
        },
        Err(failure) => {
            let result: Result<Option<JobRunResult>, JobFailure> = Err(failure);
            result
        },
    }
}

/// Builds the request to send to the gateway before
/// [`ensure_today_digest`]: what the digest of today asks once it is
/// enqueued, and nothing where today has a logbook entry. The store is left
/// as it was.
pub fn today_digest_request(scheduler: &mut JobScheduler, stamps: &Stamps) -> (request: Option<
    SummaryRequest,
>)
    ensures
        final(scheduler).summarizer.store@ == old(scheduler).summarizer.store@,
        !today_digest_due(old(scheduler).summarizer.store@, stamps.now) ==> request is None,
        holds_key(old(scheduler).summarizer.store@.jobs, stamps.job_id@) ==> request is None,
        today_digest_due(old(scheduler).summarizer.store@, stamps.now) && !holds_key(
            old(scheduler).summarizer.store@.jobs,
            stamps.job_id@,
        ) ==> exists|row: JobRow|
            {
                &&& row.id == stamps.job_id
                &&& row.kind@ == DAILY_DIGEST_JOB@
                &&& row.state == JobState::Queued
                &&& row.payload.date is Some
                &&& row.payload.date.unwrap()@ == calendar_date_at(stamps.now).unwrap()
                &&& row.created_at == stamps.now
                &&& #[trigger] job_asks(
                    with_job(old(scheduler).summarizer.store@, row),
                    DAILY_DIGEST_JOB@,
                    row.payload,
                    stamps.now,
                    request,
                )
            },
{
    let today = match utc_date_string(stamps.now) {
        Some(today) => today,
        None => {
            return None;
        },
    };
    if find_row(&scheduler.summarizer.store.logbook, today.as_str()).is_some() {
        return None;
    }
    let payload = JobPayload { date: Some(today) };
    scheduler.run_now_request(DAILY_DIGEST_JOB, &payload, stamps)
}

} // verus!
