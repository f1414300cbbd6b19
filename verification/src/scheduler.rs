//! The scheduler: running jobs and keeping the nightly digest scheduled.
//!
//! The scheduler decides; its caller waits, wakes it and talks to the
//! gateway. On each wake the caller asks for the plan, obtains for each due
//! job the answer the job needs, and hands the job back to be run.

use vstd::prelude::*;
use crate::agents::GatewayOutcome;
use crate::clock::{
    DAY_SECONDS, Stamps, calendar_date_at, next_nightly_run, next_nightly_slot, utc_date_string,
};
use crate::digest::{digest_asks, digest_request, digested, perform_daily_digest};
use crate::errors::EngineError;
use crate::jobs::{
    DAILY_DIGEST_JOB, DigestReport, JobPayload, JobResult, JobRow, JobState, PendingJob,
    due_jobs, fetch_due_jobs, is_new_job, jobs_advance, mark_finished, mark_running,
    persist_job, transition_failure,
};
use crate::keyed::{Keyed, holds_key, lemma_holds_key_has_position, lemma_position_of, position_of};
use crate::records::{EventField, EventValue};
use crate::store::{
    Store, Tables, is_event, is_text_field, log_event, names_number, names_text, number_field,
    text_field, worded,
};
use crate::summaries::SummaryRequest;
use crate::summarizer::Summarizer;
use crate::text::str_eq;

verus! {

/// Whether a job is the standing digest job for the slot `slot`: a queued
/// digest job that is to run at that instant.
pub open spec fn is_nightly(job: JobRow, slot: i64) -> bool {
    job.kind@ == DAILY_DIGEST_JOB@ && job.state == JobState::Queued && job.run_at == Some(slot)
}

/// How many standing digest jobs the table holds for the slot `slot`.
pub open spec fn nightly_count(jobs: Seq<JobRow>, slot: i64) -> nat
    decreases jobs.len(),
{
    if jobs.len() == 0 {
        0
    } else {
        nightly_count(jobs.drop_last(), slot) + if is_nightly(jobs.last(), slot) {
            1nat
        } else {
            0nat
        }
    }
}

/// Whether the table holds a standing digest job for the slot `slot`.
pub open spec fn has_nightly(jobs: Seq<JobRow>, slot: i64) -> bool {
    exists|i: int| 0 <= i < jobs.len() && is_nightly(#[trigger] jobs[i], slot)
}

/// A table holds a standing digest job for a slot exactly where it counts
/// at least one.
pub proof fn lemma_nightly_count(jobs: Seq<JobRow>, slot: i64)
    ensures
        has_nightly(jobs, slot) <==> nightly_count(jobs, slot) > 0,
    decreases jobs.len(),
{
    if jobs.len() > 0 {
        let before = jobs.drop_last();
        lemma_nightly_count(before, slot);
        if has_nightly(jobs, slot) {
            let i = choose|i: int| 0 <= i < jobs.len() && is_nightly(#[trigger] jobs[i], slot);
            if i < before.len() {
                assert(is_nightly(before[i], slot));
            }
        }
    }
}

/// Looks for a standing digest job for the slot `slot`.
fn find_nightly(jobs: &Vec<JobRow>, slot: i64) -> (found: bool)
    ensures
        found == has_nightly(jobs@, slot),
{
    let mut i: usize = 0;
    while i < jobs.len()
        invariant
            i <= jobs.len(),
            forall|j: int| 0 <= j < i ==> !is_nightly(#[trigger] jobs@[j], slot),
        decreases jobs.len() - i,
    {
        let job = &jobs[i];
        let queued = match job.state {
            JobState::Queued => true,
            _ => false,
        };
        let at_slot = match job.run_at {
            Some(at) => at == slot,
            None => false,
        };
        if queued && at_slot && str_eq(job.kind.as_str(), DAILY_DIGEST_JOB) {
            return true;
        }
        i += 1;
    }
    false
}

/// The day that the digest of the slot `slot` is about: the day before.
pub open spec fn nightly_date(slot: i64) -> Option<Seq<char>> {
    if slot - DAY_SECONDS >= i64::MIN {
        calendar_date_at((slot - DAY_SECONDS) as i64)
    } else {
        None
    }
}

/// Whether the nightly digest can be scheduled from `now`: its slot and the
/// day before it can be written.
pub open spec fn nightly_plannable(now: i64) -> bool {
    next_nightly_slot(now as int) <= i64::MAX && nightly_date(next_nightly_slot(now as int) as i64)
        is Some
}

/// What keeping the nightly digest scheduled does to the store.
///
/// Where a digest job is queued for the next 02:00 UTC after now, nothing
/// changes. Else one is enqueued for that instant, about the day before it,
/// and an event records it. Where the slot cannot be planned or the job's
/// identifier is taken, the call fails and nothing changes.
pub open spec fn nightly_ensured(
    before: Tables,
    after: Tables,
    result: Result<(), EngineError>,
    stamps: Stamps,
) -> bool {
    let slot = next_nightly_slot(stamps.now as int) as i64;
    if !nightly_plannable(stamps.now) {
        &&& result is Err
        &&& result->Err_0 == EngineError::StoreFailure
        &&& after == before
    } else if has_nightly(before.jobs, slot) {
        &&& result is Ok
        &&& after == before
    } else if holds_key(before.jobs, stamps.nightly_job_id@) {
        &&& result is Err
        &&& result->Err_0 == EngineError::StoreFailure
        &&& after == before
    } else {
        &&& result is Ok
        &&& after.jobs == before.jobs.push(after.jobs.last())
        &&& after.jobs.len() == before.jobs.len() + 1
        &&& after.jobs.last().id == stamps.nightly_job_id
        &&& is_nightly(after.jobs.last(), slot)
        &&& after.jobs.last().payload.date is Some
        &&& after.jobs.last().payload.date.unwrap()@ == nightly_date(slot).unwrap()
        &&& after.jobs.last().result is None
        &&& after.jobs.last().created_at == stamps.now
        &&& after.events.len() == before.events.len() + 1
        &&& after.events.take(before.events.len() as int) == before.events
        &&& is_event(after.events.last(), stamps.now, "info"@, "JOB-200"@, "jobs.scheduler"@)
        &&& worded(
            after.events.last(),
            "Scheduled nightly digest job"@,
            "Will summarise the previous day at 02:00 UTC."@,
        )
        &&& names_text(after.events.last(), "job_id"@, stamps.nightly_job_id@)
        &&& names_number(after.events.last(), "run_at"@, slot as int)
        &&& after == Tables { jobs: after.jobs, events: after.events, ..before }
    }
}

/// Keeps the nightly digest scheduled, see [`nightly_ensured`].
pub fn schedule_next_digest(store: &mut Store, stamps: &Stamps) -> (result: Result<(), EngineError>)
    ensures
        nightly_ensured(old(store)@, final(store)@, result, *stamps),
        jobs_advance(old(store)@.jobs, final(store)@.jobs),
{
    let slot = match next_nightly_run(stamps.now) {
        Some(slot) => slot,
        None => {
            return Err(EngineError::StoreFailure);
        },
    };
    let day_before = match slot.checked_sub(DAY_SECONDS) {
        Some(day_before) => day_before,
        None => {
            return Err(EngineError::StoreFailure);
        },
    };
    let digest_date = match utc_date_string(day_before) {
        Some(date) => date,
        None => {
            return Err(EngineError::StoreFailure);
        },
    };
    if find_nightly(&store.jobs, slot) {
        return Ok(());
    }
    let payload = JobPayload { date: Some(digest_date) };
    let id = match persist_job(
        &mut store.jobs,
        DAILY_DIGEST_JOB,
        payload,
        Some(slot),
        stamps.nightly_job_id.clone(),
        stamps.now,
    ) {
        Ok(id) => id,
        Err(error) => {
            return Err(error);
        },
    };
    let mut data: Vec<EventField> = Vec::new();
    data.push(text_field("job_id", id));
    data.push(number_field("run_at", slot));
    proof {
        assert(is_text_field(data@[0], "job_id"@, stamps.nightly_job_id@));
        assert(data@[1].name@ == "run_at"@);
    }
    log_event(
        &mut store.events,
        stamps.now,
        "info",
        "JOB-200",
        "jobs.scheduler",
        "Scheduled nightly digest job",
        "Will summarise the previous day at 02:00 UTC.",
        data,
    );
    Ok(())
}

/// What running a job gives back.
#[derive(Debug)]
pub struct JobRunResult {
    pub job_id: String,
    pub kind: String,
    pub state: JobState,
    pub result: DigestReport,
}

/// Why running a job gave nothing back.
#[derive(Debug)]
pub enum JobFailure {
    /// The job was not run: it does not exist or is not queued, or it could
    /// not be enqueued. The store is as it was.
    Rejected(EngineError),
    /// The job ran and failed for the reason given; it is recorded as failed.
    Failed(String),
}

/// Whether two reports say the same.
pub open spec fn same_report(a: DigestReport, b: DigestReport) -> bool {
    a.entry_date == b.entry_date && a.logbook == b.logbook && a.timeline@ == b.timeline@
}

/// Copies a report.
pub fn clone_report(report: &DigestReport) -> (copy: DigestReport)
    ensures
        same_report(copy, *report),
{
    let timeline = report.timeline.clone();
    DigestReport {
        entry_date: report.entry_date.clone(),
        logbook: report.logbook.clone(),
        timeline,
    }
}

/// Why a job of a kind that no handler knows fails.
pub open spec fn unknown_kind_message(kind: Seq<char>) -> Seq<char> {
    "unknown job kind: "@ + kind
}

/// What the handler of a job of kind `kind` does to the store: the digest
/// for the digest kind; for any other kind nothing, and a failure.
pub open spec fn handled(
    before: Tables,
    after: Tables,
    outcome: Result<DigestReport, String>,
    kind: Seq<char>,
    payload: JobPayload,
    reply: GatewayOutcome,
    stamps: Stamps,
) -> bool {
    if kind == DAILY_DIGEST_JOB@ {
        digested(before, after, outcome, payload, reply, stamps)
    } else {
        &&& outcome is Err
        &&& outcome->Err_0@ == unknown_kind_message(kind)
        &&& after == before
    }
}

/// Whether the row `row` and the result `result` record the outcome
/// `outcome` of a job.
pub open spec fn records_outcome(
    row: JobRow,
    result: Result<JobRunResult, JobFailure>,
    outcome: Result<DigestReport, String>,
    id: Seq<char>,
    kind: Seq<char>,
) -> bool {
    match outcome {
        Ok(report) => {
            &&& row.state == JobState::Succeeded
            &&& row.result == Some(JobResult::Report(report))
            &&& result is Ok
            &&& result.unwrap().job_id@ == id
            &&& result.unwrap().kind@ == kind
            &&& result.unwrap().state == JobState::Succeeded
            &&& same_report(result.unwrap().result, report)
        },
        Err(message) => {
            &&& row.state == JobState::Failed
            &&& row.result == Some(JobResult::Error(message))
            &&& result is Err
            &&& result->Err_0 is Failed
            &&& result->Err_0->Failed_0@ == message@
        },
    }
}

/// What running the job `id` does to the store.
///
/// A job that does not exist or is not queued is rejected, and nothing
/// changes. Else the job is taken to running, its handler runs, and the job
/// is taken to succeeded with the handler's report or to failed with the
/// handler's reason: one of the two, and it stays there.
pub open spec fn job_ran(
    before: Tables,
    after: Tables,
    result: Result<JobRunResult, JobFailure>,
    id: Seq<char>,
    kind: Seq<char>,
    payload: JobPayload,
    reply: GatewayOutcome,
    stamps: Stamps,
) -> bool {
    match transition_failure(before.jobs, id, JobState::Queued) {
        Some(error) => {
            &&& result is Err
            &&& result->Err_0 == JobFailure::Rejected(error)
            &&& after == before
        },
        None => {
            let at = position_of(before.jobs, id);
            let running = JobRow {
                state: JobState::Running,
                updated_at: stamps.now,
                ..before.jobs[at]
            };
            let started = Tables { jobs: before.jobs.update(at, running), ..before };
            &&& after.jobs.len() == before.jobs.len()
            &&& after.jobs == before.jobs.update(at, after.jobs[at])
            &&& after.jobs[at].id == before.jobs[at].id
            &&& after.jobs[at].kind == before.jobs[at].kind
            &&& after.jobs[at].payload == before.jobs[at].payload
            &&& after.jobs[at].run_at == before.jobs[at].run_at
            &&& after.jobs[at].created_at == before.jobs[at].created_at
            &&& after.jobs[at].updated_at == stamps.now
            &&& exists|outcome: Result<DigestReport, String>|
                {
                    &&& #[trigger] handled(
                        started,
                        Tables { jobs: started.jobs, ..after },
                        outcome,
                        kind,
                        payload,
                        reply,
                        stamps,
                    )
                    &&& records_outcome(after.jobs[at], result, outcome, id, kind)
                }
        },
    }
}

/// Runs the handler of a job.
fn handle_job(
    store: &mut Store,
    kind: &str,
    payload: &JobPayload,
    reply: &GatewayOutcome,
    stamps: &Stamps,
) -> (outcome: Result<DigestReport, String>)
    ensures
        handled(old(store)@, final(store)@, outcome, kind@, *payload, *reply, *stamps),
        final(store)@.jobs == old(store)@.jobs,
{
    if str_eq(kind, DAILY_DIGEST_JOB) {
        let outcome = perform_daily_digest(store, payload, reply, stamps);
        outcome
    } else {
        let mut message = "unknown job kind: ".to_owned();
        message.append(kind);
        Err(message)
    }
}

/// Runs a queued job to its end, see [`job_ran`].
///
/// `reply` is what the gateway answered to the request of [`job_request`]
/// for the same job.
pub fn run_job(
    store: &mut Store,
    id: &str,
    kind: &str,
    payload: &JobPayload,
    reply: &GatewayOutcome,
    stamps: &Stamps,
) -> (result: Result<JobRunResult, JobFailure>)
    ensures
        job_ran(old(store)@, final(store)@, result, id@, kind@, *payload, *reply, *stamps),
        jobs_advance(old(store)@.jobs, final(store)@.jobs),
{
    match mark_running(&mut store.jobs, id, stamps.now) {
        Ok(()) => {},
        Err(error) => {
            return Err(JobFailure::Rejected(error));
        },
    }
    let ghost started = store@;
    let ghost at = position_of(old(store)@.jobs, id@);
    proof {
        lemma_holds_key_has_position(old(store)@.jobs, id@);
        lemma_position_of(started.jobs, id@, at);
    }
    let outcome = handle_job(store, kind, payload, reply, stamps);
    let (finished, result) = match outcome {
        Ok(report) => {
            let copy = clone_report(&report);
            (
                mark_finished(&mut store.jobs, id, JobResult::Report(report), stamps.now),
                Ok(
                    JobRunResult {
                        job_id: id.to_owned(),
                        kind: kind.to_owned(),
                        state: JobState::Succeeded,
                        result: copy,
                    },
                ),
            )
        },
        Err(message) => {
            let copy = message.clone();
            (
                mark_finished(&mut store.jobs, id, JobResult::Error(message), stamps.now),
                Err(JobFailure::Failed(copy)),
            )
        },
    };
    match finished {
        Ok(()) => {},
        Err(error) => {
            return Err(JobFailure::Rejected(error));
        },
    }
    proof {
        let after = store@;
        assert(after.jobs =~= old(store)@.jobs.update(at, after.jobs[at]));
    }
    result
}

/// Whether `request` is what a job of kind `kind` asks of the gateway in
/// the store `tables`: what its digest asks, and nothing for any other kind.
pub open spec fn job_asks(
    tables: Tables,
    kind: Seq<char>,
    payload: JobPayload,
    now: i64,
    request: Option<SummaryRequest>,
) -> bool {
    if kind == DAILY_DIGEST_JOB@ {
        digest_asks(tables, payload, now, request)
    } else {
        request is None
    }
}

/// The store with one more job.
pub open spec fn with_job(tables: Tables, row: JobRow) -> Tables {
    Tables { jobs: tables.jobs.push(row), ..tables }
}

/// Builds the request to send to the gateway before [`run_job`] runs a job
/// of kind `kind`, see [`job_asks`].
pub fn job_request(store: &Store, kind: &str, payload: &JobPayload, now: i64) -> (request: Option<
    SummaryRequest,
>)
    ensures
        job_asks(store@, kind@, *payload, now, request),
{
    if str_eq(kind, DAILY_DIGEST_JOB) {
        digest_request(store, payload, now)
    } else {
        None
    }
}

/// The instant for which a job that is run now is enqueued.
pub open spec fn run_time(stamps: Stamps) -> Option<i64> {
    Some(stamps.now)
}

/// What running a job at once does to the store.
///
/// The job is enqueued under the job identifier of the stamps; where that
/// is taken, the job is rejected and nothing changes. Else the store goes
/// through three steps: the job is enqueued for now, it is run, and the
/// nightly digest is kept scheduled, whether or not the job succeeded.
pub open spec fn ran_now(
    before: Tables,
    after: Tables,
    result: Result<JobRunResult, JobFailure>,
    kind: Seq<char>,
    payload: JobPayload,
    reply: GatewayOutcome,
    stamps: Stamps,
) -> bool {
    if holds_key(before.jobs, stamps.job_id@) {
        &&& result is Err
        &&& result->Err_0 == JobFailure::Rejected(EngineError::StoreFailure)
        &&& after == before
    } else {
        exists|queued: Tables, ran: Tables, scheduled: Result<(), EngineError>|
            {
                &&& queued == with_job(before, queued.jobs.last())
                &&& is_new_job(
                    queued.jobs.last(),
                    stamps.job_id,
                    kind,
                    payload,
                    run_time(stamps),
                    stamps.now,
                )
                &&& #[trigger] job_ran(queued, ran, result, stamps.job_id@, kind, payload, reply, stamps)
                &&& #[trigger] nightly_ensured(ran, after, scheduled, stamps)
            }
    }
}

/// What wakes the scheduler.
#[derive(Clone, Copy, Debug, PartialEq, Eq, Structural)]
pub enum Wake {
    /// Work was announced.
    Signal,
    /// A minute has passed.
    Tick,
}

/// What the scheduler is to do on a wake.
#[derive(Debug)]
pub struct WakePlan {
    /// The jobs to run, one after the other, in this order.
    pub due: Vec<PendingJob>,
    /// Whether the nightly digest is to be scheduled after the jobs.
    pub ensure_nightly: bool,
}

/// The scheduler, bound to the summariser whose store holds the jobs.
#[derive(Debug)]
pub struct JobScheduler {
    pub summarizer: Summarizer,
}

impl JobScheduler {
    /// Binds a scheduler to a summariser.
    pub fn new(summarizer: Summarizer) -> (scheduler: JobScheduler)
        ensures
            scheduler.summarizer == summarizer,
    {
        JobScheduler { summarizer }
    }

    /// Enqueues a job to run at `run_at`. Fails, changing nothing, where the
    /// identifier of the stamps is taken.
    pub fn enqueue_at(
        &mut self,
        kind: &str,
        payload: JobPayload,
        run_at: i64,
        stamps: &Stamps,
    ) -> (result: Result<String, EngineError>)
        ensures
            result is Err <==> holds_key(old(self).summarizer.store@.jobs, stamps.job_id@),
            result is Err ==> result->Err_0 == EngineError::StoreFailure,
            result is Err ==> final(self).summarizer.store@ == old(self).summarizer.store@,
            result is Ok ==> {
                let before = old(self).summarizer.store@;
                let after = final(self).summarizer.store@;
                &&& result.unwrap() == stamps.job_id
                &&& after == Tables { jobs: before.jobs.push(after.jobs.last()), ..before }
                &&& is_new_job(
                    after.jobs.last(),
                    stamps.job_id,
                    kind@,
                    payload,
                    Some(run_at),
                    stamps.now,
                )
            },
    {
        persist_job(
            &mut self.summarizer.store.jobs,
            kind,
            payload,
            Some(run_at),
            stamps.job_id.clone(),
            stamps.now,
        )
    }

    /// Keeps the nightly digest scheduled, see [`nightly_ensured`].
    pub fn ensure_nightly_digest_schedule(&mut self, stamps: &Stamps) -> (result: Result<
        (),
        EngineError,
    >)
        ensures
            nightly_ensured(
                old(self).summarizer.store@,
                final(self).summarizer.store@,
                result,
                *stamps,
            ),
    {
        schedule_next_digest(&mut self.summarizer.store, stamps)
    }

    /// Plans a wake: the jobs that are due at `now`, in dispatch order, and
    /// whether the nightly digest is to be scheduled, which is on every tick
    /// and on no other wake.
    pub fn plan_wake(&self, wake: Wake, now: i64) -> (plan: WakePlan)
        ensures
            plan.ensure_nightly == (wake == Wake::Tick),
            plan.due.len() == due_jobs(self.summarizer.store@.jobs, now).len(),
            forall|k: int|
                0 <= k < plan.due.len() ==> #[trigger] plan.due[k] == due_jobs(
                    self.summarizer.store@.jobs,
                    now,
                )[k].as_pending(),
    {
        let due = fetch_due_jobs(&self.summarizer.store.jobs, now);
        let ensure_nightly = match wake {
            Wake::Tick => true,
            Wake::Signal => false,
        };
        WakePlan { due, ensure_nightly }
    }

    /// Builds the request to send to the gateway before a job that was
    /// found due is run, see [`job_asks`].
    pub fn job_request(&self, job: &PendingJob, now: i64) -> (request: Option<SummaryRequest>)
        ensures
            job_asks(self.summarizer.store@, job.kind@, job.payload, now, request),
    {
        job_request(&self.summarizer.store, job.kind.as_str(), &job.payload, now)
    }

    /// Builds the request to send to the gateway before
    /// [`JobScheduler::run_now`] with the same arguments: what the job asks
    /// once it is enqueued. The store is left as it was.
    pub fn run_now_request(
        &mut self,
        kind: &str,
        payload: &JobPayload,
        stamps: &Stamps,
    ) -> (request: Option<SummaryRequest>)
        ensures
            final(self).summarizer.store@ == old(self).summarizer.store@,
            holds_key(old(self).summarizer.store@.jobs, stamps.job_id@) ==> request is None,
            !holds_key(old(self).summarizer.store@.jobs, stamps.job_id@) ==> exists|row: JobRow|
                {
                    &&& is_new_job(
                        row,
                        stamps.job_id,
                        kind@,
                        *payload,
                        Some(stamps.now),
                        stamps.now,
                    )
                    &&& #[trigger] job_asks(
                        with_job(old(self).summarizer.store@, row),
                        kind@,
                        *payload,
                        stamps.now,
                        request,
                    )
                },
    {
        match persist_job(
            &mut self.summarizer.store.jobs,
            kind,
            payload.clone(),
            Some(stamps.now),
            stamps.job_id.clone(),
            stamps.now,
        ) {
            Ok(_) => {},
            Err(_) => {
                return None;
            },
        }
        let ghost queued = self.summarizer.store@;
        let request = job_request(&self.summarizer.store, kind, payload, stamps.now);
        self.summarizer.store.jobs.pop();
        proof {
            assert(self.summarizer.store@.jobs =~= old(self).summarizer.store@.jobs);
            assert(job_asks(
                with_job(old(self).summarizer.store@, queued.jobs.last()),
                kind@,
                *payload,
                stamps.now,
                request,
            ));
        }
        request
    }

    /// Runs a job that was found due, see [`job_ran`]. A job that fails is
    /// recorded as failed; the scheduler goes on with the next.
    pub fn run_existing_job(
        &mut self,
        job: &PendingJob,
        reply: &GatewayOutcome,
        stamps: &Stamps,
    ) -> (result: Result<JobRunResult, JobFailure>)
        ensures
            job_ran(
                old(self).summarizer.store@,
                final(self).summarizer.store@,
                result,
                job.id@,
                job.kind@,
                job.payload,
                *reply,
                *stamps,
            ),
    {
        run_job(
            &mut self.summarizer.store,
            job.id.as_str(),
            job.kind.as_str(),
            &job.payload,
            reply,
            stamps,
        )
    }

    /// Enqueues a job for now, runs it at once and keeps the nightly digest
    /// scheduled afterwards, see [`ran_now`].
    pub fn run_now(
        &mut self,
        kind: &str,
        payload: JobPayload,
        reply: &GatewayOutcome,
        stamps: &Stamps,
    ) -> (result: Result<JobRunResult, JobFailure>)
        ensures
            ran_now(
                old(self).summarizer.store@,
                final(self).summarizer.store@,
                result,
                kind@,
                payload,
                *reply,
                *stamps,
            ),
    {
        let copy = payload.clone();
        match persist_job(
            &mut self.summarizer.store.jobs,
            kind,
            payload,
            Some(stamps.now),
            stamps.job_id.clone(),
            stamps.now,
        ) {
            Ok(_) => {},
            Err(error) => {
                return Err(JobFailure::Rejected(error));
            },
        }
        let result = run_job(
            &mut self.summarizer.store,
            stamps.job_id.as_str(),
            kind,
            &copy,
            reply,
            stamps,
        );
        let _ = schedule_next_digest(&mut self.summarizer.store, stamps);
        result
    }
}

} // verus!
