//! The durable job queue.

use vstd::prelude::*;
use crate::errors::EngineError;
use crate::journal::{LogbookEntry, TimelineEvent};
use crate::keyed::{Keyed, find_row, holds_key, position_of};
use crate::ranking::{
    Listing, Rank, collected, is_order_of, lemma_collect_next, lemma_order_unique, order_of,
    put_in_order,
};

verus! {

/// The kind of the daily digest job.
pub const DAILY_DIGEST_JOB: &'static str = "workspace.daily_digest";

/// Where a job is in its life. A job only ever moves forward: from queued to
/// running, and from running to succeeded or failed.
#[derive(Clone, Copy, Debug, PartialEq, Eq, Structural)]
pub enum JobState {
    Queued,
    Running,
    Succeeded,
    Failed,
}

/// What a job is asked to work on.
#[derive(Debug)]
pub struct JobPayload {
    /// The day the job is about, written `YYYY-MM-DD`; today where absent.
    pub date: Option<String>,
}

impl Clone for JobPayload {
    fn clone(&self) -> (copy: Self)
        ensures
            copy == *self,
    {
        JobPayload { date: self.date.clone() }
    }
}

/// What the digest of a day produced.
#[derive(Debug)]
pub struct DigestReport {
    pub entry_date: String,
    pub logbook: LogbookEntry,
    pub timeline: Vec<TimelineEvent>,
}

/// What a finished job left behind.
#[derive(Debug)]
pub enum JobResult {
    /// The job succeeded with this report.
    Report(DigestReport),
    /// The job failed for this reason.
    Error(String),
}

/// A row of the job table. Rows are never removed.
#[derive(Debug)]
pub struct JobRow {
    pub id: String,
    pub kind: String,
    pub state: JobState,
    pub payload: JobPayload,
    /// When the job is to run; as soon as it is dispatched where absent.
    pub run_at: Option<i64>,
    pub result: Option<JobResult>,
    pub created_at: i64,
    pub updated_at: i64,
}

impl Keyed for JobRow {
    open spec fn key(&self) -> Seq<char> {
        self.id@
    }

    fn key_text(&self) -> (text: &str) {
        self.id.as_str()
    }
}

/// A job that is due, as the dispatcher sees it.
#[derive(Debug)]
pub struct PendingJob {
    pub id: String,
    pub kind: String,
    pub payload: JobPayload,
}

impl JobRow {
    /// Whether the job is waiting and its time has come: it is queued, and it
    /// has no run time or one that is not after `now`.
    pub open spec fn is_due(self, now: i64) -> bool {
        self.state == JobState::Queued && (match self.run_at {
            Some(at) => at <= now,
            None => true,
        })
    }

    /// The job as the dispatcher sees it.
    pub open spec fn as_pending(self) -> PendingJob {
        PendingJob { id: self.id, kind: self.kind, payload: self.payload }
    }
}

impl JobState {
    /// How far a job has come: 0 queued, 1 running, 2 finished.
    pub open spec fn progress(self) -> int {
        match self {
            JobState::Queued => 0,
            JobState::Running => 1,
            JobState::Succeeded => 2,
            JobState::Failed => 2,
        }
    }

    /// Whether a job in this state may be found in state `next` later: it
    /// stays, or moves from queued to running or to an end, or from running
    /// to an end. Nothing leaves an end.
    pub open spec fn leads_to(self, next: JobState) -> bool {
        self == next || self.progress() < next.progress()
    }

    /// The name of the state as it is shown.
    pub open spec fn name(self) -> Seq<char> {
        match self {
            JobState::Queued => "queued"@,
            JobState::Running => "running"@,
            JobState::Succeeded => "succeeded"@,
            JobState::Failed => "failed"@,
        }
    }

    /// The name of the state as it is shown.
    pub fn as_str(&self) -> (name: &'static str)
        ensures
            name@ == self.name(),
    {
        match self {
            JobState::Queued => "queued",
            JobState::Running => "running",
            JobState::Succeeded => "succeeded",
            JobState::Failed => "failed",
        }
    }
}

/// Whether the job table `after` is a later form of `before`: no row is
/// gone, no row changed its identity, and no job went back.
pub open spec fn jobs_advance(before: Seq<JobRow>, after: Seq<JobRow>) -> bool {
    &&& before.len() <= after.len()
    &&& forall|i: int|
        0 <= i < before.len() ==> {
            &&& (#[trigger] after[i]).id == before[i].id
            &&& after[i].kind == before[i].kind
            &&& after[i].payload == before[i].payload
            &&& after[i].run_at == before[i].run_at
            &&& after[i].created_at == before[i].created_at
            &&& before[i].state.leads_to(after[i].state)
        }
}

/// Whether `row` is the row that enqueuing a job makes.
pub open spec fn is_new_job(
    row: JobRow,
    id: String,
    kind: Seq<char>,
    payload: JobPayload,
    run_at: Option<i64>,
    now: i64,
) -> bool {
    &&& row.id == id
    &&& row.kind@ == kind
    &&& row.state == JobState::Queued
    &&& row.payload == payload
    &&& row.run_at == run_at
    &&& row.result is None
    &&& row.created_at == now
    &&& row.updated_at == now
}

/// Enqueues a job: appends a queued row. Fails, changing nothing, where the
/// identifier is taken.
pub fn persist_job(
    jobs: &mut Vec<JobRow>,
    kind: &str,
    payload: JobPayload,
    run_at: Option<i64>,
    id: String,
    now: i64,
) -> (result: Result<String, EngineError>)
    ensures
        result is Err <==> holds_key(old(jobs)@, id@),
        result is Err ==> result->Err_0 == EngineError::StoreFailure && final(jobs)@ == old(jobs)@,
        result is Ok ==> {
            &&& result.unwrap() == id
            &&& final(jobs)@ == old(jobs)@.push(final(jobs)@.last())
            &&& final(jobs)@.len() == old(jobs)@.len() + 1
            &&& is_new_job(final(jobs)@.last(), id, kind@, payload, run_at, now)
        },
        jobs_advance(old(jobs)@, final(jobs)@),
{
    if find_row(jobs, id.as_str()).is_some() {
        return Err(EngineError::StoreFailure);
    }
    let row = JobRow {
        id: id.clone(),
        kind: kind.to_owned(),
        state: JobState::Queued,
        payload,
        run_at,
        result: None,
        created_at: now,
        updated_at: now,
    };
    jobs.push(row);
    Ok(id)
}

/// The place of the job at `position` among the due jobs: jobs without a
/// run time first, then by run time, then by creation time, then by
/// position in the table.
pub open spec fn job_rank(jobs: Seq<JobRow>, position: int) -> Rank {
    let job = jobs[position];
    Rank {
        first: if job.run_at is None {
            0
        } else {
            1
        },
        second: match job.run_at {
            Some(at) => at as i128,
            None => 0,
        },
        third: job.created_at as i128,
        position: position as usize,
    }
}

/// The due jobs as a listing: the jobs that are due at `now`, by rank.
pub struct DueJobs {
    pub jobs: Seq<JobRow>,
    pub now: i64,
}

impl Listing for DueJobs {
    open spec fn rows(&self) -> nat {
        self.jobs.len()
    }

    open spec fn lists(&self, position: int) -> bool {
        self.jobs[position].is_due(self.now)
    }

    open spec fn rank(&self, position: int) -> Rank {
        job_rank(self.jobs, position)
    }

    proof fn lemma_rank_position(&self, position: int) {
    }
}

/// The order in which the due jobs are dispatched.
pub open spec fn due_order(jobs: Seq<JobRow>, now: i64) -> Seq<Rank> {
    order_of(DueJobs { jobs, now })
}

/// The due jobs in the order in which they are dispatched.
pub open spec fn due_jobs(jobs: Seq<JobRow>, now: i64) -> Seq<JobRow> {
    let order = due_order(jobs, now);
    Seq::new(order.len(), |k: int| jobs[order[k].position as int])
}

/// Computes the order in which the due jobs are dispatched.
fn order_due(jobs: &Vec<JobRow>, now: i64) -> (order: Vec<Rank>)
    ensures
        is_order_of(DueJobs { jobs: jobs@, now }, order@),
        order@ == due_order(jobs@, now),
{
    let listing: Ghost<DueJobs> = Ghost(DueJobs { jobs: jobs@, now });
    let mut ranks: Vec<Rank> = Vec::new();
    let mut i: usize = 0;
    while i < jobs.len()
        invariant
            i <= jobs.len(),
            listing@ == (DueJobs { jobs: jobs@, now }),
            collected(listing@, ranks@, i as int),
        decreases jobs.len() - i,
    {
        proof {
            lemma_collect_next(listing@, ranks@, i as int);
        }
        let job = &jobs[i];
        let due = match job.state {
            JobState::Queued => match job.run_at {
                Some(at) => at <= now,
                None => true,
            },
            _ => false,
        };
        if due {
            ranks.push(
                Rank {
                    first: if job.run_at.is_none() {
                        0
                    } else {
                        1
                    },
                    second: match job.run_at {
                        Some(at) => at as i128,
                        None => 0,
                    },
                    third: job.created_at as i128,
                    position: i,
                },
            );
        }
        i += 1;
    }
    put_in_order(&ranks, listing)
}

/// Lists the jobs that are due at `now`, in the order in which they are to
/// be dispatched: jobs without a run time first, then by ascending run time,
/// then in the order of their creation.
pub fn fetch_due_jobs(jobs: &Vec<JobRow>, now: i64) -> (due: Vec<PendingJob>)
    ensures
        is_order_of(DueJobs { jobs: jobs@, now }, due_order(jobs@, now)),
        due.len() == due_jobs(jobs@, now).len(),
        forall|k: int| 0 <= k < due.len() ==> #[trigger] due[k] == due_jobs(jobs@, now)[k].as_pending(),
        forall|k: int|
            0 <= k < due.len() ==> (#[trigger] due_jobs(jobs@, now)[k]).is_due(now),
        forall|a: int, b: int|
            0 <= a < b < due.len() && (#[trigger] due_jobs(jobs@, now)[b]).run_at is None ==> (
            #[trigger] due_jobs(jobs@, now)[a]).run_at is None,
{
    let order = order_due(jobs, now);
    let ghost listed = due_jobs(jobs@, now);
    let mut due: Vec<PendingJob> = Vec::new();
    let mut k: usize = 0;
    while k < order.len()
        invariant
            k <= order.len(),
            order@ == due_order(jobs@, now),
            is_order_of(DueJobs { jobs: jobs@, now }, order@),
            listed == due_jobs(jobs@, now),
            due.len() == k,
            forall|j: int| 0 <= j < k ==> #[trigger] due[j] == listed[j].as_pending(),
        decreases order.len() - k,
    {
        let job = &jobs[order[k].position];
        due.push(
            PendingJob {
                id: job.id.clone(),
                kind: job.kind.clone(),
                payload: job.payload.clone(),
            },
        );
        k += 1;
    }
    due
}

/// Why a job cannot be taken from `from` to its next state, if it cannot.
pub open spec fn transition_failure(jobs: Seq<JobRow>, id: Seq<char>, from: JobState) -> Option<
    EngineError,
> {
    if !holds_key(jobs, id) {
        Some(EngineError::NotFound)
    } else if jobs[position_of(jobs, id)].state != from {
        Some(EngineError::StoreFailure)
    } else {
        None
    }
}

/// Starts a job: takes it from queued to running. Fails, changing nothing,
/// where the job does not exist or is not queued.
pub fn mark_running(jobs: &mut Vec<JobRow>, id: &str, now: i64) -> (result: Result<
    (),
    EngineError,
>)
    ensures
        result is Err <==> transition_failure(old(jobs)@, id@, JobState::Queued) is Some,
        result is Err ==> Some(result->Err_0) == transition_failure(
            old(jobs)@,
            id@,
            JobState::Queued,
        ) && final(jobs)@ == old(jobs)@,
        result is Ok ==> final(jobs)@ == old(jobs)@.update(
            position_of(old(jobs)@, id@),
            JobRow {
                state: JobState::Running,
                updated_at: now,
                ..old(jobs)@[position_of(old(jobs)@, id@)]
            },
        ),
        jobs_advance(old(jobs)@, final(jobs)@),
{
    let at = match find_row(jobs, id) {
        Some(at) => at,
        None => {
            return Err(EngineError::NotFound);
        },
    };
    match jobs[at].state {
        JobState::Queued => {},
        _ => {
            return Err(EngineError::StoreFailure);
        },
    }
    jobs[at].state = JobState::Running;
    jobs[at].updated_at = now;
    Ok(())
}

/// Ends a running job: takes it to succeeded or failed, as `result` says,
/// and stores the result. Fails, changing nothing, where the job does not
/// exist or is not running.
pub fn mark_finished(jobs: &mut Vec<JobRow>, id: &str, outcome: JobResult, now: i64) -> (result:
    Result<(), EngineError>)
    ensures
        result is Err <==> transition_failure(old(jobs)@, id@, JobState::Running) is Some,
        result is Err ==> Some(result->Err_0) == transition_failure(
            old(jobs)@,
            id@,
            JobState::Running,
        ) && final(jobs)@ == old(jobs)@,
        result is Ok ==> final(jobs)@ == old(jobs)@.update(
            position_of(old(jobs)@, id@),
            JobRow {
                state: end_state(outcome),
                result: Some(outcome),
                updated_at: now,
                ..old(jobs)@[position_of(old(jobs)@, id@)]
            },
        ),
        jobs_advance(old(jobs)@, final(jobs)@),
{
    let at = match find_row(jobs, id) {
        Some(at) => at,
        None => {
            return Err(EngineError::NotFound);
        },
    };
    match jobs[at].state {
        JobState::Running => {},
        _ => {
            return Err(EngineError::StoreFailure);
        },
    }
    jobs[at].state = match &outcome {
        JobResult::Report(_) => JobState::Succeeded,
        JobResult::Error(_) => JobState::Failed,
    };
    jobs[at].result = Some(outcome);
    jobs[at].updated_at = now;
    Ok(())
}

/// The state in which a job ends with `outcome`.
pub open spec fn end_state(outcome: JobResult) -> JobState {
    match outcome {
        JobResult::Report(_) => JobState::Succeeded,
        JobResult::Error(_) => JobState::Failed,
    }
}

/// Why a job that was found running at start-up is recorded as failed.
pub const ABANDONED: &'static str = "abandoned: the process ended while the job was running";

/// Whether `after` is the row `before` once abandoned jobs were swept: a
/// running job has failed, for the reason [`ABANDONED`]; any other job is as
/// it was.
pub open spec fn is_swept(before: JobRow, after: JobRow, now: i64) -> bool {
    if before.state == JobState::Running {
        &&& after.state == JobState::Failed
        &&& after.result matches Some(JobResult::Error(reason)) && reason@ == ABANDONED@
        &&& after.updated_at == now
        &&& after.id == before.id
        &&& after.kind == before.kind
        &&& after.payload == before.payload
        &&& after.run_at == before.run_at
        &&& after.created_at == before.created_at
    } else {
        after == before
    }
}

/// How many of `jobs` are running.
pub open spec fn running_count(jobs: Seq<JobRow>) -> nat
    decreases jobs.len(),
{
    if jobs.len() == 0 {
        0
    } else {
        running_count(jobs.drop_last()) + if jobs.last().state == JobState::Running {
            1nat
        } else {
            0nat
        }
    }
}

/// Ends the jobs that a process left running when it stopped: each is
/// recorded as failed. A job is never put back in the queue, so that no job
/// is ever seen in an earlier state than before. Returns how many were ended:
/// the number of jobs that were running.
pub fn sweep_abandoned(jobs: &mut Vec<JobRow>, now: i64) -> (swept: usize)
    ensures
        final(jobs)@.len() == old(jobs)@.len(),
        forall|i: int|
            0 <= i < old(jobs)@.len() ==> is_swept(old(jobs)@[i], #[trigger] final(jobs)@[i], now),
        jobs_advance(old(jobs)@, final(jobs)@),
        swept == running_count(old(jobs)@),
        running_count(final(jobs)@) == 0,
{
    let mut swept: usize = 0;
    let mut i: usize = 0;
    while i < jobs.len()
        invariant
            i <= jobs.len(),
            swept == running_count(old(jobs)@.take(i as int)),
            running_count(jobs@.take(i as int)) == 0,
            swept <= i,
            jobs@.len() == old(jobs)@.len(),
            forall|k: int| i <= k < jobs@.len() ==> #[trigger] jobs@[k] == old(jobs)@[k],
            forall|k: int| 0 <= k < i ==> is_swept(old(jobs)@[k], #[trigger] jobs@[k], now),
            jobs_advance(old(jobs)@, jobs@),
        decreases jobs.len() - i,
    {
        let ghost done = jobs@.take(i as int);
        let running = match jobs[i].state {
            JobState::Running => true,
            _ => false,
        };
        if running {
            jobs[i].state = JobState::Failed;
            jobs[i].result = Some(JobResult::Error(ABANDONED.to_owned()));
            jobs[i].updated_at = now;
            swept += 1;
        }
        proof {
            assert(old(jobs)@.take(i + 1).drop_last() == old(jobs)@.take(i as int));
            assert(jobs@.take(i + 1).drop_last() == done);
        }
        i += 1;
    }
    proof {
        assert(old(jobs)@.take(i as int) == old(jobs)@);
        assert(jobs@.take(i as int) == jobs@);
    }
    swept
}

} // verus!
