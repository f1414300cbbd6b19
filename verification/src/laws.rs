//! What holds of the engine across calls.

use vstd::prelude::*;
use crate::agents::GatewayOutcome;
use crate::clock::Stamps;
use crate::conversations::{closed, is_new_message, lemma_row_changes, token_total, touched};
use crate::clock::{DAY_SECONDS, NIGHTLY_OFFSET_SECONDS, next_nightly_slot};
use crate::errors::EngineError;
use crate::jobs::{DueJobs, JobRow, JobState, due_jobs, jobs_advance};
use crate::ranking::{Rank, is_order_of, lemma_order_unique};
use crate::scheduler::{
    has_nightly, is_nightly, lemma_nightly_count, nightly_count, nightly_ensured,
    nightly_plannable,
};
use crate::keyed::{Keyed, distinct_keys, holds_key, lemma_holds_key_has_position, position_of};
use crate::records::{
    AppendResult, EventRow, MessageRecord, RolloverOutcome, SummaryRecord, SummaryRow,
};
use crate::rollover::{rolled_over, rollover_failure};
use crate::store::Tables;
use crate::summaries::{
    cache_keys_distinct, cache_position, count_about, is_cache_hit, is_cached, summary_obtained,
    versions_dense,
};
use crate::summarizer::{appended, appended_with, forces, warns, with_message};
use crate::hashing::content_hash;

verus! {

/// Whether the store `after` continues the history of `before`: every
/// conversation is still there, no flag was cleared, no message was changed
/// or removed, and no message was added to a conversation that was closed.
pub open spec fn history_kept(before: Tables, after: Tables) -> bool {
    &&& before.conversations.len() <= after.conversations.len()
    &&& forall|i: int|
        0 <= i < before.conversations.len() ==> {
            &&& (#[trigger] after.conversations[i]).id == before.conversations[i].id
            &&& before.conversations[i].ctx_force ==> after.conversations[i].ctx_force
            &&& before.conversations[i].ctx_warn ==> after.conversations[i].ctx_warn
        }
    &&& before.messages.len() <= after.messages.len()
    &&& forall|j: int|
        0 <= j < before.messages.len() ==> #[trigger] after.messages[j] == before.messages[j]
    &&& forall|i: int, j: int|
        0 <= i < before.conversations.len() && before.messages.len() <= j < after.messages.len()
            && (#[trigger] before.conversations[i]).ctx_force ==> (#[trigger] after.messages[j]).conversation_id@
            != before.conversations[i].id@
}

/// Touching and flagging a conversation keep every identifier and every
/// force flag where they are, and clear no warn flag.
proof fn lemma_staged_rows(
    before: Tables,
    message: MessageRecord,
    conversation: Seq<char>,
    flagged: bool,
    now: i64,
)
    ensures
        with_message(before, message, conversation, flagged, now).conversations.len()
            == before.conversations.len(),
        forall|i: int|
            0 <= i < before.conversations.len() ==> {
                let row = #[trigger] with_message(
                    before,
                    message,
                    conversation,
                    flagged,
                    now,
                ).conversations[i];
                &&& row.id == before.conversations[i].id
                &&& row.ctx_force == before.conversations[i].ctx_force
                &&& before.conversations[i].ctx_warn ==> row.ctx_warn
            },
{
    let rows = before.conversations;
    if holds_key(rows, conversation) {
        lemma_holds_key_has_position(rows, conversation);
        let at = position_of(rows, conversation);
        lemma_row_changes(
            touched(rows, conversation, now),
            conversation,
            now,
            at,
        );
    }
}

/// A rollover keeps the history: the source is closed and stays closed, and
/// the one message it adds goes to the new conversation.
pub proof fn lemma_rollover_keeps_history(
    before: Tables,
    after: Tables,
    outcome: RolloverOutcome,
    conversation: Seq<char>,
    pending: Option<(Seq<char>, Seq<char>)>,
    reply: GatewayOutcome,
    stamps: Stamps,
)
    requires
        rollover_failure(before, conversation, pending, stamps) is None,
        rolled_over(before, after, outcome, conversation, pending, reply, stamps),
    ensures
        history_kept(before, after),
        after.conversations[position_of(before.conversations, conversation)].ctx_force,
        distinct_keys(before.conversations) ==> distinct_keys(after.conversations),
{
    let rows = before.conversations;
    lemma_holds_key_has_position(rows, conversation);
    assert forall|i: int| 0 <= i < rows.len() implies {
        &&& (#[trigger] after.conversations[i]).id == rows[i].id
        &&& rows[i].ctx_force ==> after.conversations[i].ctx_force
        &&& rows[i].ctx_warn ==> after.conversations[i].ctx_warn
    } by {
    }
}

/// Appending keeps the history: a closed conversation takes no message, and
/// a flag that was set stays set.
pub proof fn lemma_append_keeps_history(
    before: Tables,
    after: Tables,
    result: Result<AppendResult, EngineError>,
    conversation: Seq<char>,
    role: Seq<char>,
    body: Seq<char>,
    reply: GatewayOutcome,
    stamps: Stamps,
)
    requires
        distinct_keys(before.conversations),
        appended(before, after, result, conversation, role, body, reply, stamps),
    ensures
        history_kept(before, after),
        distinct_keys(after.conversations),
        holds_key(before.conversations, conversation) && before.conversations[position_of(
            before.conversations,
            conversation,
        )].ctx_force ==> result is Err && result->Err_0 == EngineError::AlreadyClosed && after
            == before,
{
    if holds_key(before.conversations, conversation) && !before.conversations[position_of(
        before.conversations,
        conversation,
    )].ctx_force {
        lemma_holds_key_has_position(before.conversations, conversation);
        let at = position_of(before.conversations, conversation);
        let message = choose|message: MessageRecord|
            {
                &&& is_new_message(message, stamps.message_id, conversation, role, body, stamps.now)
                &&& #[trigger] appended_with(
                    before,
                    after,
                    result,
                    message,
                    conversation,
                    role,
                    body,
                    reply,
                    stamps,
                )
            };
        if result is Ok {
            let source = before.conversations[at];
            let total = token_total(before.messages, conversation)
                + message.tokens();
            let flagged = warns(before, source, total);
            let staged = with_message(before, message, conversation, flagged, stamps.now);
            lemma_staged_rows(before, message, conversation, flagged, stamps.now);
            if forces(before, source, total) {
                let noted = before.events.len() + if flagged {
                    1int
                } else {
                    0int
                };
                let mid = Tables { events: after.events.take(noted), ..staged };
                let outcome = RolloverOutcome {
                    rolled: true,
                    new_conversation: result.unwrap().new_conversation,
                    summary: result.unwrap().summary,
                };
                lemma_rollover_keeps_history(
                    mid,
                    after,
                    outcome,
                    conversation,
                    Some((role, body)),
                    reply,
                    stamps,
                );
                lemma_history_kept_transitive_step(before, mid, after);
            }
        }
    }
}

/// The history that is kept over one step and then over another is kept
/// over both, where the first step closed no conversation.
proof fn lemma_history_kept_transitive_step(a: Tables, b: Tables, c: Tables)
    requires
        history_kept(a, b),
        history_kept(b, c),
        a.conversations.len() == b.conversations.len(),
        forall|i: int|
            0 <= i < a.conversations.len() ==> (#[trigger] b.conversations[i]).ctx_force
                == a.conversations[i].ctx_force,
    ensures
        history_kept(a, c),
{
    assert forall|i: int| 0 <= i < a.conversations.len() implies {
        &&& (#[trigger] c.conversations[i]).id == a.conversations[i].id
        &&& a.conversations[i].ctx_force ==> c.conversations[i].ctx_force
        &&& a.conversations[i].ctx_warn ==> c.conversations[i].ctx_warn
    } by {
    }
    assert forall|i: int, j: int|
        0 <= i < a.conversations.len() && a.messages.len() <= j < c.messages.len() && (
        #[trigger] a.conversations[i]).ctx_force implies (#[trigger] c.messages[j]).conversation_id@
        != a.conversations[i].id@ by {
        assert(b.conversations[i].id == a.conversations[i].id);
    }
}

/// Keeping the history is transitive: over any run of steps no conversation
/// is reopened and no closed conversation gains a message. A conversation's
/// force flag therefore goes from unset to set at most once.
pub proof fn lemma_history_kept_transitive(a: Tables, b: Tables, c: Tables)
    requires
        history_kept(a, b),
        history_kept(b, c),
    ensures
        history_kept(a, c),
{
    assert forall|i: int| 0 <= i < a.conversations.len() implies {
        &&& (#[trigger] c.conversations[i]).id == a.conversations[i].id
        &&& a.conversations[i].ctx_force ==> c.conversations[i].ctx_force
        &&& a.conversations[i].ctx_warn ==> c.conversations[i].ctx_warn
    } by {
    }
    assert forall|i: int, j: int|
        0 <= i < a.conversations.len() && a.messages.len() <= j < c.messages.len() && (
        #[trigger] a.conversations[i]).ctx_force implies (#[trigger] c.messages[j]).conversation_id@
        != a.conversations[i].id@ by {
        if j >= b.messages.len() {
            assert(c.messages[j].conversation_id@ != b.conversations[i].id@);
        }
    }
}

/// A summary that was obtained is in the cache from then on.
pub proof fn lemma_summary_is_cached(
    before: Seq<SummaryRow>,
    after: Seq<SummaryRow>,
    events_before: Seq<EventRow>,
    events_after: Seq<EventRow>,
    summary: SummaryRecord,
    target_type: Seq<char>,
    target_id: Seq<char>,
    excerpts: Seq<Seq<char>>,
    reply: GatewayOutcome,
    id: String,
    now: i64,
)
    requires
        summary_obtained(
            before,
            after,
            events_before,
            events_after,
            Ok(summary),
            target_type,
            target_id,
            excerpts,
            reply,
            id,
            now,
        ),
    ensures
        is_cached(after, target_type, target_id, content_hash(excerpts)),
        holds_key(after, summary.id@),
{
    let hash = content_hash(excerpts);
    if is_cached(before, target_type, target_id, hash) {
        let i = choose|i: int|
            0 <= i < before.len() && (#[trigger] before[i]).matches_key(target_type, target_id, hash);
        lemma_cache_hit_exists(before, target_type, target_id, hash, before.len() as int);
    }
}

/// Where a summary is cached, a lookup finds a row.
pub proof fn lemma_cache_hit_exists(
    rows: Seq<SummaryRow>,
    target_type: Seq<char>,
    target_id: Seq<char>,
    hash: Seq<char>,
    upto: int,
)
    requires
        0 <= upto <= rows.len(),
        exists|i: int| 0 <= i < upto && (#[trigger] rows[i]).matches_key(target_type, target_id, hash),
    ensures
        exists|i: int| is_cache_hit(rows.take(upto), target_type, target_id, hash, i),
        upto == rows.len() ==> is_cache_hit(
            rows,
            target_type,
            target_id,
            hash,
            cache_position(rows, target_type, target_id, hash),
        ),
    decreases upto,
{
    let head = rows.take(upto);
    let shorter = rows.take(upto - 1);
    let last = rows[upto - 1];
    if exists|i: int| 0 <= i < upto - 1 && (#[trigger] rows[i]).matches_key(target_type, target_id, hash) {
        lemma_cache_hit_exists(rows, target_type, target_id, hash, upto - 1);
        let best = choose|i: int| is_cache_hit(shorter, target_type, target_id, hash, i);
        if last.matches_key(target_type, target_id, hash) && last.version > shorter[best].version {
            assert(is_cache_hit(head, target_type, target_id, hash, upto - 1)) by {
                assert forall|j: int|
                    0 <= j < head.len() && (#[trigger] head[j]).matches_key(
                        target_type,
                        target_id,
                        hash,
                    ) implies {
                    ||| head[j].version < head[upto - 1].version
                    ||| head[j].version == head[upto - 1].version && upto - 1 <= j
                } by {
                }
            }
        } else {
            assert(is_cache_hit(head, target_type, target_id, hash, best)) by {
                assert forall|j: int|
                    0 <= j < head.len() && (#[trigger] head[j]).matches_key(
                        target_type,
                        target_id,
                        hash,
                    ) implies {
                    ||| head[j].version < head[best].version
                    ||| head[j].version == head[best].version && best <= j
                } by {
                }
            }
        }
    } else {
        assert(is_cache_hit(head, target_type, target_id, hash, upto - 1)) by {
            assert forall|j: int|
                0 <= j < head.len() && (#[trigger] head[j]).matches_key(
                    target_type,
                    target_id,
                    hash,
                ) implies {
                ||| head[j].version < head[upto - 1].version
                ||| head[j].version == head[upto - 1].version && upto - 1 <= j
            } by {
            }
        }
    }
    if upto == rows.len() {
        assert(head == rows);
    }
}

/// Summarising the same content of the same subject twice generates once:
/// the second call returns the summary of the first, marked as reused, and
/// stores nothing. In a cache whose keys are distinct, the two have the same
/// identifier.
pub proof fn lemma_summarised_once(
    start: Seq<SummaryRow>,
    once: Seq<SummaryRow>,
    twice: Seq<SummaryRow>,
    events: Seq<EventRow>,
    events_once: Seq<EventRow>,
    events_twice: Seq<EventRow>,
    first: SummaryRecord,
    second: Result<SummaryRecord, EngineError>,
    target_type: Seq<char>,
    target_id: Seq<char>,
    excerpts: Seq<Seq<char>>,
    first_reply: GatewayOutcome,
    second_reply: GatewayOutcome,
    first_id: String,
    second_id: String,
    first_now: i64,
    second_now: i64,
)
    requires
        cache_keys_distinct(start),
        summary_obtained(
            start,
            once,
            events,
            events_once,
            Ok(first),
            target_type,
            target_id,
            excerpts,
            first_reply,
            first_id,
            first_now,
        ),
        summary_obtained(
            once,
            twice,
            events_once,
            events_twice,
            second,
            target_type,
            target_id,
            excerpts,
            second_reply,
            second_id,
            second_now,
        ),
    ensures
        second is Ok,
        second.unwrap().reused,
        second.unwrap().id == first.id,
        second.unwrap().version == first.version,
        twice == once,
        events_twice == events_once,
{
    let hash = content_hash(excerpts);
    lemma_cache_hit_exists(once, target_type, target_id, hash, once.len() as int);
}

/// In a table of dense versions the summaries of a subject carry the
/// versions 1, 2, 3, ... in the order in which they were stored: a later
/// summary of the subject has a higher version, and the first has version 1.
pub proof fn lemma_versions_ascend(rows: Seq<SummaryRow>, i: int, j: int)
    requires
        versions_dense(rows),
        0 <= i < j < rows.len(),
        rows[j].is_about(rows[i].target_type@, rows[i].target_id@),
    ensures
        1 <= rows[i].version < rows[j].version,
        rows[j].version <= j + 1,
{
    let t = rows[i].target_type@;
    let s = rows[i].target_id@;
    lemma_count_about_grows(rows, t, s, 0, j);
    assert(rows.take(i + 1).drop_last() == rows.take(i));
    lemma_count_about_grows(rows, t, s, i + 1, j);
}

/// The count of a subject's summaries grows with the table, by at most one
/// for each row.
pub proof fn lemma_count_about_grows(
    rows: Seq<SummaryRow>,
    target_type: Seq<char>,
    target_id: Seq<char>,
    i: int,
    j: int,
)
    requires
        0 <= i <= j <= rows.len(),
    ensures
        count_about(rows.take(i), target_type, target_id) <= count_about(
            rows.take(j),
            target_type,
            target_id,
        ) <= count_about(rows.take(i), target_type, target_id) + (j - i),
    decreases j - i,
{
    if i < j {
        lemma_count_about_grows(rows, target_type, target_id, i, j - 1);
        assert(rows.take(j).drop_last() == rows.take(j - 1));
    }
}

/// Among the due jobs none is to run after `now`, and the jobs without a
/// run time come before all that have one.
pub proof fn lemma_due_jobs_in_time(jobs: Seq<JobRow>, now: i64, order: Seq<Rank>)
    requires
        is_order_of(DueJobs { jobs, now }, order),
    ensures
        due_jobs(jobs, now).len() == order.len(),
        forall|k: int|
            0 <= k < order.len() ==> (#[trigger] due_jobs(jobs, now)[k]).state == JobState::Queued
                && (due_jobs(jobs, now)[k].run_at is Some ==> due_jobs(jobs, now)[k].run_at.unwrap()
                <= now),
        forall|a: int, b: int|
            0 <= a < b < order.len() && (#[trigger] due_jobs(jobs, now)[b]).run_at is None ==> (
            #[trigger] due_jobs(jobs, now)[a]).run_at is None,
        forall|a: int, b: int|
            0 <= a < b < order.len() && (#[trigger] due_jobs(jobs, now)[a]).run_at is Some ==> (
            #[trigger] due_jobs(jobs, now)[b]).run_at is Some && due_jobs(
                jobs,
                now,
            )[a].run_at.unwrap() <= due_jobs(jobs, now)[b].run_at.unwrap(),
{
    lemma_order_unique(DueJobs { jobs, now }, order);
}

/// A job table that is a later form of a later form is a later form: no job
/// is ever found in an earlier state than it was seen in.
pub proof fn lemma_jobs_advance_transitive(a: Seq<JobRow>, b: Seq<JobRow>, c: Seq<JobRow>)
    requires
        jobs_advance(a, b),
        jobs_advance(b, c),
    ensures
        jobs_advance(a, c),
{
    assert forall|i: int| 0 <= i < a.len() implies {
        &&& (#[trigger] c[i]).id == a[i].id
        &&& c[i].kind == a[i].kind
        &&& c[i].payload == a[i].payload
        &&& c[i].run_at == a[i].run_at
        &&& c[i].created_at == a[i].created_at
        &&& a[i].state.leads_to(c[i].state)
    } by {
    }
}

/// Scheduling is idempotent: once the nightly digest was scheduled for a
/// slot, scheduling it again for the same slot changes nothing, and the slot
/// holds exactly one digest job where it held none before.
pub proof fn lemma_nightly_idempotent(
    start: Tables,
    once: Tables,
    twice: Tables,
    first: Stamps,
    second: Stamps,
)
    requires
        nightly_ensured(start, once, Ok(()), first),
        nightly_plannable(second.now),
        next_nightly_slot(first.now as int) == next_nightly_slot(second.now as int),
    ensures
        nightly_ensured(once, twice, Ok(()), second) ==> twice == once,
        !nightly_ensured(once, twice, Err(EngineError::StoreFailure), second),
        !has_nightly(start.jobs, next_nightly_slot(first.now as int) as i64) ==> nightly_count(
            once.jobs,
            next_nightly_slot(first.now as int) as i64,
        ) == 1,
        nightly_count(once.jobs, next_nightly_slot(first.now as int) as i64) >= 1,
{
    let slot = next_nightly_slot(first.now as int) as i64;
    lemma_nightly_count(start.jobs, slot);
    if !has_nightly(start.jobs, slot) {
        assert(once.jobs.drop_last() == start.jobs);
    }
}

/// The slot is after `now`, at most a day away, and falls on 02:00 UTC.
pub proof fn lemma_next_nightly_slot(now: int)
    ensures
        now < next_nightly_slot(now) <= now + DAY_SECONDS,
        next_nightly_slot(now) % (DAY_SECONDS as int) == NIGHTLY_OFFSET_SECONDS,
{
}

/// No instant that falls on 02:00 UTC lies between `now` and its slot.
pub proof fn lemma_next_nightly_slot_is_first(now: int, t: int)
    requires
        now < t,
        t % (DAY_SECONDS as int) == NIGHTLY_OFFSET_SECONDS,
    ensures
        next_nightly_slot(now) <= t,
{
}

} // verus!
