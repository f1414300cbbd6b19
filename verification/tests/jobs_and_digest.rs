use inkos_core::agents::{AiChatResponse, GatewayOutcome};
use inkos_core::clock::{next_nightly_run, Stamps};
use inkos_core::digest::{
    build_fact_lines, fallback_summary, gather_facts, perform_daily_digest, plural, preview,
    rebuild_timeline, resolve_entry_date, upsert_logbook_entry,
};
use inkos_core::errors::EngineError;
use inkos_core::jobs::{
    fetch_due_jobs, mark_finished, mark_running, persist_job, sweep_abandoned, JobPayload,
    JobResult, JobState, DAILY_DIGEST_JOB,
};
use inkos_core::journal::{NoteRow, TimelineEvent};
use inkos_core::records::{EventRow, EventValue};
use inkos_core::scheduler::{schedule_next_digest, JobFailure, JobScheduler, Wake};
use inkos_core::store::Store;
use inkos_core::summarizer::Summarizer;

/// 2024-01-05 00:00:00 UTC.
const DAY: i64 = 1_704_412_800;

fn stamps(tag: &str, now: i64) -> Stamps {
    Stamps {
        now,
        message_id: format!("msg-{tag}"),
        summary_id: format!("sum-{tag}"),
        conversation_id: format!("conv-{tag}"),
        continuity_message_id: format!("cont-{tag}"),
        job_id: format!("job-{tag}"),
        nightly_job_id: format!("nightly-{tag}"),
        logbook_id: format!("log-{tag}"),
        timeline_logbook_id: format!("tl-log-{tag}"),
        timeline_notes_id: format!("tl-notes-{tag}"),
        timeline_ai_id: format!("tl-ai-{tag}"),
        timeline_alerts_id: format!("tl-alerts-{tag}"),
    }
}

fn note(id: &str, title: &str, body: &str, at: i64) -> NoteRow {
    NoteRow {
        id: id.to_string(),
        title: title.to_string(),
        body: body.to_string(),
        created_at: at,
        updated_at: at,
    }
}

fn event(module: &str, level: &str, at: i64) -> EventRow {
    EventRow {
        ts: at,
        level: level.to_string(),
        code: None,
        module: module.to_string(),
        message: String::new(),
        explain: None,
        data: Vec::new(),
    }
}

fn payload(date: Option<&str>) -> JobPayload {
    JobPayload { date: date.map(|d| d.to_string()) }
}

fn answered(content: &str) -> GatewayOutcome {
    GatewayOutcome::Answered(AiChatResponse {
        provider_id: "local".to_string(),
        model: "base".to_string(),
        content: content.to_string(),
        usage: None,
    })
}

fn busy_day() -> Store {
    let mut store = Store::new();
    store.notes.push(note("n1", "First", "alpha\nbeta", DAY + 3600));
    store.notes.push(note("n2", "Second", "gamma", DAY + 10 * 3600 + 30 * 60 + 5));
    store.notes.push(note("n0", "Yesterday", "old", DAY - 10));
    store.events.push(event("ai.runtime", "info", DAY + 100));
    store.events.push(event("ai.context", "warn", DAY + 100));
    store.events.push(event("ai.runtime", "info", DAY + 86_400));
    store
}

#[test]
fn fetch_due_orders_undated_first_then_by_time_then_by_creation() {
    let mut jobs = Vec::new();
    persist_job(&mut jobs, "k", payload(None), Some(50), "late".into(), 1).unwrap();
    persist_job(&mut jobs, "k", payload(None), Some(20), "early-b".into(), 5).unwrap();
    persist_job(&mut jobs, "k", payload(None), None, "now-b".into(), 7).unwrap();
    persist_job(&mut jobs, "k", payload(None), Some(20), "early-a".into(), 3).unwrap();
    persist_job(&mut jobs, "k", payload(None), Some(101), "future".into(), 0).unwrap();
    persist_job(&mut jobs, "k", payload(None), None, "now-a".into(), 6).unwrap();
    persist_job(&mut jobs, "k", payload(None), Some(100), "edge".into(), 0).unwrap();
    mark_running(&mut jobs, "late", 8).unwrap();
    let due = fetch_due_jobs(&jobs, 100);
    let ids: Vec<&str> = due.iter().map(|j| j.id.as_str()).collect();
    assert_eq!(ids, vec!["now-a", "now-b", "early-a", "early-b", "edge"]);
    assert!(fetch_due_jobs(&Vec::new(), 0).is_empty());
}

#[test]
fn fetch_due_keeps_table_order_among_equals() {
    let mut jobs = Vec::new();
    persist_job(&mut jobs, "k", payload(None), None, "first".into(), 1).unwrap();
    persist_job(&mut jobs, "k", payload(None), None, "second".into(), 1).unwrap();
    let ids: Vec<String> = fetch_due_jobs(&jobs, 0).into_iter().map(|j| j.id).collect();
    assert_eq!(ids, vec!["first".to_string(), "second".to_string()]);
}

#[test]
fn jobs_only_move_forward() {
    let mut jobs = Vec::new();
    persist_job(&mut jobs, "k", payload(None), None, "j".into(), 1).unwrap();
    assert_eq!(persist_job(&mut jobs, "k", payload(None), None, "j".into(), 2), Err(EngineError::StoreFailure));
    assert_eq!(jobs.len(), 1);
    assert_eq!(mark_finished(&mut jobs, "j", JobResult::Error("x".into()), 2), Err(EngineError::StoreFailure));
    assert_eq!(mark_running(&mut jobs, "missing", 2), Err(EngineError::NotFound));
    mark_running(&mut jobs, "j", 3).unwrap();
    assert_eq!(jobs[0].state, JobState::Running);
    assert_eq!(jobs[0].updated_at, 3);
    assert_eq!(mark_running(&mut jobs, "j", 4), Err(EngineError::StoreFailure));
    mark_finished(&mut jobs, "j", JobResult::Error("boom".into()), 5).unwrap();
    assert_eq!(jobs[0].state, JobState::Failed);
    assert_eq!(mark_running(&mut jobs, "j", 6), Err(EngineError::StoreFailure));
    assert_eq!(mark_finished(&mut jobs, "j", JobResult::Error("again".into()), 7), Err(EngineError::StoreFailure));
    assert_eq!(jobs[0].updated_at, 5);
    assert_eq!(JobState::Succeeded.as_str(), "succeeded");
    assert_eq!(JobState::Queued.as_str(), "queued");
}

#[test]
fn next_nightly_run_is_the_next_two_o_clock() {
    assert_eq!(next_nightly_run(DAY), Some(DAY + 7200));
    assert_eq!(next_nightly_run(DAY + 7199), Some(DAY + 7200));
    assert_eq!(next_nightly_run(DAY + 7200), Some(DAY + 86_400 + 7200));
    assert_eq!(next_nightly_run(DAY + 80_000), Some(DAY + 86_400 + 7200));
    assert_eq!(next_nightly_run(-1), Some(7200));
    assert_eq!(next_nightly_run(-86_400), Some(-86_400 + 7200));
    assert_eq!(next_nightly_run(i64::MAX), None);
}

#[test]
fn nightly_schedule_is_idempotent() {
    let mut store = Store::new();
    schedule_next_digest(&mut store, &stamps("a", DAY + 60)).unwrap();
    schedule_next_digest(&mut store, &stamps("b", DAY + 120)).unwrap();
    assert_eq!(store.jobs.len(), 1);
    let job = &store.jobs[0];
    assert_eq!(job.id, "nightly-a");
    assert_eq!(job.kind, DAILY_DIGEST_JOB);
    assert_eq!(job.state, JobState::Queued);
    assert_eq!(job.run_at, Some(DAY + 7200));
    assert_eq!(job.payload.date.as_deref(), Some("2024-01-04"));
    assert_eq!(store.events.len(), 1);
    assert_eq!(store.events[0].code.as_deref(), Some("JOB-200"));

    // After the slot has passed the next one is scheduled.
    schedule_next_digest(&mut store, &stamps("c", DAY + 7200)).unwrap();
    assert_eq!(store.jobs.len(), 2);
    assert_eq!(store.jobs[1].run_at, Some(DAY + 86_400 + 7200));
    assert_eq!(store.jobs[1].payload.date.as_deref(), Some("2024-01-05"));
}

#[test]
fn nightly_schedule_fails_on_a_taken_identifier() {
    let mut store = Store::new();
    persist_job(&mut store.jobs, "other", payload(None), None, "nightly-a".into(), 1).unwrap();
    let result = schedule_next_digest(&mut store, &stamps("a", DAY));
    assert_eq!(result, Err(EngineError::StoreFailure));
    assert_eq!(store.jobs.len(), 1);
    assert!(store.events.is_empty());
}

#[test]
fn resolve_entry_date_parses_explicit_string() {
    let day = resolve_entry_date(&payload(Some("2024-01-05")), 0).unwrap();
    assert_eq!(day.date_key, "2024-01-05");
    assert_eq!(day.start, DAY);
    assert_eq!(day.end, DAY + 86_400);
}

#[test]
fn resolve_entry_date_defaults_to_today() {
    let day = resolve_entry_date(&payload(None), DAY + 40_000).unwrap();
    assert_eq!(day.date_key, "2024-01-05");
    assert_eq!(day.start, DAY);
    let before_epoch = resolve_entry_date(&payload(None), -1).unwrap();
    assert_eq!(before_epoch.date_key, "1969-12-31");
    assert_eq!(before_epoch.start, -86_400);
}

#[test]
fn resolve_entry_date_rejects_what_is_no_date() {
    assert!(resolve_entry_date(&payload(Some("2024-13-40")), 0).is_none());
    assert!(resolve_entry_date(&payload(Some("yesterday")), 0).is_none());
    assert!(resolve_entry_date(&payload(Some("")), 0).is_none());
    assert!(resolve_entry_date(&payload(None), i64::MAX).is_none());
}

#[test]
fn resolve_entry_date_keeps_the_text_it_was_given() {
    for text in ["2024-01-05", "1969-12-31", "2024-02-29", "0001-01-01", "9999-12-30"] {
        let day = resolve_entry_date(&payload(Some(text)), 0).unwrap();
        assert_eq!(day.date_key, text);
        assert_eq!(day.end, day.start + 86_400);
    }
    // Read as a date, but written otherwise than the calendar writes it.
    assert!(resolve_entry_date(&payload(Some("+2024-01-05")), 0).is_none());
    assert!(resolve_entry_date(&payload(Some("2024-1-5")), 0).is_none());
    assert!(resolve_entry_date(&payload(Some(" 2024-01-05")), 0).is_none());
}

#[test]
fn pluralises_correctly() {
    assert_eq!(plural(0), "s");
    assert_eq!(plural(1), "");
    assert_eq!(plural(2), "s");
}

#[test]
fn preview_is_one_line_of_240_characters() {
    assert_eq!(preview("a\nb\nc"), "a b c");
    assert_eq!(preview(&"é".repeat(300)).chars().count(), 240);
    assert_eq!(preview(""), "");
}

#[test]
fn facts_count_what_happened_on_the_day() {
    let store = busy_day();
    let day = resolve_entry_date(&payload(Some("2024-01-05")), 0).unwrap();
    let facts = gather_facts(&store.notes, &store.events, &store.jobs, &day);
    assert_eq!(facts.notes_count, 2);
    assert_eq!(facts.ai_calls, 1);
    assert_eq!(facts.ai_failures, 0);
    assert_eq!(facts.job_count, 0);
    let titles: Vec<&str> = facts.note_excerpts.iter().map(|n| n.title.as_str()).collect();
    assert_eq!(titles, vec!["Second", "First"]);
    assert_eq!(facts.note_excerpts[1].preview, "alpha beta");
    assert_eq!(
        fallback_summary(&facts),
        "Captured 2 notes today. Dispatched 1 AI run with 0 incidents. Processed 0 background jobs. Latest note \"Second\" captured at 10:30 UTC."
    );
    assert_eq!(
        build_fact_lines(&facts),
        vec![
            "Date: 2024-01-05".to_string(),
            "Notes captured: 2".to_string(),
            "AI runs: 1 (0 alerts)".to_string(),
            "Jobs processed: 0".to_string(),
            "Latest note: \"Second\" at 10:30 UTC".to_string(),
            "Recent note highlights:".to_string(),
            "- Second \u{2014} gamma".to_string(),
            "- First \u{2014} alpha beta".to_string(),
        ]
    );
}

#[test]
fn facts_quote_at_most_five_notes() {
    let mut store = Store::new();
    for i in 0..7 {
        store.notes.push(note(&format!("n{i}"), &format!("T{i}"), "b", DAY + i));
    }
    store.events.push(event("ai.runtime", "warn", DAY));
    store.events.push(event("ai.runtime", "error", DAY + 1));
    let day = resolve_entry_date(&payload(Some("2024-01-05")), 0).unwrap();
    let facts = gather_facts(&store.notes, &store.events, &store.jobs, &day);
    assert_eq!(facts.notes_count, 7);
    assert_eq!(facts.ai_calls, 2);
    assert_eq!(facts.ai_failures, 2);
    let titles: Vec<&str> = facts.note_excerpts.iter().map(|n| n.title.as_str()).collect();
    assert_eq!(titles, vec!["T6", "T5", "T4", "T3", "T2"]);
}

#[test]
fn facts_of_an_empty_day() {
    let store = Store::new();
    let day = resolve_entry_date(&payload(Some("2024-01-05")), 0).unwrap();
    let facts = gather_facts(&store.notes, &store.events, &store.jobs, &day);
    assert_eq!(
        fallback_summary(&facts),
        "Captured 0 notes today. Dispatched 0 AI runs with 0 incidents. Processed 0 background jobs."
    );
    assert_eq!(build_fact_lines(&facts).len(), 4);
}

#[test]
fn rebuild_timeline_generates_entries() {
    let mut timeline = Vec::new();
    let events = rebuild_timeline(&mut timeline, "2024-01-05", "summary", 2, 1, 0, &stamps("a", 9));
    assert!(events.len() >= 2);
    let kinds: Vec<&str> = events.iter().map(|e| e.kind.as_str()).collect();
    assert_eq!(kinds, vec!["logbook", "notes", "ai"]);
    assert_eq!(events[0].title, "Daily log captured (2024-01-05)");
    assert_eq!(events[0].detail.as_deref(), Some("summary"));
    assert_eq!(events[1].title, "2 new notes");
    assert_eq!(events[2].title, "1 AI interaction");
    assert_eq!(events[2].id, "tl-ai-a");
    assert_eq!(timeline.len(), 3);
}

#[test]
fn rebuild_timeline_replaces_the_rows_of_the_day_only() {
    let mut timeline = vec![
        TimelineEvent {
            id: "old".into(),
            entry_date: "2024-01-05".into(),
            event_time: 1,
            kind: "alerts".into(),
            title: "stale".into(),
            detail: None,
            created_at: 1,
        },
        TimelineEvent {
            id: "other".into(),
            entry_date: "2024-01-04".into(),
            event_time: 1,
            kind: "logbook".into(),
            title: "kept".into(),
            detail: None,
            created_at: 1,
        },
    ];
    let events = rebuild_timeline(&mut timeline, "2024-01-05", "s", 0, 0, 3, &stamps("a", 9));
    let kinds: Vec<&str> = events.iter().map(|e| e.kind.as_str()).collect();
    assert_eq!(kinds, vec!["logbook", "alerts"]);
    assert_eq!(events[1].title, "3 AI alerts");
    let ids: Vec<&str> = timeline.iter().map(|e| e.id.as_str()).collect();
    assert_eq!(ids, vec!["other", "tl-log-a", "tl-alerts-a"]);
}

#[test]
fn logbook_has_one_entry_per_day() {
    let mut logbook = Vec::new();
    let first = upsert_logbook_entry(&mut logbook, "2024-01-05", "one", "id-1".into(), 10);
    let second = upsert_logbook_entry(&mut logbook, "2024-01-05", "two", "id-2".into(), 20);
    upsert_logbook_entry(&mut logbook, "2024-01-06", "next", "id-3".into(), 30);
    assert_eq!(logbook.len(), 2);
    assert_eq!(first.id, "id-1");
    assert_eq!(second.id, "id-1");
    assert_eq!(second.created_at, 10);
    assert_eq!(logbook[0].summary, "two");
}

#[test]
fn digest_tells_the_day_with_the_model_or_without() {
    let mut store = busy_day();
    let told = perform_daily_digest(
        &mut store,
        &payload(Some("2024-01-05")),
        &answered(" A calm day. "),
        &stamps("a", DAY + 90_000),
    )
    .unwrap();
    assert_eq!(told.entry_date, "2024-01-05");
    assert_eq!(told.logbook.summary, "A calm day.");
    assert_eq!(told.timeline.len(), 3);
    assert_eq!(store.summaries.len(), 1);
    assert_eq!(store.summaries[0].target_type, "day");
    assert_eq!(store.summaries[0].target_id, "2024-01-05");
    assert_eq!(store.events.last().unwrap().code.as_deref(), Some("SYS-LOG-100"));

    let mut offline = busy_day();
    let plain = perform_daily_digest(
        &mut offline,
        &payload(Some("2024-01-05")),
        &GatewayOutcome::Failed("offline".into()),
        &stamps("a", DAY + 90_000),
    )
    .unwrap();
    assert!(plain.logbook.summary.starts_with("Captured 2 notes today."));
    assert_eq!(offline.summaries[0].model_id, None);
}

#[test]
fn digest_of_an_unreadable_date_fails_and_changes_nothing() {
    let mut store = busy_day();
    let result = perform_daily_digest(&mut store, &payload(Some("soon")), &answered("x"), &stamps("a", DAY));
    assert_eq!(result.unwrap_err(), "invalid date supplied to daily digest job");
    assert!(store.logbook.is_empty());
    assert!(store.timeline.is_empty());
    assert_eq!(store.events.len(), 3);
}

#[test]
fn digest_files_the_day_under_the_text_it_was_asked_for() {
    let mut store = busy_day();
    let signed = payload(Some("+2024-01-05"));
    let result = perform_daily_digest(&mut store, &signed, &answered("x"), &stamps("a", DAY));
    assert_eq!(result.unwrap_err(), "invalid date supplied to daily digest job");
    assert!(store.logbook.is_empty());
    assert!(store.summaries.is_empty());
    let asked = payload(Some("2024-01-05"));
    let report = perform_daily_digest(&mut store, &asked, &answered("x"), &stamps("a", DAY)).unwrap();
    assert_eq!(report.entry_date, "2024-01-05");
    assert_eq!(store.logbook[0].entry_date, "2024-01-05");
    assert_eq!(store.summaries[0].target_id, "2024-01-05");
    assert!(store.timeline.iter().all(|row| row.entry_date == "2024-01-05"));
}

#[test]
fn run_now_runs_the_digest_and_primes_the_schedule() {
    let mut scheduler = JobScheduler::new(Summarizer::new(busy_day()));
    let now = DAY + 50_000;
    let request = scheduler.run_now_request(DAILY_DIGEST_JOB, &payload(Some("2024-01-05")), &stamps("a", now));
    let prompt = request.expect("the digest asks for a summary").input.messages[1].content.clone();
    // The job itself counts among the jobs of the day.
    assert!(prompt.contains("Jobs processed: 1"));
    assert!(scheduler.summarizer.store.jobs.is_empty());
    assert!(scheduler.run_now_request("other", &payload(None), &stamps("a", now)).is_none());
    let result = scheduler
        .run_now(DAILY_DIGEST_JOB, payload(Some("2024-01-05")), &answered("Told."), &stamps("a", now))
        .unwrap();
    assert_eq!(result.job_id, "job-a");
    assert_eq!(result.state, JobState::Succeeded);
    assert_eq!(result.result.logbook.summary, "Told.");
    let store = &scheduler.summarizer.store;
    assert_eq!(store.jobs.len(), 2);
    assert_eq!(store.jobs[0].state, JobState::Succeeded);
    assert_eq!(store.jobs[0].run_at, Some(now));
    assert!(matches!(store.jobs[0].result, Some(JobResult::Report(_))));
    assert_eq!(store.jobs[1].id, "nightly-a");
    assert_eq!(store.jobs[1].run_at, Some(DAY + 86_400 + 7200));
    assert_eq!(store.logbook.len(), 1);
    assert_eq!(store.summaries.len(), 1);
    assert_eq!(store.summaries[0].body, "Told.");
}

#[test]
fn unknown_job_kind_is_recorded_as_failed() {
    let mut scheduler = JobScheduler::new(Summarizer::new(Store::new()));
    let result = scheduler.run_now("mystery", payload(None), &GatewayOutcome::Unavailable, &stamps("a", DAY));
    match result {
        Err(JobFailure::Failed(reason)) => assert_eq!(reason, "unknown job kind: mystery"),
        other => panic!("unexpected outcome: {other:?}"),
    }
    let job = &scheduler.summarizer.store.jobs[0];
    assert_eq!(job.state, JobState::Failed);
    match &job.result {
        Some(JobResult::Error(reason)) => assert_eq!(reason, "unknown job kind: mystery"),
        other => panic!("unexpected result: {other:?}"),
    }
    // The loop goes on: the nightly job was still scheduled.
    assert_eq!(scheduler.summarizer.store.jobs.len(), 2);
}

#[test]
fn run_now_rejects_a_taken_job_identifier() {
    let mut scheduler = JobScheduler::new(Summarizer::new(Store::new()));
    scheduler.enqueue_at("k", payload(None), 5, &stamps("a", 1)).unwrap();
    let result = scheduler.run_now("k", payload(None), &GatewayOutcome::Unavailable, &stamps("a", 2));
    assert!(matches!(result, Err(JobFailure::Rejected(EngineError::StoreFailure))));
    assert_eq!(scheduler.summarizer.store.jobs.len(), 1);
}

#[test]
fn wake_plan_lists_due_jobs_and_schedules_on_ticks_only() {
    let mut scheduler = JobScheduler::new(Summarizer::new(Store::new()));
    scheduler.enqueue_at("k", payload(None), 5, &stamps("a", 1)).unwrap();
    scheduler.enqueue_at("k", payload(None), 500, &stamps("b", 1)).unwrap();
    let on_signal = scheduler.plan_wake(Wake::Signal, 10);
    assert!(!on_signal.ensure_nightly);
    assert_eq!(on_signal.due.len(), 1);
    assert_eq!(on_signal.due[0].id, "job-a");
    let on_tick = scheduler.plan_wake(Wake::Tick, 1000);
    assert!(on_tick.ensure_nightly);
    assert_eq!(on_tick.due.len(), 2);
    let ran = scheduler.run_existing_job(&on_tick.due[0], &GatewayOutcome::Unavailable, &stamps("c", 1000));
    assert!(matches!(ran, Err(JobFailure::Failed(_))));
    assert_eq!(scheduler.plan_wake(Wake::Tick, 1000).due.len(), 1);
    scheduler.ensure_nightly_digest_schedule(&stamps("d", 1000)).unwrap();
    assert_eq!(scheduler.summarizer.store.jobs.len(), 3);
}

#[test]
fn sweeping_counts_the_jobs_that_were_running() {
    let mut jobs = Vec::new();
    for id in ["a", "b", "c", "d", "e"] {
        persist_job(&mut jobs, "k", JobPayload { date: None }, None, id.into(), 1).unwrap();
    }
    assert_eq!(sweep_abandoned(&mut jobs, 2), 0);
    mark_running(&mut jobs, "a", 3).unwrap();
    mark_running(&mut jobs, "c", 3).unwrap();
    mark_running(&mut jobs, "d", 3).unwrap();
    mark_running(&mut jobs, "e", 3).unwrap();
    mark_finished(&mut jobs, "e", JobResult::Error("done".into()), 4).unwrap();
    let finished = jobs[4].state;
    assert_eq!(sweep_abandoned(&mut jobs, 5), 3);
    let states: Vec<JobState> = jobs.iter().map(|j| j.state).collect();
    assert_eq!(
        states,
        vec![JobState::Failed, JobState::Queued, JobState::Failed, JobState::Failed, finished]
    );
    assert_eq!(jobs[4].updated_at, 4);
    assert_eq!(sweep_abandoned(&mut jobs, 6), 0);
}

#[test]
fn scheduling_and_digesting_are_logged_with_their_data() {
    let mut store = busy_day();
    let logged = store.events.len();
    schedule_next_digest(&mut store, &stamps("a", DAY + 60)).unwrap();
    let scheduled = &store.events[logged];
    assert_eq!(scheduled.message, "Scheduled nightly digest job");
    assert_eq!(scheduled.explain.as_deref(), Some("Will summarise the previous day at 02:00 UTC."));
    assert_eq!(scheduled.ts, DAY + 60);
    let fields: Vec<(&str, &EventValue)> =
        scheduled.data.iter().map(|f| (f.name.as_str(), &f.value)).collect();
    assert_eq!(fields.len(), 2);
    assert!(matches!(fields[0], ("job_id", EventValue::Text(id)) if id == "nightly-a"));
    assert!(matches!(fields[1], ("run_at", EventValue::Number(at)) if *at == DAY + 7200));

    let asked = payload(Some("2024-01-05"));
    perform_daily_digest(&mut store, &asked, &answered("x"), &stamps("b", DAY + 90)).unwrap();
    let digested = store.events.last().unwrap();
    assert_eq!(digested.message, "Daily digest job completed");
    assert_eq!(
        digested.explain.as_deref(),
        Some("Created or refreshed logbook and timeline entries.")
    );
    let fields: Vec<(&str, &EventValue)> =
        digested.data.iter().map(|f| (f.name.as_str(), &f.value)).collect();
    assert!(matches!(fields[0], ("entry_date", EventValue::Text(date)) if date == "2024-01-05"));
}
