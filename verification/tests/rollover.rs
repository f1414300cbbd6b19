use inkos_core::agents::{AiChatResponse, GatewayOutcome, ProviderRow};
use inkos_core::clock::Stamps;
use inkos_core::errors::EngineError;
use inkos_core::records::{ConversationRow, EventValue, Fraction, MessageRecord};
use inkos_core::store::Store;
use inkos_core::summaries::{insert_summary, SUMMARISER_PROMPT};
use inkos_core::summarizer::Summarizer;

fn stamps(tag: &str, now: i64) -> Stamps {
    Stamps {
        now,
        message_id: format!("msg-{tag}"),
        summary_id: format!("sum-{tag}"),
        conversation_id: format!("conv-{tag}"),
        continuity_message_id: format!("cont-{tag}"),
        job_id: format!("job-{tag}"),
        nightly_job_id: format!("nightly-{tag}"),
        logbook_id: format!("log-{tag}"),
        timeline_logbook_id: format!("tl-log-{tag}"),
        timeline_notes_id: format!("tl-notes-{tag}"),
        timeline_ai_id: format!("tl-ai-{tag}"),
        timeline_alerts_id: format!("tl-alerts-{tag}"),
    }
}

fn provider(id: &str, kind: &str, tags: &[&str]) -> ProviderRow {
    ProviderRow {
        id: id.to_string(),
        kind: kind.to_string(),
        display_name: id.to_string(),
        description: None,
        base_url: None,
        default_model: Some("base".to_string()),
        models: vec!["base".to_string()],
        capability_tags: tags.iter().map(|t| t.to_string()).collect(),
        requires_api_key: false,
        credential: None,
    }
}

fn conversation(id: &str, provider_id: &str) -> ConversationRow {
    ConversationRow {
        id: id.to_string(),
        title: Some("Planning".to_string()),
        provider_id: provider_id.to_string(),
        model_id: "base".to_string(),
        ctx_warn: false,
        ctx_force: false,
        created_at: 1,
        updated_at: 1,
        closed_at: None,
        quality_flags: None,
    }
}

fn stored_message(id: &str, conversation: &str, tokens: i64, at: i64) -> MessageRecord {
    MessageRecord {
        id: id.to_string(),
        conversation_id: conversation.to_string(),
        role: "user".to_string(),
        body: "earlier".to_string(),
        token_est: Some(tokens),
        created_at: at,
        quality_flags: None,
    }
}

fn answered(content: &str) -> GatewayOutcome {
    GatewayOutcome::Answered(AiChatResponse {
        provider_id: "local".to_string(),
        model: "base".to_string(),
        content: content.to_string(),
        usage: None,
    })
}

fn workspace(total: i64) -> Summarizer {
    let mut store = Store::new();
    store.providers.push(provider("local", "local", &[]));
    store.settings.active_provider_id = Some("local".to_string());
    store.conversations.push(conversation("c1", "local"));
    if total > 0 {
        store.messages.push(stored_message("m0", "c1", total, 2));
    }
    Summarizer::new(store)
}

#[test]
fn insert_summary_assigns_incrementing_versions() {
    let mut summaries = Vec::new();
    let summary1 = insert_summary(
        &mut summaries,
        "conversation",
        "a",
        "Body",
        "hash",
        Some("model".into()),
        "id-1".to_string(),
        10,
    )
    .unwrap();
    let summary2 = insert_summary(
        &mut summaries,
        "conversation",
        "a",
        "Body",
        "hash",
        Some("model".into()),
        "id-2".to_string(),
        11,
    )
    .unwrap();
    assert_eq!(summary1.version + 1, summary2.version);
}

#[test]
fn insert_summary_numbers_each_subject_from_one() {
    let mut summaries = Vec::new();
    let a1 = insert_summary(&mut summaries, "note", "a", "x", "h1", None, "1".into(), 1).unwrap();
    let b1 = insert_summary(&mut summaries, "note", "b", "x", "h1", None, "2".into(), 1).unwrap();
    let a2 = insert_summary(&mut summaries, "note", "a", "x", "h2", None, "3".into(), 1).unwrap();
    let a3 = insert_summary(&mut summaries, "note", "a", "x", "h3", None, "4".into(), 1).unwrap();
    assert_eq!((a1.version, b1.version, a2.version, a3.version), (1, 1, 2, 3));
    assert_eq!(a1.token_est, Some(2));
    assert!(!a1.reused);
}

#[test]
fn insert_summary_rejects_a_taken_identifier() {
    let mut summaries = Vec::new();
    insert_summary(&mut summaries, "note", "a", "x", "h1", None, "same".into(), 1).unwrap();
    let second = insert_summary(&mut summaries, "note", "a", "y", "h2", None, "same".into(), 2);
    assert_eq!(second.unwrap_err(), EngineError::StoreFailure);
    assert_eq!(summaries.len(), 1);
}

#[test]
fn append_below_thresholds_stores_the_message() {
    let mut summarizer = workspace(100);
    let result = summarizer
        .append_and_maybe_rollover("c1", "user", "hello", &GatewayOutcome::Unavailable, &stamps("a", 50))
        .unwrap();
    assert!(!result.rolled);
    assert!(!result.warn);
    assert_eq!(result.total_tokens, 102);
    assert_eq!(result.message.id, "msg-a");
    assert_eq!(result.message.token_est, Some(2));
    assert!(result.new_conversation.is_none());
    assert!(result.summary.is_none());
    assert_eq!(summarizer.store.messages.len(), 2);
    assert_eq!(summarizer.store.conversations[0].updated_at, 50);
    assert!(summarizer.store.events.is_empty());
}

#[test]
fn append_warns_once_at_the_warn_threshold() {
    // The window is 4096, so the warn threshold is 3072 and the force threshold 3686.
    let mut summarizer = workspace(3070);
    let first = summarizer
        .append_and_maybe_rollover("c1", "user", "hello", &GatewayOutcome::Unavailable, &stamps("a", 50))
        .unwrap();
    assert!(first.warn);
    assert!(!first.rolled);
    assert!(summarizer.store.conversations[0].ctx_warn);
    assert_eq!(summarizer.store.events.len(), 1);
    assert_eq!(summarizer.store.events[0].code.as_deref(), Some("AI-CTX-WARN"));
    assert_eq!(summarizer.store.events[0].level, "warn");

    let second = summarizer
        .append_and_maybe_rollover("c1", "user", "again", &GatewayOutcome::Unavailable, &stamps("b", 51))
        .unwrap();
    assert!(second.warn);
    assert_eq!(summarizer.store.events.len(), 1);
}

#[test]
fn append_at_force_threshold_rolls_over() {
    let mut summarizer = workspace(3700);
    let body = "a".repeat(200);
    let request = summarizer.append_request("c1", "user", &body, &stamps("a", 50));
    let request = request.expect("a rollover has to write a summary");
    assert_eq!(request.input.messages.len(), 2);
    assert_eq!(request.input.messages[0].role, "system");
    assert_eq!(request.input.messages[0].content, SUMMARISER_PROMPT);
    assert_eq!(request.input.messages[1].role, "user");
    assert!(request.input.messages[1].content.starts_with(&format!("user: {body}")));
    assert_eq!(request.input.temperature, Some(Fraction { millionths: 200_000 }));
    assert!(request.prefer_local);
    assert_eq!(summarizer.store.messages.len(), 1);

    let result = summarizer
        .append_and_maybe_rollover("c1", "user", &body, &answered("  What was said.  "), &stamps("a", 50))
        .unwrap();
    assert!(result.rolled);
    assert!(result.warn);
    assert_eq!(result.total_tokens, 3750);
    let successor = result.new_conversation.expect("a new conversation");
    assert_ne!(successor.id, "c1");
    assert_eq!(successor.id, "conv-a");
    assert_eq!(successor.title.as_deref(), Some("Planning"));
    assert!(!successor.ctx_force);
    let summary = result.summary.expect("a summary");
    assert_eq!(summary.body, "What was said.");
    assert_eq!(summary.model_id.as_deref(), Some("base"));
    assert_eq!(summary.version, 1);
    assert!(!summary.reused);

    let store = &summarizer.store;
    assert!(store.conversations[0].ctx_force);
    assert_eq!(store.conversations[0].closed_at, Some(50));
    assert_eq!(store.conversations.len(), 2);
    assert_eq!(store.messages.len(), 3);
    assert_eq!(store.messages[2].conversation_id, "conv-a");
    assert_eq!(store.messages[2].role, "system");
    assert_eq!(store.messages[2].body, "Summary of previous thread:\nWhat was said.");
    assert_eq!(store.links.len(), 2);
    assert_eq!(store.links[0].src_id, "c1");
    assert_eq!(store.links[0].dst_id, summary.id);
    assert_eq!(store.links[0].rel, "summarized_as");
    assert_eq!(store.links[1].src_id, summary.id);
    assert_eq!(store.links[1].dst_id, "conv-a");
    assert_eq!(store.links[1].rel, "rollover_to");
    let codes: Vec<Option<&str>> = store.events.iter().map(|e| e.code.as_deref()).collect();
    assert_eq!(codes, vec![Some("AI-CTX-WARN"), Some("AI-SUMMARY"), Some("AI-CTX-ROLLOVER")]);
}

#[test]
fn closed_conversation_takes_no_message() {
    let mut summarizer = workspace(3700);
    summarizer
        .append_and_maybe_rollover("c1", "user", &"a".repeat(200), &answered("S"), &stamps("a", 50))
        .unwrap();
    let messages = summarizer.store.messages.len();
    let again = summarizer.append_and_maybe_rollover(
        "c1",
        "user",
        "more",
        &GatewayOutcome::Unavailable,
        &stamps("b", 60),
    );
    assert_eq!(again.unwrap_err(), EngineError::AlreadyClosed);
    assert_eq!(summarizer.store.messages.len(), messages);
    assert!(summarizer.store.conversations[0].ctx_force);
    assert!(summarizer.append_request("c1", "user", "more", &stamps("b", 60)).is_none());
}

#[test]
fn append_to_unknown_conversation_is_not_found() {
    let mut summarizer = workspace(0);
    let result = summarizer.append_and_maybe_rollover(
        "nope",
        "user",
        "hi",
        &GatewayOutcome::Unavailable,
        &stamps("a", 5),
    );
    assert_eq!(result.unwrap_err(), EngineError::NotFound);
    assert!(summarizer.store.messages.is_empty());
}

#[test]
fn failed_rollover_leaves_no_trace_of_the_append() {
    let mut summarizer = workspace(3700);
    summarizer.store.providers.clear();
    summarizer.store.settings.active_provider_id = None;
    let result = summarizer.append_and_maybe_rollover(
        "c1",
        "user",
        &"a".repeat(200),
        &answered("S"),
        &stamps("a", 50),
    );
    assert_eq!(result.unwrap_err(), EngineError::NoProviderConfigured);
    let store = &summarizer.store;
    assert_eq!(store.messages.len(), 1);
    assert!(store.events.is_empty());
    assert!(store.summaries.is_empty());
    assert_eq!(store.conversations.len(), 1);
    assert!(!store.conversations[0].ctx_warn);
    assert!(!store.conversations[0].ctx_force);
    assert_eq!(store.conversations[0].updated_at, 1);
}

#[test]
fn rollover_with_taken_conversation_id_fails_and_changes_nothing() {
    let mut summarizer = workspace(10);
    let mut taken = stamps("a", 50);
    taken.conversation_id = "c1".to_string();
    let result = summarizer.rollover("c1", &answered("S"), &taken);
    assert_eq!(result.unwrap_err(), EngineError::StoreFailure);
    assert!(!summarizer.store.conversations[0].ctx_force);
    assert!(summarizer.store.summaries.is_empty());
}

#[test]
fn forced_rollover_of_empty_conversation_still_summarises() {
    let mut summarizer = workspace(0);
    let outcome = summarizer.rollover("c1", &GatewayOutcome::Failed("offline".into()), &stamps("a", 9)).unwrap();
    assert!(outcome.rolled);
    let summary = outcome.summary.unwrap();
    assert_eq!(summary.body, "");
    assert_eq!(summary.model_id, None);
    assert_eq!(outcome.new_conversation.unwrap().id, "conv-a");
    assert_eq!(summarizer.store.events[0].code.as_deref(), Some("AI-SUMMARY-ERR"));
    assert_eq!(summarizer.rollover("missing", &answered("S"), &stamps("b", 9)).unwrap_err(), EngineError::NotFound);
}

#[test]
fn rollover_reuses_a_cached_summary() {
    let mut summarizer = workspace(10);
    let first = summarizer.summarise_conversation("c1", &answered("Short"), &stamps("a", 5)).unwrap();
    assert!(summarizer.rollover_request("c1").is_none());
    let outcome = summarizer.rollover("c1", &GatewayOutcome::Unavailable, &stamps("b", 6)).unwrap();
    let summary = outcome.summary.unwrap();
    assert_eq!(summary.id, first.id);
    assert!(summary.reused);
    assert_eq!(summarizer.store.summaries.len(), 1);
}

#[test]
fn rollover_falls_back_to_another_provider() {
    let mut summarizer = workspace(10);
    summarizer.store.conversations[0].provider_id = "gone".to_string();
    summarizer.store.providers.push(provider("cloud", "cloud", &[]));
    let outcome = summarizer.rollover("c1", &answered("S"), &stamps("a", 5)).unwrap();
    assert_eq!(outcome.new_conversation.unwrap().provider_id, "local");
}

#[test]
fn context_tag_of_provider_sets_the_window() {
    let mut summarizer = workspace(100);
    summarizer.store.providers[0].capability_tags = vec!["ctx-100".to_string()];
    // The force threshold is 90 and the total is already above it.
    let result = summarizer
        .append_and_maybe_rollover("c1", "user", "hi", &answered("S"), &stamps("a", 5))
        .unwrap();
    assert!(result.rolled);
}

#[test]
fn config_defaults_and_updates() {
    let mut summarizer = workspace(0);
    let config = summarizer.load_config();
    assert_eq!(config.warn_ratio, Fraction { millionths: 750_000 });
    assert_eq!(config.force_ratio, Fraction { millionths: 900_000 });
    assert_eq!(config.summarizer_model, None);
    let updated = summarizer.update_config(
        Fraction { millionths: 500_000 },
        Fraction { millionths: 600_000 },
        Some("tiny".to_string()),
    );
    assert_eq!(updated.warn_ratio, Fraction { millionths: 500_000 });
    assert_eq!(summarizer.load_config().summarizer_model.as_deref(), Some("tiny"));
}

#[test]
fn conversations_are_created_listed_and_rebound() {
    let mut summarizer = workspace(30);
    summarizer.store.providers.push(provider("cloud", "cloud", &[]));
    let created = summarizer
        .create_conversation(Some("New".into()), Some("cloud".into()), None, &stamps("a", 100))
        .unwrap();
    assert_eq!(created.id, "conv-a");
    assert_eq!(created.provider_id, "cloud");
    assert_eq!(created.model_id, "base");
    assert_eq!(created.total_tokens, 0);
    let again = summarizer.create_conversation(None, None, None, &stamps("a", 101));
    assert_eq!(again.unwrap_err(), EngineError::StoreFailure);

    let listed = summarizer.list_conversations(None);
    let ids: Vec<&str> = listed.iter().map(|c| c.id.as_str()).collect();
    assert_eq!(ids, vec!["conv-a", "c1"]);
    assert_eq!(listed[1].total_tokens, 30);
    assert_eq!(summarizer.list_conversations(Some(1)).len(), 1);

    let rebound = summarizer
        .set_conversation_model("c1", Some("cloud".into()), None, &stamps("b", 200))
        .unwrap();
    assert_eq!(rebound.provider_id, "cloud");
    assert_eq!(rebound.updated_at, 200);
    assert_eq!(summarizer.store.events.last().unwrap().code.as_deref(), Some("AI-SET-MODEL"));
    let missing = summarizer.set_conversation_model("nope", None, None, &stamps("c", 1));
    assert_eq!(missing.unwrap_err(), EngineError::NotFound);
    assert_eq!(summarizer.get_conversation("c1").unwrap().provider_id, "cloud");
    assert!(summarizer.get_conversation("nope").is_none());
}

#[test]
fn messages_are_listed_by_creation_time() {
    let mut summarizer = workspace(0);
    summarizer.store.messages.push(stored_message("late", "c1", 1, 30));
    summarizer.store.messages.push(stored_message("early", "c1", 1, 10));
    summarizer.store.messages.push(stored_message("other", "c2", 1, 5));
    summarizer.store.messages.push(stored_message("tie", "c1", 1, 30));
    let listed = summarizer.list_messages("c1", None);
    let ids: Vec<&str> = listed.iter().map(|m| m.id.as_str()).collect();
    assert_eq!(ids, vec!["early", "late", "tie"]);
    assert_eq!(summarizer.list_messages("c1", Some(2)).len(), 2);
    assert!(summarizer.list_messages("c3", None).is_empty());
}

#[test]
fn stamps_are_drawn_afresh() {
    let first = Stamps::draw();
    let second = Stamps::draw();
    // Later than 2020-01-01.
    assert!(first.now > 1_577_836_800);
    assert!(second.now >= first.now);
    let ids = [
        &first.message_id,
        &first.summary_id,
        &first.conversation_id,
        &first.continuity_message_id,
        &first.job_id,
        &first.nightly_job_id,
        &first.logbook_id,
        &first.timeline_logbook_id,
        &first.timeline_notes_id,
        &first.timeline_ai_id,
        &first.timeline_alerts_id,
        &second.message_id,
        &second.conversation_id,
    ];
    for (i, a) in ids.iter().enumerate() {
        assert_eq!(a.len(), 36);
        for b in ids.iter().skip(i + 1) {
            assert_ne!(a, b);
        }
    }
}

#[test]
fn rollover_with_drawn_stamps_gives_a_new_conversation() {
    let mut summarizer = workspace(3700);
    let stamps = Stamps::draw();
    let result = summarizer
        .append_and_maybe_rollover("c1", "user", &"a".repeat(200), &answered("S"), &stamps)
        .unwrap();
    assert!(result.rolled);
    assert_ne!(result.new_conversation.unwrap().id, "c1");
    assert!(result.summary.is_some());
}

#[test]
fn events_name_what_they_are_about() {
    let mut summarizer = workspace(10);
    let outcome = summarizer.rollover("c1", &GatewayOutcome::Failed("offline".into()), &stamps("a", 5)).unwrap();
    let summary = outcome.summary.unwrap();
    let text = |event: &inkos_core::records::EventRow, name: &str| -> Option<String> {
        event.data.iter().find(|f| f.name == name).and_then(|f| match &f.value {
            EventValue::Text(t) => Some(t.clone()),
            _ => None,
        })
    };
    let fallback = &summarizer.store.events[0];
    assert_eq!(text(fallback, "target_type").as_deref(), Some("conversation"));
    assert_eq!(text(fallback, "target_id").as_deref(), Some("c1"));
    assert_eq!(text(fallback, "error").as_deref(), Some("offline"));
    let rolled = &summarizer.store.events[1];
    assert_eq!(text(rolled, "previous_conversation").as_deref(), Some("c1"));
    assert_eq!(text(rolled, "new_conversation").as_deref(), Some("conv-a"));
    assert_eq!(text(rolled, "summary_id"), Some(summary.id));
}

#[test]
fn a_warning_names_the_conversation_its_total_and_the_threshold() {
    let mut summarizer = workspace(3070);
    summarizer
        .append_and_maybe_rollover("c1", "user", "hello", &GatewayOutcome::Unavailable, &stamps("a", 50))
        .unwrap();
    let warning = &summarizer.store.events[0];
    assert_eq!(warning.level, "warn");
    assert_eq!(warning.module, "ai.context");
    assert_eq!(warning.message, "Conversation approaching context limit");
    assert_eq!(warning.explain.as_deref(), Some("A warning banner should be shown in the UI."));
    let fields: Vec<(&str, &EventValue)> =
        warning.data.iter().map(|f| (f.name.as_str(), &f.value)).collect();
    assert_eq!(fields.len(), 3);
    assert!(matches!(fields[0], ("conversation_id", EventValue::Text(id)) if id == "c1"));
    assert!(matches!(fields[1], ("total_tokens", EventValue::Number(3072))));
    assert!(matches!(fields[2], ("threshold", EventValue::Number(3072))));
}

#[test]
fn rebinding_a_conversation_is_logged_with_provider_and_model() {
    let mut summarizer = workspace(10);
    let record = summarizer
        .set_conversation_model("c1", Some("local".to_string()), None, &stamps("a", 9))
        .unwrap();
    let event = summarizer.store.events.last().unwrap();
    assert_eq!(event.code.as_deref(), Some("AI-SET-MODEL"));
    assert_eq!(event.message, "Conversation model updated");
    assert_eq!(event.explain.as_deref(), Some("Provider/model override applied"));
    let fields: Vec<(&str, &EventValue)> =
        event.data.iter().map(|f| (f.name.as_str(), &f.value)).collect();
    assert!(matches!(fields[0], ("conversation_id", EventValue::Text(id)) if id == "c1"));
    assert!(matches!(fields[1], ("provider", EventValue::Text(id)) if *id == record.provider_id));
    assert!(matches!(fields[2], ("model", EventValue::Text(id)) if *id == record.model_id));
}
