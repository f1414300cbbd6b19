use inkos_core::agents::{AiChatResponse, GatewayOutcome, ProviderRow};
use inkos_core::model_manager::{
    chat_attempts, next_chat_step, record_invocation, ChatStep, NO_RUNTIME,
};
use inkos_core::records::{EventRow, EventValue};
use inkos_core::resolver::{collect_alternative_runtimes, resolve_runtime, resolve_with_fallback};
use inkos_core::store::Settings;

fn reply(content: &str) -> GatewayOutcome {
    GatewayOutcome::Answered(AiChatResponse {
        provider_id: "p".into(),
        model: "m".into(),
        content: content.into(),
        usage: None,
    })
}

fn row(id: &str, kind: &str, needs_key: bool, model: &str) -> ProviderRow {
    ProviderRow {
        id: id.to_string(),
        kind: kind.to_string(),
        display_name: id.to_string(),
        description: None,
        base_url: None,
        default_model: Some(model.to_string()),
        models: vec![model.to_string()],
        capability_tags: Vec::new(),
        requires_api_key: needs_key,
        credential: None,
    }
}

fn text_of(row: &EventRow, name: &str) -> Option<String> {
    row.data.iter().find(|f| f.name == name).and_then(|f| match &f.value {
        EventValue::Text(text) => Some(text.clone()),
        _ => None,
    })
}

fn blank() -> Settings {
    Settings {
        warn_ratio: None,
        force_ratio: None,
        summarizer_model: None,
        active_provider_id: None,
        active_model: None,
    }
}

#[test]
fn a_chat_starts_with_the_first_selection() {
    assert!(matches!(next_chat_step(3, 0, None), ChatStep::Try(0)));
    assert!(matches!(next_chat_step(1, 0, None), ChatStep::Try(0)));
}

#[test]
fn a_chat_ends_with_the_first_answer() {
    let step = next_chat_step(3, 1, Some(reply("hello")));
    assert!(matches!(step, ChatStep::Done(GatewayOutcome::Answered(r)) if r.content == "hello"));
    let step = next_chat_step(3, 3, Some(reply("late")));
    assert!(matches!(step, ChatStep::Done(GatewayOutcome::Answered(r)) if r.content == "late"));
}

#[test]
fn a_chat_goes_on_after_a_failure() {
    let step = next_chat_step(3, 1, Some(GatewayOutcome::Failed("timeout".into())));
    assert!(matches!(step, ChatStep::Try(1)));
    let step = next_chat_step(3, 2, Some(GatewayOutcome::Unavailable));
    assert!(matches!(step, ChatStep::Try(2)));
}

#[test]
fn a_chat_ends_with_the_last_failure() {
    let step = next_chat_step(2, 2, Some(GatewayOutcome::Failed("refused".into())));
    assert!(matches!(step, ChatStep::Done(GatewayOutcome::Failed(reason)) if reason == "refused"));
    let step = next_chat_step(2, 2, Some(GatewayOutcome::Unavailable));
    assert!(matches!(step, ChatStep::Done(GatewayOutcome::Unavailable)));
}

#[test]
fn a_chat_without_selections_reports_that_nothing_is_available() {
    let step = next_chat_step(0, 0, None);
    assert!(matches!(step, ChatStep::Done(GatewayOutcome::Failed(reason)) if reason == NO_RUNTIME));
    assert_eq!(NO_RUNTIME, "no AI runtime available");
}

#[test]
fn a_chat_run_tries_each_selection_once_until_one_answers() {
    let outcomes = [
        GatewayOutcome::Failed("one".into()),
        GatewayOutcome::Failed("two".into()),
        reply("three"),
        reply("never asked"),
    ];
    let mut asked = Vec::new();
    let mut last = None;
    let mut tried = 0;
    let ended = loop {
        match next_chat_step(outcomes.len(), tried, last.take()) {
            ChatStep::Done(outcome) => break outcome,
            ChatStep::Try(position) => {
                asked.push(position);
                last = Some(match &outcomes[position] {
                    GatewayOutcome::Failed(reason) => GatewayOutcome::Failed(reason.clone()),
                    _ => reply("three"),
                });
                tried = position + 1;
            }
        }
    };
    assert_eq!(asked, vec![0, 1, 2]);
    assert!(matches!(ended, GatewayOutcome::Answered(r) if r.content == "three"));
}

#[test]
fn an_identifier_is_tried_once_among_the_alternatives() {
    let providers = vec![
        row("twin", "cloud", false, "first"),
        row("other", "cloud", false, "o"),
        row("twin", "local", false, "second"),
        row("locked", "local", true, "l"),
        row("locked", "cloud", false, "open"),
    ];
    let in_order = collect_alternative_runtimes(&providers, &blank(), &None, &None, false);
    let ids: Vec<(&str, &str)> =
        in_order.iter().map(|s| (s.provider.id.as_str(), s.model.as_str())).collect();
    // An identifier names its first row; a row that cannot be used does not
    // count as seen, so the later row of its identifier is still tried.
    assert_eq!(ids, vec![("twin", "first"), ("other", "o"), ("locked", "l")]);

    let local_first = collect_alternative_runtimes(&providers, &blank(), &None, &None, true);
    let ids: Vec<&str> = local_first.iter().map(|s| s.provider.id.as_str()).collect();
    assert_eq!(ids, vec!["twin", "other", "locked"]);

    let named = collect_alternative_runtimes(&providers, &blank(), &Some("twin".into()), &None, false);
    let ids: Vec<&str> = named.iter().map(|s| s.provider.id.as_str()).collect();
    assert_eq!(ids, vec!["other", "locked"]);

    let attempts = chat_attempts(&providers, &blank(), Some("twin".into()), None, false).unwrap();
    let ids: Vec<&str> = attempts.iter().map(|s| s.provider.id.as_str()).collect();
    assert_eq!(ids, vec!["twin", "other", "locked"]);
    let chosen = resolve_with_fallback(&providers, &blank(), Some("absent".into()), None, true).unwrap();
    assert_eq!(chosen.provider.id, "twin");
}

#[test]
fn an_invocation_event_names_what_was_tried_and_how_it_ended() {
    let providers = vec![row("alpha", "cloud", false, "a1")];
    let selection = resolve_runtime(&providers, &blank(), Some("alpha".into()), None).unwrap();
    let mut events = Vec::new();
    let long = "é".repeat(250);
    assert!(record_invocation(&mut events, &selection, &reply(&long), 1));
    assert!(record_invocation(&mut events, &selection, &reply("short"), 2));
    assert!(!record_invocation(&mut events, &selection, &GatewayOutcome::Failed("timeout".into()), 3));
    assert!(!record_invocation(&mut events, &selection, &GatewayOutcome::Unavailable, 4));
    assert_eq!(events.len(), 4);
    for event in &events {
        assert_eq!(text_of(event, "provider").as_deref(), Some("alpha"));
        assert_eq!(text_of(event, "model").as_deref(), Some("a1"));
        assert_eq!(event.module, "ai.runtime");
    }
    assert_eq!(text_of(&events[0], "preview"), Some("é".repeat(200)));
    assert_eq!(text_of(&events[1], "preview").as_deref(), Some("short"));
    assert_eq!(events[1].message, "AI chat invocation succeeded");
    assert_eq!(text_of(&events[2], "error").as_deref(), Some("timeout"));
    assert_eq!(events[2].message, "AI provider invocation failed");
    assert_eq!(text_of(&events[3], "error"), None);
    assert_eq!(events[3].level, "warn");
}
