use inkos_core::agents::{AiChatResponse, AiSettingsUpdate, GatewayOutcome, ProviderRow};
use inkos_core::clock::Stamps;
use inkos_core::errors::EngineError;
use inkos_core::model_manager::{chat_attempts, record_invocation};
use inkos_core::resolver::{
    collect_alternative_runtimes, get_settings, list_providers, load_secret, resolve_runtime,
    resolve_with_fallback, update_settings,
};
use inkos_core::store::{Settings, Store};
use inkos_core::summaries::{find_cached_summary, load_summary};
use inkos_core::summarizer::Summarizer;

fn stamps(tag: &str, now: i64) -> Stamps {
    Stamps {
        now,
        message_id: format!("msg-{tag}"),
        summary_id: format!("sum-{tag}"),
        conversation_id: format!("conv-{tag}"),
        continuity_message_id: format!("cont-{tag}"),
        job_id: format!("job-{tag}"),
        nightly_job_id: format!("nightly-{tag}"),
        logbook_id: format!("log-{tag}"),
        timeline_logbook_id: format!("tl-log-{tag}"),
        timeline_notes_id: format!("tl-notes-{tag}"),
        timeline_ai_id: format!("tl-ai-{tag}"),
        timeline_alerts_id: format!("tl-alerts-{tag}"),
    }
}

fn answered(content: &str, model: &str) -> GatewayOutcome {
    GatewayOutcome::Answered(AiChatResponse {
        provider_id: "p".to_string(),
        model: model.to_string(),
        content: content.to_string(),
        usage: None,
    })
}

fn provider(id: &str, kind: &str, needs_key: bool, models: &[&str]) -> ProviderRow {
    ProviderRow {
        id: id.to_string(),
        kind: kind.to_string(),
        display_name: id.to_uppercase(),
        description: None,
        base_url: None,
        default_model: models.first().map(|m| m.to_string()),
        models: models.iter().map(|m| m.to_string()).collect(),
        capability_tags: Vec::new(),
        requires_api_key: needs_key,
        credential: None,
    }
}

fn no_settings() -> Settings {
    Settings {
        warn_ratio: None,
        force_ratio: None,
        summarizer_model: None,
        active_provider_id: None,
        active_model: None,
    }
}

fn facts(items: &[&str]) -> Vec<String> {
    items.iter().map(|s| s.to_string()).collect()
}

#[test]
fn summarise_generates_once_per_content() {
    let mut summarizer = Summarizer::new(Store::new());
    let first = summarizer
        .summarise_excerpts("day", "2024-01-05", &facts(&["fact A", "fact B"]), &answered("One", "m"), &stamps("a", 1))
        .unwrap();
    let second = summarizer
        .summarise_excerpts("day", "2024-01-05", &facts(&["fact A", "fact B"]), &answered("Other", "m"), &stamps("b", 2))
        .unwrap();
    assert_eq!(first.id, second.id);
    assert_eq!(second.body, "One");
    assert!(!first.reused);
    assert!(second.reused);
    assert_eq!(summarizer.store.summaries.len(), 1);
    assert_eq!(summarizer.store.events.len(), 1);

    let third = summarizer
        .summarise_excerpts(
            "day",
            "2024-01-05",
            &facts(&["fact A", "fact B", "fact C"]),
            &answered("Three", "m"),
            &stamps("c", 3),
        )
        .unwrap();
    assert_ne!(third.id, first.id);
    assert_eq!(third.version, 2);
    assert_eq!(summarizer.store.summaries.len(), 2);
}

#[test]
fn summarise_treats_order_and_subject_as_part_of_the_key() {
    let mut summarizer = Summarizer::new(Store::new());
    let ab = summarizer
        .summarise_excerpts("day", "d", &facts(&["a", "b"]), &answered("x", "m"), &stamps("1", 1))
        .unwrap();
    let ba = summarizer
        .summarise_excerpts("day", "d", &facts(&["b", "a"]), &answered("x", "m"), &stamps("2", 1))
        .unwrap();
    let other = summarizer
        .summarise_excerpts("note", "d", &facts(&["a", "b"]), &answered("x", "m"), &stamps("3", 1))
        .unwrap();
    assert_ne!(ab.id, ba.id);
    assert_eq!(ba.version, 2);
    assert_eq!(other.version, 1);
    assert!(summarizer.summarise_request("day", "d", &facts(&["a", "b"])).is_none());
    assert!(summarizer.summarise_request("day", "d", &facts(&["a", "c"])).is_some());
}

#[test]
fn summarise_falls_back_to_the_excerpts() {
    let mut summarizer = Summarizer::new(Store::new());
    let failed = summarizer
        .summarise_excerpts("note", "n1", &facts(&["one", "two"]), &GatewayOutcome::Failed("down".into()), &stamps("a", 1))
        .unwrap();
    assert_eq!(failed.body, "one\n\ntwo");
    assert_eq!(failed.model_id, None);
    let empty = summarizer
        .summarise_excerpts("note", "n2", &facts(&["three"]), &answered("  \n ", "m"), &stamps("b", 1))
        .unwrap();
    assert_eq!(empty.body, "three");
    assert_eq!(empty.model_id, None);
    let unasked = summarizer.summarise("note", "n3", "four", &GatewayOutcome::Unavailable, &stamps("c", 1)).unwrap();
    assert_eq!(unasked.body, "four");
    let codes: Vec<Option<&str>> = summarizer.store.events.iter().map(|e| e.code.as_deref()).collect();
    assert_eq!(codes, vec![Some("AI-SUMMARY-ERR"); 3]);
    assert_eq!(summarizer.store.events[0].level, "warn");
}

#[test]
fn summarise_with_a_taken_identifier_fails_and_changes_nothing() {
    let mut summarizer = Summarizer::new(Store::new());
    summarizer.summarise("note", "n", "a", &answered("x", "m"), &stamps("a", 1)).unwrap();
    let clash = summarizer.summarise("note", "n", "b", &answered("y", "m"), &stamps("a", 2));
    assert_eq!(clash.unwrap_err(), EngineError::StoreFailure);
    assert_eq!(summarizer.store.summaries.len(), 1);
    assert_eq!(summarizer.store.events.len(), 1);
}

#[test]
fn summaries_are_fetched_by_identifier_and_by_key() {
    let mut summarizer = Summarizer::new(Store::new());
    let made = summarizer.summarise("note", "n", "text", &answered("Sum", "m"), &stamps("a", 7)).unwrap();
    let fetched = summarizer.fetch_summary(&made.id).unwrap();
    assert_eq!(fetched.body, "Sum");
    assert_eq!(fetched.created_at, 7);
    assert!(fetched.reused);
    assert!(summarizer.fetch_summary("nope").is_none());
    assert!(load_summary(&summarizer.store.summaries, "sum-a").is_some());
    let hash = summarizer.store.summaries[0].source_hash.clone();
    assert_eq!(hash.len(), 64);
    assert!(find_cached_summary(&summarizer.store.summaries, "note", "n", &hash).is_some());
    assert!(find_cached_summary(&summarizer.store.summaries, "note", "m", &hash).is_none());
}

#[test]
fn digest_summary_hashes_fallback_and_facts() {
    let mut summarizer = Summarizer::new(Store::new());
    let first = summarizer
        .summarise_daily_digest("2024-01-05", &facts(&["a"]), "plain", &answered("Nice", "m"), &stamps("a", 1))
        .unwrap();
    assert_eq!(first.target_type, "day");
    assert_eq!(first.target_id, "2024-01-05");
    let same = summarizer
        .summarise_excerpts("day", "2024-01-05", &facts(&["plain", "a"]), &GatewayOutcome::Unavailable, &stamps("b", 1))
        .unwrap();
    assert_eq!(same.id, first.id);
}

#[test]
fn resolve_runtime_picks_provider_and_model() {
    let providers = vec![provider("alpha", "cloud", false, &["a1", "a2"]), provider("beta", "local", false, &[])];
    let mut settings = no_settings();
    assert_eq!(
        resolve_runtime(&providers, &settings, None, None).unwrap_err(),
        EngineError::NoProviderConfigured
    );
    assert_eq!(
        resolve_runtime(&providers, &settings, Some("gamma".into()), None).unwrap_err(),
        EngineError::NotFound
    );
    // A provider without models and without a default resolves to nothing.
    assert_eq!(
        resolve_runtime(&providers, &settings, Some("beta".into()), None).unwrap_err(),
        EngineError::NoProviderConfigured
    );
    let plain = resolve_runtime(&providers, &settings, Some("alpha".into()), None).unwrap();
    assert_eq!(plain.provider.id, "alpha");
    assert_eq!(plain.model, "a1");
    assert!(!plain.provider.has_credentials);
    let named = resolve_runtime(&providers, &settings, Some("alpha".into()), Some("a2".into())).unwrap();
    assert_eq!(named.model, "a2");
    // A model the provider does not list gives way to the first it lists.
    let unlisted = resolve_runtime(&providers, &settings, Some("alpha".into()), Some("zzz".into())).unwrap();
    assert_eq!(unlisted.model, "a1");
    // A provider that lists nothing takes any model.
    let free = resolve_runtime(&providers, &settings, Some("beta".into()), Some("anything".into())).unwrap();
    assert_eq!(free.model, "anything");
    settings.active_provider_id = Some("alpha".into());
    settings.active_model = Some("a2".into());
    let active = resolve_runtime(&providers, &settings, None, None).unwrap();
    assert_eq!((active.provider.id.as_str(), active.model.as_str()), ("alpha", "a2"));
}

#[test]
fn fallback_tries_usable_providers_local_first() {
    let mut providers = vec![
        provider("cloud", "cloud", false, &["c"]),
        provider("locked", "local", true, &["k"]),
        provider("home", "local", false, &["h"]),
        provider("primary", "cloud", false, &[]),
    ];
    let settings = no_settings();
    let local_first =
        collect_alternative_runtimes(&providers, &settings, &Some("primary".into()), &None, true);
    let ids: Vec<&str> = local_first.iter().map(|s| s.provider.id.as_str()).collect();
    assert_eq!(ids, vec!["home", "cloud"]);
    let in_order =
        collect_alternative_runtimes(&providers, &settings, &Some("primary".into()), &None, false);
    let ids: Vec<&str> = in_order.iter().map(|s| s.provider.id.as_str()).collect();
    assert_eq!(ids, vec!["cloud", "home"]);
    let chosen = resolve_with_fallback(&providers, &settings, Some("primary".into()), None, true).unwrap();
    assert_eq!(chosen.provider.id, "home");
    let attempts = chat_attempts(&providers, &settings, Some("cloud".into()), None, false).unwrap();
    let ids: Vec<&str> = attempts.iter().map(|s| s.provider.id.as_str()).collect();
    assert_eq!(ids, vec!["cloud", "home"]);

    providers.truncate(2);
    providers.remove(0);
    assert_eq!(
        resolve_with_fallback(&providers, &settings, None, None, true).unwrap_err(),
        EngineError::NoProviderConfigured
    );
    assert!(chat_attempts(&providers, &settings, None, None, true).is_err());
}

#[test]
fn settings_update_stores_the_key_in_base64() {
    let mut providers = vec![provider("alpha", "cloud", true, &["a1"])];
    let mut settings = no_settings();
    let snapshot = update_settings(
        &mut providers,
        &mut settings,
        AiSettingsUpdate {
            provider_id: "alpha".into(),
            model: None,
            api_key: Some("  sk-secret \n".into()),
            base_url: Some("https://example.test".into()),
        },
    )
    .unwrap();
    assert_eq!(snapshot.active_provider_id.as_deref(), Some("alpha"));
    assert_eq!(snapshot.active_model.as_deref(), Some("a1"));
    assert!(snapshot.provider.unwrap().has_credentials);
    assert_eq!(providers[0].credential.as_deref(), Some("c2stc2VjcmV0"));
    assert_eq!(providers[0].base_url.as_deref(), Some("https://example.test"));
    let selection = resolve_runtime(&providers, &settings, None, None).unwrap();
    assert_eq!(selection.secret.as_deref(), Some("sk-secret"));
    assert_eq!(list_providers(&providers)[0].display_name, "ALPHA");
    assert!(get_settings(&providers, &settings).unwrap().provider.is_some());

    // A blank key removes the stored one.
    update_settings(
        &mut providers,
        &mut settings,
        AiSettingsUpdate { provider_id: "alpha".into(), model: Some("a9".into()), api_key: Some("   ".into()), base_url: None },
    )
    .unwrap();
    assert_eq!(providers[0].credential, None);
    assert_eq!(settings.active_model.as_deref(), Some("a9"));
    assert_eq!(providers[0].base_url.as_deref(), Some("https://example.test"));

    let unknown = update_settings(
        &mut providers,
        &mut settings,
        AiSettingsUpdate { provider_id: "nope".into(), model: None, api_key: None, base_url: None },
    );
    assert_eq!(unknown.unwrap_err(), EngineError::NotFound);
    assert_eq!(settings.active_provider_id.as_deref(), Some("alpha"));
}

#[test]
fn secrets_that_cannot_be_read_fail() {
    assert_eq!(load_secret(&None), Ok(None));
    assert_eq!(load_secret(&Some("aGVsbG8=".into())), Ok(Some("hello".to_string())));
    assert_eq!(load_secret(&Some("not base64!".into())), Err(EngineError::StoreFailure));
    // Valid Base64 of bytes that are no UTF-8.
    assert_eq!(load_secret(&Some("/w==".into())), Err(EngineError::StoreFailure));
    let mut settings = no_settings();
    settings.active_provider_id = Some("ghost".into());
    assert_eq!(get_settings(&Vec::new(), &settings).unwrap_err(), EngineError::NotFound);
    assert!(get_settings(&Vec::new(), &no_settings()).unwrap().provider.is_none());
}

#[test]
fn invocations_are_recorded_for_the_digest() {
    let providers = vec![provider("alpha", "cloud", false, &["a1"])];
    let selection = resolve_runtime(&providers, &no_settings(), Some("alpha".into()), None).unwrap();
    let mut events = Vec::new();
    assert!(!record_invocation(&mut events, &selection, &GatewayOutcome::Failed("timeout".into()), 5));
    assert!(record_invocation(&mut events, &selection, &answered("hi", "a1"), 6));
    assert_eq!(events.len(), 2);
    assert_eq!(events[0].module, "ai.runtime");
    assert_eq!(events[0].level, "warn");
    assert_eq!(events[0].code.as_deref(), Some("AI-0201"));
    assert_eq!(events[1].level, "info");
    assert_eq!(events[1].code.as_deref(), Some("AI-0200"));
    assert_eq!(events[1].ts, 6);
}
