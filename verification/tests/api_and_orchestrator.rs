use inkos_core::agents::{
    AiChatInput, AiChatMessage, AiChatResponse, AiProviderInfo, AiRuntimeSelection, GatewayOutcome,
};
use inkos_core::api::{
    ai_summarize, ai_summarize_request, chat_append_and_maybe_rollover, ensure_today_digest,
    today_digest_request, AiSummarizeInput, ApiError, ChatAppendInput,
};
use inkos_core::clock::Stamps;
use inkos_core::errors::EngineError;
use inkos_core::jobs::{
    mark_running, persist_job, sweep_abandoned, JobPayload, JobResult, JobState, ABANDONED,
};
use inkos_core::journal::NoteRow;
use inkos_core::orchestrator::{anthropic_chat, chat_protocol, endpoint, temperature, ChatProtocol};
use inkos_core::records::{ConversationRow, Fraction};
use inkos_core::resolver::{seed_defaults, ProviderSeed};
use inkos_core::scheduler::JobScheduler;
use inkos_core::store::Store;
use inkos_core::summarizer::Summarizer;

/// 2024-01-05 00:00:00 UTC.
const DAY: i64 = 1_704_412_800;

fn stamps(tag: &str, now: i64) -> Stamps {
    Stamps {
        now,
        message_id: format!("msg-{tag}"),
        summary_id: format!("sum-{tag}"),
        conversation_id: format!("conv-{tag}"),
        continuity_message_id: format!("cont-{tag}"),
        job_id: format!("job-{tag}"),
        nightly_job_id: format!("nightly-{tag}"),
        logbook_id: format!("log-{tag}"),
        timeline_logbook_id: format!("tl-log-{tag}"),
        timeline_notes_id: format!("tl-notes-{tag}"),
        timeline_ai_id: format!("tl-ai-{tag}"),
        timeline_alerts_id: format!("tl-alerts-{tag}"),
    }
}

fn answered(content: &str) -> GatewayOutcome {
    GatewayOutcome::Answered(AiChatResponse {
        provider_id: "p".to_string(),
        model: "m".to_string(),
        content: content.to_string(),
        usage: None,
    })
}

fn selection(id: &str, kind: &str, tags: &[&str], base_url: Option<&str>, secret: Option<&str>) -> AiRuntimeSelection {
    AiRuntimeSelection {
        provider: AiProviderInfo {
            id: id.to_string(),
            kind: kind.to_string(),
            display_name: id.to_string(),
            description: None,
            base_url: base_url.map(|s| s.to_string()),
            default_model: None,
            models: Vec::new(),
            capability_tags: tags.iter().map(|t| t.to_string()).collect(),
            requires_api_key: secret.is_some(),
            has_credentials: secret.is_some(),
        },
        model: "model-x".to_string(),
        secret: secret.map(|s| s.to_string()),
    }
}

fn seed(id: &str, model: &str) -> ProviderSeed {
    ProviderSeed {
        id: id.to_string(),
        kind: "cloud".to_string(),
        display_name: id.to_uppercase(),
        description: Some("seeded".to_string()),
        base_url: None,
        default_model: model.to_string(),
        models: vec![model.to_string()],
        capability_tags: vec!["ctx-8k".to_string()],
        requires_api_key: true,
    }
}

#[test]
fn ai_summarize_dispatches_on_the_target_type() {
    let mut store = Store::new();
    store.notes.push(NoteRow {
        id: "n1".into(),
        title: "Plan".into(),
        body: "Ship it".into(),
        created_at: 1,
        updated_at: 1,
    });
    let mut summarizer = Summarizer::new(store);
    let note = AiSummarizeInput { target_type: "note".into(), target_id: "n1".into() };
    let request = ai_summarize_request(&summarizer, &note).unwrap();
    assert_eq!(request.input.messages[1].content, "# Plan\n\nShip it");
    let summary = ai_summarize(&mut summarizer, &note, &GatewayOutcome::Unavailable, &stamps("a", 1)).unwrap();
    assert_eq!(summary.target_type, "note");
    assert_eq!(summary.body, "# Plan\n\nShip it");
    assert!(ai_summarize_request(&summarizer, &note).is_none());

    let missing = AiSummarizeInput { target_type: "note".into(), target_id: "n2".into() };
    assert!(matches!(
        ai_summarize(&mut summarizer, &missing, &answered("x"), &stamps("b", 1)),
        Err(ApiError::Engine(EngineError::NotFound))
    ));
    let day = AiSummarizeInput { target_type: "day".into(), target_id: "2024-01-05".into() };
    assert!(matches!(
        ai_summarize(&mut summarizer, &day, &answered("x"), &stamps("c", 1)),
        Err(ApiError::Engine(EngineError::NotFound))
    ));
    let conversation = AiSummarizeInput { target_type: "conversation".into(), target_id: "c".into() };
    assert!(matches!(
        ai_summarize(&mut summarizer, &conversation, &answered("x"), &stamps("d", 1)),
        Err(ApiError::Engine(EngineError::NotFound))
    ));
    let other = AiSummarizeInput { target_type: "thing".into(), target_id: "x".into() };
    match ai_summarize(&mut summarizer, &other, &answered("x"), &stamps("e", 1)) {
        Err(ApiError::UnsupportedTarget(reason)) => assert_eq!(reason, "Unsupported summary target: thing"),
        other => panic!("unexpected result: {other:?}"),
    }
    assert!(ai_summarize_request(&summarizer, &other).is_none());
    assert_eq!(summarizer.store.summaries.len(), 1);
}

#[test]
fn chat_append_defaults_to_the_user_role() {
    let mut store = Store::new();
    store.conversations.push(ConversationRow {
        id: "c1".into(),
        title: None,
        provider_id: "p".into(),
        model_id: "m".into(),
        ctx_warn: false,
        ctx_force: false,
        created_at: 0,
        updated_at: 0,
        closed_at: None,
        quality_flags: None,
    });
    let mut summarizer = Summarizer::new(store);
    let plain = ChatAppendInput { conversation_id: "c1".into(), content: "hi".into(), role: None };
    let result =
        chat_append_and_maybe_rollover(&mut summarizer, &plain, &GatewayOutcome::Unavailable, &stamps("a", 1))
            .unwrap();
    assert_eq!(result.message.role, "user");
    let named = ChatAppendInput {
        conversation_id: "c1".into(),
        content: "hello".into(),
        role: Some("assistant".into()),
    };
    let result =
        chat_append_and_maybe_rollover(&mut summarizer, &named, &GatewayOutcome::Unavailable, &stamps("b", 2))
            .unwrap();
    assert_eq!(result.message.role, "assistant");
}

#[test]
fn today_gets_its_digest_once() {
    let mut scheduler = JobScheduler::new(Summarizer::new(Store::new()));
    let now = DAY + 3_600;
    assert!(today_digest_request(&mut scheduler, &stamps("a", now)).is_some());
    assert!(scheduler.summarizer.store.jobs.is_empty());
    let ran = ensure_today_digest(&mut scheduler, &answered("Quiet."), &stamps("a", now)).unwrap();
    assert_eq!(ran.unwrap().result.entry_date, "2024-01-05");
    assert_eq!(scheduler.summarizer.store.logbook[0].entry_date, "2024-01-05");
    let jobs = scheduler.summarizer.store.jobs.len();

    assert!(today_digest_request(&mut scheduler, &stamps("b", now + 60)).is_none());
    let again = ensure_today_digest(&mut scheduler, &answered("Other."), &stamps("b", now + 60)).unwrap();
    assert!(again.is_none());
    assert_eq!(scheduler.summarizer.store.jobs.len(), jobs);
    assert_eq!(scheduler.summarizer.store.logbook[0].summary, "Quiet.");
}

#[test]
fn abandoned_jobs_are_ended_not_requeued() {
    let mut jobs = Vec::new();
    persist_job(&mut jobs, "k", JobPayload { date: None }, None, "a".into(), 1).unwrap();
    persist_job(&mut jobs, "k", JobPayload { date: None }, None, "b".into(), 1).unwrap();
    mark_running(&mut jobs, "a", 2).unwrap();
    assert_eq!(sweep_abandoned(&mut jobs, 9), 1);
    assert_eq!(jobs[0].state, JobState::Failed);
    assert_eq!(jobs[0].updated_at, 9);
    assert!(matches!(&jobs[0].result, Some(JobResult::Error(reason)) if reason == ABANDONED));
    assert_eq!(jobs[1].state, JobState::Queued);
    assert_eq!(sweep_abandoned(&mut jobs, 10), 0);
}

#[test]
fn seeds_are_upserted_and_the_first_becomes_active() {
    let mut store = Store::new();
    assert_eq!(
        seed_defaults(&mut store.providers, &mut store.settings, Vec::new()),
        Err(EngineError::NoProviderConfigured)
    );
    seed_defaults(&mut store.providers, &mut store.settings, vec![seed("alpha", "a1"), seed("beta", "b1")])
        .unwrap();
    assert_eq!(store.providers.len(), 2);
    assert_eq!(store.settings.active_provider_id.as_deref(), Some("alpha"));
    assert_eq!(store.settings.active_model.as_deref(), Some("a1"));
    store.providers[1].credential = Some("a2V5".to_string());
    store.settings.active_provider_id = Some("beta".to_string());

    seed_defaults(&mut store.providers, &mut store.settings, vec![seed("beta", "b2"), seed("gamma", "g1")])
        .unwrap();
    let ids: Vec<&str> = store.providers.iter().map(|p| p.id.as_str()).collect();
    assert_eq!(ids, vec!["alpha", "beta", "gamma"]);
    assert_eq!(store.providers[1].default_model.as_deref(), Some("b2"));
    assert_eq!(store.providers[1].credential.as_deref(), Some("a2V5"));
    assert_eq!(store.settings.active_provider_id.as_deref(), Some("beta"));
    assert_eq!(seed_defaults(&mut store.providers, &mut store.settings, Vec::new()), Ok(()));
}

#[test]
fn protocols_and_endpoints() {
    let openai = selection("openai", "cloud", &[], None, Some("sk"));
    assert_eq!(chat_protocol(&openai), Ok(ChatProtocol::OpenAi));
    assert_eq!(endpoint(ChatProtocol::OpenAi, &openai), "https://api.openai.com/v1/chat/completions");
    let keyless = selection("openai", "cloud", &[], None, None);
    assert_eq!(chat_protocol(&keyless), Err("OpenAI API key is not configured".to_string()));
    assert_eq!(
        chat_protocol(&selection("anthropic", "cloud", &[], None, None)),
        Err("Anthropic API key is not configured".to_string())
    );
    let gemini = selection("google", "cloud", &[], Some("https://g.test/v1//"), Some("key"));
    assert_eq!(chat_protocol(&gemini), Ok(ChatProtocol::Gemini));
    assert_eq!(endpoint(ChatProtocol::Gemini, &gemini), "https://g.test/v1/model-x:generateContent?key=key");
    let ollama = selection("ollama", "local", &[], None, None);
    assert_eq!(chat_protocol(&ollama), Ok(ChatProtocol::Ollama));
    assert_eq!(endpoint(ChatProtocol::Ollama, &ollama), "http://127.0.0.1:11434/api/chat");
    let custom = selection("mine", "local", &["chat", "openai-compatible"], Some("http://box:1234/"), None);
    assert_eq!(chat_protocol(&custom), Ok(ChatProtocol::OpenAiCompatible));
    assert_eq!(endpoint(ChatProtocol::OpenAiCompatible, &custom), "http://box:1234/v1/chat/completions");
    assert_eq!(chat_protocol(&selection("lmstudio", "local", &[], None, None)), Ok(ChatProtocol::OpenAiCompatible));
    assert_eq!(
        chat_protocol(&selection("mine", "cloud", &["openai"], None, None)),
        Err("Unsupported AI provider: mine".to_string())
    );
    assert_eq!(
        endpoint(ChatProtocol::Anthropic, &selection("anthropic", "cloud", &[], None, Some("k"))),
        "https://api.anthropic.com/v1/messages"
    );
}

#[test]
fn anthropic_layout_splits_system_from_turns() {
    let messages = vec![
        AiChatMessage { role: "system".into(), content: "Be kind.".into() },
        AiChatMessage { role: "user".into(), content: "Hi".into() },
        AiChatMessage { role: "tool".into(), content: "ignored".into() },
        AiChatMessage { role: "system".into(), content: "Be brief.".into() },
        AiChatMessage { role: "assistant".into(), content: "Hello".into() },
    ];
    let chat = anthropic_chat(&messages);
    assert_eq!(chat.system.as_deref(), Some("Be kind.\n\nBe brief."));
    let roles: Vec<&str> = chat.turns.iter().map(|t| t.role.as_str()).collect();
    assert_eq!(roles, vec!["user", "assistant"]);

    let empty = anthropic_chat(&Vec::new());
    assert_eq!(empty.system, None);
    assert_eq!(empty.turns.len(), 1);
    assert_eq!(empty.turns[0].role, "user");
    assert_eq!(empty.turns[0].content, "Hello from InkOS");
}

#[test]
fn temperature_defaults_to_a_fifth() {
    let unset = AiChatInput { messages: Vec::new(), temperature: None };
    assert_eq!(temperature(&unset), Fraction { millionths: 200_000 });
    let set = AiChatInput { messages: Vec::new(), temperature: Some(Fraction { millionths: 700_000 }) };
    assert_eq!(temperature(&set), Fraction { millionths: 700_000 });
}
