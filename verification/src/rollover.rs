//! Rolling a conversation over: closing it, summarising it and continuing in
//! a new conversation that starts from the summary.
//!
//! A rollover is one step against the store: it happens as a whole, or the
//! store stays as it was.

use vstd::prelude::*;
use crate::agents::{GatewayOutcome, ProviderRow};
use crate::clock::Stamps;
use crate::conversations::{
    closed, fetch_conversation, history_of, insert_message, is_new_message, list_messages,
    mark_ctx_force, shown_total, touched,
};
use crate::errors::EngineError;
use crate::excerpts::{excerpts_of, pending_texts, select_conversation_excerpts};
use crate::hashing::content_hash;
use crate::keyed::{
    Keyed, find_row, holds_key, lemma_holds_key_has_position, lemma_position_of, position_of,
};
use crate::records::{ConversationRow, EventField, EventValue, RolloverOutcome};
use crate::resolver::{fallback_position, resolve_with_fallback, resolved_model, row_named_at};
use crate::store::{
    Settings, Store, Tables, config_of, insert_link, is_event, is_link, is_text_field,
    log_event, names_text, read_config, text_field, worded,
};
use crate::summaries::{
    SummaryRequest, can_insert_summary, is_cached, is_summary_request, store_or_create_summary,
    summary_obtained, summary_prompt, summary_request,
};

verus! {

/// What precedes the summary in the first message of the new conversation.
pub const CONTINUITY_PREFIX: &'static str = "Summary of previous thread:\n";

/// The excerpt set of a conversation as the store holds it.
pub open spec fn rollover_excerpts(
    before: Tables,
    conversation: Seq<char>,
    pending: Option<(Seq<char>, Seq<char>)>,
) -> Seq<Seq<char>> {
    excerpts_of(history_of(before.messages, conversation), pending)
}

/// The position of the provider under which a conversation continues: the
/// one it was bound to where that resolves, else the first alternative,
/// local providers first.
pub open spec fn successor_provider(before: Tables, source: ConversationRow) -> Option<int> {
    fallback_position(
        before.providers,
        before.settings,
        Some(source.provider_id),
        Some(source.model_id),
        true,
    )
}

/// Why a conversation cannot be rolled over, if it cannot.
pub open spec fn rollover_failure(
    before: Tables,
    conversation: Seq<char>,
    pending: Option<(Seq<char>, Seq<char>)>,
    stamps: Stamps,
) -> Option<EngineError> {
    if !holds_key(before.conversations, conversation) {
        Some(EngineError::NotFound)
    } else {
        let source = before.conversations[position_of(before.conversations, conversation)];
        let hash = content_hash(rollover_excerpts(before, conversation, pending));
        if successor_provider(before, source) is None {
            Some(EngineError::NoProviderConfigured)
        } else if holds_key(before.conversations, stamps.conversation_id@) {
            Some(EngineError::StoreFailure)
        } else if !is_cached(before.summaries, "conversation"@, conversation, hash)
            && !can_insert_summary(
            before.summaries,
            "conversation"@,
            conversation,
            stamps.summary_id@,
        ) {
            Some(EngineError::StoreFailure)
        } else {
            None
        }
    }
}

/// Whether `row` is the conversation that continues `source` under
/// `provider`: same title, flags cleared, created now.
pub open spec fn is_successor(
    row: ConversationRow,
    source: ConversationRow,
    provider: ProviderRow,
    settings: Settings,
    stamps: Stamps,
) -> bool {
    &&& row.id == stamps.conversation_id
    &&& row.title == source.title
    &&& row.provider_id == provider.id
    &&& Some(row.model_id) == resolved_model(provider, settings, Some(source.model_id))
    &&& !row.ctx_warn
    &&& !row.ctx_force
    &&& row.created_at == stamps.now
    &&& row.updated_at == stamps.now
    &&& row.closed_at is None
    &&& row.quality_flags is None
}

/// What a rollover of `conversation` does to the store.
///
/// The source is closed. Its summary is found in the cache or stored. A new
/// conversation is appended, with one system message that carries the
/// summary. Two links record where the summary came from and where it went,
/// and an event records the rollover. Nothing else changes.
pub open spec fn rolled_over(
    before: Tables,
    after: Tables,
    outcome: RolloverOutcome,
    conversation: Seq<char>,
    pending: Option<(Seq<char>, Seq<char>)>,
    reply: GatewayOutcome,
    stamps: Stamps,
) -> bool {
    let source = before.conversations[position_of(before.conversations, conversation)];
    let provider = row_named_at(before.providers, successor_provider(before, source).unwrap());
    let successor = after.conversations.last();
    let logged = after.events.len() - 1;
    let linked = before.links.len() as int;
    &&& outcome.rolled
    &&& outcome.summary is Some
    &&& outcome.new_conversation is Some
    &&& logged >= 0
    &&& summary_obtained(
        before.summaries,
        after.summaries,
        before.events,
        after.events.take(logged),
        Ok(outcome.summary.unwrap()),
        "conversation"@,
        conversation,
        rollover_excerpts(before, conversation, pending),
        reply,
        stamps.summary_id,
        stamps.now,
    )
    &&& is_event(after.events[logged], stamps.now, "info"@, "AI-CTX-ROLLOVER"@, "ai.context"@)
    &&& worded(
        after.events[logged],
        "Conversation rolled over"@,
        "A new thread was created to keep context within limits."@,
    )
    &&& names_text(after.events[logged], "previous_conversation"@, conversation)
    &&& names_text(after.events[logged], "new_conversation"@, stamps.conversation_id@)
    &&& names_text(after.events[logged], "summary_id"@, outcome.summary.unwrap().id@)
    &&& after.conversations == closed(before.conversations, conversation, stamps.now).push(
        successor,
    )
    &&& is_successor(successor, source, provider, before.settings, stamps)
    &&& after.messages == before.messages.push(after.messages.last())
    &&& after.messages.len() == before.messages.len() + 1
    &&& is_new_message(
        after.messages.last(),
        stamps.continuity_message_id,
        stamps.conversation_id@,
        "system"@,
        CONTINUITY_PREFIX@ + outcome.summary.unwrap().body@,
        stamps.now,
    )
    &&& after.links.len() == linked + 2
    &&& after.links.take(linked) == before.links
    &&& is_link(
        after.links[linked],
        conversation,
        "conversation"@,
        outcome.summary.unwrap().id@,
        "summary"@,
        "summarized_as"@,
        stamps.now,
    )
    &&& is_link(
        after.links[linked + 1],
        outcome.summary.unwrap().id@,
        "summary"@,
        stamps.conversation_id@,
        "conversation"@,
        "rollover_to"@,
        stamps.now,
    )
    &&& outcome.new_conversation.unwrap() == successor.as_record(
        shown_total(after.messages, stamps.conversation_id@),
    )
    &&& after.jobs == before.jobs
    &&& after.providers == before.providers
    &&& after.settings == before.settings
    &&& after.notes == before.notes
    &&& after.logbook == before.logbook
    &&& after.timeline == before.timeline
}

/// Rolls a conversation over, see [`rolled_over`].
///
/// `pending_message` is the role and body of a message that was just
/// appended; `reply` is what the gateway answered to the request of
/// [`rollover_request`], and is looked at only where the summary is not in
/// the cache. Fails, leaving the store as it was, where the conversation
/// does not exist, no provider resolves, or the store cannot take the rows.
pub fn perform_rollover(
    store: &mut Store,
    conversation_id: &str,
    pending_message: Option<(&str, &str)>,
    reply: &GatewayOutcome,
    stamps: &Stamps,
) -> (result: Result<RolloverOutcome, EngineError>)
    ensures
        result is Err <==> rollover_failure(
            old(store)@,
            conversation_id@,
            pending_texts(pending_message),
            *stamps,
        ) is Some,
        result is Err ==> Some(result->Err_0) == rollover_failure(
            old(store)@,
            conversation_id@,
            pending_texts(pending_message),
            *stamps,
        ) && final(store)@ == old(store)@,
        result is Ok ==> rolled_over(
            old(store)@,
            final(store)@,
            result.unwrap(),
            conversation_id@,
            pending_texts(pending_message),
            *reply,
            *stamps,
        ),
{
    let at = match find_row(&store.conversations, conversation_id) {
        Some(at) => at,
        None => {
            return Err(EngineError::NotFound);
        },
    };
    let title = match &store.conversations[at].title {
        Some(title) => Some(title.clone()),
        None => None,
    };
    let selection = match resolve_with_fallback(
        &store.providers,
        &store.settings,
        Some(store.conversations[at].provider_id.clone()),
        Some(store.conversations[at].model_id.clone()),
        true,
    ) {
        Ok(selection) => selection,
        Err(_) => {
            return Err(EngineError::NoProviderConfigured);
        },
    };
    if find_row(&store.conversations, stamps.conversation_id.as_str()).is_some() {
        return Err(EngineError::StoreFailure);
    }
    let history = list_messages(&store.messages, conversation_id, None);
    assert(history@ == history_of(store.messages@, conversation_id@));
    let excerpts = select_conversation_excerpts(&history, pending_message);
    let summary = match store_or_create_summary(
        &mut store.summaries,
        &mut store.events,
        "conversation",
        conversation_id,
        &excerpts,
        reply,
        stamps.summary_id.clone(),
        stamps.now,
    ) {
        Ok(summary) => summary,
        Err(error) => {
            return Err(error);
        },
    };
    mark_ctx_force(&mut store.conversations, conversation_id, stamps.now);
    let ghost shut = store.conversations@;
    let successor = ConversationRow {
        id: stamps.conversation_id.clone(),
        title,
        provider_id: selection.provider.id.clone(),
        model_id: selection.model.clone(),
        ctx_warn: false,
        ctx_force: false,
        created_at: stamps.now,
        updated_at: stamps.now,
        closed_at: None,
        quality_flags: None,
    };
    store.conversations.push(successor);
    proof {
        let grown = store.conversations@;
        let last = shut.len() as int;
        lemma_position_of(grown, stamps.conversation_id@, last);
        assert(touched(grown, stamps.conversation_id@, stamps.now) =~= grown);
    }
    let mut text = CONTINUITY_PREFIX.to_owned();
    text.append(summary.body.as_str());
    insert_message(
        &mut store.conversations,
        &mut store.messages,
        stamps.conversation_id.as_str(),
        "system",
        text.as_str(),
        stamps.continuity_message_id.clone(),
        stamps.now,
    );
    insert_link(
        &mut store.links,
        conversation_id,
        "conversation",
        summary.id.as_str(),
        "summary",
        "summarized_as",
        stamps.now,
    );
    insert_link(
        &mut store.links,
        summary.id.as_str(),
        "summary",
        stamps.conversation_id.as_str(),
        "conversation",
        "rollover_to",
        stamps.now,
    );
    let mut data: Vec<EventField> = Vec::new();
    data.push(text_field("previous_conversation", conversation_id.to_owned()));
    data.push(text_field("new_conversation", stamps.conversation_id.clone()));
    data.push(text_field("summary_id", summary.id.clone()));
    log_event(
        &mut store.events,
        stamps.now,
        "info",
        "AI-CTX-ROLLOVER",
        "ai.context",
        "Conversation rolled over",
        "A new thread was created to keep context within limits.",
        data,
    );
    proof {
        let logged = store.events@.last();
        assert(is_text_field(logged.data@[0], "previous_conversation"@, conversation_id@));
        assert(is_text_field(logged.data@[1], "new_conversation"@, stamps.conversation_id@));
        assert(is_text_field(logged.data@[2], "summary_id"@, summary.id@));
    }
    let new_conversation = fetch_conversation(
        &store.conversations,
        &store.messages,
        stamps.conversation_id.as_str(),
    );
    proof {
        let after = store@;
        assert(after.links.take(old(store)@.links.len() as int) == old(store)@.links);
    }
    Ok(RolloverOutcome { rolled: true, new_conversation, summary: Some(summary) })
}

/// Builds the request to send to the gateway before a rollover of
/// `conversation_id`; `None` where the rollover needs no answer: its summary
/// is cached, or the conversation does not exist.
pub fn rollover_request(
    store: &Store,
    conversation_id: &str,
    pending_message: Option<(&str, &str)>,
) -> (request: Option<SummaryRequest>)
    ensures
        request is Some <==> holds_key(store@.conversations, conversation_id@) && !is_cached(
            store@.summaries,
            "conversation"@,
            conversation_id@,
            content_hash(rollover_excerpts(store@, conversation_id@, pending_texts(pending_message))),
        ),
        request is Some ==> is_summary_request(
            request.unwrap(),
            summary_prompt(rollover_excerpts(store@, conversation_id@, pending_texts(pending_message))),
            config_of(store@.settings).summarizer_model,
        ),
{
    if find_row(&store.conversations, conversation_id).is_none() {
        return None;
    }
    let history = list_messages(&store.messages, conversation_id, None);
    assert(history@ == history_of(store.messages@, conversation_id@));
    let excerpts = select_conversation_excerpts(&history, pending_message);
    let config = read_config(&store.settings);
    summary_request(&store.summaries, "conversation", conversation_id, &excerpts, &config)
}

} // verus!
