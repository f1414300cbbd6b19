//! Routing a chat through the configured providers.
//!
//! The manager decides which providers are tried and in which order, records
//! how each attempt ended, and says what the chat does next; the caller makes
//! the attempts.

use vstd::prelude::*;
use crate::agents::{AiRuntimeSelection, GatewayOutcome, ProviderRow};
use crate::errors::EngineError;
use crate::records::{EventField, EventRow, EventValue};
use crate::resolver::{
    alternative_positions, collect_alternative_runtimes, fallback_position, is_selection_of,
    resolve_with_fallback, row_named_at, selections_match,
};
use crate::store::{
    Settings, is_event, is_text_field, log_event, names_text, text_field, worded,
};
use crate::text::{chars_of, clone_text, string_of_range};

verus! {

/// How many characters of an answer the event log quotes.
pub const ANSWER_PREVIEW_LENGTH: usize = 200;

/// Plans a chat: the selections to try, in order. The first is what the
/// request resolves to, with fallback; the alternatives follow. The caller
/// tries them in turn until one answers.
///
/// Fails where no provider can be used.
pub fn chat_attempts(
    providers: &Vec<ProviderRow>,
    settings: &Settings,
    provider_override: Option<String>,
    model_override: Option<String>,
    prefer_local: bool,
) -> (attempts: Result<Vec<AiRuntimeSelection>, EngineError>)
    ensures
        attempts is Ok <==> fallback_position(
            providers@,
            *settings,
            provider_override,
            model_override,
            prefer_local,
        ) is Some,
        attempts is Err ==> attempts->Err_0 == EngineError::NoProviderConfigured,
        attempts is Ok ==> {
            let first = fallback_position(
                providers@,
                *settings,
                provider_override,
                model_override,
                prefer_local,
            ).unwrap();
            let others = alternative_positions(
                providers@,
                *settings,
                provider_override,
                model_override,
                prefer_local,
            );
            &&& attempts.unwrap()@.len() == 1 + others.len()
            &&& is_selection_of(
                attempts.unwrap()@[0],
                row_named_at(providers@, first),
                *settings,
                model_override,
            )
            &&& selections_match(
                attempts.unwrap()@.skip(1),
                others,
                providers@,
                *settings,
                model_override,
            )
        },
{
    let first = match resolve_with_fallback(
        providers,
        settings,
        clone_text(&provider_override),
        clone_text(&model_override),
        prefer_local,
    ) {
        Ok(first) => first,
        Err(error) => {
            return Err(error);
        },
    };
    let mut others = collect_alternative_runtimes(
        providers,
        settings,
        &provider_override,
        &model_override,
        prefer_local,
    );
    let mut attempts: Vec<AiRuntimeSelection> = Vec::new();
    attempts.push(first);
    attempts.append(&mut others);
    Ok(attempts)
}

/// What is reported where a chat ends without any attempt having been made.
pub const NO_RUNTIME: &'static str = "no AI runtime available";

/// What a chat does next.
#[derive(Debug)]
pub enum ChatStep {
    /// Try the planned selection at this position.
    Try(usize),
    /// The chat is over, with this outcome.
    Done(GatewayOutcome),
}

/// Whether `step` is what a chat does next, `tried` of its `planned`
/// selections having been tried in order and `last` being how the latest
/// attempt ended. An answer ends the chat at once. After a failure the next
/// selection is tried, and when none is left the chat ends with the latest
/// failure. A chat for which nothing was ever tried ends with the failure
/// [`NO_RUNTIME`].
pub open spec fn is_chat_step(
    step: ChatStep,
    planned: usize,
    tried: usize,
    last: Option<GatewayOutcome>,
) -> bool {
    if last is Some && last.unwrap() is Answered {
        step == ChatStep::Done(last.unwrap())
    } else if tried < planned {
        step == ChatStep::Try(tried)
    } else if last is Some {
        step == ChatStep::Done(last.unwrap())
    } else {
        step matches ChatStep::Done(GatewayOutcome::Failed(reason)) && reason@ == NO_RUNTIME@
    }
}

/// Decides what a chat does next from how many selections were planned, how
/// many of them were tried, and how the latest attempt ended. The caller makes
/// the attempt that a [`ChatStep::Try`] names and comes back with its outcome.
pub fn next_chat_step(planned: usize, tried: usize, last: Option<GatewayOutcome>) -> (step:
    ChatStep)
    ensures
        is_chat_step(step, planned, tried, last),
{
    match last {
        Some(GatewayOutcome::Answered(response)) => ChatStep::Done(
            GatewayOutcome::Answered(response),
        ),
        Some(failure) => {
            if tried < planned {
                ChatStep::Try(tried)
            } else {
                ChatStep::Done(failure)
            }
        },
        None => {
            if tried < planned {
                ChatStep::Try(tried)
            } else {
                ChatStep::Done(GatewayOutcome::Failed(NO_RUNTIME.to_owned()))
            }
        },
    }
}

/// What the event log quotes of an answer: its first 200 characters.
pub open spec fn answer_preview(content: Seq<char>) -> Seq<char> {
    if content.len() > ANSWER_PREVIEW_LENGTH {
        content.subrange(0, ANSWER_PREVIEW_LENGTH as int)
    } else {
        content
    }
}

/// Whether `row` is the event that records how an attempt ended. It names
/// the provider and the model that were tried. For an answer it is an
/// informational event that quotes the beginning of the answer; for a failure
/// it is a warning, with the reason where the gateway gave one.
pub open spec fn is_invocation_event(
    row: EventRow,
    selection: AiRuntimeSelection,
    outcome: GatewayOutcome,
    now: i64,
) -> bool {
    &&& names_text(row, "provider"@, selection.provider.id@)
    &&& names_text(row, "model"@, selection.model@)
    &&& match outcome {
        GatewayOutcome::Answered(response) => {
            &&& is_event(row, now, "info"@, "AI-0200"@, "ai.runtime"@)
            &&& worded(row, "AI chat invocation succeeded"@, "Model manager resolved a provider"@)
            &&& names_text(row, "preview"@, answer_preview(response.content@))
        },
        GatewayOutcome::Failed(reason) => {
            &&& is_event(row, now, "warn"@, "AI-0201"@, "ai.runtime"@)
            &&& worded(row, "AI provider invocation failed"@, "Attempting fallback"@)
            &&& names_text(row, "error"@, reason@)
        },
        GatewayOutcome::Unavailable => {
            &&& is_event(row, now, "warn"@, "AI-0201"@, "ai.runtime"@)
            &&& worded(row, "AI provider invocation failed"@, "Attempting fallback"@)
        },
    }
}

/// Records how an attempt to reach a provider ended, and says whether the
/// chat is over: it is once a provider answered.
pub fn record_invocation(
    events: &mut Vec<EventRow>,
    selection: &AiRuntimeSelection,
    outcome: &GatewayOutcome,
    now: i64,
) -> (answered: bool)
    ensures
        answered == (*outcome is Answered),
        final(events)@.len() == old(events)@.len() + 1,
        final(events)@.take(old(events)@.len() as int) == old(events)@,
        is_invocation_event(final(events)@.last(), *selection, *outcome, now),
{
    let mut data: Vec<EventField> = Vec::new();
    data.push(text_field("provider", selection.provider.id.clone()));
    data.push(text_field("model", selection.model.clone()));
    match outcome {
        GatewayOutcome::Answered(response) => {
            let chars = chars_of(response.content.as_str());
            let shown: usize = if chars.len() > ANSWER_PREVIEW_LENGTH {
                ANSWER_PREVIEW_LENGTH
            } else {
                chars.len()
            };
            data.push(text_field("preview", string_of_range(&chars, 0, shown)));
            proof {
                assert(chars@.subrange(0, chars@.len() as int) == chars@);
                assert(is_text_field(data@[0], "provider"@, selection.provider.id@));
                assert(is_text_field(data@[1], "model"@, selection.model@));
                assert(is_text_field(data@[2], "preview"@, answer_preview(response.content@)));
            }
            log_event(
                events,
                now,
                "info",
                "AI-0200",
                "ai.runtime",
                "AI chat invocation succeeded",
                "Model manager resolved a provider",
                data,
            );
            true
        },
        GatewayOutcome::Failed(reason) => {
            data.push(text_field("error", reason.clone()));
            proof {
                assert(is_text_field(data@[0], "provider"@, selection.provider.id@));
                assert(is_text_field(data@[1], "model"@, selection.model@));
                assert(is_text_field(data@[2], "error"@, reason@));
            }
            log_event(
                events,
                now,
                "warn",
                "AI-0201",
                "ai.runtime",
                "AI provider invocation failed",
                "Attempting fallback",
                data,
            );
            false
        },
        GatewayOutcome::Unavailable => {
            data.push(EventField { name: "error".to_owned(), value: EventValue::Missing });
            proof {
                assert(is_text_field(data@[0], "provider"@, selection.provider.id@));
                assert(is_text_field(data@[1], "model"@, selection.model@));
            }
            log_event(
                events,
                now,
                "warn",
                "AI-0201",
                "ai.runtime",
                "AI provider invocation failed",
                "Attempting fallback",
                data,
            );
            false
        },
    }
}

} // verus!
