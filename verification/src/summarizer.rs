//! The summariser: thresholds, appending with rollover, and summaries on
//! request.

use vstd::prelude::*;
use crate::agents::{GatewayOutcome, ProviderRow};
use crate::clock::Stamps;
use crate::conversations::{
    conversations_by_activity, fetch_conversation, history_of, insert_message,
    is_new_conversation, is_new_message, lemma_row_changes, limited, list_conversations,
    list_messages, mark_ctx_warn, shown_total, sum_tokens, sum_tokens_wide, token_total,
    touched, warned,
};
use crate::resolver::{fallback_position, resolve_with_fallback, resolved_model, row_named_at};
use crate::excerpts::select_conversation_excerpts;
use crate::hashing::content_hash;
use crate::errors::EngineError;
use crate::keyed::{Keyed, find_row, holds_key, position_of};
use crate::records::{
    AppendResult, ConversationRecord, ConversationRow, EventField, EventValue, Fraction,
    MessageRecord, RolloverOutcome, SummarizerConfig, SummaryRecord,
};
use crate::rollover::{
    perform_rollover, rolled_over, rollover_excerpts, rollover_failure, rollover_request,
};
use crate::summaries::{
    SummaryRequest, cache_keys_distinct, is_cached, is_summary_request, load_summary,
    store_or_create_summary, summary_obtained, summary_prompt, summary_request, versions_dense,
};
use crate::text::{lemma_views_push, views};
use crate::store::{
    Settings, Store, Tables, config_of, is_event, is_text_field, log_event, names_number,
    names_text, number_field, read_config, text_field, worded,
};
use crate::tokens::{context_window, context_window_of};

verus! {

/// The token count at which a threshold of `ratio` of a window of `window`
/// tokens lies: the product, rounded down.
pub open spec fn threshold_of(window: nat, ratio: Fraction) -> int {
    let exact = window * ratio.millionths / 1_000_000;
    if exact > i64::MAX {
        i64::MAX as int
    } else {
        exact
    }
}

/// Computes the token count at which a threshold lies.
pub fn threshold(window: usize, ratio: Fraction) -> (tokens: i64)
    ensures
        tokens == threshold_of(window as nat, ratio),
{
    assert((window as u128) * (ratio.millionths as u128) <= 0xffff_ffff_ffff_ffff * 0xffff_ffff)
        by (nonlinear_arith)
        requires
            window <= 0xffff_ffff_ffff_ffff,
            ratio.millionths <= 0xffff_ffff,
    ;
    let product: u128 = (window as u128) * (ratio.millionths as u128);
    let exact: u128 = product / 1_000_000;
    if exact > 0x7fff_ffff_ffff_ffff {
        i64::MAX
    } else {
        exact as i64
    }
}

/// The context window of a conversation bound to `provider_id` and
/// `model_id`: what the provider's tags declare, else what the model's name
/// suggests, else the default.
pub open spec fn window_for(
    providers: Seq<ProviderRow>,
    provider_id: Seq<char>,
    model_id: Seq<char>,
) -> nat {
    if holds_key(providers, provider_id) {
        context_window_of(providers[position_of(providers, provider_id)].capability_tags@, model_id)
    } else {
        context_window_of(Seq::empty(), model_id)
    }
}

/// Resolves the context window of a conversation.
pub fn context_limit_from_tags(
    providers: &Vec<ProviderRow>,
    provider_id: &str,
    model_id: &str,
) -> (window: usize)
    ensures
        window == window_for(providers@, provider_id@, model_id@),
{
    match find_row(providers, provider_id) {
        Some(at) => context_window(&providers[at].capability_tags, model_id),
        None => {
            let none: Vec<String> = Vec::new();
            context_window(&none, model_id)
        },
    }
}

/// Whether appending `tokens` to a conversation flags it: the total reaches
/// the warn threshold and the conversation is not flagged yet.
pub open spec fn warns(before: Tables, source: ConversationRow, total: int) -> bool {
    !source.ctx_warn && total >= threshold_of(
        window_for(before.providers, source.provider_id@, source.model_id@),
        config_of(before.settings).warn_ratio,
    )
}

/// Whether a total forces a rollover: it reaches the force threshold.
pub open spec fn forces(before: Tables, source: ConversationRow, total: int) -> bool {
    total >= threshold_of(
        window_for(before.providers, source.provider_id@, source.model_id@),
        config_of(before.settings).force_ratio,
    )
}

/// The store once `message` is in it and its conversation is touched and,
/// where due, flagged; the event log is left aside.
pub open spec fn with_message(
    before: Tables,
    message: MessageRecord,
    conversation: Seq<char>,
    flagged: bool,
    now: i64,
) -> Tables {
    Tables {
        messages: before.messages.push(message),
        conversations: if flagged {
            warned(touched(before.conversations, conversation, now), conversation)
        } else {
            touched(before.conversations, conversation, now)
        },
        ..before
    }
}

/// What appending `message` to `conversation` does to the store, see
/// [`appended`].
pub open spec fn appended_with(
    before: Tables,
    after: Tables,
    result: Result<AppendResult, EngineError>,
    message: MessageRecord,
    conversation: Seq<char>,
    role: Seq<char>,
    body: Seq<char>,
    reply: GatewayOutcome,
    stamps: Stamps,
) -> bool {
    let source = before.conversations[position_of(before.conversations, conversation)];
    let total = token_total(before.messages, conversation) + message.tokens();
    let flagged = warns(before, source, total);
    let forced = forces(before, source, total);
    let staged = with_message(before, message, conversation, flagged, stamps.now);
    let noted = before.events.len() + if flagged {
        1int
    } else {
        0int
    };
    if !(i64::MIN <= total <= i64::MAX) {
        &&& result is Err
        &&& result->Err_0 == EngineError::StoreFailure
        &&& after == before
    } else if forced && rollover_failure(staged, conversation, Some((role, body)), stamps)
        is Some {
        &&& result is Err
        &&& Some(result->Err_0) == rollover_failure(staged, conversation, Some((role, body)), stamps)
        &&& after == before
    } else {
        &&& result is Ok
        &&& result.unwrap().message == message
        &&& result.unwrap().total_tokens == total
        &&& after.events.len() >= noted
        &&& after.events.take(before.events.len() as int) == before.events
        &&& flagged ==> is_event(
            after.events[before.events.len() as int],
            stamps.now,
            "warn"@,
            "AI-CTX-WARN"@,
            "ai.context"@,
        ) && worded(
            after.events[before.events.len() as int],
            "Conversation approaching context limit"@,
            "A warning banner should be shown in the UI."@,
        ) && names_text(after.events[before.events.len() as int], "conversation_id"@, conversation)
            && names_number(after.events[before.events.len() as int], "total_tokens"@, total)
            && names_number(
            after.events[before.events.len() as int],
            "threshold"@,
            threshold_of(
                window_for(before.providers, source.provider_id@, source.model_id@),
                config_of(before.settings).warn_ratio,
            ) as int,
        )
        &&& if forced {
            &&& result.unwrap().warn
            &&& result.unwrap().rolled
            &&& rolled_over(
                Tables { events: after.events.take(noted), ..staged },
                after,
                RolloverOutcome {
                    rolled: true,
                    new_conversation: result.unwrap().new_conversation,
                    summary: result.unwrap().summary,
                },
                conversation,
                Some((role, body)),
                reply,
                stamps,
            )
        } else {
            &&& result.unwrap().warn == (source.ctx_warn || flagged)
            &&& !result.unwrap().rolled
            &&& result.unwrap().new_conversation is None
            &&& result.unwrap().summary is None
            &&& after.events.len() == noted
            &&& after == Tables { events: after.events, ..staged }
        }
    }
}

/// What appending a message to `conversation` does to the store.
///
/// A conversation that does not exist or is closed takes no message. Else
/// the message is stored with its token estimate, and the conversation is
/// touched. Where the new total reaches the warn threshold for the first
/// time, the conversation is flagged and a warning is logged. Where it
/// reaches the force threshold, the conversation is rolled over in the same
/// step, with the message as the pending one. Where the rollover fails, so
/// does the append, and nothing is stored.
pub open spec fn appended(
    before: Tables,
    after: Tables,
    result: Result<AppendResult, EngineError>,
    conversation: Seq<char>,
    role: Seq<char>,
    body: Seq<char>,
    reply: GatewayOutcome,
    stamps: Stamps,
) -> bool {
    if !holds_key(before.conversations, conversation) {
        &&& result is Err
        &&& result->Err_0 == EngineError::NotFound
        &&& after == before
    } else if before.conversations[position_of(before.conversations, conversation)].ctx_force {
        &&& result is Err
        &&& result->Err_0 == EngineError::AlreadyClosed
        &&& after == before
    } else {
        exists|message: MessageRecord|
            {
                &&& is_new_message(
                    message,
                    stamps.message_id,
                    conversation,
                    role,
                    body,
                    stamps.now,
                )
                &&& #[trigger] appended_with(
                    before,
                    after,
                    result,
                    message,
                    conversation,
                    role,
                    body,
                    reply,
                    stamps,
                )
            }
    }
}

/// The summariser, bound to the store it works on.
#[derive(Debug)]
pub struct Summarizer {
    pub store: Store,
}

impl Summarizer {
    /// Binds a summariser to a store.
    pub fn new(store: Store) -> (summarizer: Summarizer)
        ensures
            summarizer.store == store,
    {
        Summarizer { store }
    }

    /// Reads the thresholds and the preferred model, with the defaults where
    /// nothing is stored.
    pub fn load_config(&self) -> (config: SummarizerConfig)
        ensures
            config == config_of(self.store.settings),
    {
        read_config(&self.store.settings)
    }

    /// Stores the thresholds and the preferred model, and reads them back.
    pub fn update_config(
        &mut self,
        warn_ratio: Fraction,
        force_ratio: Fraction,
        summarizer_model: Option<String>,
    ) -> (config: SummarizerConfig)
        ensures
            final(self).store@ == (Tables {
                settings: Settings {
                    warn_ratio: Some(warn_ratio),
                    force_ratio: Some(force_ratio),
                    summarizer_model,
                    ..old(self).store.settings
                },
                ..old(self).store@
            }),
            config == (SummarizerConfig { warn_ratio, force_ratio, summarizer_model }),
    {
        self.store.settings.warn_ratio = Some(warn_ratio);
        self.store.settings.force_ratio = Some(force_ratio);
        self.store.settings.summarizer_model = summarizer_model;
        read_config(&self.store.settings)
    }

    /// Appends a message to a conversation and rolls the conversation over
    /// where the message takes it to the force threshold, see [`appended`].
    ///
    /// `reply` is what the gateway answered to the request that
    /// [`append_request`] built for the same arguments; it is looked at only
    /// where a rollover has to write a summary.
    pub fn append_and_maybe_rollover(
        &mut self,
        conversation_id: &str,
        role: &str,
        body: &str,
        reply: &GatewayOutcome,
        stamps: &Stamps,
    ) -> (result: Result<AppendResult, EngineError>)
        ensures
            appended(
                old(self).store@,
                final(self).store@,
                result,
                conversation_id@,
                role@,
                body@,
                *reply,
                *stamps,
            ),
    {
        let at = match find_row(&self.store.conversations, conversation_id) {
            Some(at) => at,
            None => {
                return Err(EngineError::NotFound);
            },
        };
        if self.store.conversations[at].ctx_force {
            return Err(EngineError::AlreadyClosed);
        }
        let saved = self.store.conversations[at].clone();
        let config = read_config(&self.store.settings);
        let window = context_limit_from_tags(
            &self.store.providers,
            saved.provider_id.as_str(),
            saved.model_id.as_str(),
        );
        let warn_threshold = threshold(window, config.warn_ratio);
        let force_threshold = threshold(window, config.force_ratio);
        let earlier = sum_tokens_wide(&self.store.messages, conversation_id);
        let message = insert_message(
            &mut self.store.conversations,
            &mut self.store.messages,
            conversation_id,
            role,
            body,
            stamps.message_id.clone(),
            stamps.now,
        );
        let wide: i128 = earlier + message.token_est.unwrap() as i128;
        if wide > 0x7fff_ffff_ffff_ffff || wide < -0x8000_0000_0000_0000 {
            self.store.messages.pop();
            self.store.conversations.set(at, saved);
            proof {
                assert(self.store@.conversations =~= old(self).store@.conversations);
                assert(self.store@.messages =~= old(self).store@.messages);
                assert(appended_with(
                    old(self).store@,
                    self.store@,
                    Err(EngineError::StoreFailure),
                    message,
                    conversation_id@,
                    role@,
                    body@,
                    *reply,
                    *stamps,
                ));
            }
            return Err(EngineError::StoreFailure);
        }
        let total: i64 = wide as i64;
        let flagged = !saved.ctx_warn && total >= warn_threshold;
        let forced = total >= force_threshold;
        if flagged {
            mark_ctx_warn(&mut self.store.conversations, conversation_id);
            let mut data: Vec<EventField> = Vec::new();
            data.push(text_field("conversation_id", conversation_id.to_owned()));
            data.push(number_field("total_tokens", total));
            data.push(number_field("threshold", warn_threshold));
            proof {
                assert(is_text_field(data@[0], "conversation_id"@, conversation_id@));
                assert(data@[1].name@ == "total_tokens"@);
                assert(data@[2].name@ == "threshold"@);
            }
            log_event(
                &mut self.store.events,
                stamps.now,
                "warn",
                "AI-CTX-WARN",
                "ai.context",
                "Conversation approaching context limit",
                "A warning banner should be shown in the UI.",
                data,
            );
        }
        let ghost staged = self.store@;
        proof {
            let rows = old(self).store@.conversations;
            lemma_row_changes(
                touched(rows, conversation_id@, stamps.now),
                conversation_id@,
                stamps.now,
                at as int,
            );
        }
        if !forced {
            let result = AppendResult {
                message,
                warn: saved.ctx_warn || flagged,
                rolled: false,
                new_conversation: None,
                summary: None,
                total_tokens: total,
            };
            proof {
                assert(staged.events.take(old(self).store@.events.len() as int) =~= old(self).store@.events);
                assert(appended_with(
                    old(self).store@,
                    self.store@,
                    Ok(result),
                    result.message,
                    conversation_id@,
                    role@,
                    body@,
                    *reply,
                    *stamps,
                ));
            }
            return Ok(result);
        }
        match perform_rollover(&mut self.store, conversation_id, Some((role, body)), reply, stamps) {
            Ok(outcome) => {
                let result = AppendResult {
                    message,
                    warn: true,
                    rolled: true,
                    new_conversation: outcome.new_conversation,
                    summary: outcome.summary,
                    total_tokens: total,
                };
                proof {
                    let noted = staged.events.len() as int;
                    let after = self.store@;
                    assert(after.events.take(noted) == staged.events);
                    assert(after.events.take(old(self).store@.events.len() as int) =~= old(self).store@.events);
                    assert(appended_with(
                        old(self).store@,
                        self.store@,
                        Ok(result),
                        result.message,
                        conversation_id@,
                        role@,
                        body@,
                        *reply,
                        *stamps,
                    ));
                }
                Ok(result)
            },
            Err(error) => {
                if flagged {
                    self.store.events.pop();
                }
                self.store.messages.pop();
                self.store.conversations.set(at, saved);
                proof {
                    assert(self.store@.conversations =~= old(self).store@.conversations);
                    assert(self.store@.messages =~= old(self).store@.messages);
                    assert(appended_with(
                        old(self).store@,
                        self.store@,
                        Err(error),
                        message,
                        conversation_id@,
                        role@,
                        body@,
                        *reply,
                        *stamps,
                    ));
                }
                Err(error)
            },
        }
    }

    /// Rolls a conversation over whatever its token total, without a pending
    /// message, see [`rolled_over`].
    pub fn rollover(
        &mut self,
        conversation_id: &str,
        reply: &GatewayOutcome,
        stamps: &Stamps,
    ) -> (result: Result<RolloverOutcome, EngineError>)
        ensures
            result is Err <==> rollover_failure(old(self).store@, conversation_id@, None, *stamps)
                is Some,
            result is Err ==> Some(result->Err_0) == rollover_failure(
                old(self).store@,
                conversation_id@,
                None,
                *stamps,
            ) && final(self).store@ == old(self).store@,
            result is Ok ==> rolled_over(
                old(self).store@,
                final(self).store@,
                result.unwrap(),
                conversation_id@,
                None,
                *reply,
                *stamps,
            ),
    {
        perform_rollover(&mut self.store, conversation_id, None, reply, stamps)
    }

    /// Builds the request to send to the gateway before
    /// [`Summarizer::rollover`]; `None` where no answer is needed.
    pub fn rollover_request(&self, conversation_id: &str) -> (request: Option<SummaryRequest>)
        ensures
            request is Some <==> holds_key(self.store@.conversations, conversation_id@)
                && !is_cached(
                self.store@.summaries,
                "conversation"@,
                conversation_id@,
                content_hash(rollover_excerpts(self.store@, conversation_id@, None)),
            ),
            request is Some ==> is_summary_request(
                request.unwrap(),
                summary_prompt(rollover_excerpts(self.store@, conversation_id@, None)),
                config_of(self.store@.settings).summarizer_model,
            ),
    {
        rollover_request(&self.store, conversation_id, None)
    }

    /// Builds the request to send to the gateway before
    /// [`Summarizer::append_and_maybe_rollover`] with the same arguments;
    /// `None` where the append needs no answer, see [`append_needs_reply`].
    /// The store is left as it was.
    pub fn append_request(
        &mut self,
        conversation_id: &str,
        role: &str,
        body: &str,
        stamps: &Stamps,
    ) -> (request: Option<SummaryRequest>)
        ensures
            final(self).store@ == old(self).store@,
            exists|message: MessageRecord|
                {
                    &&& is_new_message(
                        message,
                        stamps.message_id,
                        conversation_id@,
                        role@,
                        body@,
                        stamps.now,
                    )
                    &&& request is Some <==> #[trigger] append_needs_reply(
                        old(self).store@,
                        message,
                        conversation_id@,
                        role@,
                        body@,
                        stamps.now,
                    )
                    &&& request is Some ==> is_summary_request(
                        request.unwrap(),
                        summary_prompt(
                            rollover_excerpts(
                                with_message(
                                    old(self).store@,
                                    message,
                                    conversation_id@,
                                    false,
                                    stamps.now,
                                ),
                                conversation_id@,
                                Some((role@, body@)),
                            ),
                        ),
                        config_of(old(self).store@.settings).summarizer_model,
                    )
                },
    {
        let found = find_row(&self.store.conversations, conversation_id);
        let saved = match found {
            Some(at) => Some(self.store.conversations[at].clone()),
            None => None,
        };
        let earlier = sum_tokens_wide(&self.store.messages, conversation_id);
        let message = insert_message(
            &mut self.store.conversations,
            &mut self.store.messages,
            conversation_id,
            role,
            body,
            stamps.message_id.clone(),
            stamps.now,
        );
        let wide: i128 = earlier + message.token_est.unwrap() as i128;
        let needed = match &saved {
            Some(row) => {
                let config = read_config(&self.store.settings);
                let window = context_limit_from_tags(
                    &self.store.providers,
                    row.provider_id.as_str(),
                    row.model_id.as_str(),
                );
                let force_threshold = threshold(window, config.force_ratio);
                !row.ctx_force && wide <= 0x7fff_ffff_ffff_ffff && wide >= -0x8000_0000_0000_0000
                    && wide >= force_threshold as i128
            },
            None => false,
        };
        let request = if needed {
            rollover_request(&self.store, conversation_id, Some((role, body)))
        } else {
            None
        };
        self.store.messages.pop();
        match saved {
            Some(row) => {
                self.store.conversations.set(found.unwrap(), row);
            },
            None => {},
        }
        proof {
            assert(self.store@.conversations =~= old(self).store@.conversations);
            assert(self.store@.messages =~= old(self).store@.messages);
            assert(request is Some <==> append_needs_reply(
                old(self).store@,
                message,
                conversation_id@,
                role@,
                body@,
                stamps.now,
            ));
        }
        request
    }

    /// Returns the summary cached for the subject and the hash of
    /// `excerpts`, or stores a new one, see [`summary_obtained`]. Only the
    /// summary table and the event log change.
    pub fn summarise_excerpts(
        &mut self,
        target_type: &str,
        target_id: &str,
        excerpts: &Vec<String>,
        reply: &GatewayOutcome,
        stamps: &Stamps,
    ) -> (result: Result<SummaryRecord, EngineError>)
        ensures
            summary_obtained(
                old(self).store@.summaries,
                final(self).store@.summaries,
                old(self).store@.events,
                final(self).store@.events,
                result,
                target_type@,
                target_id@,
                views(excerpts@),
                *reply,
                stamps.summary_id,
                stamps.now,
            ),
            final(self).store@ == (Tables {
                summaries: final(self).store@.summaries,
                events: final(self).store@.events,
                ..old(self).store@
            }),
            versions_dense(old(self).store@.summaries) ==> versions_dense(
                final(self).store@.summaries,
            ),
            cache_keys_distinct(old(self).store@.summaries) ==> cache_keys_distinct(
                final(self).store@.summaries,
            ),
    {
        store_or_create_summary(
            &mut self.store.summaries,
            &mut self.store.events,
            target_type,
            target_id,
            excerpts,
            reply,
            stamps.summary_id.clone(),
            stamps.now,
        )
    }

    /// Builds the request to send to the gateway before
    /// [`Summarizer::summarise_excerpts`]; `None` where the summary is cached.
    pub fn summarise_request(
        &self,
        target_type: &str,
        target_id: &str,
        excerpts: &Vec<String>,
    ) -> (request: Option<SummaryRequest>)
        ensures
            request is None <==> is_cached(
                self.store@.summaries,
                target_type@,
                target_id@,
                content_hash(views(excerpts@)),
            ),
            request is Some ==> is_summary_request(
                request.unwrap(),
                summary_prompt(views(excerpts@)),
                config_of(self.store@.settings).summarizer_model,
            ),
    {
        let config = read_config(&self.store.settings);
        summary_request(&self.store.summaries, target_type, target_id, excerpts, &config)
    }

    /// Summarises one text: the excerpt set is the text alone.
    pub fn summarise(
        &mut self,
        target_type: &str,
        target_id: &str,
        content: &str,
        reply: &GatewayOutcome,
        stamps: &Stamps,
    ) -> (result: Result<SummaryRecord, EngineError>)
        ensures
            summary_obtained(
                old(self).store@.summaries,
                final(self).store@.summaries,
                old(self).store@.events,
                final(self).store@.events,
                result,
                target_type@,
                target_id@,
                seq![content@],
                *reply,
                stamps.summary_id,
                stamps.now,
            ),
            final(self).store@ == (Tables {
                summaries: final(self).store@.summaries,
                events: final(self).store@.events,
                ..old(self).store@
            }),
    {
        let mut excerpts: Vec<String> = Vec::new();
        excerpts.push(content.to_owned());
        assert(views(excerpts@) =~= seq![content@]);
        self.summarise_excerpts(target_type, target_id, &excerpts, reply, stamps)
    }

    /// Summarises a conversation without rolling it over: the excerpt set is
    /// its chronological tail.
    pub fn summarise_conversation(
        &mut self,
        conversation_id: &str,
        reply: &GatewayOutcome,
        stamps: &Stamps,
    ) -> (result: Result<SummaryRecord, EngineError>)
        ensures
            !holds_key(old(self).store@.conversations, conversation_id@) ==> result is Err
                && result->Err_0 == EngineError::NotFound && final(self).store@ == old(self).store@,
            holds_key(old(self).store@.conversations, conversation_id@) ==> summary_obtained(
                old(self).store@.summaries,
                final(self).store@.summaries,
                old(self).store@.events,
                final(self).store@.events,
                result,
                "conversation"@,
                conversation_id@,
                rollover_excerpts(old(self).store@, conversation_id@, None),
                *reply,
                stamps.summary_id,
                stamps.now,
            ),
            final(self).store@ == (Tables {
                summaries: final(self).store@.summaries,
                events: final(self).store@.events,
                ..old(self).store@
            }),
    {
        if find_row(&self.store.conversations, conversation_id).is_none() {
            return Err(EngineError::NotFound);
        }
        let history = list_messages(&self.store.messages, conversation_id, None);
        assert(history@ == history_of(self.store.messages@, conversation_id@));
        let excerpts = select_conversation_excerpts(&history, None);
        self.summarise_excerpts("conversation", conversation_id, &excerpts, reply, stamps)
    }

    /// Summarises the digest of a day: the excerpt set is the fallback text
    /// followed by the facts of the day.
    pub fn summarise_daily_digest(
        &mut self,
        date_key: &str,
        facts: &Vec<String>,
        fallback: &str,
        reply: &GatewayOutcome,
        stamps: &Stamps,
    ) -> (result: Result<SummaryRecord, EngineError>)
        ensures
            summary_obtained(
                old(self).store@.summaries,
                final(self).store@.summaries,
                old(self).store@.events,
                final(self).store@.events,
                result,
                "day"@,
                date_key@,
                seq![fallback@] + views(facts@),
                *reply,
                stamps.summary_id,
                stamps.now,
            ),
            final(self).store@ == (Tables {
                summaries: final(self).store@.summaries,
                events: final(self).store@.events,
                ..old(self).store@
            }),
    {
        let excerpts = digest_excerpts(fallback, facts);
        self.summarise_excerpts("day", date_key, &excerpts, reply, stamps)
    }

    /// Fetches a summary by its identifier.
    pub fn fetch_summary(&self, summary_id: &str) -> (found: Option<SummaryRecord>)
        ensures
            found is Some <==> holds_key(self.store@.summaries, summary_id@),
            found is Some ==> found.unwrap() == self.store@.summaries[position_of(
                self.store@.summaries,
                summary_id@,
            )].as_record(true),
    {
        load_summary(&self.store.summaries, summary_id)
    }

    /// Fetches a conversation with its token total.
    pub fn get_conversation(&self, conversation_id: &str) -> (found: Option<ConversationRecord>)
        ensures
            found is Some <==> holds_key(self.store@.conversations, conversation_id@),
            found is Some ==> found.unwrap() == self.store@.conversations[position_of(
                self.store@.conversations,
                conversation_id@,
            )].as_record(shown_total(self.store@.messages, conversation_id@)),
    {
        fetch_conversation(&self.store.conversations, &self.store.messages, conversation_id)
    }

    /// Lists the messages of a conversation, the oldest first.
    pub fn list_messages(&self, conversation_id: &str, limit: Option<usize>) -> (listed: Vec<
        MessageRecord,
    >)
        ensures
            listed@ == history_of(self.store@.messages, conversation_id@).take(
                limited(history_of(self.store@.messages, conversation_id@).len(), limit) as int,
            ),
    {
        list_messages(&self.store.messages, conversation_id, limit)
    }

    /// Lists the conversations, the one touched last first.
    pub fn list_conversations(&self, limit: Option<usize>) -> (listed: Vec<ConversationRecord>)
        ensures
            listed@ == conversations_by_activity(
                self.store@.conversations,
                self.store@.messages,
            ).take(
                limited(
                    conversations_by_activity(
                        self.store@.conversations,
                        self.store@.messages,
                    ).len(),
                    limit,
                ) as int,
            ),
    {
        list_conversations(&self.store.conversations, &self.store.messages, limit)
    }

    /// Creates a conversation bound to the provider and model that the
    /// overrides resolve to, with fallback, local providers first.
    ///
    /// Fails, changing nothing, where no provider resolves or the
    /// conversation identifier of the stamps is taken.
    pub fn create_conversation(
        &mut self,
        title: Option<String>,
        provider_override: Option<String>,
        model_override: Option<String>,
        stamps: &Stamps,
    ) -> (result: Result<ConversationRecord, EngineError>)
        ensures
            result is Err ==> final(self).store@ == old(self).store@,
            fallback_position(
                old(self).store@.providers,
                old(self).store@.settings,
                provider_override,
                model_override,
                true,
            ) is None ==> result is Err && result->Err_0 == EngineError::NoProviderConfigured,
            fallback_position(
                old(self).store@.providers,
                old(self).store@.settings,
                provider_override,
                model_override,
                true,
            ) is Some ==> {
                let before = old(self).store@;
                let after = final(self).store@;
                let provider = row_named_at(
                    before.providers,
                    fallback_position(
                        before.providers,
                        before.settings,
                        provider_override,
                        model_override,
                        true,
                    ).unwrap(),
                );
                if holds_key(before.conversations, stamps.conversation_id@) {
                    result is Err && result->Err_0 == EngineError::StoreFailure
                } else {
                    &&& result is Ok
                    &&& after == Tables {
                        conversations: before.conversations.push(after.conversations.last()),
                        ..before
                    }
                    &&& after.conversations.last().provider_id == provider.id
                    &&& Some(after.conversations.last().model_id) == resolved_model(
                        provider,
                        before.settings,
                        model_override,
                    )
                    &&& is_new_conversation(
                        after.conversations.last(),
                        stamps.conversation_id,
                        title,
                        after.conversations.last().provider_id,
                        after.conversations.last().model_id,
                        stamps.now,
                    )
                    &&& result.unwrap() == after.conversations.last().as_record(
                        shown_total(before.messages, stamps.conversation_id@),
                    )
                }
            },
    {
        let selection = match resolve_with_fallback(
            &self.store.providers,
            &self.store.settings,
            provider_override,
            model_override,
            true,
        ) {
            Ok(selection) => selection,
            Err(error) => {
                return Err(error);
            },
        };
        if find_row(&self.store.conversations, stamps.conversation_id.as_str()).is_some() {
            return Err(EngineError::StoreFailure);
        }
        let row = ConversationRow {
            id: stamps.conversation_id.clone(),
            title,
            provider_id: selection.provider.id.clone(),
            model_id: selection.model.clone(),
            ctx_warn: false,
            ctx_force: false,
            created_at: stamps.now,
            updated_at: stamps.now,
            closed_at: None,
            quality_flags: None,
        };
        let total = match sum_tokens(&self.store.messages, stamps.conversation_id.as_str()) {
            Ok(total) => total,
            Err(_) => 0,
        };
        let record = row.to_record(total);
        self.store.conversations.push(row);
        Ok(record)
    }

    /// Binds a conversation to the provider and model that the overrides
    /// resolve to, with fallback, and records the change in the event log.
    ///
    /// Fails, changing nothing, where the conversation does not exist or no
    /// provider resolves.
    pub fn set_conversation_model(
        &mut self,
        conversation_id: &str,
        provider_override: Option<String>,
        model_override: Option<String>,
        stamps: &Stamps,
    ) -> (result: Result<ConversationRecord, EngineError>)
        ensures
            result is Err ==> final(self).store@ == old(self).store@,
            !holds_key(old(self).store@.conversations, conversation_id@) ==> result is Err
                && result->Err_0 == EngineError::NotFound,
            holds_key(old(self).store@.conversations, conversation_id@) && fallback_position(
                old(self).store@.providers,
                old(self).store@.settings,
                provider_override,
                model_override,
                true,
            ) is None ==> result is Err && result->Err_0 == EngineError::NoProviderConfigured,
            holds_key(old(self).store@.conversations, conversation_id@) && fallback_position(
                old(self).store@.providers,
                old(self).store@.settings,
                provider_override,
                model_override,
                true,
            ) is Some ==> {
                let before = old(self).store@;
                let after = final(self).store@;
                let at = position_of(before.conversations, conversation_id@);
                let provider = row_named_at(
                    before.providers,
                    fallback_position(
                        before.providers,
                        before.settings,
                        provider_override,
                        model_override,
                        true,
                    ).unwrap(),
                );
                &&& result is Ok
                &&& after.conversations == before.conversations.update(
                    at,
                    ConversationRow {
                        provider_id: after.conversations[at].provider_id,
                        model_id: after.conversations[at].model_id,
                        updated_at: stamps.now,
                        ..before.conversations[at]
                    },
                )
                &&& after.conversations[at].provider_id == provider.id
                &&& Some(after.conversations[at].model_id) == resolved_model(
                    provider,
                    before.settings,
                    model_override,
                )
                &&& after.events.len() == before.events.len() + 1
                &&& after.events.take(before.events.len() as int) == before.events
                &&& is_event(
                    after.events.last(),
                    stamps.now,
                    "info"@,
                    "AI-SET-MODEL"@,
                    "ai.context"@,
                )
                &&& worded(
                    after.events.last(),
                    "Conversation model updated"@,
                    "Provider/model override applied"@,
                )
                &&& names_text(after.events.last(), "conversation_id"@, conversation_id@)
                &&& names_text(after.events.last(), "provider"@, after.conversations[at].provider_id@)
                &&& names_text(after.events.last(), "model"@, after.conversations[at].model_id@)
                &&& after == Tables {
                    conversations: after.conversations,
                    events: after.events,
                    ..before
                }
                &&& result.unwrap() == after.conversations[at].as_record(
                    shown_total(before.messages, conversation_id@),
                )
            },
    {
        let at = match find_row(&self.store.conversations, conversation_id) {
            Some(at) => at,
            None => {
                return Err(EngineError::NotFound);
            },
        };
        let selection = match resolve_with_fallback(
            &self.store.providers,
            &self.store.settings,
            provider_override,
            model_override,
            true,
        ) {
            Ok(selection) => selection,
            Err(error) => {
                return Err(error);
            },
        };
        self.store.conversations[at].provider_id = selection.provider.id.clone();
        self.store.conversations[at].model_id = selection.model.clone();
        self.store.conversations[at].updated_at = stamps.now;
        let mut data: Vec<EventField> = Vec::new();
        data.push(text_field("conversation_id", conversation_id.to_owned()));
        data.push(text_field("provider", selection.provider.id));
        data.push(text_field("model", selection.model));
        proof {
            assert(is_text_field(data@[0], "conversation_id"@, conversation_id@));
            assert(is_text_field(
                data@[1],
                "provider"@,
                self.store.conversations@[at as int].provider_id@,
            ));
            assert(is_text_field(data@[2], "model"@, self.store.conversations@[at as int].model_id@));
        }
        log_event(
            &mut self.store.events,
            stamps.now,
            "info",
            "AI-SET-MODEL",
            "ai.context",
            "Conversation model updated",
            "Provider/model override applied",
            data,
        );
        let total = match sum_tokens(&self.store.messages, conversation_id) {
            Ok(total) => total,
            Err(_) => 0,
        };
        Ok(self.store.conversations[at].to_record(total))
    }
}

/// Whether appending `message` needs an answer of the gateway: the
/// conversation is open, the message takes it to the force threshold, and
/// the summary of the excerpt set that results is not cached.
pub open spec fn append_needs_reply(
    before: Tables,
    message: MessageRecord,
    conversation: Seq<char>,
    role: Seq<char>,
    body: Seq<char>,
    now: i64,
) -> bool {
    let source = before.conversations[position_of(before.conversations, conversation)];
    let total = token_total(before.messages, conversation) + message.tokens();
    &&& holds_key(before.conversations, conversation)
    &&& !source.ctx_force
    &&& i64::MIN <= total <= i64::MAX
    &&& forces(before, source, total)
    &&& !is_cached(
        before.summaries,
        "conversation"@,
        conversation,
        content_hash(
            rollover_excerpts(
                with_message(before, message, conversation, false, now),
                conversation,
                Some((role, body)),
            ),
        ),
    )
}

/// Builds the excerpt set of a digest: the fallback text, then the facts.
pub fn digest_excerpts(fallback: &str, facts: &Vec<String>) -> (excerpts: Vec<String>)
    ensures
        views(excerpts@) == seq![fallback@] + views(facts@),
{
    let mut excerpts: Vec<String> = Vec::new();
    excerpts.push(fallback.to_owned());
    let mut i: usize = 0;
    while i < facts.len()
        invariant
            i <= facts.len(),
            views(excerpts@) == seq![fallback@] + views(facts@).take(i as int),
        decreases facts.len() - i,
    {
        let fact = facts[i].clone();
        proof {
            lemma_views_push(excerpts@, fact);
        }
        excerpts.push(fact);
        i += 1;
    }
    excerpts
}

} // verus!
