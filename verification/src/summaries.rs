//! The summary cache: summaries are stored under the hash of what they were
//! made from and are found again by it.

use vstd::prelude::*;
use crate::agents::{AiChatInput, AiChatMessage, GatewayOutcome};
use crate::errors::EngineError;
use crate::hashing::{content_hash, hash_strings};
use crate::keyed::{find_row, holds_key, position_of};
use crate::records::{
    EventField, EventRow, EventValue, Fraction, SummarizerConfig, SummaryRecord, SummaryRow,
};
use crate::store::{is_event, is_text_field, log_event, names_text, text_field, worded};
use crate::text::{
    Trim, chars_of, join_texts, joined, str_eq, string_of_range, trim_range, trimmed, views,
};
use crate::tokens::{token_estimate, token_estimate_of};

verus! {

/// The instruction given to the model that writes summaries: a concise, factual
/// condensation in a warm, professional tone and in plain text, free of markdown.
pub const SUMMARISER_PROMPT: &'static str =
    "You are InkOS' summariser. Condense the excerpts into a concise, factual summary that highlights key actions, decisions, and next steps. Keep the tone warm yet professional. Write plain text without any markdown: no headings, no bullet markers, no emphasis marks. Where appropriate, group related points together and avoid redundant phrasing.";

/// The temperature of summary requests: 0.2.
pub const SUMMARY_TEMPERATURE_MILLIONTHS: u32 = 200_000;

/// The highest version among the summaries of a subject.
pub open spec fn highest_version(
    rows: Seq<SummaryRow>,
    target_type: Seq<char>,
    target_id: Seq<char>,
) -> Option<int>
    decreases rows.len(),
{
    if rows.len() == 0 {
        None
    } else {
        let before = highest_version(rows.drop_last(), target_type, target_id);
        let last = rows.last();
        if last.is_about(target_type, target_id) {
            match before {
                Some(v) => if v >= last.version {
                    Some(v)
                } else {
                    Some(last.version as int)
                },
                None => Some(last.version as int),
            }
        } else {
            before
        }
    }
}

/// The version that the next summary of a subject gets: one more than the
/// highest so far, and one for the first.
pub open spec fn next_version(
    rows: Seq<SummaryRow>,
    target_type: Seq<char>,
    target_id: Seq<char>,
) -> int {
    match highest_version(rows, target_type, target_id) {
        Some(v) => v + 1,
        None => 1,
    }
}

/// How many summaries of a subject the table holds.
pub open spec fn count_about(
    rows: Seq<SummaryRow>,
    target_type: Seq<char>,
    target_id: Seq<char>,
) -> nat
    decreases rows.len(),
{
    if rows.len() == 0 {
        0
    } else {
        count_about(rows.drop_last(), target_type, target_id) + if rows.last().is_about(
            target_type,
            target_id,
        ) {
            1nat
        } else {
            0nat
        }
    }
}

/// Whether the versions of every subject run 1, 2, 3, ... in the order in
/// which its summaries were stored.
pub open spec fn versions_dense(rows: Seq<SummaryRow>) -> bool {
    forall|i: int|
        0 <= i < rows.len() ==> (#[trigger] rows[i]).version == count_about(
            rows.take(i),
            rows[i].target_type@,
            rows[i].target_id@,
        ) + 1
}

/// Whether no two summaries were made for the same subject from the same
/// content.
pub open spec fn cache_keys_distinct(rows: Seq<SummaryRow>) -> bool {
    forall|i: int, j: int|
        0 <= i < j < rows.len() ==> !(#[trigger] rows[j]).matches_key(
            (#[trigger] rows[i]).target_type@,
            rows[i].target_id@,
            rows[i].source_hash@,
        )
}

/// Whether a summary is stored for the subject and hash.
pub open spec fn is_cached(
    rows: Seq<SummaryRow>,
    target_type: Seq<char>,
    target_id: Seq<char>,
    hash: Seq<char>,
) -> bool {
    exists|i: int| 0 <= i < rows.len() && (#[trigger] rows[i]).matches_key(target_type, target_id, hash)
}

/// Whether the row at `i` is the one that a lookup of the subject and hash
/// finds: the matching row of the highest version, the earliest of those.
pub open spec fn is_cache_hit(
    rows: Seq<SummaryRow>,
    target_type: Seq<char>,
    target_id: Seq<char>,
    hash: Seq<char>,
    i: int,
) -> bool {
    &&& 0 <= i < rows.len()
    &&& rows[i].matches_key(target_type, target_id, hash)
    &&& forall|j: int|
        0 <= j < rows.len() && (#[trigger] rows[j]).matches_key(target_type, target_id, hash) ==> {
            ||| rows[j].version < rows[i].version
            ||| rows[j].version == rows[i].version && i <= j
        }
}

/// The position of the row that a lookup finds.
pub open spec fn cache_position(
    rows: Seq<SummaryRow>,
    target_type: Seq<char>,
    target_id: Seq<char>,
    hash: Seq<char>,
) -> int {
    choose|i: int| is_cache_hit(rows, target_type, target_id, hash, i)
}

/// A lookup finds one row.
pub proof fn lemma_cache_position(
    rows: Seq<SummaryRow>,
    target_type: Seq<char>,
    target_id: Seq<char>,
    hash: Seq<char>,
    i: int,
)
    requires
        is_cache_hit(rows, target_type, target_id, hash, i),
    ensures
        cache_position(rows, target_type, target_id, hash) == i,
        is_cached(rows, target_type, target_id, hash),
{
}

/// In a table of dense versions the highest version of a subject is the
/// number of its summaries.
pub proof fn lemma_dense_highest(
    rows: Seq<SummaryRow>,
    target_type: Seq<char>,
    target_id: Seq<char>,
)
    requires
        versions_dense(rows),
    ensures
        next_version(rows, target_type, target_id) == count_about(rows, target_type, target_id) + 1,
        count_about(rows, target_type, target_id) > 0 ==> highest_version(
            rows,
            target_type,
            target_id,
        ) == Some(count_about(rows, target_type, target_id) as int),
        count_about(rows, target_type, target_id) == 0 ==> highest_version(
            rows,
            target_type,
            target_id,
        ) is None,
    decreases rows.len(),
{
    if rows.len() > 0 {
        let before = rows.drop_last();
        assert(versions_dense(before)) by {
            assert forall|i: int| 0 <= i < before.len() implies (#[trigger] before[i]).version
                == count_about(before.take(i), before[i].target_type@, before[i].target_id@) + 1 by {
                assert(before.take(i) == rows.take(i));
            }
        }
        lemma_dense_highest(before, target_type, target_id);
    }
}

/// Storing a summary under the next version of its subject keeps the
/// versions dense.
pub proof fn lemma_dense_push(rows: Seq<SummaryRow>, row: SummaryRow)
    requires
        versions_dense(rows),
        row.version == next_version(rows, row.target_type@, row.target_id@),
    ensures
        versions_dense(rows.push(row)),
{
    let grown = rows.push(row);
    lemma_dense_highest(rows, row.target_type@, row.target_id@);
    assert forall|i: int| 0 <= i < grown.len() implies (#[trigger] grown[i]).version == count_about(
        grown.take(i),
        grown[i].target_type@,
        grown[i].target_id@,
    ) + 1 by {
        if i < rows.len() {
            assert(grown.take(i) == rows.take(i));
        } else {
            assert(grown.take(i) == rows);
        }
    }
}

/// Whether `row` is the row that storing a summary makes.
pub open spec fn is_new_summary(
    row: SummaryRow,
    rows: Seq<SummaryRow>,
    target_type: Seq<char>,
    target_id: Seq<char>,
    body: Seq<char>,
    source_hash: Seq<char>,
    model_id: Option<String>,
    id: String,
    now: i64,
) -> bool {
    &&& row.id == id
    &&& row.target_type@ == target_type
    &&& row.target_id@ == target_id
    &&& row.version == next_version(rows, target_type, target_id)
    &&& row.body@ == body
    &&& row.token_est == Some(token_estimate_of(body))
    &&& row.source_hash@ == source_hash
    &&& row.model_id == model_id
    &&& row.created_at == now
}

/// Whether a summary with the identifier `id` can be stored for the subject.
pub open spec fn can_insert_summary(
    rows: Seq<SummaryRow>,
    target_type: Seq<char>,
    target_id: Seq<char>,
    id: Seq<char>,
) -> bool {
    !holds_key(rows, id) && next_version(rows, target_type, target_id) <= i64::MAX
}

/// Computes the highest version among the summaries of a subject.
fn find_highest_version(rows: &Vec<SummaryRow>, target_type: &str, target_id: &str) -> (highest:
    Option<i64>)
    ensures
        highest is Some <==> highest_version(rows@, target_type@, target_id@) is Some,
        highest is Some ==> highest.unwrap() == highest_version(
            rows@,
            target_type@,
            target_id@,
        ).unwrap(),
{
    let mut highest: Option<i64> = None;
    let mut i: usize = 0;
    while i < rows.len()
        invariant
            i <= rows.len(),
            highest is Some <==> highest_version(rows@.take(i as int), target_type@, target_id@)
                is Some,
            highest is Some ==> highest.unwrap() == highest_version(
                rows@.take(i as int),
                target_type@,
                target_id@,
            ).unwrap(),
        decreases rows.len() - i,
    {
        proof {
            assert(rows@.take(i + 1).drop_last() == rows@.take(i as int));
        }
        let row = &rows[i];
        if str_eq(row.target_type.as_str(), target_type) && str_eq(row.target_id.as_str(), target_id) {
            highest = match highest {
                Some(v) => if v >= row.version {
                    Some(v)
                } else {
                    Some(row.version)
                },
                None => Some(row.version),
            };
        }
        i += 1;
    }
    assert(rows@.take(rows@.len() as int) == rows@);
    highest
}

/// Stores a summary under the next version of its subject.
///
/// Fails, leaving the table as it was, where the identifier is taken or the
/// version cannot be written.
pub fn insert_summary(
    summaries: &mut Vec<SummaryRow>,
    target_type: &str,
    target_id: &str,
    body: &str,
    source_hash: &str,
    model_id: Option<String>,
    id: String,
    now: i64,
) -> (created: Result<SummaryRecord, EngineError>)
    ensures
        created is Ok <==> can_insert_summary(old(summaries)@, target_type@, target_id@, id@),
        created is Err ==> created->Err_0 == EngineError::StoreFailure && final(summaries)@ == old(summaries)@,
        created is Ok ==> {
            &&& final(summaries)@.len() == old(summaries)@.len() + 1
            &&& final(summaries)@ == old(summaries)@.push(final(summaries)@.last())
            &&& is_new_summary(
                final(summaries)@.last(),
                old(summaries)@,
                target_type@,
                target_id@,
                body@,
                source_hash@,
                model_id,
                id,
                now,
            )
            &&& created.unwrap() == final(summaries)@.last().as_record(false)
            &&& (versions_dense(old(summaries)@) ==> versions_dense(final(summaries)@))
        },
{
    if find_row(summaries, id.as_str()).is_some() {
        return Err(EngineError::StoreFailure);
    }
    let version: i64 = match find_highest_version(summaries, target_type, target_id) {
        Some(v) => match v.checked_add(1) {
            Some(next) => next,
            None => {
                return Err(EngineError::StoreFailure);
            },
        },
        None => 1,
    };
    let row = SummaryRow {
        id,
        target_type: target_type.to_owned(),
        target_id: target_id.to_owned(),
        version,
        body: body.to_owned(),
        token_est: Some(token_estimate(body)),
        source_hash: source_hash.to_owned(),
        model_id,
        created_at: now,
    };
    let record = row.to_record(false);
    proof {
        if versions_dense(summaries@) {
            lemma_dense_push(summaries@, row);
        }
    }
    summaries.push(row);
    Ok(record)
}

/// Looks up the summary stored for a subject and hash. The record that comes
/// back is marked as reused.
pub fn find_cached_summary(
    summaries: &Vec<SummaryRow>,
    target_type: &str,
    target_id: &str,
    hash: &str,
) -> (found: Option<SummaryRecord>)
    ensures
        found is Some <==> is_cached(summaries@, target_type@, target_id@, hash@),
        found is Some ==> found.unwrap() == summaries@[cache_position(
            summaries@,
            target_type@,
            target_id@,
            hash@,
        )].as_record(true),
{
    let mut best: Option<usize> = None;
    let mut i: usize = 0;
    while i < summaries.len()
        invariant
            i <= summaries.len(),
            best is None ==> forall|j: int|
                0 <= j < i ==> !(#[trigger] summaries@[j]).matches_key(
                    target_type@,
                    target_id@,
                    hash@,
                ),
            best is Some ==> {
                &&& best.unwrap() < i
                &&& summaries@[best.unwrap() as int].matches_key(target_type@, target_id@, hash@)
                &&& forall|j: int|
                    0 <= j < i && (#[trigger] summaries@[j]).matches_key(
                        target_type@,
                        target_id@,
                        hash@,
                    ) ==> {
                        ||| summaries@[j].version < summaries@[best.unwrap() as int].version
                        ||| summaries@[j].version == summaries@[best.unwrap() as int].version
                            && best.unwrap() <= j
                    }
            },
        decreases summaries.len() - i,
    {
        let row = &summaries[i];
        if str_eq(row.target_type.as_str(), target_type) && str_eq(row.target_id.as_str(), target_id)
            && str_eq(row.source_hash.as_str(), hash) {
            best = match best {
                Some(b) => if summaries[b].version >= row.version {
                    Some(b)
                } else {
                    Some(i)
                },
                None => Some(i),
            };
        }
        i += 1;
    }
    match best {
        Some(b) => {
            proof {
                lemma_cache_position(summaries@, target_type@, target_id@, hash@, b as int);
            }
            Some(summaries[b].to_record(true))
        },
        None => None,
    }
}

/// Fetches a summary by its identifier, whatever it was made from.
pub fn load_summary(summaries: &Vec<SummaryRow>, summary_id: &str) -> (found: Option<SummaryRecord>)
    ensures
        found is Some <==> holds_key(summaries@, summary_id@),
        found is Some ==> found.unwrap() == summaries@[position_of(summaries@, summary_id@)].as_record(
            true,
        ),
{
    match find_row(summaries, summary_id) {
        Some(i) => Some(summaries[i].to_record(true)),
        None => None,
    }
}

/// What is asked of the gateway when a summary has to be written.
#[derive(Debug)]
pub struct SummaryRequest {
    pub input: AiChatInput,
    /// The model to ask, where the settings prefer one.
    pub model_override: Option<String>,
    /// Whether providers on this machine are to be tried first.
    pub prefer_local: bool,
}

/// The text handed to the model: the excerpts, separated by blank lines.
pub open spec fn summary_prompt(excerpts: Seq<Seq<char>>) -> Seq<char> {
    joined(excerpts, "\n\n"@)
}

/// Whether `request` asks for a summary of `prompt`: the summariser's
/// instruction as the system message, the prompt as the user message, a low
/// temperature, the preferred model and local providers first.
pub open spec fn is_summary_request(
    request: SummaryRequest,
    prompt: Seq<char>,
    model: Option<String>,
) -> bool {
    &&& request.input.messages@.len() == 2
    &&& request.input.messages@[0].role@ == "system"@
    &&& request.input.messages@[0].content@ == SUMMARISER_PROMPT@
    &&& request.input.messages@[1].role@ == "user"@
    &&& request.input.messages@[1].content@ == prompt
    &&& request.input.temperature == Some(Fraction { millionths: SUMMARY_TEMPERATURE_MILLIONTHS })
    &&& request.model_override == model
    &&& request.prefer_local
}

/// What the gateway wrote, without the whitespace at its ends; empty where
/// it wrote nothing or did not answer.
pub open spec fn authored_text(reply: GatewayOutcome) -> Seq<char> {
    match reply {
        GatewayOutcome::Answered(response) => trimmed(response.content@, Trim::Whitespace),
        _ => Seq::empty(),
    }
}

/// The body of a summary made from `prompt` under the outcome `reply`: what
/// the gateway wrote, or the prompt itself where it wrote nothing.
pub open spec fn summary_body_for(reply: GatewayOutcome, prompt: Seq<char>) -> Seq<char> {
    if authored_text(reply).len() > 0 {
        authored_text(reply)
    } else {
        prompt
    }
}

/// The model recorded for a summary: the one that answered, and none where
/// the body is the prompt itself.
pub open spec fn summary_model_for(reply: GatewayOutcome) -> Option<String> {
    match reply {
        GatewayOutcome::Answered(response) => if authored_text(reply).len() > 0 {
            Some(response.model)
        } else {
            None
        },
        _ => None,
    }
}

/// Whether `row` is the event that records how a summary came about: an
/// informational one where a model wrote it, a warning where it fell back.
pub open spec fn is_summary_event(
    row: EventRow,
    target_type: Seq<char>,
    target_id: Seq<char>,
    reply: GatewayOutcome,
    now: i64,
) -> bool {
    &&& names_text(row, "target_type"@, target_type)
    &&& names_text(row, "target_id"@, target_id)
    &&& if authored_text(reply).len() > 0 {
        &&& is_event(row, now, "info"@, "AI-SUMMARY"@, "ai.summary"@)
        &&& worded(row, "Summary generated"@, "Cached for future reuse"@)
    } else {
        &&& is_event(row, now, "warn"@, "AI-SUMMARY-ERR"@, "ai.summary"@)
        &&& worded(row, "AI summarisation failed"@, "Falling back to deterministic text"@)
        &&& names_text(row, "error"@, fallback_reason_of(reply))
    }
}

/// Why no model wrote a summary: the gateway's reason where it failed.
pub open spec fn fallback_reason_of(reply: GatewayOutcome) -> Seq<char> {
    match reply {
        GatewayOutcome::Answered(_) => "AI returned empty output"@,
        GatewayOutcome::Failed(reason) => reason@,
        GatewayOutcome::Unavailable => "no AI runtime available"@,
    }
}

/// What obtaining a summary does to the summary table and the event log.
pub open spec fn summary_obtained(
    before: Seq<SummaryRow>,
    after: Seq<SummaryRow>,
    events_before: Seq<EventRow>,
    events_after: Seq<EventRow>,
    result: Result<SummaryRecord, EngineError>,
    target_type: Seq<char>,
    target_id: Seq<char>,
    excerpts: Seq<Seq<char>>,
    reply: GatewayOutcome,
    id: String,
    now: i64,
) -> bool {
    let hash = content_hash(excerpts);
    if is_cached(before, target_type, target_id, hash) {
        &&& result is Ok
        &&& result.unwrap() == before[cache_position(before, target_type, target_id, hash)].as_record(
            true,
        )
        &&& after == before
        &&& events_after == events_before
    } else if can_insert_summary(before, target_type, target_id, id@) {
        &&& result is Ok
        &&& after.len() == before.len() + 1
        &&& after == before.push(after.last())
        &&& is_new_summary(
            after.last(),
            before,
            target_type,
            target_id,
            summary_body_for(reply, summary_prompt(excerpts)),
            hash,
            summary_model_for(reply),
            id,
            now,
        )
        &&& result.unwrap() == after.last().as_record(false)
        &&& events_after.len() == events_before.len() + 1
        &&& events_after.take(events_before.len() as int) == events_before
        &&& is_summary_event(events_after.last(), target_type, target_id, reply, now)
    } else {
        &&& result is Err
        &&& result->Err_0 == EngineError::StoreFailure
        &&& after == before
        &&& events_after == events_before
    }
}

/// What obtaining a summary returns, read off the table before and after.
pub open spec fn obtained_result(
    before: Seq<SummaryRow>,
    after: Seq<SummaryRow>,
    target_type: Seq<char>,
    target_id: Seq<char>,
    excerpts: Seq<Seq<char>>,
    id: Seq<char>,
) -> Result<SummaryRecord, EngineError> {
    let hash = content_hash(excerpts);
    if is_cached(before, target_type, target_id, hash) {
        Ok(before[cache_position(before, target_type, target_id, hash)].as_record(true))
    } else if can_insert_summary(before, target_type, target_id, id) {
        Ok(after.last().as_record(false))
    } else {
        Err(EngineError::StoreFailure)
    }
}

/// Builds the request for a summary of `excerpts`, unless one is cached.
pub fn summary_request(
    summaries: &Vec<SummaryRow>,
    target_type: &str,
    target_id: &str,
    excerpts: &Vec<String>,
    config: &SummarizerConfig,
) -> (request: Option<SummaryRequest>)
    ensures
        request is None <==> is_cached(
            summaries@,
            target_type@,
            target_id@,
            content_hash(views(excerpts@)),
        ),
        request is Some ==> is_summary_request(
            request.unwrap(),
            summary_prompt(views(excerpts@)),
            config.summarizer_model,
        ),
{
    let hash = hash_strings(excerpts);
    if find_cached_summary(summaries, target_type, target_id, hash.as_str()).is_some() {
        return None;
    }
    let prompt = join_texts(excerpts, "\n\n");
    let mut messages: Vec<AiChatMessage> = Vec::new();
    messages.push(AiChatMessage { role: "system".to_owned(), content: SUMMARISER_PROMPT.to_owned() });
    messages.push(AiChatMessage { role: "user".to_owned(), content: prompt });
    Some(
        SummaryRequest {
            input: AiChatInput {
                messages,
                temperature: Some(Fraction { millionths: SUMMARY_TEMPERATURE_MILLIONTHS }),
            },
            model_override: config.summarizer_model.clone(),
            prefer_local: true,
        },
    )
}

/// The gateway's text without the whitespace at its ends.
fn authored_body(reply: &GatewayOutcome) -> (body: String)
    ensures
        body@ == authored_text(*reply),
{
    match reply {
        GatewayOutcome::Answered(response) => {
            let chars = chars_of(response.content.as_str());
            let (a, b) = trim_range(&chars, 0, chars.len(), Trim::Whitespace);
            assert(chars@.subrange(0, chars@.len() as int) == chars@);
            string_of_range(&chars, a, b)
        },
        _ => String::new(),
    }
}

/// Why no model wrote the summary.
fn fallback_reason(reply: &GatewayOutcome) -> (reason: String)
    ensures
        reason@ == fallback_reason_of(*reply),
{
    match reply {
        GatewayOutcome::Answered(_) => "AI returned empty output".to_owned(),
        GatewayOutcome::Failed(reason) => reason.clone(),
        GatewayOutcome::Unavailable => "no AI runtime available".to_owned(),
    }
}

/// Returns the summary cached for the subject and the hash of `excerpts`, or
/// stores a new one.
///
/// A new summary takes its body from the gateway's answer; where the gateway
/// failed or wrote nothing, the excerpts themselves become the body and no
/// model is recorded, so that the caller always gets a summary. The call
/// fails only where the store cannot take the row, and then changes nothing.
pub fn store_or_create_summary(
    summaries: &mut Vec<SummaryRow>,
    events: &mut Vec<EventRow>,
    target_type: &str,
    target_id: &str,
    excerpts: &Vec<String>,
    reply: &GatewayOutcome,
    id: String,
    now: i64,
) -> (result: Result<SummaryRecord, EngineError>)
    ensures
        summary_obtained(
            old(summaries)@,
            final(summaries)@,
            old(events)@,
            final(events)@,
            result,
            target_type@,
            target_id@,
            views(excerpts@),
            *reply,
            id,
            now,
        ),
        versions_dense(old(summaries)@) ==> versions_dense(final(summaries)@),
        cache_keys_distinct(old(summaries)@) ==> cache_keys_distinct(final(summaries)@),
{
    let hash = hash_strings(excerpts);
    match find_cached_summary(summaries, target_type, target_id, hash.as_str()) {
        Some(summary) => {
            return Ok(summary);
        },
        None => {},
    }
    let prompt = join_texts(excerpts, "\n\n");
    let authored = authored_body(reply);
    let written = authored.as_str().unicode_len() > 0;
    let (body, model_id) = if written {
        let model = match reply {
            GatewayOutcome::Answered(response) => Some(response.model.clone()),
            _ => None,
        };
        (authored, model)
    } else {
        (prompt, None)
    };
    let created = insert_summary(
        summaries,
        target_type,
        target_id,
        body.as_str(),
        hash.as_str(),
        model_id,
        id,
        now,
    );
    let summary = match created {
        Ok(summary) => summary,
        Err(error) => {
            return Err(error);
        },
    };
    let mut data: Vec<EventField> = Vec::new();
    data.push(text_field("target_type", target_type.to_owned()));
    data.push(text_field("target_id", target_id.to_owned()));
    if written {
        let model = match &summary.model_id {
            Some(model) => EventValue::Text(model.clone()),
            None => EventValue::Missing,
        };
        data.push(EventField { name: "model".to_owned(), value: model });
        log_event(
            events,
            now,
            "info",
            "AI-SUMMARY",
            "ai.summary",
            "Summary generated",
            "Cached for future reuse",
            data,
        );
    } else {
        data.push(text_field("error", fallback_reason(reply)));
        log_event(
            events,
            now,
            "warn",
            "AI-SUMMARY-ERR",
            "ai.summary",
            "AI summarisation failed",
            "Falling back to deterministic text",
            data,
        );
        assert(is_text_field(events@.last().data@[2], "error"@, fallback_reason_of(*reply)));
    }
    assert(is_text_field(events@.last().data@[0], "target_type"@, target_type@));
    assert(is_text_field(events@.last().data@[1], "target_id"@, target_id@));
    Ok(summary)
}

} // verus!
