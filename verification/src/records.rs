//! Rows of the conversation, message, summary and link tables, and the
//! records that the engine hands back to its callers.

use vstd::prelude::*;

verus! {

/// A fraction in millionths: `750_000` is 0.75.
#[derive(Clone, Copy, Debug, PartialEq, Eq, Structural)]
pub struct Fraction {
    pub millionths: u32,
}

/// The warn threshold that applies where none is configured: 0.75.
pub const DEFAULT_WARN_MILLIONTHS: u32 = 750_000;

/// The force threshold that applies where none is configured: 0.9.
pub const DEFAULT_FORCE_MILLIONTHS: u32 = 900_000;

/// Thresholds and model selection of the summariser.
#[derive(Debug)]
pub struct SummarizerConfig {
    pub warn_ratio: Fraction,
    pub force_ratio: Fraction,
    pub summarizer_model: Option<String>,
}

impl Clone for SummarizerConfig {
    fn clone(&self) -> (copy: Self)
        ensures
            copy == *self,
    {
        SummarizerConfig {
            warn_ratio: self.warn_ratio,
            force_ratio: self.force_ratio,
            summarizer_model: self.summarizer_model.clone(),
        }
    }
}

/// A stored summary as it is returned to callers.
#[derive(Debug)]
pub struct SummaryRecord {
    pub id: String,
    pub target_type: String,
    pub target_id: String,
    pub version: i64,
    pub body: String,
    pub token_est: Option<i64>,
    pub model_id: Option<String>,
    pub created_at: i64,
    /// Whether the summary was found in the cache rather than generated.
    pub reused: bool,
}

impl Clone for SummaryRecord {
    fn clone(&self) -> (copy: Self)
        ensures
            copy == *self,
    {
        SummaryRecord {
            id: self.id.clone(),
            target_type: self.target_type.clone(),
            target_id: self.target_id.clone(),
            version: self.version,
            body: self.body.clone(),
            token_est: self.token_est,
            model_id: self.model_id.clone(),
            created_at: self.created_at,
            reused: self.reused,
        }
    }
}

/// A row of the summary table.
#[derive(Debug)]
pub struct SummaryRow {
    pub id: String,
    pub target_type: String,
    pub target_id: String,
    pub version: i64,
    pub body: String,
    pub token_est: Option<i64>,
    /// The hash of the excerpts that the summary was made from.
    pub source_hash: String,
    /// The model that wrote the body; absent where the body is the excerpts
    /// themselves.
    pub model_id: Option<String>,
    pub created_at: i64,
}

impl SummaryRow {
    /// The record that stands for this row.
    pub open spec fn as_record(self, reused: bool) -> SummaryRecord {
        SummaryRecord {
            id: self.id,
            target_type: self.target_type,
            target_id: self.target_id,
            version: self.version,
            body: self.body,
            token_est: self.token_est,
            model_id: self.model_id,
            created_at: self.created_at,
            reused,
        }
    }

    /// Whether the row belongs to the subject `(target_type, target_id)`.
    pub open spec fn is_about(self, target_type: Seq<char>, target_id: Seq<char>) -> bool {
        self.target_type@ == target_type && self.target_id@ == target_id
    }

    /// Whether the row is the cache entry for the given subject and hash.
    pub open spec fn matches_key(
        self,
        target_type: Seq<char>,
        target_id: Seq<char>,
        hash: Seq<char>,
    ) -> bool {
        self.is_about(target_type, target_id) && self.source_hash@ == hash
    }

    /// The record that stands for this row.
    pub fn to_record(&self, reused: bool) -> (record: SummaryRecord)
        ensures
            record == self.as_record(reused),
    {
        SummaryRecord {
            id: self.id.clone(),
            target_type: self.target_type.clone(),
            target_id: self.target_id.clone(),
            version: self.version,
            body: self.body.clone(),
            token_est: self.token_est,
            model_id: self.model_id.clone(),
            created_at: self.created_at,
            reused,
        }
    }
}

/// A conversation as it is returned to callers.
#[derive(Debug)]
pub struct ConversationRecord {
    pub id: String,
    pub title: Option<String>,
    pub provider_id: String,
    pub model_id: String,
    pub ctx_warn: bool,
    pub ctx_force: bool,
    pub created_at: i64,
    pub updated_at: i64,
    pub closed_at: Option<i64>,
    pub quality_flags: Option<String>,
    /// The sum of the token estimates of the conversation's messages.
    pub total_tokens: i64,
}

impl Clone for ConversationRecord {
    fn clone(&self) -> (copy: Self)
        ensures
            copy == *self,
    {
        ConversationRecord {
            id: self.id.clone(),
            title: self.title.clone(),
            provider_id: self.provider_id.clone(),
            model_id: self.model_id.clone(),
            ctx_warn: self.ctx_warn,
            ctx_force: self.ctx_force,
            created_at: self.created_at,
            updated_at: self.updated_at,
            closed_at: self.closed_at,
            quality_flags: self.quality_flags.clone(),
            total_tokens: self.total_tokens,
        }
    }
}

/// A row of the conversation table.
#[derive(Debug)]
pub struct ConversationRow {
    pub id: String,
    pub title: Option<String>,
    pub provider_id: String,
    pub model_id: String,
    /// Set once, when the conversation first reaches the warn threshold.
    pub ctx_warn: bool,
    /// Set once, when the conversation is rolled over; it is closed from then on.
    pub ctx_force: bool,
    pub created_at: i64,
    pub updated_at: i64,
    pub closed_at: Option<i64>,
    pub quality_flags: Option<String>,
}

impl Clone for ConversationRow {
    fn clone(&self) -> (copy: Self)
        ensures
            copy == *self,
    {
        ConversationRow {
            id: self.id.clone(),
            title: self.title.clone(),
            provider_id: self.provider_id.clone(),
            model_id: self.model_id.clone(),
            ctx_warn: self.ctx_warn,
            ctx_force: self.ctx_force,
            created_at: self.created_at,
            updated_at: self.updated_at,
            closed_at: self.closed_at,
            quality_flags: self.quality_flags.clone(),
        }
    }
}

impl ConversationRow {
    /// The record that stands for this row, given its token total.
    pub open spec fn as_record(self, total_tokens: i64) -> ConversationRecord {
        ConversationRecord {
            id: self.id,
            title: self.title,
            provider_id: self.provider_id,
            model_id: self.model_id,
            ctx_warn: self.ctx_warn,
            ctx_force: self.ctx_force,
            created_at: self.created_at,
            updated_at: self.updated_at,
            closed_at: self.closed_at,
            quality_flags: self.quality_flags,
            total_tokens,
        }
    }

    /// The record that stands for this row, given its token total.
    pub fn to_record(&self, total_tokens: i64) -> (record: ConversationRecord)
        ensures
            record == self.as_record(total_tokens),
    {
        ConversationRecord {
            id: self.id.clone(),
            title: self.title.clone(),
            provider_id: self.provider_id.clone(),
            model_id: self.model_id.clone(),
            ctx_warn: self.ctx_warn,
            ctx_force: self.ctx_force,
            created_at: self.created_at,
            updated_at: self.updated_at,
            closed_at: self.closed_at,
            quality_flags: self.quality_flags.clone(),
            total_tokens,
        }
    }
}

/// A chat message. It belongs to one conversation and is never changed.
#[derive(Debug)]
pub struct MessageRecord {
    pub id: String,
    pub conversation_id: String,
    pub role: String,
    pub body: String,
    /// The token estimate of the body, taken when the message was stored.
    pub token_est: Option<i64>,
    pub created_at: i64,
    pub quality_flags: Option<String>,
}

impl MessageRecord {
    /// What the message adds to the token total of its conversation.
    pub open spec fn tokens(self) -> int {
        match self.token_est {
            Some(t) => t as int,
            None => 0,
        }
    }
}

impl Clone for MessageRecord {
    fn clone(&self) -> (copy: Self)
        ensures
            copy == *self,
    {
        MessageRecord {
            id: self.id.clone(),
            conversation_id: self.conversation_id.clone(),
            role: self.role.clone(),
            body: self.body.clone(),
            token_est: self.token_est,
            created_at: self.created_at,
            quality_flags: self.quality_flags.clone(),
        }
    }
}

/// What appending a message did.
#[derive(Debug)]
pub struct AppendResult {
    pub message: MessageRecord,
    pub warn: bool,
    pub rolled: bool,
    pub new_conversation: Option<ConversationRecord>,
    pub summary: Option<SummaryRecord>,
    pub total_tokens: i64,
}

/// What a rollover produced.
#[derive(Debug)]
pub struct RolloverOutcome {
    pub rolled: bool,
    pub new_conversation: Option<ConversationRecord>,
    pub summary: Option<SummaryRecord>,
}

/// A directed, typed edge between two records. Links are only ever added.
#[derive(Debug)]
pub struct LinkRow {
    pub src_id: String,
    pub src_type: String,
    pub dst_id: String,
    pub dst_type: String,
    pub rel: String,
    pub created_at: i64,
}

/// One value of the data that an event carries.
#[derive(Debug)]
pub enum EventValue {
    Text(String),
    Number(i64),
    Missing,
}

/// One named value of the data that an event carries.
#[derive(Debug)]
pub struct EventField {
    pub name: String,
    pub value: EventValue,
}

/// A row of the event log.
#[derive(Debug)]
pub struct EventRow {
    pub ts: i64,
    pub level: String,
    pub code: Option<String>,
    pub module: String,
    pub message: String,
    pub explain: Option<String>,
    pub data: Vec<EventField>,
}

} // verus!
