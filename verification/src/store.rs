//! The workspace store: every table the engine reads and writes.
//!
//! Rows are kept in the order in which they were stored. Tables only grow,
//! but for the timeline, which is rebuilt for a day whenever its digest runs.

use vstd::prelude::*;
use crate::agents::ProviderRow;
use crate::jobs::JobRow;
use crate::journal::{LogbookEntry, NoteRow, TimelineEvent};
use crate::keyed::Keyed;
use crate::records::{
    ConversationRow, DEFAULT_FORCE_MILLIONTHS, DEFAULT_WARN_MILLIONTHS, EventField, EventRow,
    EventValue, Fraction, LinkRow, MessageRecord, SummarizerConfig, SummaryRow,
};
use crate::text::clone_text;

verus! {

/// The key/value settings that the engine reads.
#[derive(Debug)]
pub struct Settings {
    /// The fraction of the context window at which a conversation is flagged.
    pub warn_ratio: Option<Fraction>,
    /// The fraction of the context window at which a conversation is rolled over.
    pub force_ratio: Option<Fraction>,
    /// The model that writes summaries, where one is preferred.
    pub summarizer_model: Option<String>,
    pub active_provider_id: Option<String>,
    pub active_model: Option<String>,
}

/// The tables of a workspace.
#[derive(Debug)]
pub struct Store {
    pub conversations: Vec<ConversationRow>,
    pub messages: Vec<MessageRecord>,
    pub summaries: Vec<SummaryRow>,
    pub links: Vec<LinkRow>,
    pub events: Vec<EventRow>,
    pub jobs: Vec<JobRow>,
    pub providers: Vec<ProviderRow>,
    pub settings: Settings,
    pub notes: Vec<NoteRow>,
    pub logbook: Vec<LogbookEntry>,
    pub timeline: Vec<TimelineEvent>,
}

/// The tables of a workspace as values: what the contracts speak of.
pub struct Tables {
    pub conversations: Seq<ConversationRow>,
    pub messages: Seq<MessageRecord>,
    pub summaries: Seq<SummaryRow>,
    pub links: Seq<LinkRow>,
    pub events: Seq<EventRow>,
    pub jobs: Seq<JobRow>,
    pub providers: Seq<ProviderRow>,
    pub settings: Settings,
    pub notes: Seq<NoteRow>,
    pub logbook: Seq<LogbookEntry>,
    pub timeline: Seq<TimelineEvent>,
}

impl View for Store {
    type V = Tables;

    open spec fn view(&self) -> Tables {
        Tables {
            conversations: self.conversations@,
            messages: self.messages@,
            summaries: self.summaries@,
            links: self.links@,
            events: self.events@,
            jobs: self.jobs@,
            providers: self.providers@,
            settings: self.settings,
            notes: self.notes@,
            logbook: self.logbook@,
            timeline: self.timeline@,
        }
    }
}

impl Keyed for ConversationRow {
    open spec fn key(&self) -> Seq<char> {
        self.id@
    }

    fn key_text(&self) -> (text: &str) {
        self.id.as_str()
    }
}

impl Keyed for SummaryRow {
    open spec fn key(&self) -> Seq<char> {
        self.id@
    }

    fn key_text(&self) -> (text: &str) {
        self.id.as_str()
    }
}

impl Store {
    /// A store without rows and without settings.
    pub fn new() -> (store: Store)
        ensures
            store.conversations@.len() == 0,
            store.messages@.len() == 0,
            store.summaries@.len() == 0,
            store.links@.len() == 0,
            store.events@.len() == 0,
            store.jobs@.len() == 0,
            store.providers@.len() == 0,
            store.notes@.len() == 0,
            store.logbook@.len() == 0,
            store.timeline@.len() == 0,
            store.settings.warn_ratio is None,
            store.settings.force_ratio is None,
            store.settings.summarizer_model is None,
            store.settings.active_provider_id is None,
            store.settings.active_model is None,
    {
        Store {
            conversations: Vec::new(),
            messages: Vec::new(),
            summaries: Vec::new(),
            links: Vec::new(),
            events: Vec::new(),
            jobs: Vec::new(),
            providers: Vec::new(),
            settings: Settings {
                warn_ratio: None,
                force_ratio: None,
                summarizer_model: None,
                active_provider_id: None,
                active_model: None,
            },
            notes: Vec::new(),
            logbook: Vec::new(),
            timeline: Vec::new(),
        }
    }
}

/// The configuration of the summariser that the settings amount to: what
/// is stored, and the defaults where nothing is.
pub open spec fn config_of(settings: Settings) -> SummarizerConfig {
    SummarizerConfig {
        warn_ratio: match settings.warn_ratio {
            Some(ratio) => ratio,
            None => Fraction { millionths: DEFAULT_WARN_MILLIONTHS },
        },
        force_ratio: match settings.force_ratio {
            Some(ratio) => ratio,
            None => Fraction { millionths: DEFAULT_FORCE_MILLIONTHS },
        },
        summarizer_model: settings.summarizer_model,
    }
}

/// Reads the configuration of the summariser from the settings.
pub fn read_config(settings: &Settings) -> (config: SummarizerConfig)
    ensures
        config == config_of(*settings),
{
    SummarizerConfig {
        warn_ratio: match settings.warn_ratio {
            Some(ratio) => ratio,
            None => Fraction { millionths: DEFAULT_WARN_MILLIONTHS },
        },
        force_ratio: match settings.force_ratio {
            Some(ratio) => ratio,
            None => Fraction { millionths: DEFAULT_FORCE_MILLIONTHS },
        },
        summarizer_model: clone_text(&settings.summarizer_model),
    }
}

/// Whether `row` is an event of the given level, code and module.
pub open spec fn is_event(
    row: EventRow,
    ts: i64,
    level: Seq<char>,
    code: Seq<char>,
    module: Seq<char>,
) -> bool {
    &&& row.ts == ts
    &&& row.level@ == level
    &&& row.code is Some
    &&& row.code.unwrap()@ == code
    &&& row.module@ == module
}

/// Whether `row` tells its reader `message`, and explains it with `explain`.
pub open spec fn worded(row: EventRow, message: Seq<char>, explain: Seq<char>) -> bool {
    &&& row.message@ == message
    &&& row.explain is Some
    &&& row.explain.unwrap()@ == explain
}

/// Whether the field `field` carries the text `text` under `name`.
pub open spec fn is_text_field(field: EventField, name: Seq<char>, text: Seq<char>) -> bool {
    field.name@ == name && (field.value matches EventValue::Text(t) && t@ == text)
}

/// The field that carries `text` under `name`.
pub fn text_field(name: &str, text: String) -> (field: EventField)
    ensures
        is_text_field(field, name@, text@),
        field.value == EventValue::Text(text),
{
    EventField { name: name.to_owned(), value: EventValue::Text(text) }
}

/// The field that carries `number` under `name`.
pub fn number_field(name: &str, number: i64) -> (field: EventField)
    ensures
        field.name@ == name@,
        field.value == EventValue::Number(number),
{
    EventField { name: name.to_owned(), value: EventValue::Number(number) }
}

/// Whether the data of `row` names the number `number` under `name`.
pub open spec fn names_number(row: EventRow, name: Seq<char>, number: int) -> bool {
    exists|i: int|
        0 <= i < row.data@.len() && (#[trigger] row.data@[i]).name@ == name && row.data@[i].value
            == EventValue::Number(number as i64)
}

/// Whether the data of `row` names the text `text` under `name`.
pub open spec fn names_text(row: EventRow, name: Seq<char>, text: Seq<char>) -> bool {
    exists|i: int| 0 <= i < row.data@.len() && is_text_field(#[trigger] row.data@[i], name, text)
}

/// Appends an event to the log. Recording an event cannot fail.
pub fn log_event(
    events: &mut Vec<EventRow>,
    ts: i64,
    level: &str,
    code: &str,
    module: &str,
    message: &str,
    explain: &str,
    data: Vec<EventField>,
)
    ensures
        final(events)@.len() == old(events)@.len() + 1,
        final(events)@.take(old(events)@.len() as int) == old(events)@,
        is_event(final(events)@.last(), ts, level@, code@, module@),
        worded(final(events)@.last(), message@, explain@),
        final(events)@.last().data@ == data@,
{
    let row = EventRow {
        ts,
        level: level.to_owned(),
        code: Some(code.to_owned()),
        module: module.to_owned(),
        message: message.to_owned(),
        explain: Some(explain.to_owned()),
        data,
    };
    events.push(row);
}

/// Appends a link. Links are an audit trail: nothing ever changes or removes one.
pub fn insert_link(
    links: &mut Vec<LinkRow>,
    src_id: &str,
    src_type: &str,
    dst_id: &str,
    dst_type: &str,
    rel: &str,
    now: i64,
)
    ensures
        final(links)@.len() == old(links)@.len() + 1,
        final(links)@.take(old(links)@.len() as int) == old(links)@,
        is_link(final(links)@.last(), src_id@, src_type@, dst_id@, dst_type@, rel@, now),
{
    let row = LinkRow {
        src_id: src_id.to_owned(),
        src_type: src_type.to_owned(),
        dst_id: dst_id.to_owned(),
        dst_type: dst_type.to_owned(),
        rel: rel.to_owned(),
        created_at: now,
    };
    links.push(row);
}

/// Whether `row` is the link with the given ends and label.
pub open spec fn is_link(
    row: LinkRow,
    src_id: Seq<char>,
    src_type: Seq<char>,
    dst_id: Seq<char>,
    dst_type: Seq<char>,
    rel: Seq<char>,
    now: i64,
) -> bool {
    &&& row.src_id@ == src_id
    &&& row.src_type@ == src_type
    &&& row.dst_id@ == dst_id
    &&& row.dst_type@ == dst_type
    &&& row.rel@ == rel
    &&& row.created_at == now
}

} // verus!
