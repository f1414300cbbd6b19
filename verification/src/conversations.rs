//! The conversation and message tables.

use vstd::prelude::*;
use crate::errors::EngineError;
use crate::keyed::{Keyed, find_row, holds_key, is_first_with_key, position_of};
use crate::ranking::{Listing, Rank, collected, lemma_collect_next, order_of, put_in_order};
use crate::records::{ConversationRecord, ConversationRow, MessageRecord};
use crate::text::str_eq;
use crate::tokens::{token_estimate, token_estimate_of};

verus! {

/// The sum of the token estimates of the messages of a conversation.
pub open spec fn token_total(messages: Seq<MessageRecord>, conversation: Seq<char>) -> int
    decreases messages.len(),
{
    if messages.len() == 0 {
        0
    } else {
        let last = messages.last();
        token_total(messages.drop_last(), conversation) + if last.conversation_id@ == conversation {
            last.tokens()
        } else {
            0
        }
    }
}

/// The token total as a conversation record shows it: the sum, or zero where
/// the sum cannot be written in 64 bits.
pub open spec fn shown_total(messages: Seq<MessageRecord>, conversation: Seq<char>) -> i64 {
    let total = token_total(messages, conversation);
    if i64::MIN <= total <= i64::MAX {
        total as i64
    } else {
        0
    }
}

/// Sums the token estimates of a conversation, in a width in which the sum
/// of any table can be written.
pub fn sum_tokens_wide(messages: &Vec<MessageRecord>, conversation_id: &str) -> (total: i128)
    ensures
        total == token_total(messages@, conversation_id@),
        -(messages.len() as int) * 0x8000_0000_0000_0000 <= total <= (messages.len() as int)
            * 0x8000_0000_0000_0000,
{
    let mut sum: i128 = 0;
    let mut i: usize = 0;
    while i < messages.len()
        invariant
            i <= messages.len(),
            sum == token_total(messages@.take(i as int), conversation_id@),
            -(i as int) * 0x8000_0000_0000_0000 <= sum <= (i as int) * 0x8000_0000_0000_0000,
        decreases messages.len() - i,
    {
        proof {
            assert(messages@.take(i + 1).drop_last() == messages@.take(i as int));
        }
        if str_eq(messages[i].conversation_id.as_str(), conversation_id) {
            match messages[i].token_est {
                Some(tokens) => {
                    sum = sum + tokens as i128;
                },
                None => {},
            }
        }
        i += 1;
    }
    assert(messages@.take(messages@.len() as int) == messages@);
    sum
}

/// Sums the token estimates of a conversation. The sum is computed afresh
/// from the messages each time; it fails where it does not fit in 64 bits.
pub fn sum_tokens(messages: &Vec<MessageRecord>, conversation_id: &str) -> (total: Result<
    i64,
    EngineError,
>)
    ensures
        total is Ok <==> i64::MIN <= token_total(messages@, conversation_id@) <= i64::MAX,
        total is Ok ==> total.unwrap() == token_total(messages@, conversation_id@),
        total is Err ==> total->Err_0 == EngineError::StoreFailure,
{
    let sum = sum_tokens_wide(messages, conversation_id);
    if -0x8000_0000_0000_0000 <= sum && sum <= 0x7fff_ffff_ffff_ffff {
        Ok(sum as i64)
    } else {
        Err(EngineError::StoreFailure)
    }
}

/// Fetches a conversation with its current token total.
pub fn fetch_conversation(
    conversations: &Vec<ConversationRow>,
    messages: &Vec<MessageRecord>,
    conversation_id: &str,
) -> (found: Option<ConversationRecord>)
    ensures
        found is Some <==> holds_key(conversations@, conversation_id@),
        found is Some ==> found.unwrap() == conversations@[position_of(
            conversations@,
            conversation_id@,
        )].as_record(shown_total(messages@, conversation_id@)),
{
    match find_row(conversations, conversation_id) {
        Some(i) => {
            let total = match sum_tokens(messages, conversation_id) {
                Ok(total) => total,
                Err(_) => 0,
            };
            Some(conversations[i].to_record(total))
        },
        None => None,
    }
}

/// The conversation table after the row `conversation` was touched at `now`.
pub open spec fn touched(rows: Seq<ConversationRow>, conversation: Seq<char>, now: i64) -> Seq<
    ConversationRow,
> {
    if holds_key(rows, conversation) {
        let at = position_of(rows, conversation);
        rows.update(at, ConversationRow { updated_at: now, ..rows[at] })
    } else {
        rows
    }
}

/// The conversation table after the row `conversation` was flagged.
pub open spec fn warned(rows: Seq<ConversationRow>, conversation: Seq<char>) -> Seq<
    ConversationRow,
> {
    if holds_key(rows, conversation) {
        let at = position_of(rows, conversation);
        rows.update(at, ConversationRow { ctx_warn: true, ..rows[at] })
    } else {
        rows
    }
}

/// The conversation table after the row `conversation` was closed at `now`.
pub open spec fn closed(rows: Seq<ConversationRow>, conversation: Seq<char>, now: i64) -> Seq<
    ConversationRow,
> {
    if holds_key(rows, conversation) {
        let at = position_of(rows, conversation);
        rows.update(at, ConversationRow { ctx_force: true, closed_at: Some(now), ..rows[at] })
    } else {
        rows
    }
}

/// Touching, flagging and closing a conversation change the one row and
/// leave every identifier where it is.
pub proof fn lemma_row_changes(
    rows: Seq<ConversationRow>,
    conversation: Seq<char>,
    now: i64,
    at: int,
)
    requires
        is_first_with_key(rows, conversation, at),
    ensures
        touched(rows, conversation, now) == rows.update(
            at,
            ConversationRow { updated_at: now, ..rows[at] },
        ),
        warned(rows, conversation) == rows.update(at, ConversationRow { ctx_warn: true, ..rows[at] }),
        closed(rows, conversation, now) == rows.update(
            at,
            ConversationRow { ctx_force: true, closed_at: Some(now), ..rows[at] },
        ),
        is_first_with_key(touched(rows, conversation, now), conversation, at),
        is_first_with_key(warned(rows, conversation), conversation, at),
        is_first_with_key(closed(rows, conversation, now), conversation, at),
{
}

/// Whether `message` is the message that storing `body` under `role` makes.
pub open spec fn is_new_message(
    message: MessageRecord,
    id: String,
    conversation: Seq<char>,
    role: Seq<char>,
    body: Seq<char>,
    now: i64,
) -> bool {
    &&& message.id == id
    &&& message.conversation_id@ == conversation
    &&& message.role@ == role
    &&& message.body@ == body
    &&& message.token_est == Some(token_estimate_of(body))
    &&& message.created_at == now
    &&& message.quality_flags is None
}

/// Stores a message and touches its conversation. The token estimate is
/// taken here and never changes afterwards.
pub fn insert_message(
    conversations: &mut Vec<ConversationRow>,
    messages: &mut Vec<MessageRecord>,
    conversation_id: &str,
    role: &str,
    body: &str,
    id: String,
    now: i64,
) -> (message: MessageRecord)
    ensures
        is_new_message(message, id, conversation_id@, role@, body@, now),
        final(messages)@ == old(messages)@.push(message),
        final(conversations)@ == touched(old(conversations)@, conversation_id@, now),
{
    let message = MessageRecord {
        id,
        conversation_id: conversation_id.to_owned(),
        role: role.to_owned(),
        body: body.to_owned(),
        token_est: Some(token_estimate(body)),
        created_at: now,
        quality_flags: None,
    };
    messages.push(message.clone());
    match find_row(conversations, conversation_id) {
        Some(i) => {
            conversations[i].updated_at = now;
        },
        None => {},
    }
    message
}

/// Flags a conversation as close to its context limit.
pub fn mark_ctx_warn(conversations: &mut Vec<ConversationRow>, conversation_id: &str)
    ensures
        final(conversations)@ == warned(old(conversations)@, conversation_id@),
{
    match find_row(conversations, conversation_id) {
        Some(i) => {
            conversations[i].ctx_warn = true;
        },
        None => {},
    }
}

/// Closes a conversation: sets its force flag and its close time.
pub fn mark_ctx_force(conversations: &mut Vec<ConversationRow>, conversation_id: &str, now: i64)
    ensures
        final(conversations)@ == closed(old(conversations)@, conversation_id@, now),
{
    match find_row(conversations, conversation_id) {
        Some(i) => {
            conversations[i].ctx_force = true;
            conversations[i].closed_at = Some(now);
        },
        None => {},
    }
}

/// The place of the message at `position` in the history of its conversation:
/// by creation time, and by position among messages of the same second.
pub open spec fn message_rank(messages: Seq<MessageRecord>, position: int) -> Rank {
    Rank {
        first: messages[position].created_at as i128,
        second: 0,
        third: 0,
        position: position as usize,
    }
}

/// The history of a conversation as a listing: its messages, by rank.
pub struct History {
    pub messages: Seq<MessageRecord>,
    pub conversation: Seq<char>,
}

impl Listing for History {
    open spec fn rows(&self) -> nat {
        self.messages.len()
    }

    open spec fn lists(&self, position: int) -> bool {
        self.messages[position].conversation_id@ == self.conversation
    }

    open spec fn rank(&self, position: int) -> Rank {
        message_rank(self.messages, position)
    }

    proof fn lemma_rank_position(&self, position: int) {
    }
}

/// The order in which the messages of `conversation` are listed.
pub open spec fn history_order(messages: Seq<MessageRecord>, conversation: Seq<char>) -> Seq<
    Rank,
> {
    order_of(History { messages, conversation })
}

/// The messages of `conversation`, the oldest first.
pub open spec fn history_of(messages: Seq<MessageRecord>, conversation: Seq<char>) -> Seq<
    MessageRecord,
> {
    let order = history_order(messages, conversation);
    Seq::new(order.len(), |k: int| messages[order[k].position as int])
}

/// Computes the order in which the messages of a conversation are listed.
fn order_history(messages: &Vec<MessageRecord>, conversation_id: &str) -> (order: Vec<Rank>)
    ensures
        order@ == history_order(messages@, conversation_id@),
        forall|k: int| 0 <= k < order.len() ==> (#[trigger] order[k]).position < messages.len(),
{
    let listing: Ghost<History> = Ghost(
        History { messages: messages@, conversation: conversation_id@ },
    );
    let mut ranks: Vec<Rank> = Vec::new();
    let mut i: usize = 0;
    while i < messages.len()
        invariant
            i <= messages.len(),
            listing@ == (History { messages: messages@, conversation: conversation_id@ }),
            collected(listing@, ranks@, i as int),
        decreases messages.len() - i,
    {
        proof {
            lemma_collect_next(listing@, ranks@, i as int);
        }
        if str_eq(messages[i].conversation_id.as_str(), conversation_id) {
            ranks.push(Rank { first: messages[i].created_at as i128, second: 0, third: 0, position: i });
        }
        i += 1;
    }
    put_in_order(&ranks, listing)
}

/// How many rows a listing of `available` rows shows under `limit`.
pub open spec fn limited(available: nat, limit: Option<usize>) -> nat {
    match limit {
        Some(n) => if (n as nat) < available {
            n as nat
        } else {
            available
        },
        None => available,
    }
}

/// Lists the messages of a conversation, the oldest first, at most `limit`.
pub fn list_messages(
    messages: &Vec<MessageRecord>,
    conversation_id: &str,
    limit: Option<usize>,
) -> (listed: Vec<MessageRecord>)
    ensures
        listed@ == history_of(messages@, conversation_id@).take(
            limited(history_of(messages@, conversation_id@).len(), limit) as int,
        ),
{
    let order = order_history(messages, conversation_id);
    let shown: usize = match limit {
        Some(n) => if n < order.len() {
            n
        } else {
            order.len()
        },
        None => order.len(),
    };
    let ghost history = history_of(messages@, conversation_id@);
    let mut listed: Vec<MessageRecord> = Vec::new();
    let mut k: usize = 0;
    while k < shown
        invariant
            k <= shown <= order.len(),
            order@ == history_order(messages@, conversation_id@),
            forall|j: int| 0 <= j < order.len() ==> (#[trigger] order[j]).position < messages.len(),
            history == history_of(messages@, conversation_id@),
            listed@ == history.take(k as int),
        decreases shown - k,
    {
        let position = order[k].position;
        listed.push(messages[position].clone());
        k += 1;
    }
    listed
}

/// The place of the conversation at `position` in the listing: the one
/// touched last first, and among conversations touched in the same second by
/// position.
pub open spec fn conversation_rank(rows: Seq<ConversationRow>, position: int) -> Rank {
    Rank {
        first: (-(rows[position].updated_at as int)) as i128,
        second: 0,
        third: 0,
        position: position as usize,
    }
}

/// The conversations as a listing: all of them, by rank.
pub struct Activity {
    pub rows: Seq<ConversationRow>,
}

impl Listing for Activity {
    open spec fn rows(&self) -> nat {
        self.rows.len()
    }

    open spec fn lists(&self, position: int) -> bool {
        true
    }

    open spec fn rank(&self, position: int) -> Rank {
        conversation_rank(self.rows, position)
    }

    proof fn lemma_rank_position(&self, position: int) {
    }
}

/// The order in which the conversations are listed.
pub open spec fn activity_order(rows: Seq<ConversationRow>) -> Seq<Rank> {
    order_of(Activity { rows })
}

/// The conversations with their token totals, the one touched last first.
pub open spec fn conversations_by_activity(
    rows: Seq<ConversationRow>,
    messages: Seq<MessageRecord>,
) -> Seq<ConversationRecord> {
    let order = activity_order(rows);
    Seq::new(
        order.len(),
        |k: int|
            rows[order[k].position as int].as_record(
                shown_total(messages, rows[order[k].position as int].id@),
            ),
    )
}

/// Computes the order in which the conversations are listed.
fn order_by_activity(rows: &Vec<ConversationRow>) -> (order: Vec<Rank>)
    ensures
        order@ == activity_order(rows@),
        forall|k: int| 0 <= k < order.len() ==> (#[trigger] order[k]).position < rows.len(),
{
    let listing: Ghost<Activity> = Ghost(Activity { rows: rows@ });
    let mut ranks: Vec<Rank> = Vec::new();
    let mut i: usize = 0;
    while i < rows.len()
        invariant
            i <= rows.len(),
            listing@ == (Activity { rows: rows@ }),
            collected(listing@, ranks@, i as int),
        decreases rows.len() - i,
    {
        proof {
            lemma_collect_next(listing@, ranks@, i as int);
        }
        ranks.push(Rank { first: -(rows[i].updated_at as i128), second: 0, third: 0, position: i });
        i += 1;
    }
    put_in_order(&ranks, listing)
}

/// Lists the conversations with their token totals, the one touched last
/// first, at most `limit`.
pub fn list_conversations(
    conversations: &Vec<ConversationRow>,
    messages: &Vec<MessageRecord>,
    limit: Option<usize>,
) -> (listed: Vec<ConversationRecord>)
    ensures
        listed@ == conversations_by_activity(conversations@, messages@).take(
            limited(conversations_by_activity(conversations@, messages@).len(), limit) as int,
        ),
{
    let order = order_by_activity(conversations);
    let shown: usize = match limit {
        Some(n) => if n < order.len() {
            n
        } else {
            order.len()
        },
        None => order.len(),
    };
    let ghost all = conversations_by_activity(conversations@, messages@);
    let mut listed: Vec<ConversationRecord> = Vec::new();
    let mut k: usize = 0;
    while k < shown
        invariant
            k <= shown <= order.len(),
            order@ == activity_order(conversations@),
            forall|j: int| 0 <= j < order.len() ==> (#[trigger] order[j]).position
                < conversations.len(),
            all == conversations_by_activity(conversations@, messages@),
            listed@ == all.take(k as int),
        decreases shown - k,
    {
        let row = &conversations[order[k].position];
        let total = match sum_tokens(messages, row.id.as_str()) {
            Ok(total) => total,
            Err(_) => 0,
        };
        listed.push(row.to_record(total));
        k += 1;
    }
    listed
}

/// Whether `row` is the conversation that creating one makes.
pub open spec fn is_new_conversation(
    row: ConversationRow,
    id: String,
    title: Option<String>,
    provider_id: String,
    model_id: String,
    now: i64,
) -> bool {
    &&& row.id == id
    &&& row.title == title
    &&& row.provider_id == provider_id
    &&& row.model_id == model_id
    &&& !row.ctx_warn
    &&& !row.ctx_force
    &&& row.created_at == now
    &&& row.updated_at == now
    &&& row.closed_at is None
    &&& row.quality_flags is None
}

} // verus!
