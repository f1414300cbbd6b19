//! Providers, runtime selections and chat messages.

use vstd::prelude::*;
use crate::keyed::Keyed;
use crate::records::Fraction;
use crate::text::{
    Trim, chars_of, lowercase_of, push_chars, str_eq, trim_range, trimmed, uppercase_of,
};

verus! {

/// A provider as it is listed for callers.
#[derive(Debug)]
pub struct AiProviderInfo {
    pub id: String,
    pub kind: String,
    pub display_name: String,
    pub description: Option<String>,
    pub base_url: Option<String>,
    pub default_model: Option<String>,
    pub models: Vec<String>,
    pub capability_tags: Vec<String>,
    pub requires_api_key: bool,
    pub has_credentials: bool,
}

impl AiProviderInfo {
    /// Whether two listings say the same of a provider.
    pub open spec fn same_as(self, other: AiProviderInfo) -> bool {
        &&& self.id == other.id
        &&& self.kind == other.kind
        &&& self.display_name == other.display_name
        &&& self.description == other.description
        &&& self.base_url == other.base_url
        &&& self.default_model == other.default_model
        &&& self.models@ == other.models@
        &&& self.capability_tags@ == other.capability_tags@
        &&& self.requires_api_key == other.requires_api_key
        &&& self.has_credentials == other.has_credentials
    }
}

/// Copies a list of strings.
pub fn clone_strings(list: &Vec<String>) -> (copy: Vec<String>)
    ensures
        copy@ == list@,
{
    let copy = list.clone();
    copy
}

impl Clone for AiProviderInfo {
    fn clone(&self) -> (copy: Self)
        ensures
            copy.same_as(*self),
    {
        AiProviderInfo {
            id: self.id.clone(),
            kind: self.kind.clone(),
            display_name: self.display_name.clone(),
            description: self.description.clone(),
            base_url: self.base_url.clone(),
            default_model: self.default_model.clone(),
            models: clone_strings(&self.models),
            capability_tags: clone_strings(&self.capability_tags),
            requires_api_key: self.requires_api_key,
            has_credentials: self.has_credentials,
        }
    }
}

/// A row of the provider table, with the credential stored for the provider.
#[derive(Debug)]
pub struct ProviderRow {
    pub id: String,
    pub kind: String,
    pub display_name: String,
    pub description: Option<String>,
    pub base_url: Option<String>,
    pub default_model: Option<String>,
    pub models: Vec<String>,
    pub capability_tags: Vec<String>,
    pub requires_api_key: bool,
    /// The API key in Base64, as it is kept at rest.
    pub credential: Option<String>,
}

impl Keyed for ProviderRow {
    open spec fn key(&self) -> Seq<char> {
        self.id@
    }

    fn key_text(&self) -> (text: &str) {
        self.id.as_str()
    }
}

impl ProviderRow {
    /// What is listed of this row.
    pub open spec fn listed_as(self, info: AiProviderInfo) -> bool {
        &&& info.id == self.id
        &&& info.kind == self.kind
        &&& info.display_name == self.display_name
        &&& info.description == self.description
        &&& info.base_url == self.base_url
        &&& info.default_model == self.default_model
        &&& info.models@ == self.models@
        &&& info.capability_tags@ == self.capability_tags@
        &&& info.requires_api_key == self.requires_api_key
        &&& info.has_credentials == (self.credential is Some)
    }

    /// Whether the provider can be used as it is configured: it needs no key,
    /// or a key is stored for it.
    pub open spec fn usable(self) -> bool {
        !self.requires_api_key || self.credential is Some
    }

    /// Whether the provider runs on this machine.
    pub open spec fn is_local(self) -> bool {
        self.kind@ == "local"@
    }

    /// The listing of this row.
    pub fn to_info(&self) -> (info: AiProviderInfo)
        ensures
            self.listed_as(info),
    {
        AiProviderInfo {
            id: self.id.clone(),
            kind: self.kind.clone(),
            display_name: self.display_name.clone(),
            description: self.description.clone(),
            base_url: self.base_url.clone(),
            default_model: self.default_model.clone(),
            models: clone_strings(&self.models),
            capability_tags: clone_strings(&self.capability_tags),
            requires_api_key: self.requires_api_key,
            has_credentials: self.credential.is_some(),
        }
    }
}

/// The active provider and model, with the provider's listing.
#[derive(Debug)]
pub struct AiSettingsSnapshot {
    pub active_provider_id: Option<String>,
    pub active_model: Option<String>,
    pub provider: Option<AiProviderInfo>,
}

/// The provider, model and credential that a call will use.
#[derive(Debug)]
pub struct AiRuntimeSelection {
    pub provider: AiProviderInfo,
    pub model: String,
    pub secret: Option<String>,
}

/// A change of the active provider and of what is stored for it.
#[derive(Debug)]
pub struct AiSettingsUpdate {
    pub provider_id: String,
    pub model: Option<String>,
    pub api_key: Option<String>,
    pub base_url: Option<String>,
}

/// One message of a chat exchange.
#[derive(Debug)]
pub struct AiChatMessage {
    pub role: String,
    pub content: String,
}

impl Clone for AiChatMessage {
    fn clone(&self) -> (copy: Self)
        ensures
            copy == *self,
    {
        AiChatMessage { role: self.role.clone(), content: self.content.clone() }
    }
}

/// What is sent to the gateway.
#[derive(Debug)]
pub struct AiChatInput {
    pub messages: Vec<AiChatMessage>,
    /// The sampling temperature: `200_000` millionths is 0.2.
    pub temperature: Option<Fraction>,
}

/// Token counts that a provider reports.
#[derive(Debug, Clone, Copy)]
pub struct AiUsageMetrics {
    pub prompt_tokens: Option<u32>,
    pub completion_tokens: Option<u32>,
    pub total_tokens: Option<u32>,
}

/// What the gateway answered.
#[derive(Debug)]
pub struct AiChatResponse {
    pub provider_id: String,
    pub model: String,
    pub content: String,
    pub usage: Option<AiUsageMetrics>,
}

/// How a request to the gateway ended.
#[derive(Debug)]
pub enum GatewayOutcome {
    /// The gateway answered.
    Answered(AiChatResponse),
    /// The gateway failed, for the reason given.
    Failed(String),
    /// No request was made.
    Unavailable,
}

/// The role under which a message is sent to providers that know three
/// roles: `system` and `assistant` stay, whatever their case; the rest is
/// `user`.
pub open spec fn normalised_role(role: Seq<char>) -> Seq<char> {
    let lowered = lowercase_of(role);
    if lowered == "system"@ {
        "system"@
    } else if lowered == "assistant"@ {
        "assistant"@
    } else {
        "user"@
    }
}

/// Normalises the role of a message.
pub fn normalise_role(role: &str) -> (name: &'static str)
    ensures
        name@ == normalised_role(role@),
{
    let lowered = role.to_lowercase();
    if str_eq(lowered.as_str(), "system") {
        "system"
    } else if str_eq(lowered.as_str(), "assistant") {
        "assistant"
    } else {
        "user"
    }
}

/// Normalises the roles of a list of messages; the contents stay.
pub fn normalise_messages(messages: &Vec<AiChatMessage>) -> (out: Vec<AiChatMessage>)
    ensures
        out.len() == messages.len(),
        forall|i: int|
            0 <= i < out.len() ==> (#[trigger] out[i]).role@ == normalised_role(messages[i].role@)
                && out[i].content == messages[i].content,
{
    let mut out: Vec<AiChatMessage> = Vec::new();
    let mut i: usize = 0;
    while i < messages.len()
        invariant
            i <= messages.len(),
            out.len() == i,
            forall|k: int|
                0 <= k < i ==> (#[trigger] out[k]).role@ == normalised_role(messages[k].role@)
                    && out[k].content == messages[k].content,
        decreases messages.len() - i,
    {
        let role = normalise_role(messages[i].role.as_str()).to_owned();
        out.push(AiChatMessage { role, content: messages[i].content.clone() });
        i += 1;
    }
    out
}

/// The section that stands for one message in a single-prompt conversation.
pub open spec fn prompt_section(message: AiChatMessage) -> Seq<char> {
    uppercase_of(message.role@) + ": "@ + trimmed(message.content@, Trim::Whitespace)
}

/// The sections of `messages`, separated by blank lines.
pub open spec fn conversation_prompt(messages: Seq<AiChatMessage>) -> Seq<char>
    decreases messages.len(),
{
    if messages.len() == 0 {
        Seq::empty()
    } else if messages.len() == 1 {
        prompt_section(messages[0])
    } else {
        conversation_prompt(messages.drop_last()) + "\n\n"@ + prompt_section(messages.last())
    }
}

/// Renders a chat as one prompt for providers that take a single text: for
/// each message its role in capitals, a colon and its content without the
/// whitespace at its ends.
pub fn build_conversation_prompt(messages: &Vec<AiChatMessage>) -> (prompt: String)
    ensures
        prompt@ == conversation_prompt(messages@),
{
    let mut prompt = String::new();
    let mut i: usize = 0;
    while i < messages.len()
        invariant
            i <= messages.len(),
            prompt@ == conversation_prompt(messages@.take(i as int)),
        decreases messages.len() - i,
    {
        let message = &messages[i];
        proof {
            assert(messages@.take(i + 1).drop_last() == messages@.take(i as int));
        }
        if i > 0 {
            prompt.append("\n\n");
        }
        let upper = message.role.as_str().to_uppercase();
        prompt.append(upper.as_str());
        prompt.append(": ");
        let chars = chars_of(message.content.as_str());
        let (a, b) = trim_range(&chars, 0, chars.len(), Trim::Whitespace);
        push_chars(&mut prompt, &chars, a, b);
        proof {
            assert(chars@.subrange(0, chars@.len() as int) == chars@);
        }
        i += 1;
    }
    assert(messages@.take(messages@.len() as int) == messages@);
    prompt
}

} // verus!
