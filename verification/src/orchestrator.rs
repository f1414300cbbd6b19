//! Preparing a call to a provider: which protocol it speaks, where it is
//! reached, and how the messages are laid out for it.

use vstd::prelude::*;
use crate::agents::{AiChatInput, AiChatMessage, AiRuntimeSelection};
use crate::records::Fraction;
use crate::text::{chars_of, contains_chars, contains_run, push_chars, str_eq};

verus! {

/// The temperature of a chat that names none: 0.2.
pub const DEFAULT_TEMPERATURE_MILLIONTHS: u32 = 200_000;

/// What is sent to a model when a chat holds nothing to send.
pub const EMPTY_CHAT_GREETING: &'static str = "Hello from InkOS";

/// The protocol that a provider speaks.
#[derive(Clone, Copy, Debug, PartialEq, Eq, Structural)]
pub enum ChatProtocol {
    /// The chat-completions protocol, with a bearer token.
    OpenAi,
    /// The chat-completions protocol, without a token.
    OpenAiCompatible,
    /// The messages protocol.
    Anthropic,
    /// The generate-content protocol.
    Gemini,
    /// The local chat protocol.
    Ollama,
}

/// Whether one of `tags` mentions `openai`.
pub open spec fn mentions_openai(tags: Seq<String>) -> bool {
    exists|i: int| 0 <= i < tags.len() && contains_run(#[trigger] tags[i]@, "openai"@)
}

/// The protocol of a provider, by its identifier; a local provider of any
/// other name speaks the chat-completions protocol where its tags say so.
pub open spec fn protocol_of(selection: AiRuntimeSelection) -> Option<ChatProtocol> {
    let id = selection.provider.id@;
    if id == "openai"@ {
        Some(ChatProtocol::OpenAi)
    } else if id == "anthropic"@ {
        Some(ChatProtocol::Anthropic)
    } else if id == "google"@ {
        Some(ChatProtocol::Gemini)
    } else if id == "ollama"@ {
        Some(ChatProtocol::Ollama)
    } else if id == "lmstudio"@ {
        Some(ChatProtocol::OpenAiCompatible)
    } else if selection.provider.kind@ == "local"@ && mentions_openai(
        selection.provider.capability_tags@,
    ) {
        Some(ChatProtocol::OpenAiCompatible)
    } else {
        None
    }
}

/// Whether a protocol needs the provider's secret.
pub open spec fn needs_secret(protocol: ChatProtocol) -> bool {
    protocol == ChatProtocol::OpenAi || protocol == ChatProtocol::Anthropic || protocol
        == ChatProtocol::Gemini
}

/// Why a provider cannot be called, if it cannot.
pub open spec fn call_refusal(selection: AiRuntimeSelection) -> Option<Seq<char>> {
    match protocol_of(selection) {
        None => Some("Unsupported AI provider: "@ + selection.provider.id@),
        Some(protocol) => if needs_secret(protocol) && selection.secret is None {
            Some(
                match protocol {
                    ChatProtocol::OpenAi => "OpenAI API key is not configured"@,
                    ChatProtocol::Anthropic => "Anthropic API key is not configured"@,
                    _ => "Gemini API key is not configured"@,
                },
            )
        } else {
            None
        },
    }
}

/// Looks for a tag that mentions `openai`.
fn has_openai_tag(tags: &Vec<String>) -> (found: bool)
    ensures
        found == mentions_openai(tags@),
{
    let needle = chars_of("openai");
    let mut i: usize = 0;
    while i < tags.len()
        invariant
            i <= tags.len(),
            needle@ == "openai"@,
            forall|j: int| 0 <= j < i ==> !contains_run(#[trigger] tags@[j]@, "openai"@),
        decreases tags.len() - i,
    {
        let tag = chars_of(tags[i].as_str());
        if contains_chars(&tag, &needle) {
            return true;
        }
        i += 1;
    }
    false
}

/// Decides how a provider is called: the protocol, or the reason why it
/// cannot be called.
pub fn chat_protocol(selection: &AiRuntimeSelection) -> (decision: Result<ChatProtocol, String>)
    ensures
        decision is Ok <==> call_refusal(*selection) is None,
        decision is Ok ==> Some(decision.unwrap()) == protocol_of(*selection),
        decision is Err ==> Some(decision->Err_0@) == call_refusal(*selection),
{
    let id = selection.provider.id.as_str();
    let keyless = selection.secret.is_none();
    if str_eq(id, "openai") {
        if keyless {
            Err("OpenAI API key is not configured".to_owned())
        } else {
            Ok(ChatProtocol::OpenAi)
        }
    } else if str_eq(id, "anthropic") {
        if keyless {
            Err("Anthropic API key is not configured".to_owned())
        } else {
            Ok(ChatProtocol::Anthropic)
        }
    } else if str_eq(id, "google") {
        if keyless {
            Err("Gemini API key is not configured".to_owned())
        } else {
            Ok(ChatProtocol::Gemini)
        }
    } else if str_eq(id, "ollama") {
        Ok(ChatProtocol::Ollama)
    } else if str_eq(id, "lmstudio") {
        Ok(ChatProtocol::OpenAiCompatible)
    } else if str_eq(selection.provider.kind.as_str(), "local") && has_openai_tag(
        &selection.provider.capability_tags,
    ) {
        Ok(ChatProtocol::OpenAiCompatible)
    } else {
        let mut message = "Unsupported AI provider: ".to_owned();
        message.append(id);
        Err(message)
    }
}

/// `s` without the slashes at its end.
pub open spec fn without_trailing_slashes(s: Seq<char>) -> Seq<char>
    decreases s.len(),
{
    if s.len() > 0 && s.last() == '/' {
        without_trailing_slashes(s.drop_last())
    } else {
        s
    }
}

/// Where a protocol is reached when the provider names no base URL.
pub open spec fn default_base(protocol: ChatProtocol) -> Seq<char> {
    match protocol {
        ChatProtocol::OpenAi => "https://api.openai.com"@,
        ChatProtocol::OpenAiCompatible => "https://api.openai.com"@,
        ChatProtocol::Anthropic => "https://api.anthropic.com"@,
        ChatProtocol::Gemini => "https://generativelanguage.googleapis.com/v1beta"@,
        ChatProtocol::Ollama => "http://127.0.0.1:11434"@,
    }
}

/// The base URL of a call, without the slashes at its end.
pub open spec fn base_of(protocol: ChatProtocol, selection: AiRuntimeSelection) -> Seq<char> {
    without_trailing_slashes(
        match selection.provider.base_url {
            Some(url) => url@,
            None => default_base(protocol),
        },
    )
}

/// The URL that a call is sent to.
pub open spec fn endpoint_of(protocol: ChatProtocol, selection: AiRuntimeSelection) -> Seq<char> {
    let base = base_of(protocol, selection);
    match protocol {
        ChatProtocol::OpenAi => base + "/v1/chat/completions"@,
        ChatProtocol::OpenAiCompatible => base + "/v1/chat/completions"@,
        ChatProtocol::Anthropic => base + "/v1/messages"@,
        ChatProtocol::Ollama => base + "/api/chat"@,
        ChatProtocol::Gemini => base + "/"@ + selection.model@ + ":generateContent?key="@ + (
        match selection.secret {
            Some(secret) => secret@,
            None => Seq::empty(),
        }),
    }
}

/// Appends `text` without the slashes at its end.
fn push_without_trailing_slashes(out: &mut String, text: &str)
    ensures
        final(out)@ == old(out)@ + without_trailing_slashes(text@),
{
    let chars = chars_of(text);
    let mut end: usize = chars.len();
    assert(chars@.subrange(0, end as int) == text@);
    while end > 0 && chars[end - 1] == '/'
        invariant
            end <= chars.len(),
            without_trailing_slashes(text@) == without_trailing_slashes(
                chars@.subrange(0, end as int),
            ),
        decreases end,
    {
        assert(chars@.subrange(0, end as int).drop_last() == chars@.subrange(0, end - 1));
        end -= 1;
    }
    push_chars(out, &chars, 0, end);
}

/// Builds the URL that a call is sent to.
pub fn endpoint(protocol: ChatProtocol, selection: &AiRuntimeSelection) -> (url: String)
    ensures
        url@ == endpoint_of(protocol, *selection),
{
    let mut url = String::new();
    match &selection.provider.base_url {
        Some(base) => push_without_trailing_slashes(&mut url, base.as_str()),
        None => {
            let base = match protocol {
                ChatProtocol::OpenAi => "https://api.openai.com",
                ChatProtocol::OpenAiCompatible => "https://api.openai.com",
                ChatProtocol::Anthropic => "https://api.anthropic.com",
                ChatProtocol::Gemini => "https://generativelanguage.googleapis.com/v1beta",
                ChatProtocol::Ollama => "http://127.0.0.1:11434",
            };
            push_without_trailing_slashes(&mut url, base);
        },
    }
    match protocol {
        ChatProtocol::OpenAi => url.append("/v1/chat/completions"),
        ChatProtocol::OpenAiCompatible => url.append("/v1/chat/completions"),
        ChatProtocol::Anthropic => url.append("/v1/messages"),
        ChatProtocol::Ollama => url.append("/api/chat"),
        ChatProtocol::Gemini => {
            url.append("/");
            url.append(selection.model.as_str());
            url.append(":generateContent?key=");
            match &selection.secret {
                Some(secret) => url.append(secret.as_str()),
                None => {},
            }
        },
    }
    url
}

/// The temperature of a chat: the one it names, else 0.2.
pub fn temperature(input: &AiChatInput) -> (value: Fraction)
    ensures
        value == (match input.temperature {
            Some(t) => t,
            None => Fraction { millionths: DEFAULT_TEMPERATURE_MILLIONTHS },
        }),
{
    match input.temperature {
        Some(t) => t,
        None => Fraction { millionths: DEFAULT_TEMPERATURE_MILLIONTHS },
    }
}

/// The system prompt of a chat for the messages protocol: the contents of
/// its system messages, separated by blank lines.
pub open spec fn system_prompt_of(messages: Seq<AiChatMessage>) -> Seq<char>
    decreases messages.len(),
{
    if messages.len() == 0 {
        Seq::empty()
    } else {
        let before = system_prompt_of(messages.drop_last());
        let last = messages.last();
        if last.role@ == "system"@ {
            if before.len() > 0 {
                before + "\n\n"@ + last.content@
            } else {
                last.content@
            }
        } else {
            before
        }
    }
}

/// Whether a message is a turn of the user or of the assistant.
pub open spec fn is_turn(message: AiChatMessage) -> bool {
    message.role@ == "assistant"@ || message.role@ == "user"@
}

/// The turns of a chat for the messages protocol: its user and assistant
/// messages, in order. Messages of any other role are left out.
pub open spec fn turns_of(messages: Seq<AiChatMessage>) -> Seq<AiChatMessage>
    decreases messages.len(),
{
    if messages.len() == 0 {
        Seq::empty()
    } else if is_turn(messages.last()) {
        turns_of(messages.drop_last()).push(messages.last())
    } else {
        turns_of(messages.drop_last())
    }
}

/// A chat laid out for the messages protocol.
#[derive(Debug)]
pub struct AnthropicChat {
    /// The system prompt; absent where the chat has no system message that
    /// says anything.
    pub system: Option<String>,
    /// The turns; never empty.
    pub turns: Vec<AiChatMessage>,
}

/// Whether `chat` lays `messages` out for the messages protocol. A chat
/// without turns is sent as one greeting of the user.
pub open spec fn is_anthropic_chat(chat: AnthropicChat, messages: Seq<AiChatMessage>) -> bool {
    &&& chat.system is Some <==> system_prompt_of(messages).len() > 0
    &&& chat.system is Some ==> chat.system.unwrap()@ == system_prompt_of(messages)
    &&& turns_of(messages).len() > 0 ==> chat.turns@ == turns_of(messages)
    &&& turns_of(messages).len() == 0 ==> {
        &&& chat.turns@.len() == 1
        &&& chat.turns@[0].role@ == "user"@
        &&& chat.turns@[0].content@ == EMPTY_CHAT_GREETING@
    }
}

/// Lays a chat out for the messages protocol.
pub fn anthropic_chat(messages: &Vec<AiChatMessage>) -> (chat: AnthropicChat)
    ensures
        is_anthropic_chat(chat, messages@),
{
    let mut system = String::new();
    let mut turns: Vec<AiChatMessage> = Vec::new();
    let mut i: usize = 0;
    while i < messages.len()
        invariant
            i <= messages.len(),
            system@ == system_prompt_of(messages@.take(i as int)),
            turns@ == turns_of(messages@.take(i as int)),
        decreases messages.len() - i,
    {
        let message = &messages[i];
        proof {
            assert(messages@.take(i + 1).drop_last() == messages@.take(i as int));
            reveal_strlit("system");
            reveal_strlit("assistant");
            reveal_strlit("user");
            assert("system"@.len() == 6 && "assistant"@.len() == 9 && "user"@.len() == 4);
        }
        let role = message.role.as_str();
        if str_eq(role, "system") {
            if system.as_str().unicode_len() > 0 {
                system.append("\n\n");
            }
            system.append(message.content.as_str());
        } else if str_eq(role, "assistant") || str_eq(role, "user") {
            turns.push(message.clone());
        }
        i += 1;
    }
    assert(messages@.take(messages@.len() as int) == messages@);
    if turns.len() == 0 {
        turns.push(AiChatMessage { role: "user".to_owned(), content: EMPTY_CHAT_GREETING.to_owned() });
    }
    let prompt = if system.as_str().unicode_len() > 0 {
        Some(system)
    } else {
        None
    };
    AnthropicChat { system: prompt, turns }
}

} // verus!
