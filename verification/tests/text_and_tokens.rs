use inkos_core::agents::{build_conversation_prompt, normalise_messages, normalise_role, AiChatMessage};
use inkos_core::decimal::decimal_string;
use inkos_core::errors::{EngineError, InkOsError};
use inkos_core::excerpts::{extract_keywords, select_conversation_excerpts};
use inkos_core::hashing::hash_strings;
use inkos_core::records::{Fraction, MessageRecord};
use inkos_core::summarizer::{context_limit_from_tags, threshold};
use inkos_core::text::{chars_of, contains_chars, join_texts, split_words, str_eq};
use inkos_core::tokens::{approx_tokens, context_window, parse_context_tag, token_estimate};

fn message(conversation: &str, role: &str, body: &str, at: i64) -> MessageRecord {
    MessageRecord {
        id: format!("m-{at}"),
        conversation_id: conversation.to_string(),
        role: role.to_string(),
        body: body.to_string(),
        token_est: Some(token_estimate(body)),
        created_at: at,
        quality_flags: None,
    }
}

#[test]
fn approx_tokens_scales_with_length() {
    assert!(approx_tokens("short") > 0);
    assert!(approx_tokens(&"word".repeat(40)) > approx_tokens("hello"));
}

#[test]
fn parse_context_tag_handles_suffixes() {
    assert_eq!(parse_context_tag("ctx-4096"), Some(4096));
    assert_eq!(parse_context_tag("ctx-8k"), Some(8000));
    assert_eq!(parse_context_tag("other"), None);
}

#[test]
fn approx_tokens_exact_values() {
    // A quarter of the characters, rounded up.
    assert_eq!(approx_tokens(&"a".repeat(200)), 50);
    assert_eq!(approx_tokens(&"a".repeat(201)), 51);
    // Eleven tenths of the words, rounded up, where that is more.
    assert_eq!(approx_tokens("a b c d e f g h i j"), 11);
    assert_eq!(approx_tokens("a b c"), 4);
    // Never less than one.
    assert_eq!(approx_tokens(""), 1);
    assert_eq!(approx_tokens("   "), 1);
    assert_eq!(approx_tokens("short"), 2);
    assert_eq!(token_estimate("hello world"), 3);
}

#[test]
fn approx_tokens_counts_characters_not_bytes() {
    assert_eq!(approx_tokens("éééééééé"), 2);
}

#[test]
fn parse_context_tag_edge_cases() {
    assert_eq!(parse_context_tag("ctx-"), None);
    assert_eq!(parse_context_tag("ctx-k"), None);
    assert_eq!(parse_context_tag("ctx-+512"), Some(512));
    assert_eq!(parse_context_tag("ctx-12abc"), None);
    assert_eq!(parse_context_tag("ctx-1.5k"), Some(15_000));
    assert_eq!(parse_context_tag("ctx-32k"), Some(32_000));
    assert_eq!(parse_context_tag("CTX-8k"), None);
    assert_eq!(parse_context_tag("ctx-0"), Some(0));
    assert_eq!(parse_context_tag("ctx-99999999999999999999999999"), None);
    assert_eq!(parse_context_tag("ctx-99999999999999999999k"), None);
}

#[test]
fn context_window_prefers_tags_then_name_then_default() {
    let tags = vec!["chat".to_string(), "ctx-16k".to_string(), "ctx-8k".to_string()];
    assert_eq!(context_window(&tags, "some-32k-model"), 16_000);
    let none: Vec<String> = vec!["chat".to_string()];
    assert_eq!(context_window(&none, "GPT-32K-turbo"), 32_000);
    assert_eq!(context_window(&none, "gpt-4"), 4096);
    assert_eq!(context_limit_from_tags(&Vec::new(), "missing", "plain"), 4096);
}

#[test]
fn thresholds_round_down() {
    assert_eq!(threshold(4096, Fraction { millionths: 900_000 }), 3686);
    assert_eq!(threshold(4096, Fraction { millionths: 750_000 }), 3072);
    assert_eq!(threshold(0, Fraction { millionths: 900_000 }), 0);
    assert_eq!(threshold(usize::MAX, Fraction { millionths: u32::MAX }), i64::MAX);
}

#[test]
fn extract_keywords_folds_trims_and_skips_short_words() {
    let keywords = extract_keywords("Deploy the (Gateway), gateway! to prod -----  Ünïcödé");
    assert_eq!(keywords, vec!["deploy".to_string(), "gateway".to_string(), "ünïcödé".to_string()]);
    assert!(extract_keywords("a bb ccc dddd").is_empty());
    assert!(extract_keywords("").is_empty());
}

#[test]
fn select_excerpts_takes_tail_of_twelve() {
    let mut messages = Vec::new();
    for i in 0..15 {
        messages.push(message("c", "user", &format!("note {i}"), i));
    }
    let excerpts = select_conversation_excerpts(&messages, None);
    assert_eq!(excerpts.len(), 12);
    assert_eq!(excerpts[0], "user: note 3");
    assert_eq!(excerpts[11], "user: note 14");
}

#[test]
fn select_excerpts_recalls_earlier_messages_by_keyword() {
    let mut messages = Vec::new();
    messages.push(message("c", "user", "The DEPLOYMENT failed twice", 0));
    messages.push(message("c", "assistant", "unrelated", 1));
    messages.push(message("c", "user", "deployment again", 2));
    for i in 3..15 {
        messages.push(message("c", "user", &format!("filler {i}"), i));
    }
    let excerpts = select_conversation_excerpts(&messages, Some(("user", "what about deployment?")));
    // The recalled messages, the latest first, then the pending one, then the tail.
    assert_eq!(excerpts.len(), 2 + 1 + 12);
    assert_eq!(excerpts[0], "user: deployment again");
    assert_eq!(excerpts[1], "user: The DEPLOYMENT failed twice");
    assert_eq!(excerpts[2], "user: what about deployment?");
    assert_eq!(excerpts[3], "user: filler 3");
}

#[test]
fn select_excerpts_of_empty_conversation_is_empty() {
    let messages: Vec<MessageRecord> = Vec::new();
    assert!(select_conversation_excerpts(&messages, None).is_empty());
    let pending = select_conversation_excerpts(&messages, Some(("user", "hello there")));
    assert_eq!(pending, vec!["user: hello there".to_string()]);
}

#[test]
fn hash_strings_is_sha256_of_the_concatenation() {
    let empty: Vec<String> = Vec::new();
    assert_eq!(
        hash_strings(&empty),
        "e3b0c44298fc1c149afbf4c8996fb92427ae41e4649b934ca495991b7852b855"
    );
    let hello = vec!["hello ".to_string(), "world".to_string()];
    assert_eq!(
        hash_strings(&hello),
        "b94d27b9934d3e08a52e52d7da7dabfac484efe37a5380ee9088f7ace2efcde9"
    );
    let one = vec!["hello world".to_string()];
    assert_eq!(hash_strings(&hello), hash_strings(&one));
    let swapped = vec!["world".to_string(), "hello ".to_string()];
    assert_ne!(hash_strings(&hello), hash_strings(&swapped));
}

#[test]
fn text_helpers_work_on_characters() {
    assert!(str_eq("naïve", "naïve"));
    assert!(!str_eq("naïve", "naive"));
    assert!(contains_chars(&chars_of("model-32k-v2"), &chars_of("32k")));
    assert!(!contains_chars(&chars_of("model"), &chars_of("32k")));
    assert!(contains_chars(&chars_of("abc"), &chars_of("")));
    let parts = vec!["a".to_string(), "b".to_string(), "c".to_string()];
    assert_eq!(join_texts(&parts, "\n\n"), "a\n\nb\n\nc");
    assert_eq!(join_texts(&Vec::new(), ", "), "");
}

#[test]
fn decimal_string_writes_integers() {
    assert_eq!(decimal_string(0), "0");
    assert_eq!(decimal_string(7), "7");
    assert_eq!(decimal_string(1234567890), "1234567890");
    assert_eq!(decimal_string(-42), "-42");
    assert_eq!(decimal_string(i64::MAX), "9223372036854775807");
    assert_eq!(decimal_string(i64::MIN), "-9223372036854775808");
}

#[test]
fn conversation_prompt_uppercases_roles_and_trims_contents() {
    let messages = vec![
        AiChatMessage { role: "system".into(), content: "  Be brief. \n".into() },
        AiChatMessage { role: "user".into(), content: "Hi".into() },
    ];
    assert_eq!(build_conversation_prompt(&messages), "SYSTEM: Be brief.\n\nUSER: Hi");
    assert_eq!(build_conversation_prompt(&Vec::new()), "");
}

#[test]
fn roles_are_normalised_to_three() {
    assert_eq!(normalise_role("System"), "system");
    assert_eq!(normalise_role("ASSISTANT"), "assistant");
    assert_eq!(normalise_role("tool"), "user");
    let messages = vec![AiChatMessage { role: "Tool".into(), content: "x".into() }];
    let normalised = normalise_messages(&messages);
    assert_eq!(normalised[0].role, "user");
    assert_eq!(normalised[0].content, "x");
}

#[test]
fn error_codes_and_explanations_are_stable() {
    assert_eq!(InkOsError::DbUnavailable.code(), "DB-1001");
    assert_eq!(InkOsError::NoteNotFound.code(), "NTE-1001");
    assert_eq!(InkOsError::Unknown.code(), "GEN-1000");
    assert_eq!(InkOsError::NoteNotFound.explain(), "No note exists for the requested ID.");
    assert_eq!(InkOsError::DbUnavailable.message(), "Database unavailable");
    assert_eq!(EngineError::NotFound.code(), "CTX-1404");
    assert_eq!(EngineError::AlreadyClosed.code(), "CTX-1409");
    assert_eq!(EngineError::NoProviderConfigured.code(), "AI-1001");
    assert_eq!(EngineError::GatewayFailure.code(), "AI-1002");
    assert_eq!(EngineError::StoreFailure.code(), "DB-1002");
    assert!(!EngineError::StoreFailure.explain().is_empty());
}

#[test]
fn whitespace_is_the_unicode_property() {
    let spaces = [
        '\u{9}', '\u{a}', '\u{b}', '\u{c}', '\u{d}', '\u{20}', '\u{85}', '\u{a0}', '\u{1680}',
        '\u{2000}', '\u{2001}', '\u{2002}', '\u{2003}', '\u{2004}', '\u{2005}', '\u{2006}',
        '\u{2007}', '\u{2008}', '\u{2009}', '\u{200a}', '\u{2028}', '\u{2029}', '\u{202f}',
        '\u{205f}', '\u{3000}',
    ];
    for space in spaces {
        assert_eq!(split_words(&vec!['a', space, 'b']), vec![(0, 1), (2, 3)], "{space:?}");
    }
    for other in ['\u{8}', '\u{e}', '\u{1f}', '\u{180e}', '\u{200b}', '\u{2060}', '\u{feff}', '_'] {
        assert_eq!(split_words(&vec!['a', other, 'b']), vec![(0, 3)], "{other:?}");
    }
    let mut count = 0;
    for code in 0..=0x10FFFFu32 {
        if let Some(c) = char::from_u32(code) {
            if split_words(&vec![c]).is_empty() {
                count += 1;
                assert!(spaces.contains(&c), "{c:?}");
            }
        }
    }
    assert_eq!(count, spaces.len());
}

#[test]
fn token_estimates_of_given_texts() {
    // Two words: 11 * 2 / 10 rounds up to 3, which is the larger estimate.
    assert_eq!(approx_tokens("a\u{a0}b"), 3);
    // One word of three characters where the separator is no whitespace.
    assert_eq!(approx_tokens("a\u{200b}b"), 2);
    assert_eq!(approx_tokens(" \u{3000}\t"), 1);
}
