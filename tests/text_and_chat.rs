use side_hustler::chat::{DEFAULT_MODEL, DEFAULT_SYSTEM_PROMPT};
use side_hustler::{
    build_chat_request, first_choice_text, truncate, ChatChoice, ChatCompletionResponse,
    ChatMessage, MessageRole, RichLog, SimpleLog, TransformRequest,
};

#[test]
fn truncate_keeps_short_text() {
    assert_eq!(truncate("hello", 5), "hello");
    assert_eq!(truncate("hello", 10), "hello");
    assert_eq!(truncate("", 0), "");
}

#[test]
fn truncate_cuts_long_text() {
    assert_eq!(truncate("hello world", 5), "hello...");
    assert_eq!(truncate("abc", 0), "...");
}

#[test]
fn truncate_counts_characters_not_bytes() {
    assert_eq!(truncate("héllo wörld", 7), "héllo w...");
    assert_eq!(truncate("ééé", 3), "ééé");
    assert_eq!(truncate("éééé", 2), "éé...");
}

#[test]
fn request_uses_defaults() {
    let req = build_chat_request(TransformRequest { text: "make this nicer".to_string() }, None, None);
    assert_eq!(req.messages.len(), 2);
    assert_eq!(req.messages[0].role, MessageRole::System);
    assert_eq!(req.messages[0].content, DEFAULT_SYSTEM_PROMPT);
    assert!(req.messages[0].name.is_none());
    assert_eq!(req.messages[1].role, MessageRole::User);
    assert_eq!(req.messages[1].content, "make this nicer");
    assert_eq!(req.model, "gpt-4.1-nano-2025-04-14");
    assert_eq!(req.model, DEFAULT_MODEL);
    assert_eq!(req.temperature_hundredths, Some(70));
    assert_eq!(req.max_tokens, Some(1024));
    assert!(!req.stream);
}

#[test]
fn request_uses_given_model_and_prompt() {
    let req = build_chat_request(
        TransformRequest { text: "text".to_string() },
        Some("llama3".to_string()),
        Some("Be brief.".to_string()),
    );
    assert_eq!(req.model, "llama3");
    assert_eq!(req.messages[0].content, "Be brief.");
    assert_eq!(req.messages[1].content, "text");
}

fn answer(text: &str) -> ChatChoice {
    ChatChoice {
        message: ChatMessage { role: MessageRole::Assistant, content: text.to_string(), name: None },
    }
}

#[test]
fn first_choice_is_returned() {
    let resp = ChatCompletionResponse { choices: vec![answer("first"), answer("second")] };
    assert_eq!(first_choice_text(&resp), "first");
}

#[test]
fn no_choice_gives_empty_text() {
    let resp = ChatCompletionResponse { choices: vec![] };
    assert_eq!(first_choice_text(&resp), "");
}

#[test]
fn log_records_keep_their_fields() {
    let s = SimpleLog::new("m".to_string(), "7".to_string(), "info".to_string(), "t".to_string());
    assert_eq!(s.message, "m");
    assert_eq!(s.id, Some("7".to_string()));
    assert_eq!(s.level, "info");
    assert_eq!(s.timestamp, "t");
    let r = RichLog::new("m".to_string(), "d".to_string(), "warn".to_string(), "t".to_string());
    assert_eq!(r.data, "d");
    assert_eq!(r.level, "warn");
}
