use typeless::config::LlmConfig;
use typeless::json::{field_text, is_success_status, parse_json, JsonValue};
use typeless::llm::{
    system_prompt_for_language, LlmRefiner, RefineError, RefinePlan, CJK_SYSTEM_PROMPT,
    LATIN_SYSTEM_PROMPT, MAX_REPLY_TOKENS,
};

fn llm_config(enabled: bool, endpoint: &str, api_key: &str) -> LlmConfig {
    LlmConfig {
        enabled,
        endpoint: endpoint.to_string(),
        api_key: api_key.to_string(),
        model: "gpt-4o-mini".to_string(),
    }
}

fn text(s: &str) -> JsonValue {
    JsonValue::Text(s.to_string())
}

fn object(members: Vec<(&str, JsonValue)>) -> JsonValue {
    JsonValue::Object(members.into_iter().map(|(k, v)| (k.to_string(), v)).collect())
}

fn chat_reply(content: JsonValue) -> JsonValue {
    object(vec![(
        "choices",
        JsonValue::Array(vec![object(vec![("message", object(vec![("role", text("assistant")), ("content", content)]))])]),
    )])
}

#[test]
fn prompts_by_language() {
    assert_eq!(system_prompt_for_language("zh-CN"), CJK_SYSTEM_PROMPT);
    assert_eq!(system_prompt_for_language("ja"), CJK_SYSTEM_PROMPT);
    assert_eq!(system_prompt_for_language("ko-KR"), CJK_SYSTEM_PROMPT);
    assert_eq!(system_prompt_for_language("en"), LATIN_SYSTEM_PROMPT);
    assert_eq!(system_prompt_for_language(""), LATIN_SYSTEM_PROMPT);
    assert_eq!(system_prompt_for_language("z"), LATIN_SYSTEM_PROMPT);
    assert!(CJK_SYSTEM_PROMPT.starts_with("你是语音识别纠错助手。只修复"));
    assert!(LATIN_SYSTEM_PROMPT.starts_with("You are a speech-recognition error-correction assistant. Only fix"));
}

#[test]
fn disabled_refiner_keeps_text() {
    let r = LlmRefiner::new();
    match r.plan("raw text", &llm_config(false, "https://x.test", "k"), "en") {
        RefinePlan::Unchanged(t) => assert_eq!(t, "raw text"),
        RefinePlan::Send(_) => panic!("no request expected"),
    }
    match r.plan("raw text", &llm_config(true, "", "k"), "en") {
        RefinePlan::Unchanged(t) => assert_eq!(t, "raw text"),
        RefinePlan::Send(_) => panic!("no request expected"),
    }
}

#[test]
fn enabled_refiner_builds_request() {
    let r = LlmRefiner::new();
    match r.plan("你好", &llm_config(true, "https://x.test/chat", "sk-1"), "zh") {
        RefinePlan::Send(req) => {
            assert_eq!(req.endpoint, "https://x.test/chat");
            assert_eq!(req.model, "gpt-4o-mini");
            assert_eq!(req.system_prompt, CJK_SYSTEM_PROMPT);
            assert_eq!(req.user_text, "你好");
            assert_eq!(req.bearer_token, Some("sk-1".to_string()));
            assert_eq!(req.max_tokens, MAX_REPLY_TOKENS);
        }
        RefinePlan::Unchanged(_) => panic!("request expected"),
    }
    match r.plan("hi", &llm_config(true, "https://x.test/chat", ""), "en") {
        RefinePlan::Send(req) => {
            assert_eq!(req.bearer_token, None);
            assert_eq!(req.system_prompt, LATIN_SYSTEM_PROMPT);
        }
        RefinePlan::Unchanged(_) => panic!("request expected"),
    }
}

#[test]
fn replies_are_read() {
    let r = LlmRefiner::new();
    assert_eq!(r.reply_from_json("orig", true, Some(chat_reply(text("fixed")))), Ok("fixed".to_string()));
    assert_eq!(r.reply_from_json("orig", false, Some(chat_reply(text("fixed")))), Ok("orig".to_string()));
    assert_eq!(r.reply_from_json("orig", false, None), Ok("orig".to_string()));
    assert_eq!(r.reply_from_json("orig", true, None), Err(RefineError::InvalidJson));
    assert_eq!(r.reply_from_json("orig", true, Some(chat_reply(JsonValue::Null))), Ok("orig".to_string()));
    assert_eq!(r.reply_from_json("orig", true, Some(object(vec![]))), Ok("orig".to_string()));
    assert_eq!(
        r.reply_from_json("orig", true, Some(object(vec![("choices", JsonValue::Array(vec![]))]))),
        Ok("orig".to_string())
    );
}

#[test]
fn reply_bodies_are_read() {
    let r = LlmRefiner::new();
    let body = r#"{"choices":[{"index":0,"message":{"role":"assistant","content":"fixed 文本"}}]}"#;
    assert_eq!(r.reply_text("orig", 200, body), Ok("fixed 文本".to_string()));
    assert_eq!(r.reply_text("orig", 500, body), Ok("orig".to_string()));
    assert_eq!(r.reply_text("orig", 302, "not json"), Ok("orig".to_string()));
    assert_eq!(r.reply_text("orig", 201, "not json"), Err(RefineError::InvalidJson));
    assert_eq!(r.reply_text("orig", 200, r#"{"choices":[]}"#), Ok("orig".to_string()));
    assert_eq!(r.reply_text("orig", 200, r#"{"choices":[{"message":{"content":null}}]}"#), Ok("orig".to_string()));
}

#[test]
fn json_parse_and_status() {
    assert!(parse_json("nope").is_none());
    let v = parse_json(r#"{"b": [1, "two"], "a": 2.5}"#).unwrap();
    assert_eq!(v.field("b").and_then(|x| x.item(1)).and_then(|x| x.as_str()).map(|s| s.as_str()), Some("two"));
    match v.field("a") {
        Some(JsonValue::Number(n)) => assert_eq!(n, "2.5"),
        other => panic!("unexpected {:?}", other),
    }
    assert!(is_success_status(200));
    assert!(is_success_status(299));
    assert!(!is_success_status(199));
    assert!(!is_success_status(300));
}

#[test]
fn json_lookups() {
    let v = object(vec![("a", text("x")), ("b", JsonValue::Bool(true))]);
    assert_eq!(field_text(&v, "a"), Some("x".to_string()));
    assert_eq!(field_text(&v, "b"), None);
    assert_eq!(field_text(&v, "c"), None);
    assert!(v.field("c").is_none());
    assert!(v.item(0).is_none());
    let arr = JsonValue::Array(vec![text("p"), text("q")]);
    assert_eq!(arr.item(1).and_then(|x| x.as_str()).map(|s| s.as_str()), Some("q"));
    assert!(arr.item(2).is_none());
    assert!(arr.field("a").is_none());
}
