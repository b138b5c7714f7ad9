use typeless::config::SpeechApiConfig;
use typeless::json::JsonValue;
use typeless::recognition::{
    provider_kind, MockProvider, MockStream, OpenAiHttpProvider, ProviderKind, RecognitionError,
    WebSocketProvider, WsIncoming, WsStep, EN_TRANSCRIPT, WS_END_MESSAGE, ZH_TRANSCRIPT,
};

fn speech_config(provider: &str, language: &str, api_key: &str) -> SpeechApiConfig {
    SpeechApiConfig {
        provider: provider.to_string(),
        endpoint: "https://example.test/v1/audio/transcriptions".to_string(),
        api_key: api_key.to_string(),
        model: "whisper-1".to_string(),
        language: language.to_string(),
    }
}

fn text(s: &str) -> JsonValue {
    JsonValue::Text(s.to_string())
}

fn object(members: Vec<(&str, JsonValue)>) -> JsonValue {
    JsonValue::Object(members.into_iter().map(|(k, v)| (k.to_string(), v)).collect())
}

#[test]
fn mock_stream_produces_full_text() {
    let mut stream = MockStream::new(ZH_TRANSCRIPT);
    while stream.poll_transcript().is_some() {}
    let result = stream.finish().unwrap();
    assert_eq!(result, ZH_TRANSCRIPT);
}

#[test]
fn provider_does_not_support_streaming() {
    let p = OpenAiHttpProvider;
    assert!(!p.supports_streaming());
}

#[test]
fn mock_stream_polls_growing_prefixes() {
    let mut stream = MockStream::new("abcdefg");
    assert_eq!(stream.poll_transcript(), Some("ab".to_string()));
    assert_eq!(stream.poll_transcript(), Some("abcd".to_string()));
    assert_eq!(stream.poll_transcript(), Some("abcdef".to_string()));
    assert_eq!(stream.poll_transcript(), Some("abcdefg".to_string()));
    assert_eq!(stream.poll_transcript(), None);
    assert_eq!(stream.finish().unwrap(), "abcdefg");
}

#[test]
fn mock_stream_splits_in_thirds() {
    let mut stream = MockStream::new("abcdefghi");
    assert_eq!(stream.poll_transcript(), Some("abc".to_string()));
    assert_eq!(stream.poll_transcript(), Some("abcdef".to_string()));
    assert_eq!(stream.poll_transcript(), Some("abcdefghi".to_string()));
    assert_eq!(stream.poll_transcript(), None);
}

#[test]
fn mock_stream_of_unicode_text() {
    let mut stream = MockStream::new("语音转录");
    assert_eq!(stream.poll_transcript(), Some("语".to_string()));
    assert_eq!(stream.finish().unwrap(), "语音转录");
}

#[test]
fn mock_stream_of_empty_text() {
    let mut stream = MockStream::new("");
    assert_eq!(stream.poll_transcript(), None);
    assert_eq!(stream.finish().unwrap(), "");
}

#[test]
fn mock_provider_picks_transcript_by_language() {
    let p = MockProvider;
    assert_eq!(
        p.transcribe_full(vec![1, 2, 3], &speech_config("mock", "zh-TW", "")).unwrap(),
        ZH_TRANSCRIPT
    );
    assert_eq!(
        p.transcribe_full(Vec::new(), &speech_config("mock", "en", "")).unwrap(),
        EN_TRANSCRIPT
    );
    assert!(p.supports_streaming());
    let mut stream = p.start_stream(&speech_config("mock", "ja", "")).unwrap();
    while stream.poll_transcript().is_some() {}
    assert_eq!(stream.finish().unwrap(), EN_TRANSCRIPT);
}

#[test]
fn provider_names_select_back_ends() {
    assert_eq!(provider_kind(&speech_config("openai_http", "zh", "")), ProviderKind::OpenAiHttp);
    assert_eq!(provider_kind(&speech_config("websocket", "zh", "")), ProviderKind::WebSocket);
    assert_eq!(provider_kind(&speech_config("mock", "zh", "")), ProviderKind::Mock);
    assert_eq!(provider_kind(&speech_config("whatever", "zh", "")), ProviderKind::Mock);
}

#[test]
fn whisper_form_fields() {
    let p = OpenAiHttpProvider;
    let form = p.request_form(&speech_config("openai_http", "zh", "sk-test"));
    assert_eq!(form.file_name, "audio.wav");
    assert_eq!(form.mime_type, "audio/wav");
    assert_eq!(form.response_format, "json");
    assert_eq!(form.model, "whisper-1");
    assert_eq!(form.language, "zh");
    assert_eq!(form.bearer_token, Some("sk-test".to_string()));
    let form = p.request_form(&speech_config("openai_http", "zh", ""));
    assert_eq!(form.bearer_token, None);
}

#[test]
fn whisper_reply_outcomes() {
    let p = OpenAiHttpProvider;
    let ok = object(vec![("text", text("hello there"))]);
    assert_eq!(p.transcription_from_json(true, 200, "{}".to_string(), Some(ok)), Ok("hello there".to_string()));
    assert_eq!(
        p.transcription_from_json(false, 401, "denied".to_string(), None),
        Err(RecognitionError::Api { status: 401, body: "denied".to_string() })
    );
    assert_eq!(p.transcription_from_json(true, 200, "oops".to_string(), None), Err(RecognitionError::InvalidJson));
    let no_text = object(vec![("text", JsonValue::Number("3".to_string()))]);
    assert_eq!(p.transcription_from_json(true, 200, String::new(), Some(no_text)), Err(RecognitionError::MissingText));
    assert_eq!(
        p.transcription_from_json(true, 200, String::new(), Some(JsonValue::Array(Vec::new()))),
        Err(RecognitionError::MissingText)
    );
}

#[test]
fn whisper_reply_bodies() {
    let p = OpenAiHttpProvider;
    assert_eq!(p.transcription(200, r#"{"text": "hello there", "x": 1}"#.to_string()), Ok("hello there".to_string()));
    assert_eq!(
        p.transcription(404, "not here".to_string()),
        Err(RecognitionError::Api { status: 404, body: "not here".to_string() })
    );
    assert_eq!(
        p.transcription(199, "{}".to_string()),
        Err(RecognitionError::Api { status: 199, body: "{}".to_string() })
    );
    assert_eq!(p.transcription(299, "not json".to_string()), Err(RecognitionError::InvalidJson));
    assert_eq!(p.transcription(200, r#"{"text": 7}"#.to_string()), Err(RecognitionError::MissingText));
    assert_eq!(p.transcription(200, "[]".to_string()), Err(RecognitionError::MissingText));
}

#[test]
fn websocket_text_frames() {
    let p = WebSocketProvider;
    assert_eq!(
        p.on_frame(WsIncoming::Text(r#"{"type":"final","text":"done text"}"#.to_string())),
        WsStep::Done("done text".to_string())
    );
    assert_eq!(
        p.on_frame(WsIncoming::Text(r#"{"text":"do","type":"partial"}"#.to_string())),
        WsStep::Continue
    );
    assert_eq!(p.on_frame(WsIncoming::Text(r#"{"type":"final"}"#.to_string())), WsStep::Done(String::new()));
    assert_eq!(p.on_frame(WsIncoming::Text("garbage".to_string())), WsStep::Continue);
}

#[test]
fn websocket_frames() {
    let p = WebSocketProvider;
    assert!(p.supports_streaming());
    assert_eq!(WS_END_MESSAGE, "{\"type\":\"end\"}");
    let fin = object(vec![("type", text("final")), ("text", text("done text"))]);
    assert_eq!(p.on_text(Some(fin)), WsStep::Done("done text".to_string()));
    let partial = object(vec![("type", text("partial")), ("text", text("do"))]);
    assert_eq!(p.on_text(Some(partial)), WsStep::Continue);
    let fin_without_text = object(vec![("type", text("final"))]);
    assert_eq!(p.on_text(Some(fin_without_text)), WsStep::Done(String::new()));
    assert_eq!(p.on_text(None), WsStep::Continue);
    assert_eq!(p.on_frame(WsIncoming::Close), WsStep::Done(String::new()));
    assert_eq!(p.on_frame(WsIncoming::Other), WsStep::Continue);
}

#[test]
fn openai_provider_refuses_streaming() {
    let p = OpenAiHttpProvider;
    assert_eq!(p.start_stream(&speech_config("openai_http", "en", "")), RecognitionError::StreamingUnsupported);
}
