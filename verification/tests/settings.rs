use typeless::config::{
    bool_true, default_endpoint, default_hotkey, default_language, default_llm_model,
    default_max_history, default_model, default_provider, default_speech_language, AppSettings,
    DictionaryConfig, LlmConfig, Platform, SpeechApiConfig,
};
use typeless::injection::{KeyStroke, PasteKey, TextInjector};
use typeless::languages::get_supported_languages;

#[test]
fn default_values() {
    assert_eq!(default_language(), "zh-CN");
    assert_eq!(default_hotkey(Platform::MacOs), "RightCtrl");
    assert_eq!(default_hotkey(Platform::Other), "F13");
    assert_eq!(default_endpoint(), "https://api.openai.com/v1/audio/transcriptions");
    assert_eq!(default_model(), "whisper-1");
    assert_eq!(default_speech_language(), "zh");
    assert_eq!(default_provider(), "mock");
    assert_eq!(default_llm_model(), "gpt-4o-mini");
    assert_eq!(default_max_history(), 100);
    assert!(bool_true());
}

#[test]
fn default_sections() {
    let s = SpeechApiConfig::default();
    assert_eq!(s.provider, "mock");
    assert_eq!(s.api_key, "");
    assert_eq!(s.language, "zh");
    let l = LlmConfig::default();
    assert!(!l.enabled);
    assert_eq!(l.endpoint, "https://api.openai.com/v1/chat/completions");
    assert_eq!(l.model, "gpt-4o-mini");
    let d = DictionaryConfig::default();
    assert!(d.tech_vocab_enabled);
    assert!(d.user_vocab.is_empty());
    assert_eq!(d.max_history, 100);
    let a = AppSettings::default_for(Platform::Other);
    assert_eq!(a.language, "zh-CN");
    assert_eq!(a.hotkey, "F13");
    assert_eq!(a.speech_api.model, "whisper-1");
    assert_eq!(AppSettings::default_for(Platform::MacOs).hotkey, "RightCtrl");
}

#[test]
fn supported_languages_list() {
    let langs = get_supported_languages();
    let pairs: Vec<(String, String)> =
        langs.into_iter().map(|l| (l.code, l.label)).collect();
    assert_eq!(
        pairs,
        vec![
            ("zh-CN".to_string(), "中文 (简体)".to_string()),
            ("zh-TW".to_string(), "中文 (繁體)".to_string()),
            ("en".to_string(), "English".to_string()),
            ("ja".to_string(), "日本語".to_string()),
            ("ko".to_string(), "한국어".to_string()),
        ]
    );
}

#[test]
fn paste_shortcut_per_platform() {
    let t = TextInjector::new();
    assert_eq!(
        t.paste_keystrokes(Platform::Other),
        vec![
            KeyStroke { key: PasteKey::ControlLeft, press: true },
            KeyStroke { key: PasteKey::KeyV, press: true },
            KeyStroke { key: PasteKey::KeyV, press: false },
            KeyStroke { key: PasteKey::ControlLeft, press: false },
        ]
    );
    assert_eq!(t.paste_keystrokes(Platform::MacOs)[0], KeyStroke { key: PasteKey::MetaLeft, press: true });
    assert_eq!(t.paste_keystrokes(Platform::MacOs)[3], KeyStroke { key: PasteKey::MetaLeft, press: false });
}

#[test]
fn clipboard_restore() {
    let t = TextInjector::new();
    assert_eq!(t.restored_clipboard(Some("before".to_string())), "before");
    assert_eq!(t.restored_clipboard(None), "");
}
