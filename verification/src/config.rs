//! Application settings and their defaults.

use vstd::prelude::*;
use vstd::string::*;

verus! {

/// The operating system family, where a default depends on it.
#[derive(Clone, Copy, Debug, PartialEq, Eq, Structural)]
pub enum Platform {
    MacOs,
    Other,
}

/// Display language used when none is configured.
pub fn default_language() -> (s: String)
    ensures
        s@ == "zh-CN"@,
{
    String::from_str("zh-CN")
}

/// The default push-to-talk key name on `platform`.
pub open spec fn default_hotkey_name(platform: Platform) -> Seq<char> {
    match platform {
        Platform::MacOs => "RightCtrl"@,
        Platform::Other => "F13"@,
    }
}

/// Push-to-talk key used when none is configured: `RightCtrl` on macOS,
/// `F13` elsewhere.
pub fn default_hotkey(platform: Platform) -> (s: String)
    ensures
        s@ == default_hotkey_name(platform),
{
    match platform {
        Platform::MacOs => String::from_str("RightCtrl"),
        Platform::Other => String::from_str("F13"),
    }
}

/// Transcription endpoint used when none is configured.
pub fn default_endpoint() -> (s: String)
    ensures
        s@ == "https://api.openai.com/v1/audio/transcriptions"@,
{
    String::from_str("https://api.openai.com/v1/audio/transcriptions")
}

/// Transcription model used when none is configured.
pub fn default_model() -> (s: String)
    ensures
        s@ == "whisper-1"@,
{
    String::from_str("whisper-1")
}

/// Spoken language used when none is configured.
pub fn default_speech_language() -> (s: String)
    ensures
        s@ == "zh"@,
{
    String::from_str("zh")
}

/// Speech provider used when none is configured.
pub fn default_provider() -> (s: String)
    ensures
        s@ == "mock"@,
{
    String::from_str("mock")
}

/// Chat-completion model used when none is configured.
pub fn default_llm_model() -> (s: String)
    ensures
        s@ == "gpt-4o-mini"@,
{
    String::from_str("gpt-4o-mini")
}

/// Chat-completion endpoint of the default LLM settings.
pub fn default_llm_endpoint() -> (s: String)
    ensures
        s@ == "https://api.openai.com/v1/chat/completions"@,
{
    String::from_str("https://api.openai.com/v1/chat/completions")
}

/// Number of transcriptions kept in the history when none is configured.
pub fn default_max_history() -> (n: usize)
    ensures
        n == 100,
{
    100
}

/// The value `true`, the default of switches that start on.
pub fn bool_true() -> (b: bool)
    ensures
        b,
{
    true
}

/// Settings of the speech-recognition service.
#[derive(Clone, Debug)]
pub struct SpeechApiConfig {
    pub provider: String,
    pub endpoint: String,
    pub api_key: String,
    pub model: String,
    pub language: String,
}

impl Default for SpeechApiConfig {
    fn default() -> (c: Self)
        ensures
            c.provider@ == "mock"@,
            c.endpoint@ == "https://api.openai.com/v1/audio/transcriptions"@,
            c.api_key@ == Seq::<char>::empty(),
            c.model@ == "whisper-1"@,
            c.language@ == "zh"@,
    {
        SpeechApiConfig {
            provider: default_provider(),
            endpoint: default_endpoint(),
            api_key: String::new(),
            model: default_model(),
            language: default_speech_language(),
        }
    }
}

/// Settings of the optional LLM post-processing.
#[derive(Clone, Debug)]
pub struct LlmConfig {
    pub enabled: bool,
    pub endpoint: String,
    pub api_key: String,
    pub model: String,
}

impl Default for LlmConfig {
    fn default() -> (c: Self)
        ensures
            !c.enabled,
            c.endpoint@ == "https://api.openai.com/v1/chat/completions"@,
            c.api_key@ == Seq::<char>::empty(),
            c.model@ == "gpt-4o-mini"@,
    {
        LlmConfig {
            enabled: false,
            endpoint: default_llm_endpoint(),
            api_key: String::new(),
            model: default_llm_model(),
        }
    }
}

/// Settings of the vocabulary dictionary.
#[derive(Clone, Debug)]
pub struct DictionaryConfig {
    pub tech_vocab_enabled: bool,
    pub user_vocab: Vec<String>,
    pub max_history: usize,
}

impl Default for DictionaryConfig {
    fn default() -> (c: Self)
        ensures
            c.tech_vocab_enabled,
            c.user_vocab@.len() == 0,
            c.max_history == 100,
    {
        DictionaryConfig {
            tech_vocab_enabled: bool_true(),
            user_vocab: Vec::new(),
            max_history: default_max_history(),
        }
    }
}

/// All settings of the application.
#[derive(Clone, Debug)]
pub struct AppSettings {
    pub language: String,
    pub hotkey: String,
    pub speech_api: SpeechApiConfig,
    pub llm: LlmConfig,
    pub dictionary: DictionaryConfig,
}

impl AppSettings {
    /// The settings used on `platform` when no settings file exists.
    pub fn default_for(platform: Platform) -> (s: AppSettings)
        ensures
            s.language@ == "zh-CN"@,
            s.hotkey@ == default_hotkey_name(platform),
            s.speech_api.provider@ == "mock"@,
            s.speech_api.endpoint@ == "https://api.openai.com/v1/audio/transcriptions"@,
            s.speech_api.api_key@ == Seq::<char>::empty(),
            s.speech_api.model@ == "whisper-1"@,
            s.speech_api.language@ == "zh"@,
            !s.llm.enabled,
            s.llm.endpoint@ == "https://api.openai.com/v1/chat/completions"@,
            s.llm.api_key@ == Seq::<char>::empty(),
            s.llm.model@ == "gpt-4o-mini"@,
            s.dictionary.tech_vocab_enabled,
            s.dictionary.user_vocab@.len() == 0,
            s.dictionary.max_history == 100,
    {
        AppSettings {
            language: default_language(),
            hotkey: default_hotkey(platform),
            speech_api: SpeechApiConfig::default(),
            llm: LlmConfig::default(),
            dictionary: DictionaryConfig::default(),
        }
    }
}

} // verus!
