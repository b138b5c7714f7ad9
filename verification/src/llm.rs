//! Optional LLM post-processing of a transcript: when to ask the service,
//! what to ask, and what to make of its reply.

use vstd::prelude::*;
use vstd::string::*;
use crate::config::LlmConfig;
use crate::json::{JsonValue, as_text, get_field, get_item, is_success_status, json_of, parse_json, success_status};
use crate::text::{has_prefix, str_starts_with};

verus! {

/// Instruction given to the model for Chinese, Japanese and Korean speech.
pub const CJK_SYSTEM_PROMPT: &'static str = "你是语音识别纠错助手。只修复明显的ASR识别错误（同音字、断句错误），绝对不能改写、润色、删减用户说的正确内容。如果没有明显错误，原样返回。";

/// Instruction given to the model for all other languages.
pub const LATIN_SYSTEM_PROMPT: &'static str = "You are a speech-recognition error-correction assistant. Only fix obvious ASR errors (homophones, mis-segmentation). Never rewrite, embellish, or remove correct content. Return the original text unchanged if there are no obvious errors.";

/// Largest reply, in tokens, asked of the model.
pub const MAX_REPLY_TOKENS: u32 = 1024;

/// The language code names Chinese, Japanese or Korean.
pub open spec fn is_cjk_language(language: Seq<char>) -> bool {
    has_prefix(language, "zh"@) || has_prefix(language, "ja"@) || has_prefix(language, "ko"@)
}

/// The instruction for `language`.
pub open spec fn prompt_for(language: Seq<char>) -> Seq<char> {
    if is_cjk_language(language) {
        CJK_SYSTEM_PROMPT@
    } else {
        LATIN_SYSTEM_PROMPT@
    }
}

/// The system prompt for the language of the speech.
pub fn system_prompt_for_language(language: &str) -> (p: &'static str)
    ensures
        p@ == prompt_for(language@),
{
    if str_starts_with(language, "zh") || str_starts_with(language, "ja") || str_starts_with(
        language,
        "ko",
    ) {
        CJK_SYSTEM_PROMPT
    } else {
        LATIN_SYSTEM_PROMPT
    }
}

/// A chat-completion request: a system message, then the user's text.
pub struct ChatRequest {
    pub endpoint: String,
    pub model: String,
    pub system_prompt: String,
    pub user_text: String,
    /// Sent as a bearer token when present.
    pub bearer_token: Option<String>,
    pub max_tokens: u32,
}

/// What refining a transcript takes.
pub enum RefinePlan {
    /// No service is asked; the transcript stands as it is.
    Unchanged(String),
    /// The service is asked.
    Send(ChatRequest),
}

/// Why a reply could not be used.
#[derive(Clone, Copy, Debug, PartialEq, Eq, Structural)]
pub enum RefineError {
    /// The reply of a successful call was not JSON.
    InvalidJson,
}

/// The text of `reply["choices"][0]["message"]["content"]`, if it is a string.
pub open spec fn chat_content(reply: JsonValue) -> Option<Seq<char>> {
    as_text(get_field(get_field(get_item(get_field(reply, "choices"@), 0), "message"@), "content"@))
}

/// The text that a reply yields: the text as dictated when the call failed or
/// the reply holds no content string.
pub open spec fn refined_text(
    text: Seq<char>,
    success: bool,
    reply: Option<JsonValue>,
) -> Result<Seq<char>, RefineError> {
    if !success {
        Ok(text)
    } else {
        match reply {
            None => Err(RefineError::InvalidJson),
            Some(v) => match chat_content(v) {
                Some(c) => Ok(c),
                None => Ok(text),
            },
        }
    }
}

/// Refines speech transcripts with a chat-completion service.
pub struct LlmRefiner;

impl LlmRefiner {
    pub fn new() -> (r: LlmRefiner) {
        LlmRefiner
    }

    /// Whether to ask the service about `text`, and what: nothing when
    /// refinement is off or no endpoint is set.
    pub fn plan(&self, text: &str, config: &LlmConfig, language: &str) -> (p: RefinePlan)
        ensures
            !config.enabled || config.endpoint@.len() == 0 ==> (p matches RefinePlan::Unchanged(
                t,
            ) && t@ == text@),
            config.enabled && config.endpoint@.len() > 0 ==> (p matches RefinePlan::Send(r) && {
                &&& r.endpoint@ == config.endpoint@
                &&& r.model@ == config.model@
                &&& r.system_prompt@ == prompt_for(language@)
                &&& r.user_text@ == text@
                &&& r.max_tokens == MAX_REPLY_TOKENS
                &&& (config.api_key@.len() == 0 ==> r.bearer_token is None)
                &&& (config.api_key@.len() > 0 ==> (r.bearer_token matches Some(b) && b@
                    == config.api_key@))
            }),
    {
        if !config.enabled || config.endpoint.as_str().is_empty() {
            return RefinePlan::Unchanged(String::from_str(text));
        }
        let bearer_token = if config.api_key.as_str().is_empty() {
            None
        } else {
            Some(config.api_key.clone())
        };
        RefinePlan::Send(
            ChatRequest {
                endpoint: config.endpoint.clone(),
                model: config.model.clone(),
                system_prompt: String::from_str(system_prompt_for_language(language)),
                user_text: String::from_str(text),
                bearer_token,
                max_tokens: MAX_REPLY_TOKENS,
            },
        )
    }

    /// The refined text from the service's answer: `status` is the reply's
    /// HTTP status and `body` its text.
    pub fn reply_text(&self, text: &str, status: u16, body: &str) -> (r: Result<String, RefineError>)
        ensures
            match (r, refined_text(text@, success_status(status), json_of(body@))) {
                (Ok(s), Ok(t)) => s@ == t,
                (Err(e), Err(f)) => e == f,
                _ => false,
            },
    {
        if !is_success_status(status) {
            return Ok(String::from_str(text));
        }
        self.reply_from_json(text, true, parse_json(body))
    }

    /// The refined text from the service's answer: `success` tells whether
    /// the call succeeded, `reply` holds its body read as JSON (`None` when
    /// it is not JSON).
    pub fn reply_from_json(&self, text: &str, success: bool, reply: Option<JsonValue>) -> (r: Result<
        String,
        RefineError,
    >)
        ensures
            match (r, refined_text(text@, success, reply)) {
                (Ok(s), Ok(t)) => s@ == t,
                (Err(e), Err(f)) => e == f,
                _ => false,
            },
    {
        if !success {
            return Ok(String::from_str(text));
        }
        match reply {
            None => Err(RefineError::InvalidJson),
            Some(v) => {
                let content = match v.field("choices") {
                    Some(choices) => match choices.item(0) {
                        Some(first) => match first.field("message") {
                            Some(message) => match message.field("content") {
                                Some(c) => c.as_str(),
                                None => None,
                            },
                            None => None,
                        },
                        None => None,
                    },
                    None => None,
                };
                match content {
                    Some(c) => Ok(c.clone()),
                    None => Ok(String::from_str(text)),
                }
            },
        }
    }
}

impl Default for LlmRefiner {
    fn default() -> (r: Self) {
        LlmRefiner::new()
    }
}

} // verus!
