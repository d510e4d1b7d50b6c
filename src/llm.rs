//! What the optional stall analyzer is asked, where, and how its answer is
//! read. The network calls themselves are made by the program around the
//! library.
use vstd::prelude::*;
use crate::text::{contains_text, same_text, text_contains};

verus! {

/// The instruction placed before the pane text in every analysis request.
pub const ANALYSIS_PROMPT: &'static str = "分析以下tmux pane内容，判断opencode是否处于卡住状态：\n\n";

/// The model asked when none is configured.
pub const DEFAULT_MODEL: &'static str = "llama3.2";

/// The answer given when analysis is switched off.
pub const NO_ANALYSIS: &'static str = "无LLM分析";

/// A word in an analysis that confirms a stall.
pub const STUCK_WORD: &'static str = "卡住";

/// The same in English.
pub const STUCK_WORD_EN: &'static str = "stuck";

pub const OPENAI_URL: &'static str = "https://api.openai.com/v1/chat/completions";

pub const OPENROUTER_URL: &'static str = "https://openrouter.ai/api/v1/chat/completions";

#[derive(Debug, Clone)]
pub struct LlmRequest {
    pub model: String,
    pub prompt: String,
    pub stream: bool,
}

#[derive(Debug, Clone)]
pub struct LlmResponse {
    pub response: String,
}

/// The analyzer backends.
#[derive(Debug, Clone, Copy, PartialEq, Eq, Structural)]
pub enum LlmBackend {
    Ollama,
    OpenAi,
    OpenRouter,
    Disabled,
}

/// The backend a configured name selects; `None` for an unsupported name.
pub open spec fn backend_named(name: Seq<char>) -> Option<LlmBackend> {
    if name == "ollama"@ {
        Some(LlmBackend::Ollama)
    } else if name == "openai"@ {
        Some(LlmBackend::OpenAi)
    } else if name == "openrouter"@ {
        Some(LlmBackend::OpenRouter)
    } else if name == "none"@ {
        Some(LlmBackend::Disabled)
    } else {
        None
    }
}

/// The HTTP endpoint of a backend reached by a plain JSON post.
pub open spec fn endpoint_of(b: LlmBackend) -> Option<Seq<char>> {
    match b {
        LlmBackend::OpenAi => Some(OPENAI_URL@),
        LlmBackend::OpenRouter => Some(OPENROUTER_URL@),
        _ => None,
    }
}

impl LlmBackend {
    pub fn endpoint(&self) -> (r: Option<&'static str>)
        ensures
            match r {
                Some(u) => endpoint_of(*self) == Some(u@),
                None => endpoint_of(*self) is None,
            },
    {
        match self {
            LlmBackend::OpenAi => Some(OPENAI_URL),
            LlmBackend::OpenRouter => Some(OPENROUTER_URL),
            _ => None,
        }
    }
}

pub struct LlmClient {
    pub backend: String,
    pub model: String,
}

impl LlmClient {
    pub fn new(backend: &str, model: &str) -> (r: LlmClient)
        ensures
            r.backend@ == backend@,
            r.model@ == model@,
    {
        LlmClient { backend: backend.to_owned(), model: model.to_owned() }
    }

    /// The backend this client's name selects, if it is supported.
    pub fn backend_kind(&self) -> (r: Option<LlmBackend>)
        ensures
            r == backend_named(self.backend@),
    {
        let name = self.backend.as_str();
        if same_text(name, "ollama") {
            Some(LlmBackend::Ollama)
        } else if same_text(name, "openai") {
            Some(LlmBackend::OpenAi)
        } else if same_text(name, "openrouter") {
            Some(LlmBackend::OpenRouter)
        } else if same_text(name, "none") {
            Some(LlmBackend::Disabled)
        } else {
            None
        }
    }

    /// The request asking this client's model about `content`.
    pub fn build_request(&self, content: &str) -> (r: LlmRequest)
        ensures
            r.model@ == self.model@,
            r.prompt@ == ANALYSIS_PROMPT@ + content@,
            !r.stream,
    {
        let mut prompt = String::from_str(ANALYSIS_PROMPT);
        prompt.append(content);
        LlmRequest { model: self.model.clone(), prompt, stream: false }
    }
}

/// The analysis says the worker is stuck, in either language.
pub open spec fn mentions_stuck(t: Seq<char>) -> bool {
    text_contains(t, STUCK_WORD@) || text_contains(t, STUCK_WORD_EN@)
}

/// The analysis says the worker is not stuck.
pub open spec fn denies_stuck(t: Seq<char>) -> bool {
    ||| text_contains(t, "没有卡住"@)
    ||| text_contains(t, "没卡住"@)
    ||| text_contains(t, "未卡住"@)
    ||| text_contains(t, "不是卡住"@)
    ||| text_contains(t, "not stuck"@)
    ||| text_contains(t, "not actually stuck"@)
    ||| text_contains(t, "n't stuck"@)
}

/// Whether an analysis confirms that the worker is stuck: it says so, and
/// does not say that the worker is not stuck.
pub fn analysis_confirms_stuck(analysis: &str) -> (r: bool)
    ensures
        r == (mentions_stuck(analysis@) && !denies_stuck(analysis@)),
{
    let mentions = contains_text(analysis, STUCK_WORD) || contains_text(analysis, STUCK_WORD_EN);
    let denies = contains_text(analysis, "没有卡住") || contains_text(analysis, "没卡住") || contains_text(
        analysis,
        "未卡住",
    ) || contains_text(analysis, "不是卡住") || contains_text(analysis, "not stuck") || contains_text(
        analysis,
        "not actually stuck",
    ) || contains_text(analysis, "n't stuck");
    mentions && !denies
}

} // verus!
