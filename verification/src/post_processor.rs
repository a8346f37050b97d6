//! LLM post-processing of speech-recognition text.

use vstd::prelude::*;
use vstd::string::*;

use crate::protocol::{
    result_from_text, RecognitionResult, RecognitionResultView, SOURCE_ASR, SOURCE_LLM,
};
use crate::text::{ends_with, ends_with_char, trim, trim_ws};

verus! {

/// Settings of the LLM provider.
#[derive(Debug, Clone)]
pub struct LlmConfig {
    /// API endpoint URL.
    pub endpoint: Option<String>,
    /// API key.
    pub api_key: Option<String>,
    /// Model name.
    pub model: Option<String>,
    /// Upper bound on generated tokens.
    pub max_tokens: Option<u32>,
    /// Sampling temperature, held as the IEEE-754 bit pattern of an `f32`.
    pub temperature_bits: Option<u32>,
}

/// Mathematical model of an [`LlmConfig`].
pub struct LlmConfigView {
    pub endpoint: Option<Seq<char>>,
    pub api_key: Option<Seq<char>>,
    pub model: Option<Seq<char>>,
    pub max_tokens: Option<u32>,
    pub temperature_bits: Option<u32>,
}

/// The character sequence held by an optional string.
pub open spec fn opt_str_view(o: Option<String>) -> Option<Seq<char>> {
    match o {
        Some(s) => Some(s@),
        None => None,
    }
}

impl View for LlmConfig {
    type V = LlmConfigView;

    open spec fn view(&self) -> LlmConfigView {
        LlmConfigView {
            endpoint: opt_str_view(self.endpoint),
            api_key: opt_str_view(self.api_key),
            model: opt_str_view(self.model),
            max_tokens: self.max_tokens,
            temperature_bits: self.temperature_bits,
        }
    }
}

/// Bit pattern of the `f32` value `0.7`, the default sampling temperature.
pub const DEFAULT_TEMPERATURE_BITS: u32 = 0x3F33_3333;

/// The default provider settings: nothing configured, 100 tokens, temperature 0.7.
pub open spec fn default_llm_config() -> LlmConfigView {
    LlmConfigView {
        endpoint: None,
        api_key: None,
        model: None,
        max_tokens: Some(100u32),
        temperature_bits: Some(DEFAULT_TEMPERATURE_BITS),
    }
}

impl Default for LlmConfig {
    fn default() -> (r: LlmConfig)
        ensures
            r@ == default_llm_config(),
    {
        LlmConfig {
            endpoint: None,
            api_key: None,
            model: None,
            max_tokens: Some(100),
            temperature_bits: Some(DEFAULT_TEMPERATURE_BITS),
        }
    }
}

/// Settings of one usage scene.
#[derive(Debug, Clone)]
pub struct SceneConfig {
    /// Scene identifier.
    pub id: String,
    /// Prompt text.
    pub prompt: Option<String>,
    /// Number of candidates to produce.
    pub candidate_count: Option<u32>,
    /// Identifier of the LLM provider to use.
    pub provider_id: Option<String>,
}

/// Whether a provider configuration is usable: it names both an endpoint and a key.
pub open spec fn config_is_usable(c: LlmConfigView) -> bool {
    c.endpoint is Some && c.api_key is Some
}

/// The LLM post-processor.
#[derive(Clone)]
pub struct PostProcessor {
    config: LlmConfig,
    configured: bool,
}

/// Mathematical model of a [`PostProcessor`].
pub struct PostProcessorView {
    pub config: LlmConfigView,
    pub configured: bool,
}

impl View for PostProcessor {
    type V = PostProcessorView;

    closed spec fn view(&self) -> PostProcessorView {
        PostProcessorView { config: self.config@, configured: self.configured }
    }
}

/// Whether `t` ends in one of the sentence terminators the post-processor recognises.
pub open spec fn ends_with_terminator(t: Seq<char>) -> bool {
    ||| ends_with_char(t, '。')
    ||| ends_with_char(t, '！')
    ||| ends_with_char(t, '？')
    ||| ends_with_char(t, '.')
    ||| ends_with_char(t, '!')
    ||| ends_with_char(t, '?')
}

/// The punctuation pass: trims the text, keeps it if it is empty or already ends
/// a sentence, and appends a full stop otherwise.
pub open spec fn punctuate(text: Seq<char>) -> Seq<char> {
    let t = trim_ws(text);
    if t.len() == 0 {
        Seq::empty()
    } else if ends_with_terminator(t) {
        t
    } else {
        t.push('。')
    }
}

/// What processing `text` in plain mode gives.
pub open spec fn process_result(p: PostProcessorView, text: Seq<char>) -> RecognitionResultView {
    if !p.configured {
        result_from_text(text, SOURCE_ASR@)
    } else {
        result_from_text(punctuate(text), SOURCE_LLM@)
    }
}

/// What processing a command `asr_text` in command mode gives.
pub open spec fn process_command_result(
    p: PostProcessorView,
    asr_text: Seq<char>,
) -> RecognitionResultView {
    if !p.configured {
        result_from_text(asr_text, SOURCE_ASR@)
    } else {
        result_from_text(asr_text, SOURCE_LLM@)
    }
}

impl PostProcessor {
    /// Well-formedness: `configured` records whether the configuration is usable.
    pub closed spec fn wf(&self) -> bool {
        self.configured == config_is_usable(self.config@)
    }

    /// Creates a post-processor with the default configuration.
    pub fn new() -> (r: PostProcessor)
        ensures
            r.wf(),
            r@.config == default_llm_config(),
            !r@.configured,
    {
        PostProcessor { config: LlmConfig::default(), configured: false }
    }

    /// Creates a post-processor with the given configuration.
    pub fn with_config(config: LlmConfig) -> (r: PostProcessor)
        ensures
            r.wf(),
            r@.config == config@,
            r@.configured == config_is_usable(config@),
    {
        let configured = config.endpoint.is_some() && config.api_key.is_some();
        PostProcessor { config, configured }
    }

    /// Whether an LLM is configured.
    pub fn is_configured(&self) -> (r: bool)
        ensures
            r == self@.configured,
    {
        self.configured
    }

    /// Replaces the configuration.
    pub fn update_config(&mut self, config: LlmConfig)
        ensures
            final(self).wf(),
            final(self)@.config == config@,
            final(self)@.configured == config_is_usable(config@),
    {
        self.configured = config.endpoint.is_some() && config.api_key.is_some();
        self.config = config;
    }

    /// Post-processes recognised text (punctuation, correction).
    pub fn process(&self, text: &str) -> (r: Result<RecognitionResult, String>)
        ensures
            r matches Ok(res) && res@ == process_result(self@, text@),
    {
        if !self.configured {
            return Ok(RecognitionResult::from_text(text.to_owned(), SOURCE_ASR));
        }
        let processed_text = self.simulate_process(text);
        Ok(RecognitionResult::from_text(processed_text, SOURCE_LLM))
    }

    /// Post-processes a voice command spoken over the selected text.
    pub fn process_command(&self, asr_text: &str, selected_text: &str) -> (r: Result<
        RecognitionResult,
        String,
    >)
        ensures
            r matches Ok(res) && res@ == process_command_result(self@, asr_text@),
    {
        if !self.configured {
            return Ok(RecognitionResult::from_text(asr_text.to_owned(), SOURCE_ASR));
        }
        let processed_text = self.simulate_command_process(asr_text, selected_text);
        Ok(RecognitionResult::from_text(processed_text, SOURCE_LLM))
    }

    /// The punctuation pass of plain mode.
    fn simulate_process(&self, text: &str) -> (r: String)
        ensures
            r@ == punctuate(text@),
    {
        let trimmed = trim(text);
        if trimmed.is_empty() {
            return String::new();
        }
        if ends_with(trimmed, '。') || ends_with(trimmed, '！') || ends_with(trimmed, '？')
            || ends_with(trimmed, '.') || ends_with(trimmed, '!') || ends_with(trimmed, '?') {
            return trimmed.to_owned();
        }
        let mut out = trimmed.to_owned();
        out.append("。");
        proof {
            reveal_strlit("。");
            assert(out@ =~= trimmed@.push('。'));
        }
        out
    }

    /// The command pass: the spoken text is taken as the result.
    fn simulate_command_process(&self, asr_text: &str, _selected_text: &str) -> (r: String)
        ensures
            r@ == asr_text@,
    {
        asr_text.to_owned()
    }
}

impl Default for PostProcessor {
    fn default() -> (r: PostProcessor)
        ensures
            r.wf(),
            r@.config == default_llm_config(),
            !r@.configured,
    {
        PostProcessor::new()
    }
}

} // verus!
