//! Sections of `config.toml`. Every field has a sensible default.

use crate::text::{copy_string, owned};
use crate::transcription::openai::{OpenAiConfig, DEFAULT_BASE_URL, DEFAULT_MODEL};
use vstd::prelude::*;

verus! {

#[derive(Debug, Clone, PartialEq)]
pub struct AudioConfig {
    /// Sample rate sent to the API. 16 kHz mono is what speech models expect.
    pub sample_rate: u32,
}

impl Default for AudioConfig {
    fn default() -> (r: Self)
        ensures
            r.sample_rate == 16_000,
    {
        AudioConfig { sample_rate: 16_000 }
    }
}

#[derive(Debug, Clone, PartialEq)]
pub struct OpenAiSection {
    pub model: String,
    pub language: Option<String>,
    pub base_url: String,
    pub timeout_secs: u64,
    /// Lowest-priority key source. Prefer the OS credential store.
    pub api_key: Option<String>,
}

impl Default for OpenAiSection {
    fn default() -> (r: Self)
        ensures
            r.model@ == DEFAULT_MODEL@,
            r.language is None,
            r.base_url@ == DEFAULT_BASE_URL@,
            r.timeout_secs == 30,
            r.api_key is None,
    {
        OpenAiSection {
            model: owned(DEFAULT_MODEL),
            language: None,
            base_url: owned(DEFAULT_BASE_URL),
            timeout_secs: 30,
            api_key: None,
        }
    }
}

impl OpenAiSection {
    /// The provider settings this section asks for: its endpoint, model,
    /// language and timeout (the key is resolved separately).
    pub fn openai_config(&self) -> (r: OpenAiConfig)
        ensures
            r.base_url@ == self.base_url@,
            r.model@ == self.model@,
            r.language is Some <==> self.language is Some,
            self.language matches Some(l) ==> r.language matches Some(m) && m@ == l@,
            r.timeout_secs == self.timeout_secs,
    {
        OpenAiConfig {
            base_url: copy_string(&self.base_url),
            model: copy_string(&self.model),
            language: match &self.language {
                Some(l) => Some(copy_string(l)),
                None => None,
            },
            timeout_secs: self.timeout_secs,
        }
    }
}

} // verus!
