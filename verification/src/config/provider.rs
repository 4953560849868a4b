//! LLM provider settings and their presets.

use vstd::prelude::*;
use crate::text::{owned_strings, to_owned, views};

verus! {

/// The kind of an LLM provider.
#[derive(Debug, Clone, Copy, PartialEq, Eq, Structural)]
pub enum ProviderType {
    OpenAi,
    Google,
    Ollama,
    OpenRouter,
    Kimi,
    InceptionLabs,
    Custom,
}

/// How to reach a provider and which models it offers.
#[derive(Debug, Clone)]
pub struct ProviderConfig {
    pub provider_type: ProviderType,
    /// API base URL.
    pub base_url: String,
    pub api_key: Option<String>,
    pub default_model: String,
    /// Models the provider offers.
    pub models: Vec<String>,
    pub timeout_secs: u64,
}

/// The settings of a provider preset.
pub open spec fn is_preset(
    c: ProviderConfig,
    t: ProviderType,
    url: Seq<char>,
    key: Option<Seq<char>>,
    model: Seq<char>,
    models: Seq<Seq<char>>,
) -> bool {
    &&& c.provider_type == t
    &&& c.base_url@ == url
    &&& match c.api_key {
        Some(k) => key == Some(k@),
        None => key is None,
    }
    &&& c.default_model@ == model
    &&& views(c.models@) == models
    &&& c.timeout_secs == 120
}

fn preset(
    t: ProviderType,
    url: &str,
    key: Option<String>,
    model: &str,
    models: &Vec<&str>,
) -> (r: ProviderConfig)
    ensures
        is_preset(r, t, url@, match key {
            Some(k) => Some(k@),
            None => None,
        }, model@, crate::text::str_views(models@)),
{
    ProviderConfig {
        provider_type: t,
        base_url: to_owned(url),
        api_key: key,
        default_model: to_owned(model),
        models: owned_strings(models),
        timeout_secs: 120,
    }
}

impl ProviderConfig {
    /// OpenAI with the given key.
    pub fn openai(api_key: String) -> (r: Self)
        ensures
            is_preset(r, ProviderType::OpenAi, "https://api.openai.com/v1"@, Some(api_key@),
                "gpt-4o-mini"@, seq!["gpt-4o"@, "gpt-4o-mini"@, "gpt-3.5-turbo"@]),
    {
        let models = vec!["gpt-4o", "gpt-4o-mini", "gpt-3.5-turbo"];
        let r = preset(ProviderType::OpenAi, "https://api.openai.com/v1", Some(api_key), "gpt-4o-mini", &models);
        assert(crate::text::str_views(models@) =~= seq!["gpt-4o"@, "gpt-4o-mini"@, "gpt-3.5-turbo"@]);
        r
    }

    /// A local Ollama server, without key.
    pub fn ollama() -> (r: Self)
        ensures
            is_preset(r, ProviderType::Ollama, "http://localhost:11434/v1"@, None, "llama3.2"@,
                seq!["llama3.2"@, "llama3.1"@, "mistral"@]),
    {
        let models = vec!["llama3.2", "llama3.1", "mistral"];
        let r = preset(ProviderType::Ollama, "http://localhost:11434/v1", None, "llama3.2", &models);
        assert(crate::text::str_views(models@) =~= seq!["llama3.2"@, "llama3.1"@, "mistral"@]);
        r
    }

    /// Google Gemini with the given key.
    pub fn gemini(api_key: String) -> (r: Self)
        ensures
            is_preset(r, ProviderType::Google, "https://generativelanguage.googleapis.com"@,
                Some(api_key@), "gemini-1.5-flash"@, seq!["gemini-1.5-flash"@,
                "gemini-1.5-flash-8b"@, "gemini-1.5-pro"@]),
    {
        let models = vec!["gemini-1.5-flash", "gemini-1.5-flash-8b", "gemini-1.5-pro"];
        let r = preset(
            ProviderType::Google,
            "https://generativelanguage.googleapis.com",
            Some(api_key),
            "gemini-1.5-flash",
            &models,
        );
        assert(crate::text::str_views(models@) =~= seq!["gemini-1.5-flash"@,
            "gemini-1.5-flash-8b"@, "gemini-1.5-pro"@]);
        r
    }

    /// Inception Labs with the given key.
    pub fn inception(api_key: String) -> (r: Self)
        ensures
            is_preset(r, ProviderType::InceptionLabs, "https://api.inceptionlabs.ai/v1"@,
                Some(api_key@), "mercury-2"@, seq!["mercury-2"@]),
    {
        let models = vec!["mercury-2"];
        let r = preset(
            ProviderType::InceptionLabs,
            "https://api.inceptionlabs.ai/v1",
            Some(api_key),
            "mercury-2",
            &models,
        );
        assert(crate::text::str_views(models@) =~= seq!["mercury-2"@]);
        r
    }
}

} // verus!
