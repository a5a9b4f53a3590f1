//! Agent configuration: compiled-in defaults overlaid with optional
//! environment-supplied values.

use vstd::prelude::*;

verus! {

/// Settings for the agent. Built once at startup and owned by the agent;
/// never changed afterwards.
pub struct Config {
    /// Agent name.
    pub name: String,
    /// LLM API endpoint, if one was supplied.
    pub api_endpoint: Option<String>,
    /// API key, if one was supplied.
    pub api_key: Option<String>,
    /// Model to use.
    pub model: String,
    /// Maximum tokens for responses.
    pub max_tokens: usize,
    /// Sampling temperature, in tenths: 7 stands for 0.7.
    pub temperature_tenths: u32,
}

impl Config {
    /// True when every compiled-in field holds its default value.
    pub open spec fn has_default_fields(self) -> bool {
        &&& self.name@ == "BobiBot"@
        &&& self.model@ == "gpt-4"@
        &&& self.max_tokens == 2048usize
        &&& self.temperature_tenths == 7u32
    }

    /// The defaults, with the two optional fields taken from the caller.
    /// The caller reads the corresponding environment variables
    /// (`LLM_API_ENDPOINT`, `LLM_API_KEY`) and hands in what it found.
    pub fn from_env_vars(api_endpoint: Option<String>, api_key: Option<String>) -> (c: Config)
        ensures
            c.has_default_fields(),
            c.api_endpoint == api_endpoint,
            c.api_key == api_key,
    {
        Config {
            name: String::from_str("BobiBot"),
            api_endpoint,
            api_key,
            model: String::from_str("gpt-4"),
            max_tokens: 2048,
            temperature_tenths: 7,
        }
    }
}

impl Default for Config {
    /// The compiled-in defaults alone, with no overrides.
    fn default() -> (c: Config)
        ensures
            c.has_default_fields(),
            c.api_endpoint is None,
            c.api_key is None,
    {
        Config::from_env_vars(None, None)
    }
}

} // verus!
