//! The layered service configuration.
//!
//! Every value is optional and falls back to a built-in default at
//! construction of the service. Values are read from an on-disk file and
//! overridden by environment values; reading either is I/O and lives
//! outside the library. The precedence rule — a present value wins over
//! the fallback, an absent one defers to it — is verified here.

use vstd::prelude::*;

verus! {

/// The optional configuration of the completion service: base URL, model
/// id, API key, hosting-convention flag, API version and system-prompt
/// override.
pub struct Config {
    pub api_endpoint: Option<String>,
    pub model: Option<String>,
    pub api_key: Option<String>,
    pub is_azure: Option<bool>,
    pub api_version: Option<String>,
    pub prompt: Option<String>,
}

/// `primary` when present, else `fallback`.
pub open spec fn spec_layered<T>(primary: Option<T>, fallback: Option<T>) -> Option<T> {
    match primary {
        Some(v) => Some(v),
        None => fallback,
    }
}

impl Config {
    /// `self` with every absent field filled from `fallback`: the layering
    /// rule that puts one source (the environment) over another (the file).
    pub fn with_fallback(self, fallback: Config) -> (r: Config)
        ensures
            r.api_endpoint == spec_layered(self.api_endpoint, fallback.api_endpoint),
            r.model == spec_layered(self.model, fallback.model),
            r.api_key == spec_layered(self.api_key, fallback.api_key),
            r.is_azure == spec_layered(self.is_azure, fallback.is_azure),
            r.api_version == spec_layered(self.api_version, fallback.api_version),
            r.prompt == spec_layered(self.prompt, fallback.prompt),
    {
        Config {
            api_endpoint: match self.api_endpoint {
                Some(v) => Some(v),
                None => fallback.api_endpoint,
            },
            model: match self.model {
                Some(v) => Some(v),
                None => fallback.model,
            },
            api_key: match self.api_key {
                Some(v) => Some(v),
                None => fallback.api_key,
            },
            is_azure: match self.is_azure {
                Some(v) => Some(v),
                None => fallback.is_azure,
            },
            api_version: match self.api_version {
                Some(v) => Some(v),
                None => fallback.api_version,
            },
            prompt: match self.prompt {
                Some(v) => Some(v),
                None => fallback.prompt,
            },
        }
    }
}

impl Default for Config {
    /// The empty configuration: every value absent, so every fallback and
    /// built-in default applies.
    fn default() -> (c: Self)
        ensures
            c.api_endpoint is None,
            c.model is None,
            c.api_key is None,
            c.is_azure is None,
            c.api_version is None,
            c.prompt is None,
    {
        Config {
            api_endpoint: None,
            model: None,
            api_key: None,
            is_azure: None,
            api_version: None,
            prompt: None,
        }
    }
}

/// Law: layering is associative — filling from `b` and then from `c` gives
/// the same configuration as filling from `b` already filled from `c` —
/// and the empty configuration is its identity. So reading sources in
/// precedence order and folding them either way gives one result.
pub proof fn lemma_layering<T>(a: Option<T>, b: Option<T>, c: Option<T>)
    ensures
        spec_layered(spec_layered(a, b), c) == spec_layered(a, spec_layered(b, c)),
        spec_layered(a, None::<T>) == a,
        spec_layered(None::<T>, a) == a,
{
}

} // verus!
