//! Model providers that can be chosen by name.
use vstd::prelude::*;

pub mod fake;
pub mod scenario;

verus! {

/// What a provider is created from.
pub struct CreateParams {
    pub model: Option<String>,
}

/// How a provider is known to the registry.
pub struct ProviderEntry {
    pub name: &'static str,
    pub aliases: Vec<&'static str>,
    pub default_model: Option<&'static str>,
    pub api_key_env: Option<&'static str>,
    pub key_env_aliases: Vec<&'static str>,
    pub default_base_url: Option<&'static str>,
    pub requires_api_key: bool,
    pub requires_base_url: bool,
    pub requires_model: bool,
    pub detect_patterns: Vec<&'static str>,
}

/// The entry of a provider that needs no key, no address and no model name.
pub open spec fn keyless(
    entry: ProviderEntry,
    name: Seq<char>,
    aliases: Seq<Seq<char>>,
    default_model: Seq<char>,
    detect_patterns: Seq<Seq<char>>,
) -> bool {
    &&& entry.name@ == name
    &&& entry.aliases@.map_values(|s: &'static str| s@) == aliases
    &&& entry.default_model matches Some(model) && model@ == default_model
    &&& entry.api_key_env is None
    &&& entry.key_env_aliases@.len() == 0
    &&& entry.default_base_url is None
    &&& !entry.requires_api_key
    &&& !entry.requires_base_url
    &&& !entry.requires_model
    &&& entry.detect_patterns@.map_values(|s: &'static str| s@) == detect_patterns
}

} // verus!
