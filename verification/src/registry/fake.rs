//! Registry entry of the fake provider.
use vstd::prelude::*;

use super::{keyless, CreateParams, ProviderEntry};
use crate::fake::FakeProvider;
use crate::text::opt_view;

verus! {

/// How the fake provider is known.
pub fn entry() -> (r: ProviderEntry)
    ensures
        keyless(
            r,
            "fake"@,
            seq!["splash"@, "mock"@, "counter"@],
            "splash-counter"@,
            seq!["splash-counter"@],
        ),
{
    let r = ProviderEntry {
        name: "fake",
        aliases: vec!["splash", "mock", "counter"],
        default_model: Some("splash-counter"),
        api_key_env: None,
        key_env_aliases: Vec::new(),
        default_base_url: None,
        requires_api_key: false,
        requires_base_url: false,
        requires_model: false,
        detect_patterns: vec!["splash-counter"],
    };
    assert(r.aliases@.map_values(|s: &'static str| s@) =~= seq!["splash"@, "mock"@, "counter"@]);
    assert(r.detect_patterns@.map_values(|s: &'static str| s@) =~= seq!["splash-counter"@]);
    r
}

/// Creates the fake provider.
pub fn create(params: CreateParams) -> (r: Result<FakeProvider, String>)
    ensures
        r is Ok,
        r->Ok_0.model() == match opt_view(params.model) {
            Some(id) => id,
            None => "splash-counter"@,
        },
{
    Ok(FakeProvider::new(params.model))
}

} // verus!
