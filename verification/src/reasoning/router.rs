//! Providers and their order.

use vstd::prelude::*;

verus! {

/// A reasoning provider.
#[derive(Debug, Clone, Copy, PartialEq, Eq, Structural)]
pub enum ProviderKind {
    /// OpenAI.
    OpenAi,
    /// Gemini.
    Gemini,
    /// DeepSeek.
    DeepSeek,
    /// The deterministic baseline.
    Deterministic,
}

/// The order in which providers are tried.
#[derive(Debug, Clone, PartialEq, Eq)]
pub struct ProviderOrder {
    /// Providers, first to last.
    pub providers: Vec<ProviderKind>,
}

/// The name of a provider.
pub open spec fn provider_name(provider: ProviderKind) -> Seq<char> {
    match provider {
        ProviderKind::OpenAi => "OpenAi"@,
        ProviderKind::Gemini => "Gemini"@,
        ProviderKind::DeepSeek => "DeepSeek"@,
        ProviderKind::Deterministic => "Deterministic"@,
    }
}

impl ProviderKind {
    /// The name of the provider.
    pub fn name(self) -> (r: String)
        ensures
            r@ == provider_name(self),
    {
        match self {
            ProviderKind::OpenAi => "OpenAi".to_owned(),
            ProviderKind::Gemini => "Gemini".to_owned(),
            ProviderKind::DeepSeek => "DeepSeek".to_owned(),
            ProviderKind::Deterministic => "Deterministic".to_owned(),
        }
    }
}

/// Each provider has its own name.
pub proof fn providers_have_their_own_names(a: ProviderKind, b: ProviderKind)
    ensures
        provider_name(ProviderKind::OpenAi) == "OpenAi"@,
        provider_name(ProviderKind::Gemini) == "Gemini"@,
        provider_name(ProviderKind::DeepSeek) == "DeepSeek"@,
        provider_name(ProviderKind::Deterministic) == "Deterministic"@,
        provider_name(a) == provider_name(b) ==> a == b,
{
    reveal_strlit("OpenAi");
    reveal_strlit("Gemini");
    reveal_strlit("DeepSeek");
    reveal_strlit("Deterministic");
    assert("OpenAi"@[0] == 'O' && "Gemini"@[0] == 'G' && "DeepSeek"@.len() == 8
        && "Deterministic"@.len() == 13);
}

} // verus!
