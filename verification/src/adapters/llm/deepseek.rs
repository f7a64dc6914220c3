//! DeepSeek transport and response normalization at the adapter boundary.

use super::api::{ApiKey, ProviderFailure};
use vstd::prelude::*;

verus! {

/// Where chat completions are requested.
pub const DEFAULT_ENDPOINT: &'static str = "https://api.deepseek.com/chat/completions";

/// Minimal DeepSeek client configuration; the key is never exposed in logs.
#[derive(Clone)]
pub struct DeepSeekClient {
    key: ApiKey,
    endpoint: String,
}

/// A parsed response: the text of each choice.
pub struct DeepSeekResponse {
    /// Choices, in order.
    pub choices: Vec<String>,
}

impl DeepSeekClient {
    /// The key.
    pub closed spec fn secret(self) -> Seq<char> {
        self.key.secret()
    }

    /// The configured endpoint.
    pub closed spec fn address(self) -> Seq<char> {
        self.endpoint@
    }

    /// Creates a client for the deployment-selected DeepSeek endpoint.
    pub fn new(api_key: &str) -> (r: Self)
        ensures
            r.secret() == api_key@,
            r.address() == "https://api.deepseek.com/chat/completions"@,
    {
        DeepSeekClient { key: ApiKey::new(api_key), endpoint: DEFAULT_ENDPOINT.to_owned() }
    }

    /// Returns the configured endpoint for the transport shell.
    pub fn endpoint(&self) -> (r: &str)
        ensures
            r@ == self.address(),
    {
        self.endpoint.as_str()
    }

    /// The key for the transport shell.
    pub fn key(&self) -> (r: &ApiKey)
        ensures
            r.secret() == self.secret(),
    {
        &self.key
    }

    /// The report text of a response: that of its first choice. A response that could not be
    /// parsed has none.
    pub fn normalize_report(&self, response: Option<DeepSeekResponse>) -> (r: Result<
        String,
        ProviderFailure,
    >)
        ensures
            match r {
                Ok(report) => response matches Some(envelope) && envelope.choices@.len() > 0
                    && report@ == envelope.choices@[0]@,
                Err(error) => (response matches Some(envelope) ==> envelope.choices@.len() == 0)
                    && error == ProviderFailure::MalformedResponse,
            },
    {
        match response {
            Some(envelope) => {
                if envelope.choices.len() == 0 {
                    Err(ProviderFailure::MalformedResponse)
                } else {
                    Ok(envelope.choices[0].clone())
                }
            },
            None => Err(ProviderFailure::MalformedResponse),
        }
    }
}

} // verus!
