//! Gemini transport and response normalization at the adapter boundary.

use super::api::{ApiKey, ProviderFailure};
use vstd::prelude::*;

verus! {

/// Where content is generated.
pub const DEFAULT_ENDPOINT: &'static str =
    "https://generativelanguage.googleapis.com/v1beta/models/gemini-2.5-flash:generateContent";

/// Minimal Gemini client configuration; the key is never exposed in logs.
#[derive(Clone)]
pub struct GeminiClient {
    key: ApiKey,
    endpoint: String,
}

/// A parsed response: for each candidate, the text of each of its parts.
pub struct GeminiResponse {
    /// Candidates, in order.
    pub candidates: Vec<Vec<String>>,
}

/// The text of the first part of the first candidate.
pub open spec fn first_text(response: GeminiResponse) -> Option<Seq<char>> {
    if response.candidates@.len() > 0 && response.candidates@[0]@.len() > 0 {
        Some(response.candidates@[0]@[0]@)
    } else {
        None
    }
}

impl GeminiClient {
    /// The key.
    pub closed spec fn secret(self) -> Seq<char> {
        self.key.secret()
    }

    /// The configured endpoint.
    pub closed spec fn address(self) -> Seq<char> {
        self.endpoint@
    }

    /// Creates a client for the deployment-selected Gemini model endpoint.
    pub fn new(api_key: &str) -> (r: Self)
        ensures
            r.secret() == api_key@,
            r.address()
                == "https://generativelanguage.googleapis.com/v1beta/models/gemini-2.5-flash:generateContent"@,
    {
        GeminiClient { key: ApiKey::new(api_key), endpoint: DEFAULT_ENDPOINT.to_owned() }
    }

    /// Returns the configured endpoint for the transport shell.
    pub fn endpoint(&self) -> (r: &str)
        ensures
            r@ == self.address(),
    {
        self.endpoint.as_str()
    }

    /// The key for the transport shell.
    pub fn key(&self) -> (r: &ApiKey)
        ensures
            r.secret() == self.secret(),
    {
        &self.key
    }

    /// The report text of a response: the first part of its first candidate. A response that
    /// could not be parsed has none.
    pub fn normalize_report(&self, response: Option<GeminiResponse>) -> (r: Result<
        String,
        ProviderFailure,
    >)
        ensures
            match r {
                Ok(report) => response matches Some(envelope) && first_text(envelope) == Some(
                    report@,
                ),
                Err(error) => (response matches Some(envelope) ==> first_text(envelope) is None)
                    && error == ProviderFailure::MalformedResponse,
            },
    {
        match response {
            Some(envelope) => {
                if envelope.candidates.len() == 0 || envelope.candidates[0].len() == 0 {
                    Err(ProviderFailure::MalformedResponse)
                } else {
                    Ok(envelope.candidates[0][0].clone())
                }
            },
            None => Err(ProviderFailure::MalformedResponse),
        }
    }
}

/// The report is the first part of the first candidate.
pub proof fn reports_are_the_first_part_of_the_first_candidate(response: GeminiResponse)
    ensures
        first_text(response) is Some <==> response.candidates@.len() >= 1
            && response.candidates@[0]@.len() >= 1,
        first_text(response) matches Some(text) ==> text == response.candidates@[0]@[0]@,
{
}

} // verus!
