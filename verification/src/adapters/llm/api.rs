//! Shared credential and failure primitives for API-backed model adapters.
//!
//! Vendor response parsing remains in each adapter; only safe classifications
//! and redacted credentials are shared here.

use crate::reasoning::contracts::ContractError;
use vstd::prelude::*;

verus! {

/// Maximum provider response accepted by an adapter before normalization.
pub const MAX_RESPONSE_BYTES: usize = 1048576;

/// Standard timeout for one provider request, in seconds.
pub const REQUEST_TIMEOUT_SECONDS: u64 = 30;

/// An API key that never appears in diagnostics.
#[derive(Clone, PartialEq, Eq)]
pub struct ApiKey(String);

impl ApiKey {
    /// The secret.
    pub closed spec fn secret(self) -> Seq<char> {
        self.0@
    }

    /// Creates a key from deployment-projected secret material.
    pub fn new(value: &str) -> (r: Self)
        ensures
            r.secret() == value@,
    {
        ApiKey(value.to_owned())
    }

    /// Exposes the secret only to an adapter-owned request builder.
    pub fn value(&self) -> (r: &str)
        ensures
            r@ == self.secret(),
    {
        self.0.as_str()
    }

    /// What diagnostics show in place of the key, whatever the key is.
    pub fn redacted(&self) -> (r: String)
        ensures
            r@ == "ApiKey(<redacted>)"@,
    {
        "ApiKey(<redacted>)".to_owned()
    }
}

/// Safe classifications crossing from a provider adapter into core logic.
#[derive(Debug, Clone, Copy, PartialEq, Eq, Structural)]
pub enum ProviderFailure {
    /// The provider rejected credentials or the request was unauthorized.
    AuthenticationRequired,
    /// The provider limited the request rate or quota.
    RateLimited,
    /// The provider or transport was temporarily unavailable.
    TemporarilyUnavailable,
    /// The provider response did not match the expected typed contract.
    MalformedResponse,
}

/// Converts an HTTP status into a secret-safe provider classification.
pub fn classify_status(status: u16) -> (r: ProviderFailure)
    ensures
        r == (if status == 401 || status == 403 {
            ProviderFailure::AuthenticationRequired
        } else if status == 429 {
            ProviderFailure::RateLimited
        } else {
            ProviderFailure::TemporarilyUnavailable
        }),
{
    if status == 401 || status == 403 {
        ProviderFailure::AuthenticationRequired
    } else if status == 429 {
        ProviderFailure::RateLimited
    } else {
        ProviderFailure::TemporarilyUnavailable
    }
}

/// Every refused report is a malformed response.
pub fn contract_failure(error: &ContractError) -> (r: ProviderFailure)
    ensures
        r == ProviderFailure::MalformedResponse,
{
    match error {
        ContractError::MalformedProviderResponse => ProviderFailure::MalformedResponse,
        ContractError::UnknownEvidence(_) => ProviderFailure::MalformedResponse,
        ContractError::EmptySummary => ProviderFailure::MalformedResponse,
        ContractError::MissingEvidence => ProviderFailure::MalformedResponse,
    }
}

/// A response body under collection, never larger than the cap.
pub struct ResponseBody {
    bytes: Vec<u8>,
}

impl View for ResponseBody {
    type V = Seq<u8>;

    closed spec fn view(&self) -> Seq<u8> {
        self.bytes@
    }
}

impl ResponseBody {
    #[verifier::type_invariant]
    spec fn bounded(self) -> bool {
        self.bytes@.len() <= MAX_RESPONSE_BYTES
    }

    /// Starts a body, unless its announced length exceeds the cap.
    pub fn start(announced: Option<u64>) -> (r: Result<Self, ProviderFailure>)
        ensures
            match r {
                Ok(body) => (announced matches Some(length) ==> length <= MAX_RESPONSE_BYTES)
                    && body@ == Seq::<u8>::empty(),
                Err(error) => (announced matches Some(length) && length > MAX_RESPONSE_BYTES)
                    && error == ProviderFailure::MalformedResponse,
            },
    {
        match announced {
            Some(length) => {
                if length > MAX_RESPONSE_BYTES as u64 {
                    return Err(ProviderFailure::MalformedResponse);
                }
            },
            None => {},
        }
        let body = ResponseBody { bytes: Vec::new() };
        assert(body@ =~= Seq::<u8>::empty());
        Ok(body)
    }

    /// Takes the next chunk, unless the body would exceed the cap.
    pub fn take(self, chunk: &[u8]) -> (r: Result<Self, ProviderFailure>)
        ensures
            match r {
                Ok(body) => body@ == self@ + chunk@ && body@.len() <= MAX_RESPONSE_BYTES,
                Err(error) => self@.len() + chunk@.len() > MAX_RESPONSE_BYTES && error
                    == ProviderFailure::MalformedResponse,
            },
    {
        proof {
            use_type_invariant(&self);
        }
        if chunk.len() > MAX_RESPONSE_BYTES - self.bytes.len() {
            return Err(ProviderFailure::MalformedResponse);
        }
        let mut bytes = self.bytes;
        bytes.extend_from_slice(chunk);
        Ok(ResponseBody { bytes })
    }

    /// The whole body.
    pub fn finish(self) -> (r: Vec<u8>)
        ensures
            r@ == self@,
            r@.len() <= MAX_RESPONSE_BYTES,
    {
        proof {
            use_type_invariant(&self);
        }
        self.bytes
    }
}

/// How much of a response is taken, and how long it may take.
pub proof fn responses_are_bounded()
    ensures
        MAX_RESPONSE_BYTES == 1024 * 1024,
        REQUEST_TIMEOUT_SECONDS == 30,
{
}

} // verus!
