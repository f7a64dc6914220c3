//! Language-model adapters that convert vendor responses into core contracts.

/// Shared credential and failure primitives.
pub mod api;
/// DeepSeek API adapter.
pub mod deepseek;
/// Google Gemini API adapter.
pub mod gemini;
/// OpenAI ChatGPT OAuth session handling.
pub mod openai;

pub use api::{ApiKey, ProviderFailure};
