//! Disposable typed target-gateway protocol.

/// Framing and validation.
pub mod protocol;
