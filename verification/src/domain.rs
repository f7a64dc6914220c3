//! Pure promotion and gate-admission contracts.

/// Promotion manifests.
pub mod promotion;
