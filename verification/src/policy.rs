//! Runtime policy for loading signed promotion manifests.

/// Gate admission.
pub mod promotion;
