//! Deployment qualification contracts for external tools and providers.
//!
//! Qualification is intentionally fail-closed: runtime evidence must identify
//! the exact artifact and prove that self-update is disabled before a GCX
//! installation can be admitted by an operator.

use crate::text::trim;
use vstd::prelude::*;

verus! {

/// Evidence required to admit the reviewed GCX executable.
pub struct GcxQualification {
    /// SHA-256 digest of the pinned executable bytes.
    pub binary_sha256: String,
    /// Digest of the image or runtime that executes the binary.
    pub runtime_digest: String,
    /// Digest identifying the reviewed software bill of materials.
    pub sbom_digest: String,
    /// Whether the deployment disables GCX self-update behavior.
    pub self_update_disabled: bool,
}

impl GcxQualification {
    /// Returns true only when every required deployment proof is present.
    pub fn is_accepted(&self) -> (r: bool)
        ensures
            r == (!trim::is_blank(self.binary_sha256@) && !trim::is_blank(self.runtime_digest@)
                && !trim::is_blank(self.sbom_digest@) && self.self_update_disabled),
    {
        !trim::blank(self.binary_sha256.as_str()) && !trim::blank(self.runtime_digest.as_str())
            && !trim::blank(self.sbom_digest.as_str()) && self.self_update_disabled
    }
}

} // verus!
