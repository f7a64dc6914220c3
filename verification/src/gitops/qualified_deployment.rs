//! Assesses bounded post-deployment health evidence without asserting its authenticity.
//!
//! Passing this pure check is necessary, not sufficient, for qualification. The
//! ingestion boundary must independently establish protected completion provenance,
//! deployed commit/image identity, and durable storage before producing a repair.

use super::receipt::ReceiptWire;
use vstd::prelude::*;

verus! {

/// A currently eligible receipt loaded from the authoritative journal database.
/// It grants no GitHub or runtime authority.
pub struct QualifiedDeployment {
    wire: ReceiptWire,
}

impl QualifiedDeployment {
    /// The receipt that was qualified.
    pub closed spec fn receipt(self) -> ReceiptWire {
        self.wire
    }

    /// Takes a receipt that durable storage has qualified.
    pub fn from_receipt(wire: ReceiptWire) -> (r: Self)
        ensures
            r.receipt() == wire,
    {
        QualifiedDeployment { wire }
    }

    /// Immutable image from the protected, durably qualified receipt.
    pub fn image(&self) -> (r: &str)
        ensures
            r@ == self.receipt().image@,
    {
        self.wire.image.as_str()
    }

    /// Commit actually observed by the trusted deployment producer.
    pub fn commit(&self) -> (r: &str)
        ensures
            r@ == self.receipt().commit@,
    {
        self.wire.commit.as_str()
    }

    /// Identity of the protected completion event.
    pub fn deployment_id(&self) -> (r: &str)
        ensures
            r@ == self.receipt().deployment_id@,
    {
        self.wire.deployment_id.as_str()
    }

    /// Content identity of qualification inputs, including health and policy.
    pub fn receipt_digest(&self) -> (r: String)
        ensures
            r@ == self.receipt().identity(),
            crate::digest::is_digest(r@),
    {
        self.wire.digest()
    }
}

/// Deployment-owned thresholds declared before collecting the evidence window.
#[derive(Debug, Clone, Copy, PartialEq, Eq, Structural)]
pub struct ObservationPolicy {
    /// Required duration after completion, in seconds (60 through 86400).
    pub window_seconds: u64,
    /// Maximum gap between observations, including the initial gap (1 through window duration).
    pub max_gap_seconds: u64,
    /// Maximum age of the completed observation window (1 through 604800 seconds).
    pub max_age_seconds: u64,
}

/// A paired observation for the exact same deployment identity.
#[derive(Debug, Clone, Copy, PartialEq, Eq, Structural)]
pub struct HealthSample {
    /// Unix second at which both checks were observed; joining identities is owned by ingestion.
    pub observed_at: u64,
    /// Strict Gatus success, not missing data or an aggregate success fraction.
    pub gatus_healthy: bool,
    /// Strict Prometheus success, not missing data or a model interpretation.
    pub prometheus_healthy: bool,
}

/// Reasons to retain recommendation-only behavior.
#[derive(Debug, Clone, Copy, PartialEq, Eq, Structural)]
pub enum QualificationError {
    /// Invalid limits or time arithmetic cannot define an evidence window.
    InvalidPolicy,
    /// Evidence is missing, unhealthy, unordered, outside the window, or insufficiently dense.
    IncompleteHealth,
    /// The observation window has not completed or is no longer current.
    NotCurrent,
}

impl ObservationPolicy {
    /// Limits within their documented ranges.
    pub open spec fn in_range(self) -> bool {
        &&& 60 <= self.window_seconds <= 86400
        &&& 1 <= self.max_gap_seconds <= self.window_seconds
        &&& 1 <= self.max_age_seconds <= 604800
    }
}

/// When the previous observation before sample `i` was made; completion stands before the first.
pub open spec fn previous_at(completed_at: u64, samples: Seq<HealthSample>, i: int) -> u64 {
    if i == 0 {
        completed_at
    } else {
        samples[i - 1].observed_at
    }
}

/// Sample `i` is healthy, later than the one before it by at most the gap, and not too late.
pub open spec fn sample_counts(
    policy: ObservationPolicy,
    completed_at: u64,
    now: u64,
    samples: Seq<HealthSample>,
    i: int,
) -> bool {
    let previous = previous_at(completed_at, samples, i);
    &&& samples[i].gatus_healthy
    &&& samples[i].prometheus_healthy
    &&& previous < samples[i].observed_at <= previous + policy.max_gap_seconds
    &&& samples[i].observed_at <= completed_at + policy.window_seconds + policy.max_gap_seconds
    &&& samples[i].observed_at <= now
}

/// Samples that cover the whole window after completion.
pub open spec fn covered(
    policy: ObservationPolicy,
    completed_at: u64,
    now: u64,
    samples: Seq<HealthSample>,
) -> bool {
    &&& 1 <= samples.len() <= 10000
    &&& forall|i: int|
        0 <= i < samples.len() ==> #[trigger] sample_counts(policy, completed_at, now, samples, i)
    &&& samples.last().observed_at >= completed_at + policy.window_seconds
}

/// The outcome of a health assessment.
pub open spec fn health(
    policy: ObservationPolicy,
    completed_at: u64,
    now: u64,
    samples: Seq<HealthSample>,
) -> Result<(), QualificationError> {
    let end = completed_at + policy.window_seconds;
    if !policy.in_range() || end + policy.max_gap_seconds > u64::MAX {
        Err(QualificationError::InvalidPolicy)
    } else if now < end || now - end > policy.max_age_seconds {
        Err(QualificationError::NotCurrent)
    } else if !covered(policy, completed_at, now, samples) {
        Err(QualificationError::IncompleteHealth)
    } else {
        Ok(())
    }
}

/// Checks chronological, paired success through the declared post-completion window.
///
/// This does not authenticate events, verify a deployed digest, or grant write authority.
/// Callers must not relabel untrusted model output as a qualified deployment.
pub fn assess_health(
    policy: &ObservationPolicy,
    completed_at: u64,
    now: u64,
    samples: &[HealthSample],
) -> (r: Result<(), QualificationError>)
    ensures
        r == health(*policy, completed_at, now, samples@),
{
    if !(60 <= policy.window_seconds && policy.window_seconds <= 86400) || !(1
        <= policy.max_gap_seconds && policy.max_gap_seconds <= policy.window_seconds) || !(1
        <= policy.max_age_seconds && policy.max_age_seconds <= 604800) {
        return Err(QualificationError::InvalidPolicy);
    }
    let end: u64 = match completed_at.checked_add(policy.window_seconds) {
        Some(end) => end,
        None => return Err(QualificationError::InvalidPolicy),
    };
    let last_allowed: u64 = match end.checked_add(policy.max_gap_seconds) {
        Some(last_allowed) => last_allowed,
        None => return Err(QualificationError::InvalidPolicy),
    };
    if now < end || now - end > policy.max_age_seconds {
        return Err(QualificationError::NotCurrent);
    }
    if samples.len() == 0 || samples.len() > 10000 {
        return Err(QualificationError::IncompleteHealth);
    }
    let mut previous: u64 = completed_at;
    let mut i: usize = 0;
    while i < samples.len()
        invariant
            i <= samples.len() <= 10000,
            policy.in_range(),
            end == completed_at + policy.window_seconds,
            last_allowed == end + policy.max_gap_seconds,
            end <= now <= end + policy.max_age_seconds,
            previous == previous_at(completed_at, samples@, i as int),
            forall|j: int|
                0 <= j < i ==> #[trigger] sample_counts(*policy, completed_at, now, samples@, j),
        decreases samples.len() - i,
    {
        let sample = samples[i];
        if !sample.gatus_healthy || !sample.prometheus_healthy || sample.observed_at <= previous
            || sample.observed_at > last_allowed || sample.observed_at > now || sample.observed_at
            - previous > policy.max_gap_seconds {
            assert(!sample_counts(*policy, completed_at, now, samples@, i as int));
            return Err(QualificationError::IncompleteHealth);
        }
        previous = sample.observed_at;
        i += 1;
    }
    // Require coverage through the end without requiring scrape clocks to align exactly.
    if previous < end {
        return Err(QualificationError::IncompleteHealth);
    }
    Ok(())
}

/// In an accepted window no stretch of `max_gap_seconds` after completion lacks a healthy
/// observation: each instant from completion to the end of the window is followed, within
/// the gap, by one.
pub proof fn accepted_health_leaves_no_gap(
    policy: ObservationPolicy,
    completed_at: u64,
    now: u64,
    samples: Seq<HealthSample>,
    instant: u64,
)
    requires
        health(policy, completed_at, now, samples) is Ok,
        completed_at <= instant < completed_at + policy.window_seconds,
    ensures
        exists|i: int|
            0 <= i < samples.len() && instant < (#[trigger] samples[i]).observed_at <= instant
                + policy.max_gap_seconds && samples[i].gatus_healthy
                && samples[i].prometheus_healthy,
{
    let i = first_after(policy, completed_at, now, samples, instant, 0);
    assert(sample_counts(policy, completed_at, now, samples, i));
}

proof fn first_after(
    policy: ObservationPolicy,
    completed_at: u64,
    now: u64,
    samples: Seq<HealthSample>,
    instant: u64,
    from: int,
) -> (i: int)
    requires
        health(policy, completed_at, now, samples) is Ok,
        instant < completed_at + policy.window_seconds,
        0 <= from < samples.len(),
        previous_at(completed_at, samples, from) <= instant,
    ensures
        from <= i < samples.len(),
        previous_at(completed_at, samples, i) <= instant < samples[i].observed_at,
    decreases samples.len() - from,
{
    if instant < samples[from].observed_at {
        from
    } else {
        assert(sample_counts(policy, completed_at, now, samples, from));
        if from + 1 == samples.len() {
            assert(samples.last() == samples[from]);
            assert(false);
            from
        } else {
            first_after(policy, completed_at, now, samples, instant, from + 1)
        }
    }
}

/// Health is accepted exactly where the policy is in range, the window is over and not too long ago,
/// and healthy samples of both checks follow the deployment and one another without a longer gap than
/// the policy allows, up to the end of the window.
pub proof fn health_is_accepted_exactly_where_covered(
    policy: ObservationPolicy,
    completed_at: u64,
    now: u64,
    samples: Seq<HealthSample>,
)
    ensures
        ({
            let outcome = health(policy, completed_at, now, samples);
            let end = completed_at + policy.window_seconds;
            let ranged = 60 <= policy.window_seconds && policy.window_seconds <= 86400 && 1
                <= policy.max_gap_seconds && policy.max_gap_seconds <= policy.window_seconds && 1
                <= policy.max_age_seconds && policy.max_age_seconds <= 604800 && end
                + policy.max_gap_seconds <= u64::MAX;
            let current = end <= now && now <= end + policy.max_age_seconds;
            let watched = 1 <= samples.len() && samples.len() <= 10000 && (forall|i: int|
                0 <= i < samples.len() ==> (#[trigger] samples[i]).gatus_healthy
                    && samples[i].prometheus_healthy && samples[i].observed_at <= now
                    && samples[i].observed_at <= end + policy.max_gap_seconds) && completed_at
                < samples[0].observed_at && samples[0].observed_at <= completed_at
                + policy.max_gap_seconds && (forall|i: int|
                1 <= i < samples.len() ==> samples[i - 1].observed_at < (#[trigger] samples[i]).observed_at
                    && samples[i].observed_at <= samples[i - 1].observed_at
                    + policy.max_gap_seconds) && samples.last().observed_at >= end;
            &&& outcome is Ok <==> ranged && current && watched
            &&& !ranged ==> outcome == Err::<(), QualificationError>(
                QualificationError::InvalidPolicy,
            )
            &&& ranged && !current ==> outcome == Err::<(), QualificationError>(
                QualificationError::NotCurrent,
            )
            &&& ranged && current && !watched ==> outcome == Err::<(), QualificationError>(
                QualificationError::IncompleteHealth,
            )
        }),
{
    if samples.len() >= 1 {
        if covered(policy, completed_at, now, samples) {
            assert(sample_counts(policy, completed_at, now, samples, 0));
            assert forall|i: int| 0 <= i < samples.len() implies (#[trigger] samples[i]).gatus_healthy
                && samples[i].prometheus_healthy && samples[i].observed_at <= now
                && samples[i].observed_at <= completed_at + policy.window_seconds
                + policy.max_gap_seconds by {
                assert(sample_counts(policy, completed_at, now, samples, i));
            }
            assert forall|i: int| 1 <= i < samples.len() implies samples[i - 1].observed_at < (
            #[trigger] samples[i]).observed_at && samples[i].observed_at <= samples[i - 1].observed_at
                + policy.max_gap_seconds by {
                assert(sample_counts(policy, completed_at, now, samples, i));
            }
        }
        if forall|i: int|
            0 <= i < samples.len() ==> #[trigger] sample_counts(
                policy,
                completed_at,
                now,
                samples,
                i,
            ) {
        } else {
            let i = choose|i: int|
                0 <= i < samples.len() && !#[trigger] sample_counts(
                    policy,
                    completed_at,
                    now,
                    samples,
                    i,
                );
            assert(samples[i].observed_at == samples[i].observed_at);
        }
    }
}

} // verus!
