//! Defines validated operator artifacts without granting publication, merge, or deployment authority.

use super::artifact;
use super::artifact::{CandidateView, CitationView, ManualRepairCandidate};
use super::sandbox;
use super::sandbox::runner;
use super::sandbox::runner::{ReceiptView, ValidationReceipt};
use super::sandbox::{SandboxLimits, SandboxPlan};
use crate::digest;
use crate::json;
use crate::reasoning::journal::JournalContext;
use crate::text;
use crate::text::number;
use crate::text::trim;
use vstd::prelude::*;

verus! {

/// Deployment-owned freshness limit for importing successful sandbox results.
pub struct HandoffPolicy {
    /// Maximum age in seconds, from 1 through 3600; future results are always rejected.
    pub max_validation_age_seconds: u64,
    /// Exact substantive validator image enrolled by deployment configuration, never learned from a result.
    pub validator_image: String,
    /// Independently enrolled protected runtime binary identity.
    pub runtime_digest: String,
    /// Exact enrolled sandbox limits; a different allowed policy still requires reenrollment.
    pub sandbox_limits: SandboxLimits,
}

impl HandoffPolicy {
    /// An age within its range and an image and ceilings that a plan accepts.
    pub open spec fn enrollable(self) -> bool {
        1 <= self.max_validation_age_seconds <= 3600 && sandbox::admits_plan(
            self.validator_image@,
            self.sandbox_limits,
        )
    }
}

/// Server-owned state checked again immediately before durable operator handoff.
pub struct ManualHandoffRequest<'a> {
    /// Candidate previously committed to this journal.
    pub candidate: &'a ManualRepairCandidate,
    /// Receipt created only by a successful validator with confirmed cleanup.
    pub validation: &'a ValidationReceipt,
    /// Original incident/run scope, never selected by a model.
    pub context: &'a JournalContext,
    /// Fresh repository observation; the application must supply it through its read-only adapter.
    pub current_base: &'a str,
    /// Current Unix second from the application clock.
    pub now: u64,
    /// Deployment-owned validation freshness policy.
    pub policy: &'a HandoffPolicy,
}

/// A journaled artifact for operator review, not an externally published PR.
pub struct ManualRepairHandoff {
    json: String,
}

/// A handoff is due: the policy is enrollable, the receipt is of the enrolled image, runtime
/// and ceilings, neither from the future nor too old, and of this candidate, which is of this
/// base and incident scope.
pub open spec fn handoff_due(request: ManualHandoffRequest) -> bool {
    &&& request.policy.enrollable()
    &&& request.validation.enrolled(
        request.policy.validator_image@,
        request.policy.runtime_digest@,
        request.policy.sandbox_limits,
    )
    &&& request.validation.data().completed_at <= request.now
    &&& request.now - request.validation.data().completed_at
        <= request.policy.max_validation_age_seconds
    &&& request.candidate.identity() == request.validation.data().artifact_digest
    &&& request.candidate.bound_to(*request.context, request.current_base@)
}

/// A citation as JSON, members in alphabetical order.
pub open spec fn sorted_citation_json(c: CitationView) -> Seq<char> {
    json::object_text(
        seq![
            json::member("content_digest"@, json::json_string(c.content_digest)),
            json::member("evidence_id"@, json::json_string(c.evidence_id)),
            json::member("source"@, json::json_string(c.source.name())),
        ],
    )
}

/// The description of a candidate after its validation.
pub open spec fn validated_description(description: Seq<char>) -> Seq<char> {
    trim::replaced(
        trim::replaced(
            description,
            "Manual repair candidate — not publish-ready."@,
            "Validated repair artifact — operator review required."@,
        ),
        "Sandbox validation: not run."@,
        "Sandbox validation: passed for the bound snapshot."@,
    )
}

/// A handoff as JSON, members in alphabetical order.
pub open spec fn handoff_json(
    c: CandidateView,
    candidate_digest: Seq<char>,
    validation: ReceiptView,
    max_validation_age_seconds: nat,
) -> Seq<char> {
    json::object_text(
        seq![
            json::member("base_sha"@, json::json_string(c.base_sha)),
            json::member("candidate_digest"@, json::json_string(candidate_digest)),
            json::member(
                "description"@,
                json::json_string(validated_description(c.description)),
            ),
            json::member(
                "evidence_citations"@,
                json::array_text(
                    c.evidence_citations.map_values(|x: CitationView| sorted_citation_json(x)),
                ),
            ),
            json::member("evidence_digest"@, json::json_string(c.evidence_digest)),
            json::member("image"@, json::json_string(c.image)),
            json::member("incident_digest"@, json::json_string(c.incident_digest)),
            json::member("incident_path"@, json::json_string(c.incident_path)),
            json::member(
                "max_validation_age_seconds"@,
                number::decimal(max_validation_age_seconds),
            ),
            json::member("patch"@, json::json_string(c.patch)),
            json::member("qualification_digest"@, json::json_string(c.qualification_digest)),
            json::member("remote_checks"@, json::json_string("not_run"@)),
            json::member("run_digest"@, json::json_string(c.run_digest)),
            json::member("schema"@, json::json_string("ai-sre/manual-repair-handoff/v1"@)),
            json::member("source_digest"@, json::json_string(c.source_digest)),
            json::member("status"@, json::json_string("operator_review_required"@)),
            json::member("title"@, json::json_string(c.title)),
            json::member("validation"@, runner::receipt_json(validation)),
        ],
    )
}

impl ManualRepairHandoff {
    /// The artifact text.
    pub closed spec fn wire(self) -> Seq<char> {
        self.json@
    }

    /// Stable identity of the complete artifact and its bound validation receipt.
    pub fn digest(&self) -> (r: String)
        ensures
            r@ == digest::text_digest(self.wire()),
            digest::is_digest(r@),
    {
        digest::digest(self.json.as_str().as_bytes())
    }

    /// Bounded, secret-free patch and metadata suitable for operator delivery.
    pub fn json(&self) -> (r: &str)
        ensures
            r@ == self.wire(),
    {
        self.json.as_str()
    }

    /// Builds a handoff where one is due. The original candidate stays unchanged in storage;
    /// this artifact reports the later validation.
    pub fn build(request: &ManualHandoffRequest<'_>) -> (r: Option<Self>)
        ensures
            match r {
                Some(handoff) => handoff_due(*request) && handoff.wire() == handoff_json(
                    request.candidate.data(),
                    request.candidate.identity(),
                    request.validation.data(),
                    request.policy.max_validation_age_seconds as nat,
                ),
                None => !handoff_due(*request),
            },
    {
        let policy = request.policy;
        if !(1 <= policy.max_validation_age_seconds && policy.max_validation_age_seconds <= 3600)
            || SandboxPlan::new(policy.validator_image.as_str(), policy.sandbox_limits).is_err() {
            return None;
        }
        if !request.validation.matches_enrollment(
            policy.validator_image.as_str(),
            policy.runtime_digest.as_str(),
            &policy.sandbox_limits,
        ) {
            return None;
        }
        match request.now.checked_sub(request.validation.completed_at()) {
            Some(age) => {
                if age > policy.max_validation_age_seconds {
                    return None;
                }
            },
            None => return None,
        }
        let identity = request.candidate.artifact_digest();
        if !text::text_eq(identity.as_str(), request.validation.artifact_digest())
            || !request.candidate.binds_handoff(request.context, request.current_base) {
            return None;
        }
        Some(
            ManualRepairHandoff {
                json: request.candidate.handoff_text(
                    identity.as_str(),
                    request.validation,
                    policy.max_validation_age_seconds,
                ),
            },
        )
    }
}

/// Rewrites the description of a candidate after its validation.
pub(crate) fn describe_validated(description: &str) -> (r: String)
    ensures
        r@ == validated_description(description@),
{
    proof {
        reveal_strlit("Manual repair candidate — not publish-ready.");
        reveal_strlit("Sandbox validation: not run.");
    }
    let reviewed = trim::replace(
        description,
        "Manual repair candidate — not publish-ready.",
        "Validated repair artifact — operator review required.",
    );
    trim::replace(
        reviewed.as_str(),
        "Sandbox validation: not run.",
        "Sandbox validation: passed for the bound snapshot.",
    )
}

/// A handoff names its own candidate, image, base and receipt, and reports no remote check.
pub proof fn handoff_binds_candidate_and_receipt(request: ManualHandoffRequest)
    requires
        handoff_due(request),
    ensures
        request.validation.data().artifact_digest == digest::text_digest(
            artifact::candidate_json(request.candidate.data()),
        ),
        request.validation.data().policy_digest == request.policy.sandbox_limits.identity(),
        request.candidate.data().base_sha == request.current_base@,
        request.candidate.data().incident_digest == digest::text_digest(
            request.context.incident_id@,
        ),
{
}

/// The JSON of a citation in a handoff says every field of it.
pub proof fn handed_over_citations_say_every_field(c: CitationView)
    ensures
        ({
            let text = sorted_citation_json(c);
            &&& text[0] == '{' && text.last() == '}'
            &&& text::has_part(text, "\"content_digest\":"@ + json::json_string(c.content_digest))
            &&& text::has_part(text, "\"evidence_id\":"@ + json::json_string(c.evidence_id))
            &&& text::has_part(text, "\"source\":"@ + json::json_string(c.source.name()))
        }),
{
    let items = seq![
        json::member("content_digest"@, json::json_string(c.content_digest)),
        json::member("evidence_id"@, json::json_string(c.evidence_id)),
        json::member("source"@, json::json_string(c.source.name())),
    ];
    json::objects_hold_their_members(items);
    assert(sorted_citation_json(c) == json::object_text(items));
    reveal_strlit("\"");
    reveal_strlit("\":");
    reveal_strlit("content_digest");
    reveal_strlit("\"content_digest\":");
    assert(items[0] =~= "\"content_digest\":"@ + json::json_string(c.content_digest));
    reveal_strlit("evidence_id");
    reveal_strlit("\"evidence_id\":");
    assert(items[1] =~= "\"evidence_id\":"@ + json::json_string(c.evidence_id));
    reveal_strlit("source");
    reveal_strlit("\"source\":");
    assert(items[2] =~= "\"source\":"@ + json::json_string(c.source.name()));
}

/// The JSON of a handoff says the candidate, the receipt, that remote checks were not run and that an operator has to review.
pub proof fn handoffs_say_candidate_receipt_and_review(c: CandidateView, candidate_digest: Seq<char>, validation: ReceiptView, max_validation_age_seconds: nat)
    ensures
        ({
            let text = handoff_json(c, candidate_digest, validation, max_validation_age_seconds);
            &&& text[0] == '{' && text.last() == '}'
            &&& text::has_part(text, "\"base_sha\":"@ + json::json_string(c.base_sha))
            &&& text::has_part(text, "\"candidate_digest\":"@ + json::json_string(candidate_digest))
            &&& text::has_part(text, "\"description\":"@ + json::json_string(validated_description(c.description)))
            &&& text::has_part(text, "\"evidence_citations\":"@ + json::array_text( c.evidence_citations.map_values(|x: CitationView| sorted_citation_json(x)), ))
            &&& text::has_part(text, "\"evidence_digest\":"@ + json::json_string(c.evidence_digest))
            &&& text::has_part(text, "\"image\":"@ + json::json_string(c.image))
            &&& text::has_part(text, "\"incident_digest\":"@ + json::json_string(c.incident_digest))
            &&& text::has_part(text, "\"incident_path\":"@ + json::json_string(c.incident_path))
            &&& text::has_part(text, "\"max_validation_age_seconds\":"@ + number::decimal(max_validation_age_seconds))
            &&& text::has_part(text, "\"patch\":"@ + json::json_string(c.patch))
            &&& text::has_part(text, "\"qualification_digest\":"@ + json::json_string(c.qualification_digest))
            &&& text::has_part(text, "\"remote_checks\":"@ + json::json_string("not_run"@))
            &&& text::has_part(text, "\"run_digest\":"@ + json::json_string(c.run_digest))
            &&& text::has_part(text, "\"schema\":"@ + json::json_string("ai-sre/manual-repair-handoff/v1"@))
            &&& text::has_part(text, "\"source_digest\":"@ + json::json_string(c.source_digest))
            &&& text::has_part(text, "\"status\":"@ + json::json_string("operator_review_required"@))
            &&& text::has_part(text, "\"title\":"@ + json::json_string(c.title))
            &&& text::has_part(text, "\"validation\":"@ + runner::receipt_json(validation))
        }),
{
    let items = seq![
        json::member("base_sha"@, json::json_string(c.base_sha)),
        json::member("candidate_digest"@, json::json_string(candidate_digest)),
        json::member("description"@, json::json_string(validated_description(c.description))),
        json::member("evidence_citations"@, json::array_text( c.evidence_citations.map_values(|x: CitationView| sorted_citation_json(x)), )),
        json::member("evidence_digest"@, json::json_string(c.evidence_digest)),
        json::member("image"@, json::json_string(c.image)),
        json::member("incident_digest"@, json::json_string(c.incident_digest)),
        json::member("incident_path"@, json::json_string(c.incident_path)),
        json::member("max_validation_age_seconds"@, number::decimal(max_validation_age_seconds)),
        json::member("patch"@, json::json_string(c.patch)),
        json::member("qualification_digest"@, json::json_string(c.qualification_digest)),
        json::member("remote_checks"@, json::json_string("not_run"@)),
        json::member("run_digest"@, json::json_string(c.run_digest)),
        json::member("schema"@, json::json_string("ai-sre/manual-repair-handoff/v1"@)),
        json::member("source_digest"@, json::json_string(c.source_digest)),
        json::member("status"@, json::json_string("operator_review_required"@)),
        json::member("title"@, json::json_string(c.title)),
        json::member("validation"@, runner::receipt_json(validation)),
    ];
    json::objects_hold_their_members(items);
    assert(handoff_json(c, candidate_digest, validation, max_validation_age_seconds) == json::object_text(items));
    reveal_strlit("\"");
    reveal_strlit("\":");
    reveal_strlit("base_sha");
    reveal_strlit("\"base_sha\":");
    assert(items[0] =~= "\"base_sha\":"@ + json::json_string(c.base_sha));
    reveal_strlit("candidate_digest");
    reveal_strlit("\"candidate_digest\":");
    assert(items[1] =~= "\"candidate_digest\":"@ + json::json_string(candidate_digest));
    reveal_strlit("description");
    reveal_strlit("\"description\":");
    assert(items[2] =~= "\"description\":"@ + json::json_string(validated_description(c.description)));
    reveal_strlit("evidence_citations");
    reveal_strlit("\"evidence_citations\":");
    assert(items[3] =~= "\"evidence_citations\":"@ + json::array_text( c.evidence_citations.map_values(|x: CitationView| sorted_citation_json(x)), ));
    reveal_strlit("evidence_digest");
    reveal_strlit("\"evidence_digest\":");
    assert(items[4] =~= "\"evidence_digest\":"@ + json::json_string(c.evidence_digest));
    reveal_strlit("image");
    reveal_strlit("\"image\":");
    assert(items[5] =~= "\"image\":"@ + json::json_string(c.image));
    reveal_strlit("incident_digest");
    reveal_strlit("\"incident_digest\":");
    assert(items[6] =~= "\"incident_digest\":"@ + json::json_string(c.incident_digest));
    reveal_strlit("incident_path");
    reveal_strlit("\"incident_path\":");
    assert(items[7] =~= "\"incident_path\":"@ + json::json_string(c.incident_path));
    reveal_strlit("max_validation_age_seconds");
    reveal_strlit("\"max_validation_age_seconds\":");
    assert(items[8] =~= "\"max_validation_age_seconds\":"@ + number::decimal(max_validation_age_seconds));
    reveal_strlit("patch");
    reveal_strlit("\"patch\":");
    assert(items[9] =~= "\"patch\":"@ + json::json_string(c.patch));
    reveal_strlit("qualification_digest");
    reveal_strlit("\"qualification_digest\":");
    assert(items[10] =~= "\"qualification_digest\":"@ + json::json_string(c.qualification_digest));
    reveal_strlit("remote_checks");
    reveal_strlit("\"remote_checks\":");
    assert(items[11] =~= "\"remote_checks\":"@ + json::json_string("not_run"@));
    reveal_strlit("run_digest");
    reveal_strlit("\"run_digest\":");
    assert(items[12] =~= "\"run_digest\":"@ + json::json_string(c.run_digest));
    reveal_strlit("schema");
    reveal_strlit("\"schema\":");
    assert(items[13] =~= "\"schema\":"@ + json::json_string("ai-sre/manual-repair-handoff/v1"@));
    reveal_strlit("source_digest");
    reveal_strlit("\"source_digest\":");
    assert(items[14] =~= "\"source_digest\":"@ + json::json_string(c.source_digest));
    reveal_strlit("status");
    reveal_strlit("\"status\":");
    assert(items[15] =~= "\"status\":"@ + json::json_string("operator_review_required"@));
    reveal_strlit("title");
    reveal_strlit("\"title\":");
    assert(items[16] =~= "\"title\":"@ + json::json_string(c.title));
    reveal_strlit("validation");
    reveal_strlit("\"validation\":");
    assert(items[17] =~= "\"validation\":"@ + runner::receipt_json(validation));
}

/// A handoff is due exactly where the policy can be enrolled, the receipt is enrolled under it, not
/// from the future and not too old, for this candidate, and the candidate is of this incident and run
/// at the current base.
pub proof fn handoffs_are_due_exactly_while_fresh_and_bound(request: ManualHandoffRequest)
    ensures
        ({
            let receipt = request.validation.data();
            let candidate = request.candidate.data();
            handoff_due(request) <==> 1 <= request.policy.max_validation_age_seconds
                && request.policy.max_validation_age_seconds <= 3600 && sandbox::is_validator_image(
                request.policy.validator_image@,
            ) && request.policy.sandbox_limits.in_range() && receipt.validator_image
                == request.policy.validator_image@ && receipt.runtime_digest
                == request.policy.runtime_digest@ && receipt.policy_digest == digest::text_digest(
                request.policy.sandbox_limits.json(),
            ) && receipt.completed_at <= request.now && request.now <= receipt.completed_at
                + request.policy.max_validation_age_seconds && receipt.artifact_digest
                == digest::text_digest(artifact::candidate_json(candidate)) && candidate.base_sha
                == request.current_base@ && candidate.incident_digest == digest::text_digest(
                request.context.incident_id@,
            ) && candidate.run_digest == digest::text_digest(request.context.run_id@)
        }),
{
}

/// A description says, once it is handed over, that the sandbox passed and that an operator has to
/// review, where it said before that nothing had run and nothing is ready.
pub proof fn handed_over_descriptions_ask_for_review(tail: Seq<char>)
    requires
        !tail.contains('—'),
    ensures
        ({
            let before = "Manual repair candidate — not publish-ready."@;
            let after = "Validated repair artifact — operator review required."@;
            let said = "Sandbox validation: not run."@;
            let says = "Sandbox validation: passed for the bound snapshot."@;
            let text = validated_description(before + tail);
            &&& text.take(after.len() as int) == after
            &&& text::has_part(tail, said) ==> text::has_part(text, says)
            &&& !text::has_part(tail, said) ==> text == after + tail
        }),
{
    let before = "Manual repair candidate — not publish-ready."@;
    let after = "Validated repair artifact — operator review required."@;
    let said = "Sandbox validation: not run."@;
    let says = "Sandbox validation: passed for the bound snapshot."@;
    reveal_strlit("Manual repair candidate — not publish-ready.");
    reveal_strlit("Validated repair artifact — operator review required.");
    reveal_strlit("Sandbox validation: not run.");
    assert(before[24] == '—');
    if text::has_part(tail, before) {
        let at = choose|at: int| text::occurs_at(tail, before, at);
        assert(tail.subrange(at, at + before.len())[24] == tail[at + 24]);
        assert(tail.contains(tail[at + 24]));
    }
    trim::replacing_puts_the_new_text_in_place(tail, before, after, tail);
    assert(!after.contains('S'));
    trim::lemma_replaced_behind(after, tail, said, says);
    trim::replacing_puts_the_new_text_in_place(tail, said, says, tail);
    let text = validated_description(before + tail);
    assert(text == after + trim::replaced(tail, said, says));
    assert(text.take(after.len() as int) =~= after);
    text::lemma_parts_stay(after, trim::replaced(tail, said, says));
}

} // verus!
