//! Produces bounded, non-executable manual repair candidates without claiming sandbox validation.
//!
//! Candidates contain only the changed image line and controlled metadata. They
//! are not publish-ready; repository provenance and offline sandbox validation
//! must be completed before operator handoff. No GitHub credential is consumed.

use super::handoff;
use super::it_tools_image;
use super::it_tools_image::{render, PILOT_PATH};
use super::qualified_deployment::QualifiedDeployment;
use super::receipt;
use super::receipt::safe_id;
use super::sandbox::runner::ValidationReceipt;
use super::snapshot::{RepositorySnapshot, SnapshotView};
use super::validate;
use super::validate::validate_change;
use crate::digest;
use crate::json;
use crate::reasoning::evidence::EvidenceSource;
use crate::reasoning::journal::JournalContext;
use crate::text;
use crate::text::number;
use crate::text::split;
use crate::text::trim;
use crate::yaml;
use vstd::prelude::*;

verus! {

/// Deployment-owned context for preparing a candidate from a stored qualification.
/// Source and revisions must come from read-only repository evidence, never model output.
pub struct ManualRepairRequest<'a> {
    /// Protected completion identity to resolve in the journal database.
    pub deployment_id: &'a str,
    /// Server-owned opaque incident identity, used for a relative operator-console link.
    pub incident_id: &'a str,
    /// Server-owned run identity for journal scope.
    pub run_id: &'a str,
    /// Base revision captured with the evidence.
    pub expected_base: &'a str,
    /// Base revision observed again immediately before preparation.
    pub current_base: &'a str,
    /// Digest identifying the redacted incident evidence.
    pub evidence_digest: &'a str,
    /// Exact pilot file from the captured base.
    pub source: &'a str,
    /// Current Unix second, injected by the application clock.
    pub now: u64,
}

/// Journal-derived references; raw queries and tool payloads never enter the handoff.
pub struct EvidenceCitation {
    /// Evidence identity.
    pub evidence_id: String,
    /// Where the evidence was read from.
    pub source: EvidenceSource,
    /// Content identity of the evidence.
    pub content_digest: String,
}

/// A reference to evidence.
pub struct CitationView {
    /// Evidence identity.
    pub evidence_id: Seq<char>,
    /// Where the evidence was read from.
    pub source: EvidenceSource,
    /// Content identity of the evidence.
    pub content_digest: Seq<char>,
}

impl View for EvidenceCitation {
    type V = CitationView;

    open spec fn view(&self) -> CitationView {
        CitationView {
            evidence_id: self.evidence_id@,
            source: self.source,
            content_digest: self.content_digest@,
        }
    }
}

/// The citations of a list.
pub open spec fn citation_views(list: Seq<EvidenceCitation>) -> Seq<CitationView> {
    list.map_values(|c: EvidenceCitation| c@)
}

/// A citation as JSON, members in declaration order.
pub open spec fn citation_json(c: CitationView) -> Seq<char> {
    json::object_text(
        seq![
            json::member("evidence_id"@, json::json_string(c.evidence_id)),
            json::member("source"@, json::json_string(c.source.name())),
            json::member("content_digest"@, json::json_string(c.content_digest)),
        ],
    )
}

/// Immutable candidate data; absence of a validation receipt means it is not publish-ready.
pub struct ManualRepairCandidate {
    schema: String,
    title: String,
    incident_path: String,
    evidence_citations: Vec<EvidenceCitation>,
    incident_digest: String,
    run_digest: String,
    base_sha: String,
    source_digest: String,
    evidence_digest: String,
    qualification_digest: String,
    image: String,
    patch: String,
    description: String,
}

/// The data of a candidate.
pub struct CandidateView {
    /// Schema identifier.
    pub schema: Seq<char>,
    /// Suggested title.
    pub title: Seq<char>,
    /// Relative operator-console link.
    pub incident_path: Seq<char>,
    /// Cited evidence.
    pub evidence_citations: Seq<CitationView>,
    /// Identity of the incident.
    pub incident_digest: Seq<char>,
    /// Identity of the run.
    pub run_digest: Seq<char>,
    /// Base revision.
    pub base_sha: Seq<char>,
    /// Identity of the pilot file at the base.
    pub source_digest: Seq<char>,
    /// Identity of the incident evidence.
    pub evidence_digest: Seq<char>,
    /// Identity of the qualified deployment.
    pub qualification_digest: Seq<char>,
    /// Replacement image.
    pub image: Seq<char>,
    /// One-line unified diff.
    pub patch: Seq<char>,
    /// Suggested description.
    pub description: Seq<char>,
}

/// A candidate as JSON, members in declaration order.
pub open spec fn candidate_json(c: CandidateView) -> Seq<char> {
    json::object_text(
        seq![
            json::member("schema"@, json::json_string(c.schema)),
            json::member("title"@, json::json_string(c.title)),
            json::member("incident_path"@, json::json_string(c.incident_path)),
            json::member(
                "evidence_citations"@,
                json::array_text(
                    c.evidence_citations.map_values(|x: CitationView| citation_json(x)),
                ),
            ),
            json::member("incident_digest"@, json::json_string(c.incident_digest)),
            json::member("run_digest"@, json::json_string(c.run_digest)),
            json::member("base_sha"@, json::json_string(c.base_sha)),
            json::member("source_digest"@, json::json_string(c.source_digest)),
            json::member("evidence_digest"@, json::json_string(c.evidence_digest)),
            json::member("qualification_digest"@, json::json_string(c.qualification_digest)),
            json::member("image"@, json::json_string(c.image)),
            json::member("patch"@, json::json_string(c.patch)),
            json::member("description"@, json::json_string(c.description)),
        ],
    )
}

/// Line `k` stands in both texts and differs.
pub open spec fn differs_at(before: Seq<Seq<char>>, after: Seq<Seq<char>>, k: int) -> bool {
    0 <= k < before.len() && k < after.len() && before[k] != after[k]
}

/// Line `k` is the only one that differs.
pub open spec fn sole_change(before: Seq<Seq<char>>, after: Seq<Seq<char>>, k: int) -> bool {
    differs_at(before, after, k) && forall|j: int| #[trigger]
        differs_at(before, after, j) ==> j == k
}

/// An image that the repair may replace: the pilot repository by tag or digest.
pub open spec fn is_replaceable(image: Seq<char>) -> bool {
    &&& "ghcr.io/corentinth/it-tools:"@.is_prefix_of(image)
        || "ghcr.io/corentinth/it-tools@sha256:"@.is_prefix_of(image)
    &&& image.len() <= 256
    &&& text::Alphabet::ImageReference.spells(image)
}

/// A line that the repair may replace: an `image:` scalar without a comment.
pub open spec fn is_replaceable_line(line: Seq<char>) -> bool {
    &&& !line.contains('#')
    &&& match text::after_prefix(trim::trim(line), "image:"@) {
        Some(rest) => match yaml::yaml_string(trim::trim(rest)) {
            Some(image) => is_replaceable(image),
            None => false,
        },
        None => false,
    }
}

/// One line of a patch.
pub open spec fn patch_line(sign: char, line: Seq<char>) -> Seq<char> {
    if line.len() > 0 && line.last() == '\n' {
        seq![sign] + line
    } else {
        seq![sign] + line + "\n\\ No newline at end of file\n"@
    }
}

/// A one-line unified diff of the pilot file.
pub open spec fn patch_text(number: nat, before: Seq<char>, after: Seq<char>) -> Seq<char> {
    "--- a/"@ + PILOT_PATH@ + "\n+++ b/"@ + PILOT_PATH@ + "\n@@ -"@ + number::decimal(number)
        + ",1 +"@ + number::decimal(number) + ",1 @@\n"@ + patch_line('-', before) + patch_line(
        '+',
        after,
    )
}

/// The suggested description of a candidate.
pub open spec fn description_text(
    base: Seq<char>,
    qualification: Seq<char>,
    evidence: Seq<char>,
) -> Seq<char> {
    "Manual repair candidate — not publish-ready.\n\nTarget: utility/it-tools; path: "@
        + PILOT_PATH@ + ".\nBase: "@ + base + "\nQualified deployment receipt: "@ + qualification
        + "\nEvidence: "@ + evidence
        + "\nExpected effect: restore the qualified immutable image.\nRollback: restore the previous image scalar only after fresh evidence and review.\nLocal scope: passed. Sandbox validation: not run. Remote checks: not run.\nOperator application: after fresh validation and review, use a clean checkout at the exact base above. This secret-safe zero-context patch requires git apply --check --index --unidiff-zero before git apply --index --unidiff-zero. Stop on a changed base or failed check; never force or fuzz the patch. See packaging/validator/OPERATOR.md in ai-sre for the guarded procedure.\nNo PR was created; merge and deployment remain operator-owned.\n"@
}

/// The pilot file after the repair, where a candidate may be built: bounded identities, a
/// deterministic repair within scope, and one replaceable line that changes.
pub open spec fn repairs(
    request: ManualRepairRequest,
    image: Seq<char>,
    after: Seq<char>,
    k: int,
) -> bool {
    let before = split::pieces(request.source@);
    &&& receipt::is_safe_id(request.incident_id@)
    &&& receipt::is_safe_id(request.run_id@)
    &&& digest::is_digest(request.evidence_digest@)
    &&& it_tools_image::rendered(request.source@, image) == Ok::<
        Seq<char>,
        it_tools_image::RenderError,
    >(after)
    &&& validate::is_sha(request.expected_base@)
    &&& request.expected_base@ == request.current_base@
    &&& text::utf8_len(after) <= it_tools_image::MAX_SOURCE_BYTES
    &&& sole_change(before, split::pieces(after), k)
    &&& is_replaceable_line(before[k])
}

/// The candidate for a repair that changes line `k`.
pub open spec fn candidate_for(
    request: ManualRepairRequest,
    qualified: receipt::ReceiptWire,
    citations: Seq<CitationView>,
    after: Seq<char>,
    k: int,
) -> CandidateView {
    CandidateView {
        schema: "ai-sre/manual-repair-candidate/v1"@,
        title: "fix(utility): restore qualified it-tools image"@,
        incident_path: "/incidents/"@ + request.incident_id@,
        evidence_citations: citations,
        incident_digest: digest::text_digest(request.incident_id@),
        run_digest: digest::text_digest(request.run_id@),
        base_sha: request.expected_base@,
        source_digest: digest::text_digest(request.source@),
        evidence_digest: request.evidence_digest@,
        qualification_digest: qualified.identity(),
        image: qualified.image@,
        patch: patch_text(
            (k + 1) as nat,
            split::pieces(request.source@)[k],
            split::pieces(after)[k],
        ),
        description: description_text(
            request.expected_base@,
            qualified.identity(),
            request.evidence_digest@,
        ),
    }
}

fn citation_text(c: &EvidenceCitation) -> (r: String)
    ensures
        r@ == citation_json(c@),
{
    let m = vec![
        json::text_member("evidence_id", c.evidence_id.as_str()),
        json::text_member("source", c.source.wire_name()),
        json::text_member("content_digest", c.content_digest.as_str()),
    ];
    let out = json::object(&m);
    assert(text::texts(m@) =~= seq![m@[0]@, m@[1]@, m@[2]@]);
    out
}

fn sorted_citation_text(c: &EvidenceCitation) -> (r: String)
    ensures
        r@ == handoff::sorted_citation_json(c@),
{
    let m = vec![
        json::text_member("content_digest", c.content_digest.as_str()),
        json::text_member("evidence_id", c.evidence_id.as_str()),
        json::text_member("source", c.source.wire_name()),
    ];
    let out = json::object(&m);
    assert(text::texts(m@) =~= seq![m@[0]@, m@[1]@, m@[2]@]);
    out
}

fn push_patch_line(patch: &mut String, sign: char, line: &str)
    ensures
        final(patch)@ == old(patch)@ + patch_line(sign, line@),
{
    let ghost before = patch@;
    patch.push(sign);
    patch.append(line);
    if !text::ends_with(line, "\n") {
        patch.append("\n\\ No newline at end of file\n");
    }
    proof {
        reveal_strlit("\n");
        let end = line@.subrange(line@.len() - 1, line@.len() as int);
        if line@.len() > 0 {
            assert(end =~= seq![line@.last()]);
            assert("\n"@ =~= seq!['\n']);
            if "\n"@.is_suffix_of(line@) {
                assert(end[0] == '\n');
            }
            if line@.last() == '\n' {
                assert("\n"@ =~= end);
            }
        }
        assert(patch@ =~= before + patch_line(sign, line@));
    }
}

fn patch_of(number: usize, before: &str, after: &str) -> (r: String)
    ensures
        r@ == patch_text(number as nat, before@, after@),
{
    let mut patch = "--- a/".to_owned();
    patch.append(PILOT_PATH);
    patch.append("\n+++ b/");
    patch.append(PILOT_PATH);
    patch.append("\n@@ -");
    number::push_decimal(&mut patch, number as u128);
    patch.append(",1 +");
    number::push_decimal(&mut patch, number as u128);
    patch.append(",1 @@\n");
    push_patch_line(&mut patch, '-', before);
    push_patch_line(&mut patch, '+', after);
    patch
}

fn description_of(base: &str, qualification: &str, evidence: &str) -> (r: String)
    ensures
        r@ == description_text(base@, qualification@, evidence@),
{
    let mut out =
        "Manual repair candidate — not publish-ready.\n\nTarget: utility/it-tools; path: ".to_owned();
    out.append(PILOT_PATH);
    out.append(".\nBase: ");
    out.append(base);
    out.append("\nQualified deployment receipt: ");
    out.append(qualification);
    out.append("\nEvidence: ");
    out.append(evidence);
    out.append(
        "\nExpected effect: restore the qualified immutable image.\nRollback: restore the previous image scalar only after fresh evidence and review.\nLocal scope: passed. Sandbox validation: not run. Remote checks: not run.\nOperator application: after fresh validation and review, use a clean checkout at the exact base above. This secret-safe zero-context patch requires git apply --check --index --unidiff-zero before git apply --index --unidiff-zero. Stop on a changed base or failed check; never force or fuzz the patch. See packaging/validator/OPERATOR.md in ai-sre for the guarded procedure.\nNo PR was created; merge and deployment remain operator-owned.\n",
    );
    out
}

fn replaceable_line(line: &str) -> (r: bool)
    ensures
        r == is_replaceable_line(line@),
{
    if text::contains_char(line, '#') {
        return false;
    }
    let body = trim::trimmed(line);
    let rest = match text::strip_prefix(body.as_str(), "image:") {
        Some(rest) => rest,
        None => return false,
    };
    let scalar = trim::trimmed(rest.as_str());
    match yaml::read_string(scalar.as_str()) {
        Some(image) => (text::starts_with(image.as_str(), "ghcr.io/corentinth/it-tools:")
            || text::starts_with(image.as_str(), "ghcr.io/corentinth/it-tools@sha256:"))
            && text::chars_of(image.as_str()).len() <= 256
            && text::Alphabet::ImageReference.spelled(image.as_str()),
        None => false,
    }
}

/// Finds the only line that differs.
fn find_sole_change(before: &Vec<String>, after: &Vec<String>) -> (r: Option<usize>)
    ensures
        match r {
            Some(k) => sole_change(text::texts(before@), text::texts(after@), k as int) && k
                < before.len() && k < after.len(),
            None => forall|k: int|
                !#[trigger] sole_change(text::texts(before@), text::texts(after@), k),
        },
{
    let ghost old_lines = text::texts(before@);
    let ghost new_lines = text::texts(after@);
    let mut found: Option<usize> = None;
    let mut i: usize = 0;
    assert(old_lines.len() == before.len() && new_lines.len() == after.len());
    while i < before.len() && i < after.len()
        invariant
            i <= before.len(),
            i <= after.len(),
            old_lines == text::texts(before@),
            new_lines == text::texts(after@),
            old_lines.len() == before.len(),
            new_lines.len() == after.len(),
            match found {
                Some(k) => k < i && differs_at(old_lines, new_lines, k as int) && (forall|j: int|
                    0 <= j < i && #[trigger] differs_at(old_lines, new_lines, j) ==> j == k),
                None => forall|j: int| 0 <= j < i ==> !#[trigger] differs_at(
                    old_lines,
                    new_lines,
                    j,
                ),
            },
        decreases before.len() - i,
    {
        proof {
            assert(old_lines[i as int] == before@[i as int]@);
            assert(new_lines[i as int] == after@[i as int]@);
        }
        if !text::text_eq(before[i].as_str(), after[i].as_str()) {
            assert(differs_at(old_lines, new_lines, i as int));
            if let Some(k) = found {
                assert(differs_at(old_lines, new_lines, k as int));
                assert(forall|j: int| !sole_change(old_lines, new_lines, j));
                return None;
            }
            found = Some(i);
        }
        i += 1;
    }
    found
}

impl ManualRepairCandidate {
    /// The data of the candidate.
    pub closed spec fn data(self) -> CandidateView {
        CandidateView {
            schema: self.schema@,
            title: self.title@,
            incident_path: self.incident_path@,
            evidence_citations: citation_views(self.evidence_citations@),
            incident_digest: self.incident_digest@,
            run_digest: self.run_digest@,
            base_sha: self.base_sha@,
            source_digest: self.source_digest@,
            evidence_digest: self.evidence_digest@,
            qualification_digest: self.qualification_digest@,
            image: self.image@,
            patch: self.patch@,
            description: self.description@,
        }
    }

    /// Identity of every byte of the candidate.
    pub open spec fn identity(self) -> Seq<char> {
        digest::text_digest(candidate_json(self.data()))
    }

    /// Whether a snapshot is of this candidate's base and source and holds its repair.
    pub open spec fn binds(self, snapshot: SnapshotView) -> bool {
        &&& self.data().base_sha == snapshot.base
        &&& self.data().source_digest == digest::text_digest(snapshot.original)
        &&& it_tools_image::rendered(snapshot.original, self.data().image) == Ok::<
            Seq<char>,
            it_tools_image::RenderError,
        >(snapshot.pilot)
    }

    /// Whether the candidate is of a base and an incident scope.
    pub open spec fn bound_to(self, scope: JournalContext, base: Seq<char>) -> bool {
        &&& self.data().base_sha == base
        &&& self.data().incident_digest == digest::text_digest(scope.incident_id@)
        &&& self.data().run_digest == digest::text_digest(scope.run_id@)
    }

    /// Identity of every byte of canonical candidate data, including source and qualification bindings.
    pub fn artifact_digest(&self) -> (r: String)
        ensures
            r@ == self.identity(),
            digest::is_digest(r@),
    {
        let wire = self.json();
        digest::digest(wire.as_str().as_bytes())
    }

    /// A one-line unified diff for the fixed pilot path; never an executable script.
    pub fn patch(&self) -> (r: &str)
        ensures
            r@ == self.data().patch,
    {
        self.patch.as_str()
    }

    /// Controlled suggested PR text, explicitly stating that validation has not run.
    pub fn description(&self) -> (r: &str)
        ensures
            r@ == self.data().description,
    {
        self.description.as_str()
    }

    /// Qualified replacement image used when capturing an immutable validation snapshot.
    pub fn image(&self) -> (r: &str)
        ensures
            r@ == self.data().image,
    {
        self.image.as_str()
    }

    /// Identity of the qualified deployment.
    pub fn qualification_digest(&self) -> (r: &str)
        ensures
            r@ == self.data().qualification_digest,
    {
        self.qualification_digest.as_str()
    }

    /// Identity of the incident evidence.
    pub fn evidence_digest(&self) -> (r: &str)
        ensures
            r@ == self.data().evidence_digest,
    {
        self.evidence_digest.as_str()
    }

    fn citations_text(&self) -> (r: String)
        ensures
            r@ == json::array_text(
                self.data().evidence_citations.map_values(|x: CitationView| citation_json(x)),
            ),
    {
        let mut items: Vec<String> = Vec::new();
        let mut i: usize = 0;
        while i < self.evidence_citations.len()
            invariant
                i <= self.evidence_citations.len(),
                items.len() == i,
                forall|j: int| 0 <= j < i ==> (#[trigger] items@[j])@ == citation_json(
                    self.evidence_citations@[j]@,
                ),
            decreases self.evidence_citations.len() - i,
        {
            items.push(citation_text(&self.evidence_citations[i]));
            i += 1;
        }
        assert(text::texts(items@) =~= self.data().evidence_citations.map_values(
            |x: CitationView| citation_json(x),
        ));
        json::array(&items)
    }

    /// Canonical data for durable storage; this is a candidate, not a publication receipt.
    pub fn json(&self) -> (r: String)
        ensures
            r@ == candidate_json(self.data()),
    {
        let citations = self.citations_text();
        let m = vec![
            json::text_member("schema", self.schema.as_str()),
            json::text_member("title", self.title.as_str()),
            json::text_member("incident_path", self.incident_path.as_str()),
            json::raw_member("evidence_citations", citations.as_str()),
            json::text_member("incident_digest", self.incident_digest.as_str()),
            json::text_member("run_digest", self.run_digest.as_str()),
            json::text_member("base_sha", self.base_sha.as_str()),
            json::text_member("source_digest", self.source_digest.as_str()),
            json::text_member("evidence_digest", self.evidence_digest.as_str()),
            json::text_member("qualification_digest", self.qualification_digest.as_str()),
            json::text_member("image", self.image.as_str()),
            json::text_member("patch", self.patch.as_str()),
            json::text_member("description", self.description.as_str()),
        ];
        let out = json::object(&m);
        assert(text::texts(m@) =~= seq![
            m@[0]@,
            m@[1]@,
            m@[2]@,
            m@[3]@,
            m@[4]@,
            m@[5]@,
            m@[6]@,
            m@[7]@,
            m@[8]@,
            m@[9]@,
            m@[10]@,
            m@[11]@,
            m@[12]@,
        ]);
        out
    }

    fn sorted_citations_text(&self) -> (r: String)
        ensures
            r@ == json::array_text(
                self.data().evidence_citations.map_values(
                    |x: CitationView| handoff::sorted_citation_json(x),
                ),
            ),
    {
        let mut items: Vec<String> = Vec::new();
        let mut i: usize = 0;
        while i < self.evidence_citations.len()
            invariant
                i <= self.evidence_citations.len(),
                items.len() == i,
                forall|j: int|
                    0 <= j < i ==> (#[trigger] items@[j])@ == handoff::sorted_citation_json(
                        self.evidence_citations@[j]@,
                    ),
            decreases self.evidence_citations.len() - i,
        {
            items.push(sorted_citation_text(&self.evidence_citations[i]));
            i += 1;
        }
        assert(text::texts(items@) =~= self.data().evidence_citations.map_values(
            |x: CitationView| handoff::sorted_citation_json(x),
        ));
        json::array(&items)
    }

    /// Writes the operator artifact of this candidate and its validation.
    pub(crate) fn handoff_text(
        &self,
        candidate_digest: &str,
        validation: &ValidationReceipt,
        max_validation_age_seconds: u64,
    ) -> (r: String)
        ensures
            r@ == handoff::handoff_json(
                self.data(),
                candidate_digest@,
                validation.data(),
                max_validation_age_seconds as nat,
            ),
    {
        let description = handoff::describe_validated(self.description.as_str());
        let citations = self.sorted_citations_text();
        let receipt = validation.json();
        let m = vec![
            json::text_member("base_sha", self.base_sha.as_str()),
            json::text_member("candidate_digest", candidate_digest),
            json::text_member("description", description.as_str()),
            json::raw_member("evidence_citations", citations.as_str()),
            json::text_member("evidence_digest", self.evidence_digest.as_str()),
            json::text_member("image", self.image.as_str()),
            json::text_member("incident_digest", self.incident_digest.as_str()),
            json::text_member("incident_path", self.incident_path.as_str()),
            json::number_member("max_validation_age_seconds", max_validation_age_seconds),
            json::text_member("patch", self.patch.as_str()),
            json::text_member("qualification_digest", self.qualification_digest.as_str()),
            json::text_member("remote_checks", "not_run"),
            json::text_member("run_digest", self.run_digest.as_str()),
            json::text_member("schema", "ai-sre/manual-repair-handoff/v1"),
            json::text_member("source_digest", self.source_digest.as_str()),
            json::text_member("status", "operator_review_required"),
            json::text_member("title", self.title.as_str()),
            json::raw_member("validation", receipt.as_str()),
        ];
        let out = json::object(&m);
        assert(text::texts(m@) =~= seq![
            m@[0]@,
            m@[1]@,
            m@[2]@,
            m@[3]@,
            m@[4]@,
            m@[5]@,
            m@[6]@,
            m@[7]@,
            m@[8]@,
            m@[9]@,
            m@[10]@,
            m@[11]@,
            m@[12]@,
            m@[13]@,
            m@[14]@,
            m@[15]@,
            m@[16]@,
            m@[17]@,
        ]);
        out
    }

    /// Decides [`ManualRepairCandidate::bound_to`].
    pub fn binds_handoff(&self, scope: &JournalContext, base: &str) -> (r: bool)
        ensures
            r == self.bound_to(*scope, base@),
    {
        let incident = digest::digest(scope.incident_id.as_str().as_bytes());
        let run = digest::digest(scope.run_id.as_str().as_bytes());
        text::text_eq(self.base_sha.as_str(), base) && text::text_eq(
            self.incident_digest.as_str(),
            incident.as_str(),
        ) && text::text_eq(self.run_digest.as_str(), run.as_str())
    }

    /// Decides [`ManualRepairCandidate::binds`].
    pub fn binds_snapshot(&self, snapshot: &RepositorySnapshot) -> (r: bool)
        ensures
            r == self.binds(snapshot.captured_view()),
    {
        let source = digest::digest(snapshot.original_source().as_bytes());
        if !text::text_eq(self.base_sha.as_str(), snapshot.base_sha()) || !text::text_eq(
            self.source_digest.as_str(),
            source.as_str(),
        ) {
            return false;
        }
        match render(snapshot.original_source(), self.image.as_str()) {
            Ok(pilot) => text::text_eq(pilot.as_str(), snapshot.pilot_source()),
            Err(_) => false,
        }
    }

    /// Builds a candidate from a qualified deployment and committed evidence.
    pub fn build(
        request: &ManualRepairRequest<'_>,
        qualified: &QualifiedDeployment,
        evidence_citations: Vec<EvidenceCitation>,
    ) -> (r: Option<Self>)
        ensures
            match r {
                Some(candidate) => exists|after: Seq<char>, k: int|
                    #![trigger repairs(*request, qualified.receipt().image@, after, k)]
                    repairs(*request, qualified.receipt().image@, after, k) && candidate.data()
                        == candidate_for(
                        *request,
                        qualified.receipt(),
                        citation_views(evidence_citations@),
                        after,
                        k,
                    ),
                None => forall|after: Seq<char>, k: int|
                    !#[trigger] repairs(*request, qualified.receipt().image@, after, k),
            },
    {
        if !safe_id(request.incident_id) || !safe_id(request.run_id) || !digest::valid_digest(
            request.evidence_digest,
        ) {
            return None;
        }
        let after = match render(request.source, qualified.image()) {
            Ok(after) => after,
            Err(_) => return None,
        };
        if validate_change(
            request.expected_base,
            request.current_base,
            request.source,
            after.as_str(),
            qualified.image(),
            &[PILOT_PATH],
        ).is_err() {
            return None;
        }
        let old_lines = split::split_pieces(request.source);
        let new_lines = split::split_pieces(after.as_str());
        let k = match find_sole_change(&old_lines, &new_lines) {
            Some(k) => k,
            None => return None,
        };
        proof {
            assert(text::texts(old_lines@)[k as int] == old_lines@[k as int]@);
            assert(text::texts(new_lines@)[k as int] == new_lines@[k as int]@);
        }
        if !replaceable_line(old_lines[k].as_str()) {
            return None;
        }
        let qualification = qualified.receipt_digest();
        let candidate = ManualRepairCandidate {
            schema: "ai-sre/manual-repair-candidate/v1".to_owned(),
            title: "fix(utility): restore qualified it-tools image".to_owned(),
            incident_path: text::prefixed("/incidents/", request.incident_id),
            evidence_citations,
            incident_digest: digest::digest(request.incident_id.as_bytes()),
            run_digest: digest::digest(request.run_id.as_bytes()),
            base_sha: request.expected_base.to_owned(),
            source_digest: digest::digest(request.source.as_bytes()),
            evidence_digest: request.evidence_digest.to_owned(),
            patch: patch_of(k + 1, old_lines[k].as_str(), new_lines[k].as_str()),
            description: description_of(
                request.expected_base,
                qualification.as_str(),
                request.evidence_digest,
            ),
            qualification_digest: qualification,
            image: qualified.image().to_owned(),
        };
        assert(repairs(*request, qualified.receipt().image@, after@, k as int));
        Some(candidate)
    }
}

/// The JSON of a citation says its evidence, source and content digest.
pub proof fn citations_say_evidence_source_and_digest(c: CitationView)
    ensures
        ({
            let text = citation_json(c);
            &&& text[0] == '{' && text.last() == '}'
            &&& text::has_part(text, "\"evidence_id\":"@ + json::json_string(c.evidence_id))
            &&& text::has_part(text, "\"source\":"@ + json::json_string(c.source.name()))
            &&& text::has_part(text, "\"content_digest\":"@ + json::json_string(c.content_digest))
        }),
{
    let items = seq![
        json::member("evidence_id"@, json::json_string(c.evidence_id)),
        json::member("source"@, json::json_string(c.source.name())),
        json::member("content_digest"@, json::json_string(c.content_digest)),
    ];
    json::objects_hold_their_members(items);
    assert(citation_json(c) == json::object_text(items));
    reveal_strlit("\"");
    reveal_strlit("\":");
    reveal_strlit("evidence_id");
    reveal_strlit("\"evidence_id\":");
    assert(items[0] =~= "\"evidence_id\":"@ + json::json_string(c.evidence_id));
    reveal_strlit("source");
    reveal_strlit("\"source\":");
    assert(items[1] =~= "\"source\":"@ + json::json_string(c.source.name()));
    reveal_strlit("content_digest");
    reveal_strlit("\"content_digest\":");
    assert(items[2] =~= "\"content_digest\":"@ + json::json_string(c.content_digest));
}

/// The JSON of a candidate, which names the artifact, says every field of it.
pub proof fn candidates_say_every_field(c: CandidateView)
    ensures
        ({
            let text = candidate_json(c);
            &&& text[0] == '{' && text.last() == '}'
            &&& text::has_part(text, "\"schema\":"@ + json::json_string(c.schema))
            &&& text::has_part(text, "\"title\":"@ + json::json_string(c.title))
            &&& text::has_part(text, "\"incident_path\":"@ + json::json_string(c.incident_path))
            &&& text::has_part(text, "\"evidence_citations\":"@ + json::array_text( c.evidence_citations.map_values(|x: CitationView| citation_json(x)), ))
            &&& text::has_part(text, "\"incident_digest\":"@ + json::json_string(c.incident_digest))
            &&& text::has_part(text, "\"run_digest\":"@ + json::json_string(c.run_digest))
            &&& text::has_part(text, "\"base_sha\":"@ + json::json_string(c.base_sha))
            &&& text::has_part(text, "\"source_digest\":"@ + json::json_string(c.source_digest))
            &&& text::has_part(text, "\"evidence_digest\":"@ + json::json_string(c.evidence_digest))
            &&& text::has_part(text, "\"qualification_digest\":"@ + json::json_string(c.qualification_digest))
            &&& text::has_part(text, "\"image\":"@ + json::json_string(c.image))
            &&& text::has_part(text, "\"patch\":"@ + json::json_string(c.patch))
            &&& text::has_part(text, "\"description\":"@ + json::json_string(c.description))
        }),
{
    let items = seq![
        json::member("schema"@, json::json_string(c.schema)),
        json::member("title"@, json::json_string(c.title)),
        json::member("incident_path"@, json::json_string(c.incident_path)),
        json::member("evidence_citations"@, json::array_text( c.evidence_citations.map_values(|x: CitationView| citation_json(x)), )),
        json::member("incident_digest"@, json::json_string(c.incident_digest)),
        json::member("run_digest"@, json::json_string(c.run_digest)),
        json::member("base_sha"@, json::json_string(c.base_sha)),
        json::member("source_digest"@, json::json_string(c.source_digest)),
        json::member("evidence_digest"@, json::json_string(c.evidence_digest)),
        json::member("qualification_digest"@, json::json_string(c.qualification_digest)),
        json::member("image"@, json::json_string(c.image)),
        json::member("patch"@, json::json_string(c.patch)),
        json::member("description"@, json::json_string(c.description)),
    ];
    json::objects_hold_their_members(items);
    assert(candidate_json(c) == json::object_text(items));
    reveal_strlit("\"");
    reveal_strlit("\":");
    reveal_strlit("schema");
    reveal_strlit("\"schema\":");
    assert(items[0] =~= "\"schema\":"@ + json::json_string(c.schema));
    reveal_strlit("title");
    reveal_strlit("\"title\":");
    assert(items[1] =~= "\"title\":"@ + json::json_string(c.title));
    reveal_strlit("incident_path");
    reveal_strlit("\"incident_path\":");
    assert(items[2] =~= "\"incident_path\":"@ + json::json_string(c.incident_path));
    reveal_strlit("evidence_citations");
    reveal_strlit("\"evidence_citations\":");
    assert(items[3] =~= "\"evidence_citations\":"@ + json::array_text( c.evidence_citations.map_values(|x: CitationView| citation_json(x)), ));
    reveal_strlit("incident_digest");
    reveal_strlit("\"incident_digest\":");
    assert(items[4] =~= "\"incident_digest\":"@ + json::json_string(c.incident_digest));
    reveal_strlit("run_digest");
    reveal_strlit("\"run_digest\":");
    assert(items[5] =~= "\"run_digest\":"@ + json::json_string(c.run_digest));
    reveal_strlit("base_sha");
    reveal_strlit("\"base_sha\":");
    assert(items[6] =~= "\"base_sha\":"@ + json::json_string(c.base_sha));
    reveal_strlit("source_digest");
    reveal_strlit("\"source_digest\":");
    assert(items[7] =~= "\"source_digest\":"@ + json::json_string(c.source_digest));
    reveal_strlit("evidence_digest");
    reveal_strlit("\"evidence_digest\":");
    assert(items[8] =~= "\"evidence_digest\":"@ + json::json_string(c.evidence_digest));
    reveal_strlit("qualification_digest");
    reveal_strlit("\"qualification_digest\":");
    assert(items[9] =~= "\"qualification_digest\":"@ + json::json_string(c.qualification_digest));
    reveal_strlit("image");
    reveal_strlit("\"image\":");
    assert(items[10] =~= "\"image\":"@ + json::json_string(c.image));
    reveal_strlit("patch");
    reveal_strlit("\"patch\":");
    assert(items[11] =~= "\"patch\":"@ + json::json_string(c.patch));
    reveal_strlit("description");
    reveal_strlit("\"description\":");
    assert(items[12] =~= "\"description\":"@ + json::json_string(c.description));
}

/// A candidate is built of a request exactly where its identities are plain, its evidence is a digest,
/// its base is full and unmoved, and the repair to the qualified image changes one line, whose image
/// may be replaced.
pub proof fn candidates_are_built_of_bound_one_line_repairs(
    request: ManualRepairRequest,
    image: Seq<char>,
    after: Seq<char>,
    k: int,
)
    ensures
        ({
            let before = split::pieces(request.source@);
            let changed = split::pieces(after);
            repairs(request, image, after, k) <==> receipt::is_safe_id(request.incident_id@)
                && receipt::is_safe_id(request.run_id@) && digest::is_digest(
                request.evidence_digest@,
            ) && it_tools_image::rendered(request.source@, image) is Ok && it_tools_image::rendered(
                request.source@,
                image,
            )->Ok_0 == after && validate::is_sha(request.expected_base@) && request.current_base@
                == request.expected_base@ && vstd::utf8::encode_utf8(after).len() <= 262144 && 0 <= k
                < before.len() && k < changed.len() && before[k] != changed[k] && (forall|j: int|
                0 <= j < before.len() && j < changed.len() && j != k ==> #[trigger] before[j]
                    == changed[j]) && is_replaceable_line(before[k])
        }),
{
    let before = split::pieces(request.source@);
    let changed = split::pieces(after);
    if sole_change(before, changed, k) {
        assert forall|j: int|
            0 <= j < before.len() && j < changed.len() && j != k implies #[trigger] before[j]
            == changed[j] by {
            assert(!differs_at(before, changed, j));
        }
    }
}

/// A line may be replaced exactly where it has no comment and is an `image:` with a plain reference of
/// at most 256 characters into the one repository.
pub proof fn replaceable_lines_name_the_one_repository(line: Seq<char>)
    ensures
        is_replaceable_line(line) <==> !line.contains('#') && "image:"@.is_prefix_of(
            trim::trim(line),
        ) && (yaml::yaml_string(trim::trim(trim::trim(line).skip(6))) matches Some(image) && (
        "ghcr.io/corentinth/it-tools:"@.is_prefix_of(image)
            || "ghcr.io/corentinth/it-tools@sha256:"@.is_prefix_of(image)) && image.len() <= 256
            && forall|i: int|
            0 <= i < image.len() ==> ('0' <= #[trigger] image[i] <= '9') || ('a' <= image[i] <= 'z')
                || ('A' <= image[i] <= 'Z') || image[i] == '.' || image[i] == '/' || image[i] == ':'
                || image[i] == '@' || image[i] == '_' || image[i] == '-'),
{
    reveal_strlit("image:");
    let body = trim::trim(line);
    if "image:"@.is_prefix_of(body) {
        let value = yaml::yaml_string(trim::trim(body.skip(6)));
        if value is Some {
            let image = value->0;
            assert(text::Alphabet::ImageReference.spells(image) == forall|i: int|
                0 <= i < image.len() ==> ('0' <= #[trigger] image[i] <= '9') || ('a' <= image[i]
                    <= 'z') || ('A' <= image[i] <= 'Z') || image[i] == '.' || image[i] == '/'
                    || image[i] == ':' || image[i] == '@' || image[i] == '_' || image[i] == '-');
        }
    }
}

/// A patch is a unified diff of the pilot file that takes one line away and adds one at its number.
pub proof fn patches_replace_one_numbered_line(number: nat, before: Seq<char>, after: Seq<char>)
    ensures
        ({
            let patch = patch_text(number, before, after);
            let head = "--- a/stacks/utility/compose.yml\n+++ b/stacks/utility/compose.yml\n@@ -"@
                + number::decimal(number) + ",1 +"@ + number::decimal(number) + ",1 @@\n"@;
            let out = if before.len() > 0 && before.last() == '\n' {
                "-"@ + before
            } else {
                "-"@ + before + "\n\\ No newline at end of file\n"@
            };
            let put = if after.len() > 0 && after.last() == '\n' {
                "+"@ + after
            } else {
                "+"@ + after + "\n\\ No newline at end of file\n"@
            };
            patch == head + out + put
        }),
{
    reveal_strlit("--- a/stacks/utility/compose.yml\n+++ b/stacks/utility/compose.yml\n@@ -");
    reveal_strlit("--- a/");
    reveal_strlit("\n+++ b/");
    reveal_strlit("\n@@ -");
    reveal_strlit("stacks/utility/compose.yml");
    reveal_strlit("-");
    reveal_strlit("+");
    assert("--- a/stacks/utility/compose.yml\n+++ b/stacks/utility/compose.yml\n@@ -"@ =~= "--- a/"@
        + PILOT_PATH@ + "\n+++ b/"@ + PILOT_PATH@ + "\n@@ -"@);
    assert("-"@ =~= seq!['-']);
    assert("+"@ =~= seq!['+']);
}

/// A candidate names what it was built of, and its patch is the one changed line, counted from one.
pub proof fn candidates_name_what_they_were_built_of(
    request: ManualRepairRequest,
    qualified: receipt::ReceiptWire,
    citations: Seq<CitationView>,
    after: Seq<char>,
    k: int,
)
    requires
        k >= 0,
    ensures
        ({
            let c = candidate_for(request, qualified, citations, after, k);
            &&& c.schema == "ai-sre/manual-repair-candidate/v1"@
            &&& c.title == "fix(utility): restore qualified it-tools image"@
            &&& c.incident_path == "/incidents/"@ + request.incident_id@
            &&& c.evidence_citations == citations
            &&& c.incident_digest == digest::text_digest(request.incident_id@)
            &&& c.run_digest == digest::text_digest(request.run_id@)
            &&& c.base_sha == request.expected_base@
            &&& c.source_digest == digest::text_digest(request.source@)
            &&& c.evidence_digest == request.evidence_digest@
            &&& c.qualification_digest == digest::text_digest(qualified.json())
            &&& c.image == qualified.image@
            &&& c.patch == patch_text(
                (1 + k) as nat,
                split::pieces(request.source@)[k],
                split::pieces(after)[k],
            )
            &&& text::has_part(c.description, "\nBase: "@ + request.expected_base@)
            &&& text::has_part(
                c.description,
                "\nQualified deployment receipt: "@ + digest::text_digest(qualified.json()),
            )
            &&& text::has_part(c.description, "\nEvidence: "@ + request.evidence_digest@)
        }),
{
    let base = request.expected_base@;
    let qualification = qualified.identity();
    let evidence = request.evidence_digest@;
    lemma_description_parts(base, qualification, evidence);
}

proof fn lemma_description_parts(
    base: Seq<char>,
    qualification: Seq<char>,
    evidence: Seq<char>,
)
    ensures
        text::has_part(description_text(base, qualification, evidence), "\nBase: "@ + base),
        text::has_part(
            description_text(base, qualification, evidence),
            "\nQualified deployment receipt: "@ + qualification,
        ),
        text::has_part(description_text(base, qualification, evidence), "\nEvidence: "@ + evidence),
{
    let whole = description_text(base, qualification, evidence);
    let head =
        "Manual repair candidate — not publish-ready.\n\nTarget: utility/it-tools; path: "@
        + PILOT_PATH@;
    let dot = ".\nBase: "@;
    let one = head + dot + base;
    let two = one + "\nQualified deployment receipt: "@ + qualification;
    let three = two + "\nEvidence: "@ + evidence;
    reveal_strlit(".\nBase: ");
    reveal_strlit("\nBase: ");
    assert(one =~= (head + seq!['.']) + ("\nBase: "@ + base)) by {
        assert(dot =~= seq!['.'] + "\nBase: "@);
    }
    text::lemma_own_part("\nBase: "@ + base);
    text::lemma_parts_stay(head + seq!['.'], "\nBase: "@ + base);
    let q = "\nQualified deployment receipt: "@ + qualification;
    assert(two =~= one + q);
    text::lemma_own_part(q);
    text::lemma_parts_stay(one, q);
    let e = "\nEvidence: "@ + evidence;
    assert(three =~= two + e);
    text::lemma_own_part(e);
    text::lemma_parts_stay(two, e);
    let tail = whole.skip(three.len() as int);
    assert(whole =~= three + tail);
    text::lemma_parts_stay(three, tail);
}

/// A candidate binds the snapshot of its base and source whose pilot file is its repair, and is bound
/// to the incident and run that it names.
pub proof fn candidates_bind_their_snapshot_and_scope(
    candidate: ManualRepairCandidate,
    snapshot: SnapshotView,
    scope: JournalContext,
    base: Seq<char>,
)
    ensures
        candidate.binds(snapshot) <==> snapshot.base == candidate.data().base_sha
            && digest::text_digest(snapshot.original) == candidate.data().source_digest
            && it_tools_image::rendered(snapshot.original, candidate.data().image) is Ok
            && it_tools_image::rendered(snapshot.original, candidate.data().image)->Ok_0
            == snapshot.pilot,
        candidate.bound_to(scope, base) <==> base == candidate.data().base_sha
            && digest::text_digest(scope.incident_id@) == candidate.data().incident_digest
            && digest::text_digest(scope.run_id@) == candidate.data().run_digest,
{
}

} // verus!
