//! Deployment receipts from a root-controlled, symlink-free Linux inbox.
//!
//! A trusted producer must join protected deployment completion, the observed
//! commit/image, and strict Gatus/Prometheus samples. The checks here authenticate
//! filesystem provenance from observed metadata, not upstream APIs. No model-facing or
//! network receipt import exists.

use super::it_tools_image;
use super::it_tools_image::valid_image;
use super::qualified_deployment::{HealthSample, ObservationPolicy};
use super::validate;
use super::validate::valid_sha;
use crate::digest::digest;
use crate::files;
use crate::files::FileFacts;
use crate::json;
use crate::text;
use crate::text::number;
use vstd::prelude::*;

verus! {

/// Largest accepted receipt, in bytes.
pub const MAX_RECEIPT_BYTES: u64 = 1048576;

/// Largest number of health samples in a receipt.
pub const MAX_SAMPLES: usize = 10000;

/// The fixed wire form of a deployment receipt.
pub struct ReceiptWire {
    /// Schema identifier.
    pub schema: String,
    /// Source repository.
    pub repository: String,
    /// Deployed service.
    pub service: String,
    /// Producer event identity.
    pub deployment_id: String,
    /// Deployed commit.
    pub commit: String,
    /// Deployed image.
    pub image: String,
    /// Commit observed after deployment.
    pub observed_commit: String,
    /// Image observed after deployment.
    pub observed_image: String,
    /// Unix second of completion.
    pub completed_at: u64,
    /// Unix second at which the policy was declared.
    pub policy_declared_at: u64,
    /// Declared observation policy.
    pub policy: ObservationPolicy,
    /// Health observations in order.
    pub samples: Vec<HealthSample>,
    /// Whether the deployment succeeded.
    pub deployment_succeeded: bool,
    /// Whether the receipt was revoked.
    pub revoked: bool,
}

/// Safe failures expose no receipt contents or filesystem details.
#[derive(Debug, Clone, Copy, PartialEq, Eq, Structural)]
pub enum ReceiptError {
    /// Missing, mutable, linked, oversized, or unreadable inbox data is untrusted.
    Unprotected,
    /// The fixed schema or pilot identity is invalid.
    InvalidFields,
}

/// An identifier of at most 128 letters, digits, `-` and `_`.
pub open spec fn is_safe_id(value: Seq<char>) -> bool {
    1 <= value.len() <= 128 && text::Alphabet::Identifier.spells(value)
}

/// Decides [`is_safe_id`].
pub fn safe_id(value: &str) -> (r: bool)
    ensures
        r == is_safe_id(value@),
{
    let length: usize = text::chars_of(value).len();
    1 <= length && length <= 128 && text::Alphabet::Identifier.spelled(value)
}

/// An observation policy as JSON.
pub open spec fn policy_json(policy: ObservationPolicy) -> Seq<char> {
    json::object_text(
        seq![
            json::member("window_seconds"@, number::decimal(policy.window_seconds as nat)),
            json::member("max_gap_seconds"@, number::decimal(policy.max_gap_seconds as nat)),
            json::member("max_age_seconds"@, number::decimal(policy.max_age_seconds as nat)),
        ],
    )
}

/// A health sample as JSON.
pub open spec fn sample_json(sample: HealthSample) -> Seq<char> {
    json::object_text(
        seq![
            json::member("observed_at"@, number::decimal(sample.observed_at as nat)),
            json::member("gatus_healthy"@, json::bool_text(sample.gatus_healthy)),
            json::member("prometheus_healthy"@, json::bool_text(sample.prometheus_healthy)),
        ],
    )
}

fn policy_text(policy: &ObservationPolicy) -> (r: String)
    ensures
        r@ == policy_json(*policy),
{
    let members = vec![
        json::number_member("window_seconds", policy.window_seconds),
        json::number_member("max_gap_seconds", policy.max_gap_seconds),
        json::number_member("max_age_seconds", policy.max_age_seconds),
    ];
    let out = json::object(&members);
    assert(text::texts(members@) =~= seq![members@[0]@, members@[1]@, members@[2]@]);
    out
}

fn sample_text(sample: &HealthSample) -> (r: String)
    ensures
        r@ == sample_json(*sample),
{
    let members = vec![
        json::number_member("observed_at", sample.observed_at),
        json::bool_member("gatus_healthy", sample.gatus_healthy),
        json::bool_member("prometheus_healthy", sample.prometheus_healthy),
    ];
    let out = json::object(&members);
    assert(text::texts(members@) =~= seq![members@[0]@, members@[1]@, members@[2]@]);
    out
}

impl ReceiptWire {
    /// The fixed schema and pilot identity.
    pub open spec fn well_shaped(self) -> bool {
        &&& self.schema@ == "ai-sre/deployment-receipt/v1"@
        &&& self.repository@ == "bodhispace-xyz/bodhispace-homelab"@
        &&& self.service@ == "utility/it-tools"@
        &&& is_safe_id(self.deployment_id@)
        &&& validate::is_sha(self.commit@)
        &&& validate::is_sha(self.observed_commit@)
        &&& it_tools_image::is_pilot_image(self.image@)
        &&& it_tools_image::is_pilot_image(self.observed_image@)
        &&& self.completed_at <= i64::MAX
        &&& self.samples@.len() <= MAX_SAMPLES
    }

    /// The receipt as JSON, members in declaration order.
    pub open spec fn json(self) -> Seq<char> {
        json::object_text(
            seq![
                json::member("schema"@, json::json_string(self.schema@)),
                json::member("repository"@, json::json_string(self.repository@)),
                json::member("service"@, json::json_string(self.service@)),
                json::member("deployment_id"@, json::json_string(self.deployment_id@)),
                json::member("commit"@, json::json_string(self.commit@)),
                json::member("image"@, json::json_string(self.image@)),
                json::member("observed_commit"@, json::json_string(self.observed_commit@)),
                json::member("observed_image"@, json::json_string(self.observed_image@)),
                json::member("completed_at"@, number::decimal(self.completed_at as nat)),
                json::member(
                    "policy_declared_at"@,
                    number::decimal(self.policy_declared_at as nat),
                ),
                json::member("policy"@, policy_json(self.policy)),
                json::member(
                    "samples"@,
                    json::array_text(self.samples@.map_values(|s: HealthSample| sample_json(s))),
                ),
                json::member("deployment_succeeded"@, json::bool_text(self.deployment_succeeded)),
                json::member("revoked"@, json::bool_text(self.revoked)),
            ],
        )
    }

    /// Content identity of the receipt.
    pub open spec fn identity(self) -> Seq<char> {
        crate::digest::text_digest(self.json())
    }

    /// Checks the fixed schema and pilot identity.
    pub fn validate_shape(&self) -> (r: Result<(), ReceiptError>)
        ensures
            self.well_shaped() ==> r is Ok,
            !self.well_shaped() ==> r == Err::<(), ReceiptError>(ReceiptError::InvalidFields),
    {
        if !text::text_eq(self.schema.as_str(), "ai-sre/deployment-receipt/v1") || !text::text_eq(
            self.repository.as_str(),
            "bodhispace-xyz/bodhispace-homelab",
        ) || !text::text_eq(self.service.as_str(), "utility/it-tools") || !safe_id(
            self.deployment_id.as_str(),
        ) || !valid_sha(self.commit.as_str()) || !valid_sha(self.observed_commit.as_str())
            || !valid_image(self.image.as_str()) || !valid_image(self.observed_image.as_str())
            || self.completed_at > i64::MAX as u64 || self.samples.len() > MAX_SAMPLES {
            return Err(ReceiptError::InvalidFields);
        }
        Ok(())
    }

    fn samples_text(&self) -> (r: String)
        ensures
            r@ == json::array_text(self.samples@.map_values(|s: HealthSample| sample_json(s))),
    {
        let mut items: Vec<String> = Vec::new();
        let mut i: usize = 0;
        while i < self.samples.len()
            invariant
                i <= self.samples.len(),
                items.len() == i,
                forall|j: int| 0 <= j < i ==> (#[trigger] items@[j])@ == sample_json(
                    self.samples@[j],
                ),
            decreases self.samples.len() - i,
        {
            items.push(sample_text(&self.samples[i]));
            i += 1;
        }
        assert(text::texts(items@) =~= self.samples@.map_values(
            |s: HealthSample| sample_json(s),
        ));
        json::array(&items)
    }

    /// Writes the receipt as JSON.
    pub fn json_text(&self) -> (r: String)
        ensures
            r@ == self.json(),
    {
        let policy = policy_text(&self.policy);
        let samples = self.samples_text();
        let m = vec![
            json::text_member("schema", self.schema.as_str()),
            json::text_member("repository", self.repository.as_str()),
            json::text_member("service", self.service.as_str()),
            json::text_member("deployment_id", self.deployment_id.as_str()),
            json::text_member("commit", self.commit.as_str()),
            json::text_member("image", self.image.as_str()),
            json::text_member("observed_commit", self.observed_commit.as_str()),
            json::text_member("observed_image", self.observed_image.as_str()),
            json::number_member("completed_at", self.completed_at),
            json::number_member("policy_declared_at", self.policy_declared_at),
            json::raw_member("policy", policy.as_str()),
            json::raw_member("samples", samples.as_str()),
            json::bool_member("deployment_succeeded", self.deployment_succeeded),
            json::bool_member("revoked", self.revoked),
        ];
        let out = json::object(&m);
        assert(text::texts(m@) =~= seq![
            m@[0]@,
            m@[1]@,
            m@[2]@,
            m@[3]@,
            m@[4]@,
            m@[5]@,
            m@[6]@,
            m@[7]@,
            m@[8]@,
            m@[9]@,
            m@[10]@,
            m@[11]@,
            m@[12]@,
            m@[13]@,
        ]);
        out
    }

    /// Content identity of the receipt.
    pub fn digest(&self) -> (r: String)
        ensures
            r@ == self.identity(),
            crate::digest::is_digest(r@),
    {
        let wire = self.json_text();
        digest(wire.as_str().as_bytes())
    }
}

/// What was observed while a receipt file was read: the path itself first, then each directory
/// above it, all without following links.
pub struct ReceiptObservation {
    /// Whether this is Linux. The protection contract is Linux DAC without writable ACL masks.
    pub linux: bool,
    /// Path of the file.
    pub path: String,
    /// The file and each directory above it.
    pub ancestors: Vec<FileFacts>,
    /// The file before it was opened.
    pub before: FileFacts,
    /// The opened file.
    pub opened: FileFacts,
    /// Number of bytes that were read, at most one more than the limit.
    pub length: u64,
}

/// An absolute path without `..`, on Linux.
pub open spec fn is_inbox_path(linux: bool, path: Seq<char>) -> bool {
    linux && files::is_absolute(path) && !files::climbs(path)
}

/// The file or a directory above it: root's, written by root alone, and no link.
pub open spec fn is_protected_part(facts: FileFacts, leaf: bool) -> bool {
    &&& facts.uid == 0
    &&& facts.unshared()
    &&& !facts.is_symlink
    &&& leaf || facts.is_dir
}

/// A chain of protected paths.
pub open spec fn is_protected_chain(ancestors: Seq<FileFacts>) -> bool {
    forall|i: int| 0 <= i < ancestors.len() ==> is_protected_part(#[trigger] ancestors[i], i == 0)
}

/// A regular file within the size limit, with a single link.
pub open spec fn is_receipt_file(before: FileFacts) -> bool {
    before.is_file && before.len <= MAX_RECEIPT_BYTES && before.nlink == 1
}

/// The opened file is the one observed before, and still protected.
pub open spec fn is_same_protected_file(before: FileFacts, opened: FileFacts) -> bool {
    opened.same_file(before) && opened.uid == 0 && opened.unshared() && opened.is_file
}

impl ReceiptObservation {
    /// The bytes came from protected local storage.
    pub open spec fn protected(self) -> bool {
        &&& is_inbox_path(self.linux, self.path@)
        &&& is_protected_chain(self.ancestors@)
        &&& is_receipt_file(self.before)
        &&& is_same_protected_file(self.before, self.opened)
        &&& self.length <= MAX_RECEIPT_BYTES
    }
}

/// Decides [`is_inbox_path`], before the path is touched.
pub fn check_path(linux: bool, path: &str) -> (r: Result<(), ReceiptError>)
    ensures
        is_inbox_path(linux, path@) ==> r is Ok,
        !is_inbox_path(linux, path@) ==> r == Err::<(), ReceiptError>(ReceiptError::Unprotected),
{
    if !linux || !files::absolute(path) || files::climbing(path) {
        return Err(ReceiptError::Unprotected);
    }
    Ok(())
}

/// Decides [`is_protected_chain`], before the file is opened.
pub fn check_ancestors(ancestors: &Vec<FileFacts>) -> (r: Result<(), ReceiptError>)
    ensures
        is_protected_chain(ancestors@) ==> r is Ok,
        !is_protected_chain(ancestors@) ==> r == Err::<(), ReceiptError>(ReceiptError::Unprotected),
{
    let mut i: usize = 0;
    while i < ancestors.len()
        invariant
            i <= ancestors.len(),
            forall|j: int|
                0 <= j < i ==> is_protected_part(#[trigger] ancestors@[j], j == 0),
        decreases ancestors.len() - i,
    {
        let facts = ancestors[i];
        if facts.uid != 0 || !facts.is_unshared() || facts.is_symlink || (i != 0 && !facts.is_dir) {
            assert(!is_protected_part(ancestors@[i as int], i == 0));
            return Err(ReceiptError::Unprotected);
        }
        i += 1;
    }
    Ok(())
}

/// Decides [`is_receipt_file`], before the file is opened.
pub fn check_file(before: &FileFacts) -> (r: Result<(), ReceiptError>)
    ensures
        is_receipt_file(*before) ==> r is Ok,
        !is_receipt_file(*before) ==> r == Err::<(), ReceiptError>(ReceiptError::Unprotected),
{
    if !before.is_file || before.len > MAX_RECEIPT_BYTES || before.nlink != 1 {
        return Err(ReceiptError::Unprotected);
    }
    Ok(())
}

/// Decides [`is_same_protected_file`], before the file is read.
pub fn check_opened(before: &FileFacts, opened: &FileFacts) -> (r: Result<(), ReceiptError>)
    ensures
        is_same_protected_file(*before, *opened) ==> r is Ok,
        !is_same_protected_file(*before, *opened) ==> r == Err::<(), ReceiptError>(
            ReceiptError::Unprotected,
        ),
{
    if opened.dev != before.dev || opened.ino != before.ino || opened.uid != 0
        || !opened.is_unshared() || !opened.is_file {
        return Err(ReceiptError::Unprotected);
    }
    Ok(())
}

/// A receipt whose bytes came from protected local storage; health is not yet qualified.
pub struct ProtectedReceipt {
    wire: ReceiptWire,
}

impl ProtectedReceipt {
    /// The receipt.
    pub closed spec fn receipt(self) -> ReceiptWire {
        self.wire
    }

    /// Admits a receipt read from an absolute file path under root-owned directories with no
    /// group/other writes; one that could not be parsed has invalid fields. Root must publish
    /// regular files by atomic rename and must not modify opened files in place.
    pub fn read(seen: &ReceiptObservation, wire: Option<ReceiptWire>) -> (r: Result<
        Self,
        ReceiptError,
    >)
        ensures
            match r {
                Ok(receipt) => seen.protected() && wire == Some(receipt.receipt())
                    && receipt.receipt().well_shaped(),
                Err(error) => if !seen.protected() {
                    error == ReceiptError::Unprotected
                } else {
                    error == ReceiptError::InvalidFields && !(wire matches Some(w)
                        && w.well_shaped())
                },
            },
    {
        if check_path(seen.linux, seen.path.as_str()).is_err() || check_ancestors(
            &seen.ancestors,
        ).is_err() || check_file(&seen.before).is_err() || check_opened(
            &seen.before,
            &seen.opened,
        ).is_err() || seen.length > MAX_RECEIPT_BYTES {
            return Err(ReceiptError::Unprotected);
        }
        match wire {
            Some(wire) => match wire.validate_shape() {
                Ok(()) => Ok(ProtectedReceipt { wire }),
                Err(error) => Err(error),
            },
            None => Err(ReceiptError::InvalidFields),
        }
    }

    /// Stable producer event identity, used for replay and contradiction detection.
    pub fn deployment_id(&self) -> (r: &str)
        ensures
            r@ == self.receipt().deployment_id@,
    {
        self.wire.deployment_id.as_str()
    }

    /// The receipt.
    pub fn wire(&self) -> (r: &ReceiptWire)
        ensures
            *r == self.receipt(),
    {
        &self.wire
    }
}

/// The JSON of an observation policy says each of its bounds.
pub proof fn observation_policies_say_their_seconds(policy: ObservationPolicy)
    ensures
        ({
            let text = policy_json(policy);
            &&& text[0] == '{' && text.last() == '}'
            &&& text::has_part(text, "\"window_seconds\":"@ + number::decimal(policy.window_seconds as nat))
            &&& text::has_part(text, "\"max_gap_seconds\":"@ + number::decimal(policy.max_gap_seconds as nat))
            &&& text::has_part(text, "\"max_age_seconds\":"@ + number::decimal(policy.max_age_seconds as nat))
        }),
{
    let items = seq![
        json::member("window_seconds"@, number::decimal(policy.window_seconds as nat)),
        json::member("max_gap_seconds"@, number::decimal(policy.max_gap_seconds as nat)),
        json::member("max_age_seconds"@, number::decimal(policy.max_age_seconds as nat)),
    ];
    json::objects_hold_their_members(items);
    assert(policy_json(policy) == json::object_text(items));
    reveal_strlit("\"");
    reveal_strlit("\":");
    reveal_strlit("window_seconds");
    reveal_strlit("\"window_seconds\":");
    assert(items[0] =~= "\"window_seconds\":"@ + number::decimal(policy.window_seconds as nat));
    reveal_strlit("max_gap_seconds");
    reveal_strlit("\"max_gap_seconds\":");
    assert(items[1] =~= "\"max_gap_seconds\":"@ + number::decimal(policy.max_gap_seconds as nat));
    reveal_strlit("max_age_seconds");
    reveal_strlit("\"max_age_seconds\":");
    assert(items[2] =~= "\"max_age_seconds\":"@ + number::decimal(policy.max_age_seconds as nat));
}

/// The JSON of a sample says when it was taken and what each check found.
pub proof fn samples_say_time_and_both_checks(sample: HealthSample)
    ensures
        ({
            let text = sample_json(sample);
            &&& text[0] == '{' && text.last() == '}'
            &&& text::has_part(text, "\"observed_at\":"@ + number::decimal(sample.observed_at as nat))
            &&& text::has_part(text, "\"gatus_healthy\":"@ + json::bool_text(sample.gatus_healthy))
            &&& text::has_part(text, "\"prometheus_healthy\":"@ + json::bool_text(sample.prometheus_healthy))
        }),
{
    let items = seq![
        json::member("observed_at"@, number::decimal(sample.observed_at as nat)),
        json::member("gatus_healthy"@, json::bool_text(sample.gatus_healthy)),
        json::member("prometheus_healthy"@, json::bool_text(sample.prometheus_healthy)),
    ];
    json::objects_hold_their_members(items);
    assert(sample_json(sample) == json::object_text(items));
    reveal_strlit("\"");
    reveal_strlit("\":");
    reveal_strlit("observed_at");
    reveal_strlit("\"observed_at\":");
    assert(items[0] =~= "\"observed_at\":"@ + number::decimal(sample.observed_at as nat));
    reveal_strlit("gatus_healthy");
    reveal_strlit("\"gatus_healthy\":");
    assert(items[1] =~= "\"gatus_healthy\":"@ + json::bool_text(sample.gatus_healthy));
    reveal_strlit("prometheus_healthy");
    reveal_strlit("\"prometheus_healthy\":");
    assert(items[2] =~= "\"prometheus_healthy\":"@ + json::bool_text(sample.prometheus_healthy));
}

/// The JSON of a deployment receipt says every field of it.
pub proof fn receipts_say_every_field(wire: ReceiptWire)
    ensures
        ({
            let text = wire.json();
            &&& text[0] == '{' && text.last() == '}'
            &&& text::has_part(text, "\"schema\":"@ + json::json_string(wire.schema@))
            &&& text::has_part(text, "\"repository\":"@ + json::json_string(wire.repository@))
            &&& text::has_part(text, "\"service\":"@ + json::json_string(wire.service@))
            &&& text::has_part(text, "\"deployment_id\":"@ + json::json_string(wire.deployment_id@))
            &&& text::has_part(text, "\"commit\":"@ + json::json_string(wire.commit@))
            &&& text::has_part(text, "\"image\":"@ + json::json_string(wire.image@))
            &&& text::has_part(text, "\"observed_commit\":"@ + json::json_string(wire.observed_commit@))
            &&& text::has_part(text, "\"observed_image\":"@ + json::json_string(wire.observed_image@))
            &&& text::has_part(text, "\"completed_at\":"@ + number::decimal(wire.completed_at as nat))
            &&& text::has_part(text, "\"policy_declared_at\":"@ + number::decimal(wire.policy_declared_at as nat))
            &&& text::has_part(text, "\"policy\":"@ + policy_json(wire.policy))
            &&& text::has_part(text, "\"samples\":"@ + json::array_text(wire.samples@.map_values(|s: HealthSample| sample_json(s))))
            &&& text::has_part(text, "\"deployment_succeeded\":"@ + json::bool_text(wire.deployment_succeeded))
            &&& text::has_part(text, "\"revoked\":"@ + json::bool_text(wire.revoked))
        }),
{
    let items = seq![
        json::member("schema"@, json::json_string(wire.schema@)),
        json::member("repository"@, json::json_string(wire.repository@)),
        json::member("service"@, json::json_string(wire.service@)),
        json::member("deployment_id"@, json::json_string(wire.deployment_id@)),
        json::member("commit"@, json::json_string(wire.commit@)),
        json::member("image"@, json::json_string(wire.image@)),
        json::member("observed_commit"@, json::json_string(wire.observed_commit@)),
        json::member("observed_image"@, json::json_string(wire.observed_image@)),
        json::member("completed_at"@, number::decimal(wire.completed_at as nat)),
        json::member("policy_declared_at"@, number::decimal(wire.policy_declared_at as nat)),
        json::member("policy"@, policy_json(wire.policy)),
        json::member("samples"@, json::array_text(wire.samples@.map_values(|s: HealthSample| sample_json(s)))),
        json::member("deployment_succeeded"@, json::bool_text(wire.deployment_succeeded)),
        json::member("revoked"@, json::bool_text(wire.revoked)),
    ];
    json::objects_hold_their_members(items);
    assert(wire.json() == json::object_text(items));
    reveal_strlit("\"");
    reveal_strlit("\":");
    reveal_strlit("schema");
    reveal_strlit("\"schema\":");
    assert(items[0] =~= "\"schema\":"@ + json::json_string(wire.schema@));
    reveal_strlit("repository");
    reveal_strlit("\"repository\":");
    assert(items[1] =~= "\"repository\":"@ + json::json_string(wire.repository@));
    reveal_strlit("service");
    reveal_strlit("\"service\":");
    assert(items[2] =~= "\"service\":"@ + json::json_string(wire.service@));
    reveal_strlit("deployment_id");
    reveal_strlit("\"deployment_id\":");
    assert(items[3] =~= "\"deployment_id\":"@ + json::json_string(wire.deployment_id@));
    reveal_strlit("commit");
    reveal_strlit("\"commit\":");
    assert(items[4] =~= "\"commit\":"@ + json::json_string(wire.commit@));
    reveal_strlit("image");
    reveal_strlit("\"image\":");
    assert(items[5] =~= "\"image\":"@ + json::json_string(wire.image@));
    reveal_strlit("observed_commit");
    reveal_strlit("\"observed_commit\":");
    assert(items[6] =~= "\"observed_commit\":"@ + json::json_string(wire.observed_commit@));
    reveal_strlit("observed_image");
    reveal_strlit("\"observed_image\":");
    assert(items[7] =~= "\"observed_image\":"@ + json::json_string(wire.observed_image@));
    reveal_strlit("completed_at");
    reveal_strlit("\"completed_at\":");
    assert(items[8] =~= "\"completed_at\":"@ + number::decimal(wire.completed_at as nat));
    reveal_strlit("policy_declared_at");
    reveal_strlit("\"policy_declared_at\":");
    assert(items[9] =~= "\"policy_declared_at\":"@ + number::decimal(wire.policy_declared_at as nat));
    reveal_strlit("policy");
    reveal_strlit("\"policy\":");
    assert(items[10] =~= "\"policy\":"@ + policy_json(wire.policy));
    reveal_strlit("samples");
    reveal_strlit("\"samples\":");
    assert(items[11] =~= "\"samples\":"@ + json::array_text(wire.samples@.map_values(|s: HealthSample| sample_json(s))));
    reveal_strlit("deployment_succeeded");
    reveal_strlit("\"deployment_succeeded\":");
    assert(items[12] =~= "\"deployment_succeeded\":"@ + json::bool_text(wire.deployment_succeeded));
    reveal_strlit("revoked");
    reveal_strlit("\"revoked\":");
    assert(items[13] =~= "\"revoked\":"@ + json::bool_text(wire.revoked));
}

/// A deployment receipt is shaped exactly where it is of the one schema, repository and service, has a
/// plain identity, full revisions and pinned images, and at most ten thousand samples.
pub proof fn receipts_are_shaped_exactly_so(wire: ReceiptWire)
    ensures
        wire.well_shaped() <==> wire.schema@ == "ai-sre/deployment-receipt/v1"@ && wire.repository@
            == "bodhispace-xyz/bodhispace-homelab"@ && wire.service@ == "utility/it-tools"@ && 1
            <= wire.deployment_id@.len() && wire.deployment_id@.len() <= 128 && (forall|i: int|
            0 <= i < wire.deployment_id@.len() ==> ('0' <= #[trigger] wire.deployment_id@[i] <= '9')
                || ('a' <= wire.deployment_id@[i] <= 'z') || ('A' <= wire.deployment_id@[i] <= 'Z')
                || wire.deployment_id@[i] == '-' || wire.deployment_id@[i] == '_')
            && validate::is_sha(wire.commit@) && validate::is_sha(wire.observed_commit@)
            && it_tools_image::is_pilot_image(wire.image@) && it_tools_image::is_pilot_image(
            wire.observed_image@,
        ) && wire.completed_at <= 9223372036854775807 && wire.samples@.len() <= 10000,
{
    let id = wire.deployment_id@;
    assert(text::Alphabet::Identifier.spells(id) == forall|i: int|
        0 <= i < id.len() ==> ('0' <= #[trigger] id[i] <= '9') || ('a' <= id[i] <= 'z') || ('A'
            <= id[i] <= 'Z') || id[i] == '-' || id[i] == '_');
}

/// A receipt file is protected exactly where it lies on Linux at an absolute path that does not climb,
/// below directories that only root writes, is one plain file of root of at most a mebibyte, and is
/// the file that was opened.
pub proof fn receipt_files_are_protected_exactly_so(seen: ReceiptObservation)
    ensures
        seen.protected() <==> seen.linux && seen.path@.len() >= 1 && seen.path@[0] == '/'
            && !files::climbs(seen.path@) && (forall|i: int|
            0 <= i < seen.ancestors@.len() ==> (#[trigger] seen.ancestors@[i]).uid == 0
                && seen.ancestors@[i].mode & 0o022 == 0 && !seen.ancestors@[i].is_symlink && (i == 0
                || seen.ancestors@[i].is_dir)) && seen.before.is_file && seen.before.nlink == 1
            && seen.before.len <= 1048576 && seen.opened.is_file && seen.opened.uid == 0
            && seen.opened.mode & 0o022 == 0 && seen.opened.dev == seen.before.dev && seen.opened.ino
            == seen.before.ino && seen.length <= 1048576,
{
    let chain = seen.ancestors@;
    assert forall|i: int| 0 <= i < chain.len() implies is_protected_part(#[trigger] chain[i], i == 0)
        == (chain[i].uid == 0 && chain[i].mode & 0o022 == 0 && !chain[i].is_symlink && (i == 0
        || chain[i].is_dir)) by {}
}

} // verus!
