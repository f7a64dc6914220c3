//! Typed promotion-manifest values and the verifier-owned trust boundary.
//!
//! Parsed manifests are untrusted data. Only a verifier-owned receipt can produce
//! `VerifiedPromotionManifest`, which is the only value accepted by runtime admission policy.

use crate::digest;
use crate::json;
use crate::text;
use crate::text::number;
use crate::text::trim;
use vstd::prelude::*;

verus! {

/// Promotion gates: runtime mutation and GitOps independently follow shadow qualification.
#[derive(Debug, Clone, Copy, PartialEq, Eq, Structural)]
pub enum Gate {
    /// Shadow quality gate.
    A,
    /// Supervised mutation gate.
    B,
    /// GitHub proposal gate.
    C,
}

impl Gate {
    /// The letter that names it.
    pub open spec fn letter(self) -> Seq<char> {
        match self {
            Gate::A => "A"@,
            Gate::B => "B"@,
            Gate::C => "C"@,
        }
    }

    /// The letter that names it.
    pub fn name(self) -> (r: &'static str)
        ensures
            r@ == self.letter(),
    {
        match self {
            Gate::A => "A",
            Gate::B => "B",
            Gate::C => "C",
        }
    }
}

/// Untrusted wire representation of a promotion manifest.
pub struct PromotionManifest {
    /// Canonical schema identifier.
    pub schema: String,
    /// Gate represented by this manifest.
    pub gate: Gate,
    /// Digest of the canonical payload, derived outside that payload.
    pub manifest_digest: String,
    /// Digest of the immediately preceding verified gate.
    pub predecessor_digest: Option<String>,
    /// Frozen replay corpus digest.
    pub corpus_digest: String,
    /// Digest of measured gate results.
    pub results_digest: String,
    /// Version of evaluated policy.
    pub policy_version: String,
    /// Version of deployment configuration.
    pub config_version: String,
    /// Immutable image or binary digest.
    pub binary_digest: String,
    /// Unix issue time.
    pub issued_at: i64,
    /// Unix expiry time.
    pub expires_at: i64,
    /// Offline signing key identifier.
    pub key_id: String,
    /// Trust-root generation.
    pub generation: u64,
    /// Explicit revocation marker.
    pub revoked: bool,
}

/// Verifier-owned receipt.
#[derive(Debug, Clone, Copy, PartialEq, Eq)]
pub struct VerifierReceipt {
    verified: (),
}

impl VerifierReceipt {
    /// Creates a receipt; only an offline verifier that has checked a signature and its trust
    /// root may call this.
    pub fn verified() -> Self {
        VerifierReceipt { verified: () }
    }
}

/// A manifest whose signature and trust-root binding were verified.
pub struct VerifiedPromotionManifest {
    manifest: PromotionManifest,
    receipt: VerifierReceipt,
}

impl VerifiedPromotionManifest {
    /// The verified manifest.
    pub closed spec fn verified_manifest(self) -> PromotionManifest {
        self.manifest
    }

    /// Constructs a verified value from a verifier-owned receipt.
    pub fn from_receipt(manifest: PromotionManifest, receipt: VerifierReceipt) -> (r: Self)
        ensures
            r.verified_manifest() == manifest,
    {
        VerifiedPromotionManifest { manifest, receipt }
    }

    /// Returns the verified manifest data for policy binding.
    pub fn manifest(&self) -> (r: &PromotionManifest)
        ensures
            *r == self.verified_manifest(),
    {
        &self.manifest
    }

    /// Returns the digest used to identify this admitted gate.
    pub fn digest(&self) -> (r: &str)
        ensures
            r@ == self.verified_manifest().manifest_digest@,
    {
        self.manifest.manifest_digest.as_str()
    }
}

/// Errors returned when a manifest cannot be admitted.
#[derive(Debug, Clone, Copy, PartialEq, Eq, Structural)]
pub enum PromotionError {
    /// A field is empty or malformed.
    InvalidFields,
    /// The manifest is outside its validity interval.
    NotCurrent,
    /// The signature, key, or revocation state is not trusted.
    UntrustedSignature,
    /// The manifest does not match the running deployment.
    BindingMismatch,
    /// The chain of gates is missing or skips its predecessor.
    InvalidPredecessor,
}

/// `sha256:` and 64 hexadecimal digits in either case.
pub open spec fn is_manifest_digest(value: Seq<char>) -> bool {
    match text::after_prefix(value, "sha256:"@) {
        Some(hex) => hex.len() == 64 && text::Alphabet::Hex.spells(hex),
        None => false,
    }
}

/// Decides [`is_manifest_digest`].
pub fn valid_digest(value: &str) -> (r: bool)
    ensures
        r == is_manifest_digest(value@),
{
    match text::strip_prefix(value, "sha256:") {
        Some(hex) => text::chars_of(hex.as_str()).len() == 64 && text::Alphabet::Hex.spelled(
            hex.as_str(),
        ),
        None => false,
    }
}

/// The characters of an optional text.
pub open spec fn optional_text(value: Option<String>) -> Option<Seq<char>> {
    match value {
        Some(value) => Some(value@),
        None => None,
    }
}

/// The keys of the canonical payload.
pub open spec fn payload_keys() -> Seq<Seq<char>> {
    seq![
        "schema"@,
        "gate"@,
        "predecessor_digest"@,
        "corpus_digest"@,
        "results_digest"@,
        "policy_version"@,
        "config_version"@,
        "binary_digest"@,
        "issued_at"@,
        "expires_at"@,
        "key_id"@,
        "generation"@,
        "revoked"@,
    ]
}

impl PromotionManifest {
    /// The values of the canonical payload: every field but the derived digest, in declaration
    /// order.
    pub open spec fn values(self) -> Seq<Seq<char>> {
        seq![
            json::json_string(self.schema@),
            json::json_string(self.gate.letter()),
            json::optional_string(optional_text(self.predecessor_digest)),
            json::json_string(self.corpus_digest@),
            json::json_string(self.results_digest@),
            json::json_string(self.policy_version@),
            json::json_string(self.config_version@),
            json::json_string(self.binary_digest@),
            number::signed_decimal(self.issued_at as int),
            number::signed_decimal(self.expires_at as int),
            json::json_string(self.key_id@),
            number::decimal(self.generation as nat),
            json::bool_text(self.revoked),
        ]
    }

    /// The canonical payload.
    pub open spec fn payload(self) -> Seq<char> {
        json::object_text(json::members(payload_keys(), self.values()))
    }

    /// The identity of the exact canonical payload.
    pub open spec fn identity(self) -> Seq<char> {
        digest::text_digest(self.payload())
    }

    /// Present, well-formed fields whose digest is the derived one.
    pub open spec fn well_formed(self) -> bool {
        &&& self.schema@ == "KTD21/v1"@
        &&& !trim::is_blank(self.schema@)
        &&& !trim::is_blank(self.manifest_digest@)
        &&& !trim::is_blank(self.corpus_digest@)
        &&& !trim::is_blank(self.results_digest@)
        &&& !trim::is_blank(self.policy_version@)
        &&& !trim::is_blank(self.config_version@)
        &&& !trim::is_blank(self.binary_digest@)
        &&& !trim::is_blank(self.key_id@)
        &&& self.issued_at < self.expires_at
        &&& self.generation != 0
        &&& self.manifest_digest@ == self.identity()
        &&& is_manifest_digest(self.corpus_digest@)
        &&& is_manifest_digest(self.results_digest@)
        &&& is_manifest_digest(self.binary_digest@)
    }

    /// The first gate names no predecessor; the others name one by its digest.
    pub open spec fn chained(self) -> bool {
        match optional_text(self.predecessor_digest) {
            None => self.gate == Gate::A,
            Some(value) => self.gate != Gate::A && is_manifest_digest(value),
        }
    }

    /// The outcome of a shape check.
    pub open spec fn shape(self) -> Result<(), PromotionError> {
        if !self.well_formed() {
            Err(PromotionError::InvalidFields)
        } else if !self.chained() {
            Err(PromotionError::InvalidPredecessor)
        } else {
            Ok(())
        }
    }

    fn payload_text(&self) -> (r: String)
        ensures
            r@ == self.payload(),
    {
        let m = vec![
            json::text_member("schema", self.schema.as_str()),
            json::text_member("gate", self.gate.name()),
            json::optional_member("predecessor_digest", &self.predecessor_digest),
            json::text_member("corpus_digest", self.corpus_digest.as_str()),
            json::text_member("results_digest", self.results_digest.as_str()),
            json::text_member("policy_version", self.policy_version.as_str()),
            json::text_member("config_version", self.config_version.as_str()),
            json::text_member("binary_digest", self.binary_digest.as_str()),
            json::signed_member("issued_at", self.issued_at),
            json::signed_member("expires_at", self.expires_at),
            json::text_member("key_id", self.key_id.as_str()),
            json::number_member("generation", self.generation),
            json::bool_member("revoked", self.revoked),
        ];
        let out = json::object(&m);
        assert(text::texts(m@) =~= json::members(payload_keys(), self.values()));
        out
    }

    /// Returns canonical JSON bytes excluding the derived manifest digest.
    pub fn canonical_payload(&self) -> (r: Vec<u8>)
        ensures
            r@ == vstd::utf8::encode_utf8(self.payload()),
    {
        let payload = self.payload_text();
        vstd::slice::slice_to_vec(payload.as_str().as_bytes())
    }

    /// Computes the identity of the exact canonical payload.
    pub fn derived_digest(&self) -> (r: String)
        ensures
            r@ == self.identity(),
            digest::is_digest(r@),
    {
        let payload = self.canonical_payload();
        digest::digest(payload.as_slice())
    }

    /// Validates shape and the derived manifest identity.
    pub fn validate_shape(&self) -> (r: Result<(), PromotionError>)
        ensures
            r == self.shape(),
    {
        let derived = self.derived_digest();
        if !text::text_eq(self.schema.as_str(), "KTD21/v1") || trim::blank(self.schema.as_str())
            || trim::blank(self.manifest_digest.as_str()) || trim::blank(
            self.corpus_digest.as_str(),
        ) || trim::blank(self.results_digest.as_str()) || trim::blank(self.policy_version.as_str())
            || trim::blank(self.config_version.as_str()) || trim::blank(
            self.binary_digest.as_str(),
        ) || trim::blank(self.key_id.as_str()) || self.issued_at >= self.expires_at
            || self.generation == 0 || !text::text_eq(
            self.manifest_digest.as_str(),
            derived.as_str(),
        ) || !valid_digest(self.corpus_digest.as_str()) || !valid_digest(
            self.results_digest.as_str(),
        ) || !valid_digest(self.binary_digest.as_str()) {
            return Err(PromotionError::InvalidFields);
        }
        match (self.gate, &self.predecessor_digest) {
            (Gate::A, None) => Ok(()),
            (Gate::A, Some(_)) => Err(PromotionError::InvalidPredecessor),
            (_, Some(value)) => {
                if valid_digest(value.as_str()) {
                    Ok(())
                } else {
                    Err(PromotionError::InvalidPredecessor)
                }
            },
            _ => Err(PromotionError::InvalidPredecessor),
        }
    }
}

/// Manifests that agree on every field but the derived digest.
pub open spec fn agree(a: PromotionManifest, b: PromotionManifest) -> bool {
    &&& a.schema@ == b.schema@
    &&& a.gate == b.gate
    &&& optional_text(a.predecessor_digest) == optional_text(b.predecessor_digest)
    &&& a.corpus_digest@ == b.corpus_digest@
    &&& a.results_digest@ == b.results_digest@
    &&& a.policy_version@ == b.policy_version@
    &&& a.config_version@ == b.config_version@
    &&& a.binary_digest@ == b.binary_digest@
    &&& a.issued_at == b.issued_at
    &&& a.expires_at == b.expires_at
    &&& a.key_id@ == b.key_id@
    &&& a.generation == b.generation
    &&& a.revoked == b.revoked
}

/// The values of a payload are scalars.
proof fn lemma_values(m: PromotionManifest)
    ensures
        forall|i: int| 0 <= i < m.values().len() ==> json::is_scalar(#[trigger] m.values()[i]),
{
    json::lemma_scalars(optional_text(m.predecessor_digest), m.revoked);
    json::lemma_number_token(m.issued_at as int);
    json::lemma_number_token(m.expires_at as int);
    json::lemma_number_token(m.generation as int);
}

/// Canonical payloads, as bytes, are equal exactly where the manifests agree on every field but
/// the derived digest: the payload names the manifest.
pub proof fn payload_names_the_manifest(a: PromotionManifest, b: PromotionManifest)
    ensures
        vstd::utf8::encode_utf8(a.payload()) == vstd::utf8::encode_utf8(b.payload()) <==> agree(
            a,
            b,
        ),
{
    if vstd::utf8::encode_utf8(a.payload()) == vstd::utf8::encode_utf8(b.payload()) {
        vstd::utf8::encode_utf8_decode_utf8(a.payload());
        vstd::utf8::encode_utf8_decode_utf8(b.payload());
        assert(a.payload() == b.payload());
        lemma_values(a);
        lemma_values(b);
        let x = a.values();
        let y = b.values();
        json::lemma_object_reads_back(payload_keys(), x, y);
        assert(x[0] == y[0] && x[1] == y[1] && x[2] == y[2] && x[3] == y[3] && x[4] == y[4] && x[5]
            == y[5] && x[6] == y[6]);
        assert(x[7] == y[7] && x[8] == y[8] && x[9] == y[9] && x[10] == y[10] && x[11] == y[11]
            && x[12] == y[12]);
        json::lemma_string_reads_back(a.schema@, b.schema@);
        json::lemma_string_reads_back(a.gate.letter(), b.gate.letter());
        json::lemma_optional_reads_back(
            optional_text(a.predecessor_digest),
            optional_text(b.predecessor_digest),
        );
        json::lemma_string_reads_back(a.corpus_digest@, b.corpus_digest@);
        json::lemma_string_reads_back(a.results_digest@, b.results_digest@);
        json::lemma_string_reads_back(a.policy_version@, b.policy_version@);
        json::lemma_string_reads_back(a.config_version@, b.config_version@);
        json::lemma_string_reads_back(a.binary_digest@, b.binary_digest@);
        number::lemma_signed_reads_back(a.issued_at as int, b.issued_at as int);
        number::lemma_signed_reads_back(a.expires_at as int, b.expires_at as int);
        json::lemma_string_reads_back(a.key_id@, b.key_id@);
        number::lemma_signed_reads_back(a.generation as int, b.generation as int);
        reveal_strlit("A");
        reveal_strlit("B");
        reveal_strlit("C");
        assert(a.gate.letter()[0] == b.gate.letter()[0]);
        reveal_strlit("true");
        reveal_strlit("false");
        assert(json::bool_text(a.revoked).len() == json::bool_text(b.revoked).len());
    }
    if agree(a, b) {
        assert(a.values() =~= b.values());
    }
}

/// The canonical payload, and so the derived identity, does not depend on the stored digest:
/// storing the derived identity leaves it the derived identity.
pub proof fn payload_excludes_derived_identity(
    manifest: PromotionManifest,
    manifest_digest: String,
)
    ensures
        (PromotionManifest { manifest_digest, ..manifest }).payload() == manifest.payload(),
        (PromotionManifest { manifest_digest, ..manifest }).identity() == manifest.identity(),
        manifest_digest@ == manifest.identity() ==> manifest_digest@ == (PromotionManifest {
            manifest_digest,
            ..manifest
        }).identity(),
{
}

/// A manifest digest is `sha256:` and 64 hexadecimal digits in either case.
pub proof fn manifest_digests_have_64_digits(hex: Seq<char>, value: Seq<char>)
    ensures
        is_manifest_digest("sha256:"@ + hex) <==> hex.len() == 64 && forall|i: int|
            0 <= i < hex.len() ==> ('0' <= #[trigger] hex[i] <= '9') || ('a' <= hex[i] <= 'f') || (
            'A' <= hex[i] <= 'F'),
        is_manifest_digest(value) ==> value == "sha256:"@ + value.skip(7) && value.len() == 71,
{
    text::prefixes_are_cut_off("sha256:"@, hex, value);
    reveal_strlit("sha256:");
    assert(text::Alphabet::Hex.spells(hex) == forall|i: int|
        0 <= i < hex.len() ==> ('0' <= #[trigger] hex[i] <= '9') || ('a' <= hex[i] <= 'f') || ('A'
            <= hex[i] <= 'F'));
}

/// The shape of a manifest holds exactly where it is of the one schema, says every field, ends after
/// it begins, names a trust root, carries the digest of its own payload, pins corpus, results and
/// image, and names a predecessor unless it is of the first gate.
pub proof fn manifests_are_shaped_exactly_so(m: PromotionManifest)
    ensures
        ({
            let worded = |s: Seq<char>| exists|i: int|
                0 <= i < s.len() && !trim::is_space(#[trigger] s[i]);
            let filled = m.schema@ == "KTD21/v1"@ && worded(m.policy_version@) && worded(
                m.config_version@,
            ) && worded(m.key_id@) && m.issued_at < m.expires_at && m.generation >= 1
                && m.manifest_digest@ == digest::text_digest(m.payload()) && is_manifest_digest(
                m.corpus_digest@,
            ) && is_manifest_digest(m.results_digest@) && is_manifest_digest(m.binary_digest@);
            let placed = if m.gate == Gate::A {
                m.predecessor_digest is None
            } else {
                m.predecessor_digest is Some && is_manifest_digest(m.predecessor_digest->0@)
            };
            &&& m.shape() is Ok <==> filled && placed
            &&& !filled ==> m.shape() == Err::<(), PromotionError>(PromotionError::InvalidFields)
            &&& filled && !placed ==> m.shape() == Err::<(), PromotionError>(
                PromotionError::InvalidPredecessor,
            )
        }),
{
    reveal_strlit("KTD21/v1");
    reveal_strlit("sha256:");
    lemma_worded_digest(m.corpus_digest@);
    lemma_worded_digest(m.results_digest@);
    lemma_worded_digest(m.binary_digest@);
    if m.schema@ == "KTD21/v1"@ {
        assert(m.schema@[0] == 'K');
        assert(!trim::is_space(m.schema@[0]));
    }
    if m.manifest_digest@ == digest::text_digest(m.payload()) {
        assert(m.manifest_digest@[0] == 's');
        assert(!trim::is_space(m.manifest_digest@[0]));
    }
    lemma_worded(m.policy_version@);
    lemma_worded(m.config_version@);
    lemma_worded(m.key_id@);
}

proof fn lemma_worded(s: Seq<char>)
    ensures
        trim::is_blank(s) == !exists|i: int| 0 <= i < s.len() && !trim::is_space(#[trigger] s[i]),
{
}

proof fn lemma_worded_digest(s: Seq<char>)
    ensures
        is_manifest_digest(s) ==> !trim::is_blank(s),
{
    reveal_strlit("sha256:");
    if is_manifest_digest(s) {
        assert(s.subrange(0, 7)[0] == s[0]);
        assert(!trim::is_space(s[0]));
    }
}

/// Gates are named by their letters.
pub proof fn gates_are_named_by_their_letters(gate: Gate)
    ensures
        gate.letter().len() == 1,
        gate.letter()[0] == 'A' <==> gate == Gate::A,
        gate.letter()[0] == 'B' <==> gate == Gate::B,
        gate.letter()[0] == 'C' <==> gate == Gate::C,
{
    reveal_strlit("A");
    reveal_strlit("B");
    reveal_strlit("C");
}

/// The canonical payload says every field but the derived digest under its own name, in order, and the
/// identity is the digest of exactly that text.
pub proof fn payloads_say_every_field(m: PromotionManifest)
    ensures
        m.payload() == json::object_text(
            seq![
                json::member("schema"@, json::json_string(m.schema@)),
                json::member("gate"@, json::json_string(m.gate.letter())),
                json::member("predecessor_digest"@, json::optional_string(optional_text(m.predecessor_digest))),
                json::member("corpus_digest"@, json::json_string(m.corpus_digest@)),
                json::member("results_digest"@, json::json_string(m.results_digest@)),
                json::member("policy_version"@, json::json_string(m.policy_version@)),
                json::member("config_version"@, json::json_string(m.config_version@)),
                json::member("binary_digest"@, json::json_string(m.binary_digest@)),
                json::member("issued_at"@, number::signed_decimal(m.issued_at as int)),
                json::member("expires_at"@, number::signed_decimal(m.expires_at as int)),
                json::member("key_id"@, json::json_string(m.key_id@)),
                json::member("generation"@, number::decimal(m.generation as nat)),
                json::member("revoked"@, json::bool_text(m.revoked)),
            ],
        ),
        m.identity() == digest::text_digest(m.payload()),
        m.predecessor_digest is None ==> text::has_part(
            m.payload(),
            "\"predecessor_digest\":null"@,
        ),
{
    let members = seq![
        json::member("schema"@, json::json_string(m.schema@)),
        json::member("gate"@, json::json_string(m.gate.letter())),
        json::member("predecessor_digest"@, json::optional_string(optional_text(m.predecessor_digest))),
        json::member("corpus_digest"@, json::json_string(m.corpus_digest@)),
        json::member("results_digest"@, json::json_string(m.results_digest@)),
        json::member("policy_version"@, json::json_string(m.policy_version@)),
        json::member("config_version"@, json::json_string(m.config_version@)),
        json::member("binary_digest"@, json::json_string(m.binary_digest@)),
        json::member("issued_at"@, number::signed_decimal(m.issued_at as int)),
        json::member("expires_at"@, number::signed_decimal(m.expires_at as int)),
        json::member("key_id"@, json::json_string(m.key_id@)),
        json::member("generation"@, number::decimal(m.generation as nat)),
        json::member("revoked"@, json::bool_text(m.revoked)),
    ];
    assert(json::members(payload_keys(), m.values()) =~= members);
    json::lemma_object_member(members, 2);
    reveal_strlit("\"predecessor_digest\":null");
    reveal_strlit("predecessor_digest");
    reveal_strlit("null");
    reveal_strlit("\"");
    reveal_strlit("\":");
    if m.predecessor_digest is None {
        assert(members[2] =~= "\"predecessor_digest\":null"@);
    }
}

} // verus!
