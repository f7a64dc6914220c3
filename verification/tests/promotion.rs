//! Promotion manifests, gates and qualification.

use ai_sre::domain::promotion::{
    Gate, PromotionError, PromotionManifest, VerifiedPromotionManifest, VerifierReceipt,
};
use ai_sre::policy::promotion::{
    admit_manifest, shadow_only, AdmittedGate, RuntimeBinding, ShadowGatePolicy,
};
use ai_sre::qualification::GcxQualification;

fn digest_of(letter: &str) -> String {
    format!("sha256:{}", letter.repeat(64))
}

fn fixture() -> PromotionManifest {
    let mut manifest = PromotionManifest {
        schema: "KTD21/v1".into(),
        gate: Gate::A,
        manifest_digest: String::new(),
        predecessor_digest: None,
        corpus_digest: digest_of("a"),
        results_digest: digest_of("b"),
        policy_version: "policy-1".into(),
        config_version: "config-1".into(),
        binary_digest: digest_of("c"),
        issued_at: 1,
        expires_at: 2,
        key_id: "key-1".into(),
        generation: 1,
        revoked: false,
    };
    manifest.manifest_digest = manifest.derived_digest();
    manifest
}

fn sealed(mut value: PromotionManifest) -> VerifiedPromotionManifest {
    value.manifest_digest = value.derived_digest();
    VerifiedPromotionManifest::from_receipt(value, VerifierReceipt::verified())
}

fn manifest(gate: Gate, predecessor: Option<String>) -> VerifiedPromotionManifest {
    let mut value = fixture();
    value.gate = gate;
    value.predecessor_digest = predecessor;
    value.issued_at = 10;
    value.expires_at = 20;
    sealed(value)
}

fn binding() -> RuntimeBinding {
    RuntimeBinding {
        binary_digest: digest_of("c"),
        policy_version: "policy-1".into(),
        config_version: "config-1".into(),
        corpus_digest: digest_of("a"),
        generation: 1,
        revoked_key_ids: vec![],
    }
}

#[test]
fn canonical_payload_excludes_derived_identity() {
    let manifest = fixture();
    let digest = manifest.derived_digest();
    assert_eq!(digest, manifest.manifest_digest);
    assert!(!String::from_utf8_lossy(&manifest.canonical_payload()).contains("manifest_digest"));
}

#[test]
fn gitops_gate_depends_on_shadow_gate_not_runtime_mutation_authority() {
    let gate_a = admit_manifest(&manifest(Gate::A, None), &binding(), 15, None).expect("Gate A");
    let gate_b = admit_manifest(
        &manifest(Gate::B, Some(gate_a.digest.clone())),
        &binding(),
        15,
        Some(&gate_a),
    )
    .expect("Gate B");
    let gate_c = admit_manifest(
        &manifest(Gate::C, Some(gate_a.digest.clone())),
        &binding(),
        15,
        Some(&gate_a),
    )
    .expect("Gate C");
    let rejected = admit_manifest(
        &manifest(Gate::C, Some(gate_b.digest.clone())),
        &binding(),
        15,
        Some(&gate_b),
    );
    assert_eq!(gate_c.gate, Gate::C);
    assert_eq!(rejected, Err(PromotionError::InvalidPredecessor));
}

const SHADOW_GATE: &str = "# Gate A policy\nschema: KTD21/v1\ngate: A\nmode: shadow\nminimum_cases: 20\nminimum_failure_classes: 5\nrepeats_per_case: 3\nrequires_offline_signature: true\naction_policy: disabled\nexternal_write_credentials: absent\n";

#[test]
fn shadow_policy_is_loaded_and_requires_all_controls() {
    let policy = ShadowGatePolicy::from_yaml(SHADOW_GATE).expect("policy");
    assert!(policy.admits_shadow(20, 5, 3));
    assert!(!policy.admits_shadow(19, 5, 3));
}

#[test]
fn gcx_qualification_requires_complete_immutable_evidence() {
    let qualification = GcxQualification {
        binary_sha256: "sha256:binary".to_owned(),
        runtime_digest: "sha256:runtime".to_owned(),
        sbom_digest: "sha256:sbom".to_owned(),
        self_update_disabled: true,
    };
    let accepted = qualification.is_accepted();
    assert!(accepted);
}

#[test]
fn gcx_qualification_rejects_missing_evidence_or_update_controls() {
    let qualification = GcxQualification {
        binary_sha256: String::new(),
        runtime_digest: "sha256:runtime".to_owned(),
        sbom_digest: "sha256:sbom".to_owned(),
        self_update_disabled: false,
    };
    let accepted = qualification.is_accepted();
    assert!(!accepted);
}

#[test]
fn shadow_policies_are_refused_outside_their_contract() {
    for (from, to) in [
        ("schema: KTD21/v1", "schema: KTD21/v2"),
        ("gate: A", "gate: B"),
        ("mode: shadow", "mode: active"),
        ("requires_offline_signature: true", "requires_offline_signature: false"),
        ("minimum_cases: 20", "minimum_cases: many"),
        ("minimum_cases: 20", "minimum_cases: -1"),
        ("minimum_cases: 20\n", ""),
        ("action_policy: disabled\n", ""),
        ("gate: A", "gate A"),
        ("gate: A", "gate: A\nextra: 1"),
    ] {
        let changed = SHADOW_GATE.replace(from, to);
        assert_eq!(
            ShadowGatePolicy::from_yaml(&changed),
            Err(PromotionError::InvalidFields),
            "{to}"
        );
    }
    let enabled = SHADOW_GATE.replace("disabled", "enabled");
    let policy = ShadowGatePolicy::from_yaml(&enabled).unwrap();
    assert!(!policy.admits_shadow(20, 5, 3));
    let present = SHADOW_GATE.replace("absent", "present");
    let policy = ShadowGatePolicy::from_yaml(&present).unwrap();
    assert!(!policy.admits_shadow(20, 5, 3));
    let policy = ShadowGatePolicy::from_yaml(SHADOW_GATE).unwrap();
    assert!(!policy.admits_shadow(20, 4, 3));
    assert!(!policy.admits_shadow(20, 5, 2));
    // A repeated key takes its last value.
    let repeated = format!("{SHADOW_GATE}minimum_cases: 7\n");
    assert_eq!(ShadowGatePolicy::from_yaml(&repeated).unwrap().minimum_cases, 7);
}

#[test]
fn manifests_are_canonical_json_in_declaration_order() {
    let manifest = fixture();
    let payload = String::from_utf8(manifest.canonical_payload()).unwrap();
    assert!(payload.starts_with("{\"schema\":\"KTD21/v1\",\"gate\":"));
    let value: serde_json::Value = serde_json::from_str(&payload).unwrap();
    assert_eq!(value["key_id"], "key-1");
    assert_eq!(value["issued_at"], 1);
    assert_eq!(value["revoked"], false);
    assert!(value["predecessor_digest"].is_null());
}

#[test]
fn payloads_escape_quotes_backslashes_and_controls() {
    let mut manifest = fixture();
    manifest.key_id = "a\"\\\u{8}\t\n\u{c}\r\u{0}\u{1f}\u{7f}/\u{e9}\u{1f600}".into();
    let payload = String::from_utf8(manifest.canonical_payload()).unwrap();
    assert!(payload.contains(
        "\"key_id\":\"a\\\"\\\\\\b\\t\\n\\f\\r\\u0000\\u001f\u{7f}/\u{e9}\u{1f600}\","
    ));
}

#[test]
fn payloads_differ_in_every_field_but_the_digest() {
    let payload = fixture().canonical_payload();
    let changes: [fn(&mut PromotionManifest); 13] = [
        |m| m.schema = "KTD21/v2".into(),
        |m| m.gate = Gate::B,
        |m| m.predecessor_digest = Some("null".into()),
        |m| m.corpus_digest.push('0'),
        |m| m.results_digest.push('0'),
        |m| m.policy_version = "policy-1\",\"config_version\":\"config-1".into(),
        |m| m.config_version.clear(),
        |m| m.binary_digest.push('0'),
        |m| m.issued_at = -1,
        |m| m.expires_at = 20,
        |m| m.key_id = "key-2".into(),
        |m| m.generation += 1,
        |m| m.revoked = true,
    ];
    for change in changes {
        let mut other = fixture();
        change(&mut other);
        assert_ne!(other.canonical_payload(), payload);
    }
    let mut stored = fixture();
    stored.manifest_digest = "other".into();
    assert_eq!(stored.canonical_payload(), payload);
    assert_eq!(stored.derived_digest(), fixture().derived_digest());
}

#[test]
fn manifests_must_be_well_formed() {
    assert_eq!(fixture().validate_shape(), Ok(()));
    let changes: [fn(&mut PromotionManifest); 8] = [
        |m| m.schema = "KTD21/v2".into(),
        |m| m.key_id = " ".into(),
        |m| m.policy_version = String::new(),
        |m| m.expires_at = m.issued_at,
        |m| m.generation = 0,
        |m| m.corpus_digest = "sha256:a".into(),
        |m| m.results_digest = "b".repeat(64),
        |m| m.binary_digest = format!("sha256:{}", "g".repeat(64)),
    ];
    for change in changes {
        let mut manifest = fixture();
        change(&mut manifest);
        manifest.manifest_digest = manifest.derived_digest();
        assert_eq!(manifest.validate_shape(), Err(PromotionError::InvalidFields));
    }
    let mut forged = fixture();
    forged.generation = 2;
    assert_eq!(forged.validate_shape(), Err(PromotionError::InvalidFields));
    let mut early = fixture();
    early.predecessor_digest = Some(digest_of("d"));
    early.manifest_digest = early.derived_digest();
    assert_eq!(early.validate_shape(), Err(PromotionError::InvalidPredecessor));
    let mut later = fixture();
    later.gate = Gate::B;
    later.manifest_digest = later.derived_digest();
    assert_eq!(later.validate_shape(), Err(PromotionError::InvalidPredecessor));
}

#[test]
fn admission_checks_trust_time_and_binding() {
    let good = manifest(Gate::A, None);
    assert!(admit_manifest(&good, &binding(), 10, None).is_ok());
    assert!(admit_manifest(&good, &binding(), 19, None).is_ok());
    for now in [9, 20] {
        assert_eq!(
            admit_manifest(&good, &binding(), now, None),
            Err(PromotionError::NotCurrent)
        );
    }
    let mut revoked = binding();
    revoked.revoked_key_ids.push("key-1".into());
    assert_eq!(
        admit_manifest(&good, &revoked, 15, None),
        Err(PromotionError::UntrustedSignature)
    );
    let mut other = binding();
    other.generation = 2;
    assert_eq!(
        admit_manifest(&good, &other, 15, None),
        Err(PromotionError::BindingMismatch)
    );
    let wrong = AdmittedGate {
        gate: Gate::A,
        digest: digest_of("e"),
    };
    assert_eq!(
        admit_manifest(&manifest(Gate::B, Some(digest_of("d"))), &binding(), 15, Some(&wrong)),
        Err(PromotionError::InvalidPredecessor)
    );
    assert!(!shadow_only(admit_manifest(&good, &binding(), 15, None)));
    assert!(shadow_only(admit_manifest(&good, &binding(), 25, None)));
}
