//! Runtime admission policy for verifier-backed promotion manifests.

use crate::domain::promotion;
use crate::domain::promotion::{Gate, PromotionError, PromotionManifest, VerifiedPromotionManifest};
use crate::text;
use crate::text::number;
use crate::text::split;
use crate::text::trim;
use vstd::prelude::*;

verus! {

/// Deployment-owned values pinned by the running image.
pub struct RuntimeBinding {
    /// Current image digest.
    pub binary_digest: String,
    /// Current policy version.
    pub policy_version: String,
    /// Current configuration version.
    pub config_version: String,
    /// Current replay corpus digest.
    pub corpus_digest: String,
    /// Accepted trust-root generation.
    pub generation: u64,
    /// Revoked key identifiers.
    pub revoked_key_ids: Vec<String>,
}

/// Durable identity of a previously admitted gate.
#[derive(Debug, Clone, PartialEq, Eq)]
pub struct AdmittedGate {
    /// Gate kind.
    pub gate: Gate,
    /// Verified identity.
    pub digest: String,
}

/// Version-controlled shadow-only Gate A policy.
#[derive(Debug, Clone, Copy, PartialEq, Eq, Structural)]
pub struct ShadowGatePolicy {
    /// Required corpus cases.
    pub minimum_cases: usize,
    /// Required failure classes.
    pub minimum_failure_classes: usize,
    /// Required repeated runs.
    pub repeats_per_case: usize,
    /// Action policy must remain disabled.
    pub action_policy_disabled: bool,
    /// External write credentials must be absent.
    pub external_write_credentials_absent: bool,
}

/// A line with a setting: neither blank nor a comment.
pub open spec fn is_setting(line: Seq<char>) -> bool {
    !trim::is_blank(line) && !"#"@.is_prefix_of(trim::trim_start(line))
}

/// The key and value of a setting, around its first colon and without surrounding whitespace.
pub open spec fn setting(line: Seq<char>) -> Option<(Seq<char>, Seq<char>)> {
    match trim::cut(line, ':') {
        Some((key, value)) => Some((trim::trim(key), trim::trim(value))),
        None => None,
    }
}

/// The settings of a policy, in order; none where a setting lacks its colon.
pub open spec fn settings(lines: Seq<Seq<char>>) -> Option<Seq<(Seq<char>, Seq<char>)>>
    decreases lines.len(),
{
    if lines.len() == 0 {
        Some(Seq::empty())
    } else {
        match settings(lines.drop_last()) {
            None => None,
            Some(before) => if !is_setting(lines.last()) {
                Some(before)
            } else {
                match setting(lines.last()) {
                    Some(pair) => Some(before.push(pair)),
                    None => None,
                }
            },
        }
    }
}

/// The keys that a policy may set.
pub open spec fn is_policy_key(key: Seq<char>) -> bool {
    ||| key == "schema"@
    ||| key == "gate"@
    ||| key == "mode"@
    ||| key == "minimum_cases"@
    ||| key == "minimum_failure_classes"@
    ||| key == "repeats_per_case"@
    ||| key == "p95_max_seconds"@
    ||| key == "max_evidence_rounds"@
    ||| key == "max_grafana_queries"@
    ||| key == "requires_deterministic_fallback"@
    ||| key == "requires_openai"@
    ||| key == "requires_gemini"@
    ||| key == "requires_deepseek"@
    ||| key == "requires_offline_signature"@
    ||| key == "action_policy"@
    ||| key == "external_write_credentials"@
}

/// The value of a key; the last setting of it counts.
pub open spec fn value_of(
    pairs: Seq<(Seq<char>, Seq<char>)>,
    key: Seq<char>,
) -> Option<Seq<char>>
    decreases pairs.len(),
{
    if pairs.len() == 0 {
        None
    } else if pairs.last().0 == key {
        Some(pairs.last().1)
    } else {
        value_of(pairs.drop_last(), key)
    }
}

/// A number that a key must have.
pub open spec fn number_of(pairs: Seq<(Seq<char>, Seq<char>)>, key: Seq<char>) -> Option<nat> {
    match value_of(pairs, key) {
        Some(value) => number::parsed(value, usize::MAX as nat),
        None => None,
    }
}

/// Settings that make a policy: only known keys, the shadow identity, and every threshold
/// and control present.
pub open spec fn complete(pairs: Seq<(Seq<char>, Seq<char>)>) -> bool {
    &&& forall|i: int| 0 <= i < pairs.len() ==> is_policy_key((#[trigger] pairs[i]).0)
    &&& value_of(pairs, "schema"@) == Some("KTD21/v1"@)
    &&& value_of(pairs, "gate"@) == Some("A"@)
    &&& value_of(pairs, "mode"@) == Some("shadow"@)
    &&& value_of(pairs, "requires_offline_signature"@) == Some("true"@)
    &&& number_of(pairs, "minimum_cases"@) is Some
    &&& number_of(pairs, "minimum_failure_classes"@) is Some
    &&& number_of(pairs, "repeats_per_case"@) is Some
    &&& value_of(pairs, "action_policy"@) is Some
    &&& value_of(pairs, "external_write_credentials"@) is Some
}

/// The policy that complete settings make.
pub open spec fn policy_of(pairs: Seq<(Seq<char>, Seq<char>)>) -> ShadowGatePolicy {
    ShadowGatePolicy {
        minimum_cases: (number_of(pairs, "minimum_cases"@)->0) as usize,
        minimum_failure_classes: (number_of(pairs, "minimum_failure_classes"@)->0) as usize,
        repeats_per_case: (number_of(pairs, "repeats_per_case"@)->0) as usize,
        action_policy_disabled: value_of(pairs, "action_policy"@) == Some("disabled"@),
        external_write_credentials_absent: value_of(pairs, "external_write_credentials"@) == Some(
            "absent"@,
        ),
    }
}

/// The policy that a document makes, if it makes one.
pub open spec fn shadow_policy(input: Seq<char>) -> Option<ShadowGatePolicy> {
    match settings(split::lines(input)) {
        Some(pairs) => if complete(pairs) {
            Some(policy_of(pairs))
        } else {
            None
        },
        None => None,
    }
}

/// The characters of key and value pairs.
pub open spec fn pair_views(list: Seq<(String, String)>) -> Seq<(Seq<char>, Seq<char>)> {
    list.map_values(|p: (String, String)| (p.0@, p.1@))
}

/// A malformed line spoils the whole document.
proof fn lemma_settings_spoiled(lines: Seq<Seq<char>>, n: int)
    requires
        0 <= n <= lines.len(),
        settings(lines.take(n)) is None,
    ensures
        settings(lines) is None,
    decreases lines.len(),
{
    if n == lines.len() {
        assert(lines.take(n) =~= lines);
    } else {
        assert(lines.drop_last().take(n) =~= lines.take(n));
        lemma_settings_spoiled(lines.drop_last(), n);
    }
}

fn read_settings(input: &str) -> (r: Option<Vec<(String, String)>>)
    ensures
        match r {
            Some(pairs) => settings(split::lines(input@)) == Some(pair_views(pairs@)),
            None => settings(split::lines(input@)) is None,
        },
{
    let lines = split::split_lines(input);
    let ghost views = split::lines(input@);
    let mut pairs: Vec<(String, String)> = Vec::new();
    let mut i: usize = 0;
    proof {
        assert(text::texts(lines@).len() == lines@.len());
        assert(views.take(0) =~= Seq::empty());
        assert(pair_views(pairs@) =~= Seq::empty());
    }
    while i < lines.len()
        invariant
            i <= lines.len(),
            text::texts(lines@) == views,
            views == split::lines(input@),
            views.len() == lines.len(),
            settings(views.take(i as int)) == Some(pair_views(pairs@)),
        decreases lines.len() - i,
    {
        let line = lines[i].as_str();
        let ghost before = pair_views(pairs@);
        proof {
            assert(views.take(i as int + 1).drop_last() =~= views.take(i as int));
            assert(views.take(i as int + 1).last() == line@);
        }
        let body = trim::trimmed_start(line);
        if !trim::blank(line) && !text::starts_with(body.as_str(), "#") {
            match trim::split_once(line, ':') {
                Some((key, value)) => {
                    pairs.push((trim::trimmed(key.as_str()), trim::trimmed(value.as_str())));
                    assert(pair_views(pairs@) =~= before.push(
                        (pairs@.last().0@, pairs@.last().1@),
                    ));
                },
                None => {
                    proof {
                        lemma_settings_spoiled(views, i as int + 1);
                    }
                    return None;
                },
            }
        }
        i += 1;
    }
    assert(views.take(i as int) =~= views);
    Some(pairs)
}

fn known_key(key: &str) -> (r: bool)
    ensures
        r == is_policy_key(key@),
{
    text::text_eq(key, "schema") || text::text_eq(key, "gate") || text::text_eq(key, "mode")
        || text::text_eq(key, "minimum_cases") || text::text_eq(key, "minimum_failure_classes")
        || text::text_eq(key, "repeats_per_case") || text::text_eq(key, "p95_max_seconds")
        || text::text_eq(key, "max_evidence_rounds") || text::text_eq(key, "max_grafana_queries")
        || text::text_eq(key, "requires_deterministic_fallback") || text::text_eq(
        key,
        "requires_openai",
    ) || text::text_eq(key, "requires_gemini") || text::text_eq(key, "requires_deepseek")
        || text::text_eq(key, "requires_offline_signature") || text::text_eq(key, "action_policy")
        || text::text_eq(key, "external_write_credentials")
}

fn find_value(pairs: &Vec<(String, String)>, key: &str) -> (r: Option<String>)
    ensures
        match r {
            Some(value) => value_of(pair_views(pairs@), key@) == Some(value@),
            None => value_of(pair_views(pairs@), key@) is None,
        },
{
    let ghost views = pair_views(pairs@);
    let mut end: usize = pairs.len();
    assert(views.take(end as int) =~= views);
    while end > 0
        invariant
            end <= pairs.len(),
            views == pair_views(pairs@),
            value_of(views, key@) == value_of(views.take(end as int), key@),
        decreases end,
    {
        proof {
            assert(views.take(end as int).last() == (pairs@[end - 1].0@, pairs@[end - 1].1@));
            assert(views.take(end as int).drop_last() =~= views.take(end as int - 1));
        }
        if text::text_eq(pairs[end - 1].0.as_str(), key) {
            return Some(pairs[end - 1].1.clone());
        }
        end -= 1;
    }
    None
}

fn find_number(pairs: &Vec<(String, String)>, key: &str) -> (r: Option<usize>)
    ensures
        match r {
            Some(n) => number_of(pair_views(pairs@), key@) == Some(n as nat),
            None => number_of(pair_views(pairs@), key@) is None,
        },
{
    match find_value(pairs, key) {
        Some(value) => match number::parse_unsigned(value.as_str(), usize::MAX as u64) {
            Some(n) => Some(n as usize),
            None => None,
        },
        None => None,
    }
}

fn has_value(pairs: &Vec<(String, String)>, key: &str, wanted: &str) -> (r: bool)
    ensures
        r == (value_of(pair_views(pairs@), key@) == Some(wanted@)),
{
    match find_value(pairs, key) {
        Some(value) => text::text_eq(value.as_str(), wanted),
        None => false,
    }
}

impl ShadowGatePolicy {
    /// Parses the deliberately flat, scalar Gate A YAML contract.
    pub fn from_yaml(input: &str) -> (r: Result<Self, PromotionError>)
        ensures
            match r {
                Ok(policy) => shadow_policy(input@) == Some(policy),
                Err(error) => shadow_policy(input@) is None && error
                    == PromotionError::InvalidFields,
            },
    {
        let pairs = match read_settings(input) {
            Some(pairs) => pairs,
            None => return Err(PromotionError::InvalidFields),
        };
        let ghost views = pair_views(pairs@);
        let mut i: usize = 0;
        while i < pairs.len()
            invariant
                i <= pairs.len(),
                views == pair_views(pairs@),
                settings(split::lines(input@)) == Some(views),
                forall|j: int| 0 <= j < i ==> is_policy_key((#[trigger] views[j]).0),
            decreases pairs.len() - i,
        {
            assert(views[i as int].0 == pairs@[i as int].0@);
            if !known_key(pairs[i].0.as_str()) {
                assert(!is_policy_key(views[i as int].0));
                return Err(PromotionError::InvalidFields);
            }
            i += 1;
        }
        if !has_value(&pairs, "schema", "KTD21/v1") || !has_value(&pairs, "gate", "A")
            || !has_value(&pairs, "mode", "shadow") || !has_value(
            &pairs,
            "requires_offline_signature",
            "true",
        ) {
            return Err(PromotionError::InvalidFields);
        }
        let cases = find_number(&pairs, "minimum_cases");
        let classes = find_number(&pairs, "minimum_failure_classes");
        let repeats = find_number(&pairs, "repeats_per_case");
        let action = find_value(&pairs, "action_policy");
        let credentials = find_value(&pairs, "external_write_credentials");
        match (cases, classes, repeats, action, credentials) {
            (Some(cases), Some(classes), Some(repeats), Some(action), Some(credentials)) => {
                let policy = ShadowGatePolicy {
                    minimum_cases: cases,
                    minimum_failure_classes: classes,
                    repeats_per_case: repeats,
                    action_policy_disabled: text::text_eq(action.as_str(), "disabled"),
                    external_write_credentials_absent: text::text_eq(
                        credentials.as_str(),
                        "absent",
                    ),
                };
                assert(views.len() == pairs.len());
                assert(complete(views));
                Ok(policy)
            },
            _ => Err(PromotionError::InvalidFields),
        }
    }

    /// Fails closed unless the corpus and shadow-only controls meet policy.
    pub fn admits_shadow(&self, case_count: usize, class_count: usize, repeats: usize) -> (r: bool)
        ensures
            r == (self.minimum_cases <= case_count && self.minimum_failure_classes <= class_count
                && self.repeats_per_case <= repeats && self.action_policy_disabled
                && self.external_write_credentials_absent),
    {
        self.minimum_cases <= case_count && self.minimum_failure_classes <= class_count
            && self.repeats_per_case <= repeats && self.action_policy_disabled
            && self.external_write_credentials_absent
    }
}

/// The key of a manifest was not revoked, nor the manifest itself.
pub open spec fn is_trusted(manifest: PromotionManifest, binding: RuntimeBinding) -> bool {
    !manifest.revoked && !text::texts(binding.revoked_key_ids@).contains(manifest.key_id@)
}

/// A manifest for exactly the running deployment.
pub open spec fn is_bound(manifest: PromotionManifest, binding: RuntimeBinding) -> bool {
    &&& manifest.binary_digest@ == binding.binary_digest@
    &&& manifest.policy_version@ == binding.policy_version@
    &&& manifest.config_version@ == binding.config_version@
    &&& manifest.corpus_digest@ == binding.corpus_digest@
    &&& manifest.generation == binding.generation
}

/// The first gate follows nothing; each other gate follows the first one by its digest.
pub open spec fn follows(
    manifest: PromotionManifest,
    predecessor: Option<&AdmittedGate>,
) -> bool {
    match (manifest.gate, predecessor) {
        (Gate::A, None) => true,
        (Gate::B, Some(previous)) => previous.gate == Gate::A && promotion::optional_text(
            manifest.predecessor_digest,
        ) == Some(previous.digest@),
        (Gate::C, Some(previous)) => previous.gate == Gate::A && promotion::optional_text(
            manifest.predecessor_digest,
        ) == Some(previous.digest@),
        _ => false,
    }
}

/// The outcome of an admission.
pub open spec fn admission(
    manifest: PromotionManifest,
    binding: RuntimeBinding,
    now: i64,
    predecessor: Option<&AdmittedGate>,
) -> Result<(), PromotionError> {
    if manifest.shape() is Err {
        manifest.shape()
    } else if !is_trusted(manifest, binding) {
        Err(PromotionError::UntrustedSignature)
    } else if !(manifest.issued_at <= now < manifest.expires_at) {
        Err(PromotionError::NotCurrent)
    } else if !is_bound(manifest, binding) {
        Err(PromotionError::BindingMismatch)
    } else if !follows(manifest, predecessor) {
        Err(PromotionError::InvalidPredecessor)
    } else {
        Ok(())
    }
}

fn names_predecessor(manifest: &PromotionManifest, digest: &str) -> (r: bool)
    ensures
        r == (promotion::optional_text(manifest.predecessor_digest) == Some(digest@)),
{
    match &manifest.predecessor_digest {
        Some(value) => text::text_eq(value.as_str(), digest),
        None => false,
    }
}

/// Admits a verifier-backed manifest against deployment-owned bindings.
pub fn admit_manifest(
    manifest: &VerifiedPromotionManifest,
    binding: &RuntimeBinding,
    now: i64,
    predecessor: Option<&AdmittedGate>,
) -> (r: Result<AdmittedGate, PromotionError>)
    ensures
        match r {
            Ok(gate) => admission(manifest.verified_manifest(), *binding, now, predecessor) is Ok
                && gate.gate == manifest.verified_manifest().gate && gate.digest@
                == manifest.verified_manifest().manifest_digest@,
            Err(error) => admission(manifest.verified_manifest(), *binding, now, predecessor)
                == Err::<(), PromotionError>(error),
        },
{
    let manifest = manifest.manifest();
    match manifest.validate_shape() {
        Ok(()) => {},
        Err(error) => return Err(error),
    }
    if manifest.revoked || text::listed(&binding.revoked_key_ids, manifest.key_id.as_str()) {
        return Err(PromotionError::UntrustedSignature);
    }
    if now < manifest.issued_at || now >= manifest.expires_at {
        return Err(PromotionError::NotCurrent);
    }
    if !text::text_eq(manifest.binary_digest.as_str(), binding.binary_digest.as_str())
        || !text::text_eq(manifest.policy_version.as_str(), binding.policy_version.as_str())
        || !text::text_eq(manifest.config_version.as_str(), binding.config_version.as_str())
        || !text::text_eq(manifest.corpus_digest.as_str(), binding.corpus_digest.as_str())
        || manifest.generation != binding.generation {
        return Err(PromotionError::BindingMismatch);
    }
    let followed = match (manifest.gate, predecessor) {
        (Gate::A, None) => true,
        (Gate::B, Some(previous)) => previous.gate == Gate::A && names_predecessor(
            manifest,
            previous.digest.as_str(),
        ),
        (Gate::C, Some(previous)) => previous.gate == Gate::A && names_predecessor(
            manifest,
            previous.digest.as_str(),
        ),
        _ => false,
    };
    if !followed {
        return Err(PromotionError::InvalidPredecessor);
    }
    Ok(AdmittedGate { gate: manifest.gate, digest: manifest.manifest_digest.clone() })
}

/// Returns whether the service must remain in shadow mode.
pub fn shadow_only(gate_a: Result<AdmittedGate, PromotionError>) -> (r: bool)
    ensures
        r == gate_a is Err,
{
    gate_a.is_err()
}

/// Runtime mutation and GitOps are each gated by the shadow gate alone: an admitted B or C
/// follows an admitted A that it names by digest, and is never admitted on B or C.
pub proof fn later_gates_follow_the_shadow_gate(
    manifest: PromotionManifest,
    binding: RuntimeBinding,
    now: i64,
    predecessor: Option<&AdmittedGate>,
)
    requires
        admission(manifest, binding, now, predecessor) is Ok,
    ensures
        manifest.gate == Gate::A <==> predecessor is None,
        predecessor matches Some(previous) ==> previous.gate == Gate::A
            && promotion::optional_text(manifest.predecessor_digest) == Some(previous.digest@),
{
}

/// An admitted manifest is current, not revoked, for the running deployment, and identified
/// by the digest of its own payload.
pub proof fn admitted_manifests_are_current_and_bound(
    manifest: PromotionManifest,
    binding: RuntimeBinding,
    now: i64,
    predecessor: Option<&AdmittedGate>,
)
    requires
        admission(manifest, binding, now, predecessor) is Ok,
    ensures
        manifest.issued_at <= now < manifest.expires_at,
        is_trusted(manifest, binding),
        is_bound(manifest, binding),
        manifest.manifest_digest@ == manifest.identity(),
{
}

/// A key that the deployment revoked.
pub open spec fn is_revoked_key(binding: RuntimeBinding, key_id: Seq<char>) -> bool {
    exists|i: int|
        0 <= i < binding.revoked_key_ids@.len() && (#[trigger] binding.revoked_key_ids@[i])@
            == key_id
}

/// What admission takes: a well-formed manifest that is trusted, current, of the running image,
/// policy, configuration, corpus and trust root, and in its place behind the shadow gate. Each
/// refusal names the first of these that fails.
pub proof fn admission_takes_exactly_the_running_deployment(
    manifest: PromotionManifest,
    binding: RuntimeBinding,
    now: i64,
    predecessor: Option<&AdmittedGate>,
)
    ensures
        ({
            let outcome = admission(manifest, binding, now, predecessor);
            let trusted = !manifest.revoked && !is_revoked_key(binding, manifest.key_id@);
            let current = manifest.issued_at <= now && now < manifest.expires_at;
            let bound = manifest.binary_digest@ == binding.binary_digest@
                && manifest.policy_version@ == binding.policy_version@ && manifest.config_version@
                == binding.config_version@ && manifest.corpus_digest@ == binding.corpus_digest@
                && manifest.generation == binding.generation;
            let placed = (manifest.gate == Gate::A && predecessor is None) || (manifest.gate
                != Gate::A && predecessor is Some && predecessor->0.gate == Gate::A
                && manifest.predecessor_digest is Some && manifest.predecessor_digest->0@
                == predecessor->0.digest@);
            &&& outcome is Ok <==> manifest.shape() is Ok && trusted && current && bound && placed
            &&& manifest.shape() is Err ==> outcome == manifest.shape()
            &&& manifest.shape() is Ok && !trusted ==> outcome == Err::<(), PromotionError>(
                PromotionError::UntrustedSignature,
            )
            &&& manifest.shape() is Ok && trusted && !current ==> outcome == Err::<
                (),
                PromotionError,
            >(PromotionError::NotCurrent)
            &&& manifest.shape() is Ok && trusted && current && !bound ==> outcome == Err::<
                (),
                PromotionError,
            >(PromotionError::BindingMismatch)
            &&& manifest.shape() is Ok && trusted && current && bound && !placed ==> outcome
                == Err::<(), PromotionError>(PromotionError::InvalidPredecessor)
        }),
{
    let keys = text::texts(binding.revoked_key_ids@);
    if keys.contains(manifest.key_id@) {
        let i = choose|i: int| 0 <= i < keys.len() && keys[i] == manifest.key_id@;
        assert(binding.revoked_key_ids@[i]@ == manifest.key_id@);
    }
    if is_revoked_key(binding, manifest.key_id@) {
        let i = choose|i: int|
            0 <= i < binding.revoked_key_ids@.len() && (#[trigger] binding.revoked_key_ids@[i])@
                == manifest.key_id@;
        assert(keys[i] == manifest.key_id@);
    }
}

/// Blank lines and comments say nothing; every other line says one thing: what stands before its
/// first colon, and what stands behind it.
pub proof fn policy_lines_are_settings_or_ignored(
    before: Seq<Seq<char>>,
    line: Seq<char>,
    key: Seq<char>,
    value: Seq<char>,
)
    ensures
        (forall|i: int| 0 <= i < line.len() ==> trim::is_space(#[trigger] line[i])) ==> settings(
            before.push(line),
        ) == settings(before),
        trim::trim_start(line).len() > 0 && trim::trim_start(line)[0] == '#' ==> settings(
            before.push(line),
        ) == settings(before),
        settings(before) is None ==> settings(before.push(line)) is None,
        trim::trim_start(line).len() > 0 && trim::trim_start(line)[0] != '#' && !line.contains(':')
            ==> settings(before.push(line)) is None,
        line == key + seq![':'] + value && !key.contains(':') && trim::trim_start(line)[0] != '#'
            && settings(before) is Some ==> settings(before.push(line)) == Some(
            (settings(before)->0).push((trim::trim(key), trim::trim(value))),
        ),
{
    assert(before.push(line).drop_last() =~= before);
    reveal_strlit("#");
    let body = trim::trim_start(line);
    lemma_blank_start(line);
    if body.len() > 0 {
        if body[0] == '#' {
            assert("#"@ =~= body.subrange(0, 1));
        } else if "#"@.is_prefix_of(body) {
            assert(body.subrange(0, 1)[0] == body[0]);
        }
    }
    if !line.contains(':') {
        trim::lemma_first_index(line, ':', line.len() as int);
    }
    if line == key + seq![':'] + value && !key.contains(':') {
        assert(line[key.len() as int] == ':');
        assert forall|j: int| 0 <= j < key.len() implies line[j] != ':' by {
            assert(key.contains(key[j]));
            assert(line[j] == key[j]);
        }
        trim::lemma_first_index(line, ':', key.len() as int);
        assert(line.take(key.len() as int) =~= key);
        assert(line.skip(key.len() as int + 1) =~= value);
        assert(!trim::is_space(line[key.len() as int]));
    }
}

/// A text is blank exactly where nothing is left of it without leading whitespace.
proof fn lemma_blank_start(s: Seq<char>)
    ensures
        trim::is_blank(s) <==> trim::trim_start(s).len() == 0,
    decreases s.len(),
{
    if s.len() > 0 {
        if trim::is_space(s[0]) {
            let rest = s.drop_first();
            lemma_blank_start(rest);
            if trim::is_blank(rest) {
                assert forall|i: int| 0 <= i < s.len() implies trim::is_space(#[trigger] s[i]) by {
                    if i > 0 {
                        assert(rest[i - 1] == s[i]);
                    }
                }
            }
            if trim::is_blank(s) {
                assert forall|i: int| 0 <= i < rest.len() implies trim::is_space(
                    #[trigger] rest[i],
                ) by {
                    assert(rest[i] == s[i + 1]);
                }
            }
        }
    }
}

/// The settings that the policy contract has.
proof fn lemma_policy_keys(known: Seq<Seq<char>>, key: Seq<char>)
    requires
        known == seq![
            "schema"@,
            "gate"@,
            "mode"@,
            "minimum_cases"@,
            "minimum_failure_classes"@,
            "repeats_per_case"@,
            "p95_max_seconds"@,
            "max_evidence_rounds"@,
            "max_grafana_queries"@,
            "requires_deterministic_fallback"@,
            "requires_openai"@,
            "requires_gemini"@,
            "requires_deepseek"@,
            "requires_offline_signature"@,
            "action_policy"@,
            "external_write_credentials"@,
        ],
    ensures
        known.contains(key) == is_policy_key(key),
{
    assert(known[0] == "schema"@);
    assert(known[1] == "gate"@);
    assert(known[2] == "mode"@);
    assert(known[3] == "minimum_cases"@);
    assert(known[4] == "minimum_failure_classes"@);
    assert(known[5] == "repeats_per_case"@);
    assert(known[6] == "p95_max_seconds"@);
    assert(known[7] == "max_evidence_rounds"@);
    assert(known[8] == "max_grafana_queries"@);
    assert(known[9] == "requires_deterministic_fallback"@);
    assert(known[10] == "requires_openai"@);
    assert(known[11] == "requires_gemini"@);
    assert(known[12] == "requires_deepseek"@);
    assert(known[13] == "requires_offline_signature"@);
    assert(known[14] == "action_policy"@);
    assert(known[15] == "external_write_credentials"@);
    if known.contains(key) {
        let i = choose|i: int| 0 <= i < known.len() && known[i] == key;
        assert(0 <= i < 16);
    }
}

/// A policy is taken exactly with known settings alone, the shadow identity, the offline signature,
/// every threshold and both controls, and its fields are what the document last said of them.
pub proof fn shadow_policies_are_complete_documents(input: Seq<char>)
    ensures
        ({
            let known = seq![
                "schema"@,
                "gate"@,
                "mode"@,
                "minimum_cases"@,
                "minimum_failure_classes"@,
                "repeats_per_case"@,
                "p95_max_seconds"@,
                "max_evidence_rounds"@,
                "max_grafana_queries"@,
                "requires_deterministic_fallback"@,
                "requires_openai"@,
                "requires_gemini"@,
                "requires_deepseek"@,
                "requires_offline_signature"@,
                "action_policy"@,
                "external_write_credentials"@,
            ];
            let pairs = settings(split::lines(input))->0;
            let cases = value_of(pairs, "minimum_cases"@);
            let classes = value_of(pairs, "minimum_failure_classes"@);
            let repeats = value_of(pairs, "repeats_per_case"@);
            let action = value_of(pairs, "action_policy"@);
            let credentials = value_of(pairs, "external_write_credentials"@);
            let max = usize::MAX as nat;
            &&& shadow_policy(input) is Some <==> {
                &&& settings(split::lines(input)) is Some
                &&& forall|i: int| 0 <= i < pairs.len() ==> known.contains((#[trigger] pairs[i]).0)
                &&& value_of(pairs, "schema"@) == Some("KTD21/v1"@)
                &&& value_of(pairs, "gate"@) == Some("A"@)
                &&& value_of(pairs, "mode"@) == Some("shadow"@)
                &&& value_of(pairs, "requires_offline_signature"@) == Some("true"@)
                &&& cases is Some && number::parsed(cases->0, max) is Some
                &&& classes is Some && number::parsed(classes->0, max) is Some
                &&& repeats is Some && number::parsed(repeats->0, max) is Some
                &&& action is Some
                &&& credentials is Some
            }
            &&& shadow_policy(input) matches Some(policy) ==> {
                &&& number::parsed(cases->0, max) == Some(policy.minimum_cases as nat)
                &&& number::parsed(classes->0, max) == Some(policy.minimum_failure_classes as nat)
                &&& number::parsed(repeats->0, max) == Some(policy.repeats_per_case as nat)
                &&& policy.action_policy_disabled == (action->0 == "disabled"@)
                &&& policy.external_write_credentials_absent == (credentials->0 == "absent"@)
            }
        }),
{
    let known = seq![
        "schema"@,
        "gate"@,
        "mode"@,
        "minimum_cases"@,
        "minimum_failure_classes"@,
        "repeats_per_case"@,
        "p95_max_seconds"@,
        "max_evidence_rounds"@,
        "max_grafana_queries"@,
        "requires_deterministic_fallback"@,
        "requires_openai"@,
        "requires_gemini"@,
        "requires_deepseek"@,
        "requires_offline_signature"@,
        "action_policy"@,
        "external_write_credentials"@,
    ];
    let pairs = settings(split::lines(input))->0;
    assert forall|i: int| 0 <= i < pairs.len() implies known.contains(#[trigger] pairs[i].0)
        == is_policy_key(pairs[i].0) by {
        lemma_policy_keys(known, pairs[i].0);
    }
}

/// The last setting of a key counts.
pub proof fn last_setting_counts(
    pairs: Seq<(Seq<char>, Seq<char>)>,
    key: Seq<char>,
    other: Seq<char>,
    value: Seq<char>,
)
    ensures
        value_of(pairs.push((key, value)), key) == Some(value),
        other != key ==> value_of(pairs.push((other, value)), key) == value_of(pairs, key),
        value_of(Seq::empty(), key) is None,
{
    assert(pairs.push((key, value)).drop_last() =~= pairs);
    assert(pairs.push((other, value)).drop_last() =~= pairs);
}

} // verus!
