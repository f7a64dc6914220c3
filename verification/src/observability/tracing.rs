//! Bounded, redacted OTLP/HTTP trace export for Tempo.
//!
//! Trace export is deliberately an observation side effect: the journal
//! remains the source of workflow truth when Tempo is unavailable.

use crate::digest;
use crate::json;
use crate::json::JsonShape;
use crate::reasoning::coordinator::RunStatus;
use crate::reasoning::router::ProviderKind;
use crate::text;
use crate::text::number;
use crate::text::trim;
use crate::url;
use vstd::prelude::*;

verus! {

/// An endpoint that traces may be sent to: HTTP or HTTPS, without credentials, query or fragment.
pub open spec fn is_trace_url(parts: url::UrlView) -> bool {
    (parts.scheme == "http"@ || parts.scheme == "https"@) && url::is_plain(parts)
}

/// The path of traces below a base path.
pub open spec fn traces_path(path: Seq<char>) -> Seq<char> {
    trim::skip_trailing(path, '/') + "/v1/traces"@
}

fn trace_url(parts: &url::UrlParts) -> (r: bool)
    ensures
        r == is_trace_url(parts@),
{
    (text::text_eq(parts.scheme.as_str(), "http") || text::text_eq(parts.scheme.as_str(), "https"))
        && url::plain(parts)
}

/// The endpoint that is selected: a trace-specific one as it is, else one below the base.
pub open spec fn selected_endpoint(base: Option<Seq<char>>, traces: Option<Seq<char>>) -> Option<
    Seq<char>,
> {
    match (traces, base) {
        (Some(traces), _) => match url::url_parts(traces) {
            Some(parts) => if is_trace_url(parts) {
                Some(parts.text)
            } else {
                None
            },
            None => None,
        },
        (None, Some(base)) => match url::url_parts(base) {
            Some(parts) => if is_trace_url(parts) {
                url::url_with_path(base, traces_path(parts.path))
            } else {
                None
            },
            None => None,
        },
        (None, None) => None,
    }
}

/// Resolves standard OTLP endpoint precedence; trace-specific URLs are used as-is.
/// Invalid endpoints disable export without affecting incident processing.
pub fn resolve_endpoint(base: Option<&str>, traces: Option<&str>) -> (r: Option<String>)
    requires
        (traces is None && base is Some) ==> base->0@.len() <= url::MAX_URL_CHARS,
    ensures
        url::optional(r) == selected_endpoint(
            match base {
                Some(base) => Some(base@),
                None => None,
            },
            match traces {
                Some(traces) => Some(traces@),
                None => None,
            },
        ),
{
    match traces {
        Some(traces) => match url::parse(traces) {
            Some(parts) => {
                if trace_url(&parts) {
                    Some(parts.text)
                } else {
                    None
                }
            },
            None => None,
        },
        None => match base {
            Some(base) => match url::parse(base) {
                Some(parts) => {
                    if trace_url(&parts) {
                        proof {
                            lemma_skip_trailing_len(parts.path@, '/');
                            reveal_strlit("/v1/traces");
                        }
                        let mut path = trim::without_trailing(parts.path.as_str(), '/');
                        path.append("/v1/traces");
                        url::with_path(base, path.as_str())
                    } else {
                        None
                    }
                },
                None => None,
            },
            None => None,
        },
    }
}

proof fn lemma_skip_trailing_len(s: Seq<char>, c: char)
    ensures
        trim::skip_trailing(s, c).len() <= s.len(),
    decreases s.len(),
{
    if s.len() > 0 && s.last() == c {
        lemma_skip_trailing_len(s.drop_last(), c);
    }
}

/// The identity of a text: the first bytes of its SHA-256 digest, in hexadecimal.
pub open spec fn correlation(value: Seq<char>, bytes: nat) -> Seq<char> {
    number::hex(digest::sha256(vstd::utf8::encode_utf8(value)).take(bytes as int))
}

fn correlation_id(value: &str, bytes: usize) -> (r: String)
    requires
        bytes <= 32,
    ensures
        r@ == correlation(value@, bytes as nat),
        r@.len() == 2 * bytes,
{
    let full = digest::sha256_bytes(value.as_bytes());
    let mut first: Vec<u8> = Vec::new();
    let mut i: usize = 0;
    while i < bytes
        invariant
            i <= bytes <= full@.len(),
            first@ == full@.take(i as int),
        decreases bytes - i,
    {
        first.push(full[i]);
        assert(first@ =~= full@.take(i as int + 1));
        i += 1;
    }
    proof {
        number::lemma_hex_shape(first@);
    }
    number::hex_text(first.as_slice())
}

/// Returns the stable Tempo lookup ID for an incident without disclosing its raw ID.
pub fn incident_trace_id(incident_id: &str) -> (r: String)
    ensures
        r@ == correlation(incident_id@, 16),
        r@.len() == 32,
        text::Alphabet::LowerHex.spells(r@),
{
    proof {
        number::lemma_hex_shape(digest::sha256(vstd::utf8::encode_utf8(incident_id@)).take(16));
    }
    correlation_id(incident_id, 16)
}

/// Metadata-only trace event accepted by the exporter.
#[derive(Debug, Clone, PartialEq, Eq)]
pub struct TraceEvent {
    trace_id: String,
    span_id: String,
    name: String,
    phase: String,
    provider: Option<String>,
    duration_ms: u64,
    end_time_unix_nano: u64,
    outcome: String,
}

/// A metadata-only trace event.
pub struct TraceView {
    /// Stable trace correlation identifier.
    pub trace_id: Seq<char>,
    /// Stable span identifier.
    pub span_id: Seq<char>,
    /// Bounded operation name.
    pub name: Seq<char>,
    /// Controlled workflow phase.
    pub phase: Seq<char>,
    /// Optional provider/model alias, never a credential.
    pub provider: Option<Seq<char>>,
    /// Event duration in milliseconds.
    pub duration_ms: u64,
    /// End of the event in nanoseconds since the Unix epoch.
    pub end_time_unix_nano: u64,
    /// Fixed outcome word.
    pub outcome: Seq<char>,
}

impl View for TraceEvent {
    type V = TraceView;

    closed spec fn view(&self) -> TraceView {
        TraceView {
            trace_id: self.trace_id@,
            span_id: self.span_id@,
            name: self.name@,
            phase: self.phase@,
            provider: url::optional(self.provider),
            duration_ms: self.duration_ms,
            end_time_unix_nano: self.end_time_unix_nano,
            outcome: self.outcome@,
        }
    }
}

/// An operation name that may be traced.
pub open spec fn is_trace_name(name: Seq<char>) -> bool {
    name == "incident.investigation"@
}

/// An alias of a provider that a caller may name.
pub open spec fn is_provider_alias(provider: Seq<char>) -> bool {
    provider == "openai"@ || provider == "gemini"@ || provider == "deepseek"@
}

/// An identity that is present and of at most 256 bytes.
pub open spec fn is_identity(identity: Seq<char>) -> bool {
    !trim::is_blank(identity) && text::utf8_len(identity) <= 256
}

/// An event that may be recorded.
pub open spec fn is_recordable(
    trace_id: Seq<char>,
    span_id: Seq<char>,
    name: Seq<char>,
    phase: Seq<char>,
    provider: Option<Seq<char>>,
) -> bool {
    &&& super::is_phase(phase)
    &&& is_trace_name(name)
    &&& is_identity(trace_id)
    &&& is_identity(span_id)
    &&& provider matches Some(alias) ==> is_provider_alias(alias)
}

/// What is recorded of an event.
pub open spec fn recorded(
    trace_id: Seq<char>,
    span_id: Seq<char>,
    name: Seq<char>,
    phase: Seq<char>,
    provider: Option<Seq<char>>,
    duration_ms: u64,
    end_time_unix_nano: u64,
) -> TraceView {
    TraceView {
        trace_id: correlation(trace_id, 16),
        span_id: correlation(span_id + ":"@ + name, 8),
        name: trim::clipped(name, 128),
        phase,
        provider: match provider {
            Some(alias) => Some(trim::clipped(alias, 64)),
            None => None,
        },
        duration_ms,
        end_time_unix_nano,
        outcome: "unspecified"@,
    }
}

/// The provider and the outcome word of a terminal status.
pub open spec fn status_words(status: RunStatus) -> (Seq<char>, Seq<char>) {
    match status {
        RunStatus::Succeeded(ProviderKind::OpenAi) => ("openai"@, "succeeded"@),
        RunStatus::Succeeded(ProviderKind::Gemini) => ("gemini"@, "succeeded"@),
        RunStatus::Succeeded(ProviderKind::DeepSeek) => ("deepseek"@, "succeeded"@),
        RunStatus::Succeeded(ProviderKind::Deterministic) => ("deterministic"@, "baseline"@),
        RunStatus::Exhausted => ("deterministic"@, "exhausted"@),
    }
}

fn identity(value: &str) -> (r: bool)
    ensures
        r == is_identity(value@),
{
    !trim::blank(value) && text::byte_len(value) <= 256
}

impl TraceEvent {
    /// Builds an event while rejecting uncontrolled phases and payloads. The clock gives the
    /// nanoseconds since the Unix epoch, if they can be told.
    pub fn new(
        trace_id: &str,
        span_id: &str,
        name: &str,
        phase: &str,
        provider: Option<&str>,
        duration_ms: u64,
        clock: Option<u128>,
    ) -> (r: Option<Self>)
        ensures
            ({
                let alias = match provider {
                    Some(alias) => Some(alias@),
                    None => None,
                };
                match r {
                    Some(event) => is_recordable(trace_id@, span_id@, name@, phase@, alias) && (
                    clock matches Some(nanos) && nanos <= u64::MAX && event@ == recorded(
                        trace_id@,
                        span_id@,
                        name@,
                        phase@,
                        alias,
                        duration_ms,
                        nanos as u64,
                    )),
                    None => !is_recordable(trace_id@, span_id@, name@, phase@, alias)
                        || clock is None || clock->0 > u64::MAX,
                }
            }),
            r matches Some(event) ==> event@.trace_id.len() == 32 && event@.span_id.len() == 16,
    {
        if !super::allowed_phase(phase) || !text::text_eq(name, "incident.investigation")
            || !identity(trace_id) || !identity(span_id) {
            return None;
        }
        let alias = match provider {
            Some(alias) => {
                if !text::text_eq(alias, "openai") && !text::text_eq(alias, "gemini")
                    && !text::text_eq(alias, "deepseek") {
                    return None;
                }
                Some(trim::clip(alias, 64))
            },
            None => None,
        };
        let end_time_unix_nano: u64 = match clock {
            Some(nanos) => {
                if nanos > u64::MAX as u128 {
                    return None;
                }
                nanos as u64
            },
            None => return None,
        };
        let span = text::enclosed(span_id, ":", name);
        Some(
            TraceEvent {
                trace_id: incident_trace_id(trace_id),
                span_id: correlation_id(span.as_str(), 8),
                name: trim::clip(name, 128),
                phase: phase.to_owned(),
                provider: alias,
                duration_ms,
                end_time_unix_nano,
                outcome: "unspecified".to_owned(),
            },
        )
    }

    /// Attaches the terminal domain status without accepting model-generated labels.
    pub fn with_status(self, status: RunStatus) -> (r: Self)
        ensures
            r@ == (TraceView {
                provider: Some(status_words(status).0),
                outcome: status_words(status).1,
                ..self@
            }),
    {
        let mut event = self;
        let (provider, outcome) = match status {
            RunStatus::Succeeded(ProviderKind::OpenAi) => (
                "openai".to_owned(),
                "succeeded".to_owned(),
            ),
            RunStatus::Succeeded(ProviderKind::Gemini) => (
                "gemini".to_owned(),
                "succeeded".to_owned(),
            ),
            RunStatus::Succeeded(ProviderKind::DeepSeek) => (
                "deepseek".to_owned(),
                "succeeded".to_owned(),
            ),
            RunStatus::Succeeded(ProviderKind::Deterministic) => (
                "deterministic".to_owned(),
                "baseline".to_owned(),
            ),
            RunStatus::Exhausted => ("deterministic".to_owned(), "exhausted".to_owned()),
        };
        event.provider = Some(provider);
        event.outcome = outcome;
        event
    }

    /// Marks an application failure without serializing its potentially sensitive error.
    pub fn with_failure(self) -> (r: Self)
        ensures
            r@ == (TraceView { provider: None, outcome: "failed"@, ..self@ }),
    {
        let mut event = self;
        event.outcome = "failed".to_owned();
        event.provider = None;
        event
    }

    fn attributes(&self) -> (r: String)
        ensures
            r@ == attributes_text(self@),
    {
        let alias = match &self.provider {
            Some(alias) => alias.clone(),
            None => "none".to_owned(),
        };
        let duration = number::decimal_text(self.duration_ms);
        let a = vec![
            attribute("phase", "stringValue", self.phase.as_str()),
            attribute("outcome", "stringValue", self.outcome.as_str()),
            attribute("provider", "stringValue", alias.as_str()),
            attribute("duration_ms", "intValue", duration.as_str()),
        ];
        assert(text::texts(a@) =~= seq![a@[0]@, a@[1]@, a@[2]@, a@[3]@]);
        json::array(&a)
    }

    fn span(&self) -> (r: String)
        ensures
            r@ == span_text(self@),
    {
        let attributes = self.attributes();
        let end = number::decimal_text(self.end_time_unix_nano);
        let start = number::decimal_text(start_nano(self.end_time_unix_nano, self.duration_ms));
        let s = vec![
            json::raw_member("attributes", attributes.as_str()),
            json::text_member("endTimeUnixNano", end.as_str()),
            json::text_member("name", self.name.as_str()),
            json::text_member("spanId", self.span_id.as_str()),
            json::text_member("startTimeUnixNano", start.as_str()),
            json::text_member("traceId", self.trace_id.as_str()),
        ];
        assert(text::texts(s@) =~= seq![s@[0]@, s@[1]@, s@[2]@, s@[3]@, s@[4]@, s@[5]@]);
        json::object(&s)
    }

    /// The export request of the event.
    pub fn payload(&self) -> (r: String)
        ensures
            r@ == trace_payload(self@),
    {
        let spans = listed_member("spans", self.span());
        let scopes = listed_member("scopeSpans", wrapped(spans));
        let service = attribute("service.name", "stringValue", "ai-sre");
        let service_list = listed_member("attributes", service);
        let holder = wrapped(service_list);
        let resource = json::raw_member("resource", holder.as_str());
        let e = vec![resource, scopes];
        assert(text::texts(e@) =~= seq![e@[0]@, e@[1]@]);
        let entries = listed_member("resourceSpans", json::object(&e));
        wrapped(entries)
    }
}

/// The start of an event, not before the epoch.
pub open spec fn start_time(end: u64, duration_ms: u64) -> nat {
    if end >= duration_ms * 1000000 {
        (end - duration_ms * 1000000) as nat
    } else {
        0
    }
}

fn start_nano(end: u64, duration_ms: u64) -> (r: u64)
    ensures
        r == start_time(end, duration_ms),
{
    let length: u128 = duration_ms as u128 * 1000000;
    if end as u128 >= length {
        (end as u128 - length) as u64
    } else {
        0
    }
}

/// One attribute: its key, and its value under the name of its type.
pub open spec fn attribute_text(key: Seq<char>, kind: Seq<char>, value: Seq<char>) -> Seq<char> {
    json::object_text(
        seq![
            json::member("key"@, json::json_string(key)),
            json::member(
                "value"@,
                json::object_text(seq![json::member(kind, json::json_string(value))]),
            ),
        ],
    )
}

/// An object with one member.
pub open spec fn wrapped_text(member: Seq<char>) -> Seq<char> {
    json::object_text(seq![member])
}

/// A member that is an array of one item.
pub open spec fn listed_text(key: Seq<char>, item: Seq<char>) -> Seq<char> {
    json::member(key, json::array_text(seq![item]))
}

/// The provider that is exported.
pub open spec fn exported_provider(provider: Option<Seq<char>>) -> Seq<char> {
    match provider {
        Some(alias) => alias,
        None => "none"@,
    }
}

/// The attributes of an event.
pub open spec fn attributes_text(event: TraceView) -> Seq<char> {
    json::array_text(
        seq![
            attribute_text("phase"@, "stringValue"@, event.phase),
            attribute_text("outcome"@, "stringValue"@, event.outcome),
            attribute_text("provider"@, "stringValue"@, exported_provider(event.provider)),
            attribute_text(
                "duration_ms"@,
                "intValue"@,
                number::decimal(event.duration_ms as nat),
            ),
        ],
    )
}

/// The span of an event.
pub open spec fn span_text(event: TraceView) -> Seq<char> {
    json::object_text(
        seq![
            json::member("attributes"@, attributes_text(event)),
            json::member(
                "endTimeUnixNano"@,
                json::json_string(number::decimal(event.end_time_unix_nano as nat)),
            ),
            json::member("name"@, json::json_string(event.name)),
            json::member("spanId"@, json::json_string(event.span_id)),
            json::member(
                "startTimeUnixNano"@,
                json::json_string(
                    number::decimal(start_time(event.end_time_unix_nano, event.duration_ms)),
                ),
            ),
            json::member("traceId"@, json::json_string(event.trace_id)),
        ],
    )
}

/// The export request of an event.
pub open spec fn trace_payload(event: TraceView) -> Seq<char> {
    wrapped_text(
        listed_text(
            "resourceSpans"@,
            json::object_text(
                seq![
                    json::member(
                        "resource"@,
                        wrapped_text(
                            listed_text(
                                "attributes"@,
                                attribute_text("service.name"@, "stringValue"@, "ai-sre"@),
                            ),
                        ),
                    ),
                    listed_text(
                        "scopeSpans"@,
                        wrapped_text(listed_text("spans"@, span_text(event))),
                    ),
                ],
            ),
        ),
    )
}

fn wrapped(member: String) -> (r: String)
    ensures
        r@ == wrapped_text(member@),
{
    let m = vec![member];
    assert(text::texts(m@) =~= seq![m@[0]@]);
    json::object(&m)
}

fn listed_member(key: &str, item: String) -> (r: String)
    ensures
        r@ == listed_text(key@, item@),
{
    let m = vec![item];
    assert(text::texts(m@) =~= seq![m@[0]@]);
    let items = json::array(&m);
    json::raw_member(key, items.as_str())
}

fn attribute(key: &str, kind: &str, value: &str) -> (r: String)
    ensures
        r@ == attribute_text(key@, kind@, value@),
{
    let held = wrapped(json::text_member(kind, value));
    let m = vec![json::text_member("key", key), json::raw_member("value", held.as_str())];
    assert(text::texts(m@) =~= seq![m@[0]@, m@[1]@]);
    json::object(&m)
}

/// Whether the body of an export response still fits with one more chunk.
pub fn response_fits(held: usize, chunk: usize, max_response_bytes: usize) -> (r: bool)
    ensures
        r == (held + chunk <= max_response_bytes),
{
    held <= max_response_bytes && chunk <= max_response_bytes - held
}

/// No spans were rejected: the document, its partial success and its rejected spans, each as far
/// as there is one.
pub open spec fn is_full_success(
    root: Option<json::ShapeView>,
    partial: Option<json::ShapeView>,
    rejected: Option<json::ShapeView>,
) -> bool {
    &&& root == Some(json::ShapeView::Object)
    &&& match partial {
        None => true,
        Some(json::ShapeView::Null) => true,
        Some(json::ShapeView::Object) => match rejected {
            None => true,
            Some(json::ShapeView::Number(n)) => n == Some(0u64),
            Some(json::ShapeView::Text(s)) => s == "0"@,
            _ => false,
        },
        _ => false,
    }
}

/// Decides [`is_full_success`].
pub fn full_success(
    root: Option<JsonShape>,
    partial: Option<JsonShape>,
    rejected: Option<JsonShape>,
) -> (r: bool)
    ensures
        r == is_full_success(shape(root), shape(partial), shape(rejected)),
{
    match root {
        Some(JsonShape::Object) => {},
        _ => return false,
    }
    match partial {
        None => true,
        Some(JsonShape::Null) => true,
        Some(JsonShape::Object) => match rejected {
            None => true,
            Some(JsonShape::Number(n)) => match n {
                Some(n) => n == 0,
                None => false,
            },
            Some(JsonShape::Text(s)) => text::text_eq(s.as_str(), "0"),
            _ => false,
        },
        _ => false,
    }
}

/// A value that may be missing.
pub open spec fn shape(value: Option<JsonShape>) -> Option<json::ShapeView> {
    match value {
        Some(value) => Some(value@),
        None => None,
    }
}

/// Whether an export was accepted: the status that came back, and the whole body if it stayed
/// within its bound. A successful status can still reject spans.
pub fn export_accepted(status: u16, body: Option<&[u8]>) -> (r: bool)
    ensures
        r == (status == 200 && (body matches Some(bytes) && is_full_success(
            json::json_at(bytes@, ""@),
            json::json_at(bytes@, "/partialSuccess"@),
            json::json_at(bytes@, "/partialSuccess/rejectedSpans"@),
        ))),
{
    if status != 200 {
        return false;
    }
    match body {
        Some(bytes) => full_success(
            json::find(bytes, ""),
            json::find(bytes, "/partialSuccess"),
            json::find(bytes, "/partialSuccess/rejectedSpans"),
        ),
        None => false,
    }
}

/// A recorded event holds its phase and its name only from fixed lists, and its identities only
/// as digests of a fixed length.
pub proof fn recorded_events_hold_no_raw_identity(
    trace_id: Seq<char>,
    span_id: Seq<char>,
    name: Seq<char>,
    phase: Seq<char>,
    provider: Option<Seq<char>>,
    duration_ms: u64,
    end: u64,
)
    requires
        is_recordable(trace_id, span_id, name, phase, provider),
    ensures
        ({
            let event = recorded(trace_id, span_id, name, phase, provider, duration_ms, end);
            &&& super::is_phase(event.phase)
            &&& event.name == "incident.investigation"@
            &&& event.trace_id == number::hex(
                digest::sha256(vstd::utf8::encode_utf8(trace_id)).take(16),
            )
            &&& event.provider matches Some(alias) ==> is_provider_alias(alias)
        }),
{
    reveal_strlit("incident.investigation");
    reveal_strlit("openai");
    reveal_strlit("gemini");
    reveal_strlit("deepseek");
}

/// The trace endpoint is the configured one where there is one, and else the base with the traces
/// path; either must be a plain `http` or `https` URL.
pub proof fn endpoints_are_plain_and_specific_first(base: Seq<char>, traces: Seq<char>)
    ensures
        ({
            let plain = |parts: url::UrlView|
                (parts.scheme == "http"@ || parts.scheme == "https"@) && parts.username.len() == 0
                    && parts.password is None && parts.query is None && parts.fragment is None
                    && parts.host is Some;
            &&& selected_endpoint(None, None) is None
            &&& selected_endpoint(Some(base), Some(traces)) == selected_endpoint(None, Some(traces))
            &&& url::url_parts(traces) is None ==> selected_endpoint(None, Some(traces)) is None
            &&& url::url_parts(traces) matches Some(parts) ==> selected_endpoint(
                None,
                Some(traces),
            ) == (if plain(parts) {
                Some(parts.text)
            } else {
                None
            })
            &&& url::url_parts(base) is None ==> selected_endpoint(Some(base), None) is None
            &&& url::url_parts(base) matches Some(parts) ==> selected_endpoint(Some(base), None) == (
            if plain(parts) {
                url::url_with_path(base, trim::skip_trailing(parts.path, '/') + "/v1/traces"@)
            } else {
                None
            })
        }),
{
}

/// An event is recorded exactly of a known phase and the one operation, under identities of at most 256
/// bytes that are not blank, and of a known provider where one is named.
pub proof fn events_are_recorded_exactly_of_known_metadata(
    trace_id: Seq<char>,
    span_id: Seq<char>,
    name: Seq<char>,
    phase: Seq<char>,
    provider: Option<Seq<char>>,
)
    ensures
        ({
            let named = |id: Seq<char>|
                vstd::utf8::encode_utf8(id).len() <= 256 && exists|i: int|
                    0 <= i < id.len() && !trim::is_space(#[trigger] id[i]);
            is_recordable(trace_id, span_id, name, phase, provider) <==> (phase == "investigation"@
                || phase == "reasoning"@ || phase == "human_wait"@ || phase == "execution"@) && name
                == "incident.investigation"@ && named(trace_id) && named(span_id) && (provider
                is None || provider == Some("openai"@) || provider == Some("gemini"@) || provider
                == Some("deepseek"@))
        }),
{
    lemma_named(trace_id);
    lemma_named(span_id);
}

proof fn lemma_named(id: Seq<char>)
    ensures
        trim::is_blank(id) == !exists|i: int| 0 <= i < id.len() && !trim::is_space(#[trigger] id[i]),
{
}

/// A recorded event holds digests of its identities, its metadata as given, and no outcome yet.
pub proof fn recorded_events_hold_their_metadata(
    trace_id: Seq<char>,
    span_id: Seq<char>,
    name: Seq<char>,
    phase: Seq<char>,
    provider: Option<Seq<char>>,
    duration_ms: u64,
    end: u64,
)
    requires
        name.len() <= 128,
        provider matches Some(alias) ==> alias.len() <= 64,
    ensures
        ({
            let event = recorded(trace_id, span_id, name, phase, provider, duration_ms, end);
            let hash = |s: Seq<char>| digest::sha256(vstd::utf8::encode_utf8(s));
            &&& event.trace_id == number::hex(hash(trace_id).take(16))
            &&& event.span_id == number::hex(hash(span_id + ":"@ + name).take(8))
            &&& event.name == name
            &&& event.phase == phase
            &&& event.provider == provider
            &&& event.duration_ms == duration_ms
            &&& event.end_time_unix_nano == end
            &&& event.outcome == "unspecified"@
        }),
{
}

/// A run that ended is told by the provider and the fixed word of its status.
pub proof fn outcomes_are_told_by_provider_and_word(status: RunStatus)
    ensures
        status == RunStatus::Succeeded(ProviderKind::OpenAi) ==> status_words(status) == (
            "openai"@,
            "succeeded"@,
        ),
        status == RunStatus::Succeeded(ProviderKind::Gemini) ==> status_words(status) == (
            "gemini"@,
            "succeeded"@,
        ),
        status == RunStatus::Succeeded(ProviderKind::DeepSeek) ==> status_words(status) == (
            "deepseek"@,
            "succeeded"@,
        ),
        status == RunStatus::Succeeded(ProviderKind::Deterministic) ==> status_words(status) == (
            "deterministic"@,
            "baseline"@,
        ),
        status == RunStatus::Exhausted ==> status_words(status) == (
            "deterministic"@,
            "exhausted"@,
        ),
{
}

/// A span began its duration before it ended, or at the epoch.
pub proof fn spans_begin_before_they_end(end: u64, duration_ms: u64)
    ensures
        duration_ms * 1000000 <= end ==> start_time(end, duration_ms) + duration_ms * 1000000 == end,
        duration_ms * 1000000 > end ==> start_time(end, duration_ms) == 0,
{
}

/// A member of an object that holds one member.
proof fn lemma_wrapped(key: Seq<char>, value: Seq<char>)
    ensures
        text::has_part(wrapped_text(json::member(key, value)), value),
        text::has_part(wrapped_text(listed_text(key, value)), value),
        text::has_part(listed_text(key, value), value),
{
    let one = seq![json::member(key, value)];
    json::objects_hold_their_members(one);
    json::members_hold_key_and_value(key, value);
    assert(text::has_part(json::object_text(one), one[0]));
    text::lemma_part_of_part(json::object_text(one), one[0], value);
    let list = seq![value];
    json::arrays_hold_their_items(list);
    assert(text::has_part(json::array_text(list), list[0]));
    json::members_hold_key_and_value(key, json::array_text(list));
    text::lemma_part_of_part(listed_text(key, value), json::array_text(list), value);
    let listed = seq![listed_text(key, value)];
    json::objects_hold_their_members(listed);
    assert(text::has_part(json::object_text(listed), listed[0]));
    text::lemma_part_of_part(wrapped_text(listed_text(key, value)), listed[0], value);
}

/// The attributes of a span say the phase, the outcome, the provider and the duration.
pub proof fn attributes_say_phase_outcome_provider_and_duration(event: TraceView)
    ensures
        ({
            let attributes = attributes_text(event);
            let provider = match event.provider {
                Some(alias) => alias,
                None => "none"@,
            };
            &&& text::has_part(attributes, attribute_text("phase"@, "stringValue"@, event.phase))
            &&& text::has_part(attributes, attribute_text("outcome"@, "stringValue"@, event.outcome))
            &&& text::has_part(attributes, attribute_text("provider"@, "stringValue"@, provider))
            &&& text::has_part(
                attributes,
                attribute_text(
                    "duration_ms"@,
                    "intValue"@,
                    number::decimal(event.duration_ms as nat),
                ),
            )
        }),
{
    let items = seq![
        attribute_text("phase"@, "stringValue"@, event.phase),
        attribute_text("outcome"@, "stringValue"@, event.outcome),
        attribute_text("provider"@, "stringValue"@, exported_provider(event.provider)),
        attribute_text("duration_ms"@, "intValue"@, number::decimal(event.duration_ms as nat)),
    ];
    json::arrays_hold_their_items(items);
    assert(attributes_text(event) == json::array_text(items));
    assert(text::has_part(json::array_text(items), items[0]));
    assert(text::has_part(json::array_text(items), items[1]));
    assert(text::has_part(json::array_text(items), items[2]));
    assert(text::has_part(json::array_text(items), items[3]));
}

/// A span says every field of its event.
pub proof fn spans_say_every_field(event: TraceView)
    ensures
        ({
            let span = span_text(event);
            let end = number::decimal(event.end_time_unix_nano as nat);
            let start = number::decimal(start_time(event.end_time_unix_nano, event.duration_ms));
            &&& text::has_part(span, json::member("attributes"@, attributes_text(event)))
            &&& text::has_part(span, json::member("endTimeUnixNano"@, json::json_string(end)))
            &&& text::has_part(span, json::member("name"@, json::json_string(event.name)))
            &&& text::has_part(span, json::member("spanId"@, json::json_string(event.span_id)))
            &&& text::has_part(span, json::member("startTimeUnixNano"@, json::json_string(start)))
            &&& text::has_part(span, json::member("traceId"@, json::json_string(event.trace_id)))
        }),
{
    let end = number::decimal(event.end_time_unix_nano as nat);
    let start = number::decimal(start_time(event.end_time_unix_nano, event.duration_ms));
    let members = seq![
        json::member("attributes"@, attributes_text(event)),
        json::member("endTimeUnixNano"@, json::json_string(end)),
        json::member("name"@, json::json_string(event.name)),
        json::member("spanId"@, json::json_string(event.span_id)),
        json::member("startTimeUnixNano"@, json::json_string(start)),
        json::member("traceId"@, json::json_string(event.trace_id)),
    ];
    json::objects_hold_their_members(members);
    assert(span_text(event) == json::object_text(members));
    assert(text::has_part(json::object_text(members), members[0]));
    assert(text::has_part(json::object_text(members), members[1]));
    assert(text::has_part(json::object_text(members), members[2]));
    assert(text::has_part(json::object_text(members), members[3]));
    assert(text::has_part(json::object_text(members), members[4]));
    assert(text::has_part(json::object_text(members), members[5]));
}

/// What an attribute says: its key, and its value under its kind.
pub proof fn attributes_say_key_and_value(key: Seq<char>, kind: Seq<char>, value: Seq<char>)
    ensures
        text::has_part(
            attribute_text(key, kind, value),
            json::member("key"@, json::json_string(key)),
        ),
        text::has_part(
            attribute_text(key, kind, value),
            json::member(kind, json::json_string(value)),
        ),
{
    let held = json::member(kind, json::json_string(value));
    let object = wrapped_text(held);
    let members = seq![
        json::member("key"@, json::json_string(key)),
        json::member("value"@, object),
    ];
    let whole = attribute_text(key, kind, value);
    assert(whole == json::object_text(members));
    json::lemma_object_member(members, 0);
    json::lemma_object_member(members, 1);
    assert(text::has_part(whole, json::member("value"@, object)));
    assert(text::has_part(whole, held)) by {
        json::lemma_object_member(seq![held], 0);
        assert(text::has_part(object, held));
        json::members_hold_key_and_value("value"@, object);
        text::lemma_part_of_part(whole, json::member("value"@, object), object);
        text::lemma_part_of_part(whole, object, held);
    }
}

proof fn lemma_scope_holds(resource: Seq<char>, spans: Seq<char>)
    ensures
        ({
            let scope = json::object_text(
                seq![json::member("resource"@, resource), listed_text("scopeSpans"@, spans)],
            );
            text::has_part(scope, resource) && text::has_part(scope, spans)
        }),
{
    let parts = seq![json::member("resource"@, resource), listed_text("scopeSpans"@, spans)];
    let scope = json::object_text(parts);
    json::objects_hold_their_members(parts);
    assert(text::has_part(scope, parts[0]));
    assert(text::has_part(scope, parts[1]));
    json::members_hold_key_and_value("resource"@, resource);
    text::lemma_part_of_part(scope, parts[0], resource);
    lemma_wrapped("scopeSpans"@, spans);
    text::lemma_part_of_part(scope, parts[1], spans);
}

/// What is exported of an event holds its span and names the service.
pub proof fn payloads_hold_their_span(event: TraceView)
    ensures
        text::has_part(trace_payload(event), span_text(event)),
        text::has_part(
            trace_payload(event),
            attribute_text("service.name"@, "stringValue"@, "ai-sre"@),
        ),
{
    let span = span_text(event);
    let service = attribute_text("service.name"@, "stringValue"@, "ai-sre"@);
    let resource = wrapped_text(listed_text("attributes"@, service));
    let spans = wrapped_text(listed_text("spans"@, span));
    lemma_wrapped("attributes"@, service);
    lemma_wrapped("spans"@, span);
    lemma_scope_holds(resource, spans);
    let scope = json::object_text(
        seq![json::member("resource"@, resource), listed_text("scopeSpans"@, spans)],
    );
    text::lemma_part_of_part(scope, resource, service);
    text::lemma_part_of_part(scope, spans, span);
    lemma_wrapped("resourceSpans"@, scope);
    text::lemma_part_of_part(trace_payload(event), scope, span);
    text::lemma_part_of_part(trace_payload(event), scope, service);
}

/// An export was taken whole exactly where the answer is an object that tells of no partial success, or
/// of one without rejected spans.
pub proof fn exports_are_whole_without_rejected_spans(
    root: Option<json::ShapeView>,
    partial: Option<json::ShapeView>,
    rejected: Option<json::ShapeView>,
)
    ensures
        is_full_success(root, partial, rejected) <==> root == Some(json::ShapeView::Object) && (partial
            is None || partial == Some(json::ShapeView::Null) || (partial == Some(
            json::ShapeView::Object,
        ) && (rejected is None || rejected == Some(json::ShapeView::Number(Some(0u64))) || rejected
            == Some(json::ShapeView::Text("0"@))))),
{
}

} // verus!
