//! Read-only notification boundary for shadow investigation reports.
//!
//! ntfy is treated as a delivery and interaction surface only. A published
//! message contains a recommendation, never an authorization token or an
//! executable command.

use crate::process;
use crate::reasoning::contracts::InvestigationResult;
use crate::reasoning::router;
use crate::text;
use crate::text::number;
use crate::text::trim;
use crate::url;
use vstd::prelude::*;

verus! {

/// Largest message, in bytes.
pub const MAX_MESSAGE_BYTES: usize = 65536;

/// Non-secret ntfy destination settings.
#[derive(Debug, Clone, PartialEq, Eq)]
pub struct NtfyConfig {
    /// Base ntfy endpoint, for example `https://ntfy.example`.
    pub endpoint: String,
    /// Topic receiving shadow reports.
    pub topic: String,
}

/// Safe failures from the notification transport.
#[derive(Debug, Clone, Copy, PartialEq, Eq, Structural)]
pub enum NtfyError {
    /// The request could not reach the configured endpoint.
    Transport,
    /// ntfy rejected the publication.
    Rejected,
}

/// One topic: present, of at most 128 bytes, and without delimiters or control characters.
pub open spec fn is_topic(topic: Seq<char>) -> bool {
    &&& !trim::is_blank(topic)
    &&& text::utf8_len(topic) <= 128
    &&& !topic.contains('/')
    &&& !topic.contains('?')
    &&& !topic.contains('#')
    &&& !trim::has_control(topic)
}

/// An HTTPS endpoint, given its parts.
pub open spec fn is_endpoint(parts: Option<url::UrlView>) -> bool {
    parts matches Some(parts) && parts.scheme == "https"@ && url::is_plain(parts)
}

fn topic_admitted(topic: &str) -> (r: bool)
    ensures
        r == is_topic(topic@),
{
    !trim::blank(topic) && text::byte_len(topic) <= 128 && !text::contains_char(topic, '/')
        && !text::contains_char(topic, '?') && !text::contains_char(topic, '#')
        && !trim::any_control(topic)
}

impl NtfyConfig {
    /// Whether a destination may be published to.
    pub open spec fn valid(self) -> bool {
        is_endpoint(url::url_parts(trim::trim(self.endpoint@))) && is_topic(self.topic@)
    }

    /// Validates a destination, given the parts of its endpoint.
    pub fn admits(&self, endpoint: Option<&url::UrlParts>) -> (r: bool)
        ensures
            r == (is_endpoint(
                match endpoint {
                    Some(parts) => Some(parts@),
                    None => None,
                },
            ) && is_topic(self.topic@)),
    {
        match endpoint {
            Some(parts) => text::text_eq(parts.scheme.as_str(), "https") && url::plain(parts)
                && topic_admitted(self.topic.as_str()),
            None => false,
        }
    }

    /// Validates the server-owned endpoint and single publish topic.
    pub fn is_valid(&self) -> (r: bool)
        ensures
            r == self.valid(),
    {
        let endpoint = trim::trimmed(self.endpoint.as_str());
        match url::parse(endpoint.as_str()) {
            Some(parts) => self.admits(Some(&parts)),
            None => false,
        }
    }
}

/// A publisher for redacted shadow reports.
pub struct NtfyPublisher {
    config: NtfyConfig,
    access_token: Option<String>,
}

/// One publication.
pub struct NtfyRequest {
    /// Destination.
    pub url: String,
    /// Headers.
    pub headers: Vec<(String, String)>,
    /// Private bearer token, if there is one.
    pub bearer: Option<String>,
    /// Message.
    pub body: String,
}

/// One publication.
pub struct RequestView {
    /// Destination.
    pub url: Seq<char>,
    /// Headers.
    pub headers: Seq<(Seq<char>, Seq<char>)>,
    /// Private bearer token, if there is one.
    pub bearer: Option<Seq<char>>,
    /// Message.
    pub body: Seq<char>,
}

impl View for NtfyRequest {
    type V = RequestView;

    open spec fn view(&self) -> RequestView {
        RequestView {
            url: self.url@,
            headers: process::pairs(self.headers@),
            bearer: url::optional(self.bearer),
            body: self.body@,
        }
    }
}

/// The destination of a publication.
pub open spec fn publish_url(config: NtfyConfig) -> Seq<char> {
    trim::skip_trailing(config.endpoint@, '/') + "/"@ + config.topic@
}

/// The headers of a publication.
pub open spec fn publish_headers(delivery_id: Option<Seq<char>>) -> Seq<(Seq<char>, Seq<char>)> {
    let fixed = seq![("Title"@, "AI SRE shadow investigation"@), ("Tags"@, "mag,robot_face"@)];
    match delivery_id {
        Some(delivery_id) => fixed.push(("X-Idempotency-Key"@, delivery_id)),
        None => fixed,
    }
}

impl NtfyPublisher {
    /// Destination settings.
    pub closed spec fn settings(self) -> NtfyConfig {
        self.config
    }

    /// Private bearer token.
    pub closed spec fn token(self) -> Option<Seq<char>> {
        url::optional(self.access_token)
    }

    /// Creates a publisher with an optional private bearer token.
    pub fn new(config: NtfyConfig, access_token: Option<String>) -> (r: Self)
        ensures
            r.settings() == config,
            r.token() == url::optional(access_token),
    {
        NtfyPublisher { config, access_token }
    }

    /// What is published of a message: a request, unless the destination or the message is
    /// refused.
    pub open spec fn publication(
        self,
        delivery_id: Option<Seq<char>>,
        message: Seq<char>,
    ) -> Result<RequestView, NtfyError> {
        if !self.settings().valid() || text::utf8_len(message) > MAX_MESSAGE_BYTES {
            Err(NtfyError::Rejected)
        } else {
            Ok(
                RequestView {
                    url: publish_url(self.settings()),
                    headers: publish_headers(delivery_id),
                    bearer: self.token(),
                    body: message,
                },
            )
        }
    }

    /// Publishes one shadow recommendation; no action is authorized here.
    pub fn publish(&self, result: &InvestigationResult) -> (r: Result<NtfyRequest, NtfyError>)
        ensures
            match r {
                Ok(request) => self.publication(None, report_text(*result, None)) == Ok::<
                    RequestView,
                    NtfyError,
                >(request@),
                Err(error) => self.publication(None, report_text(*result, None)) == Err::<
                    RequestView,
                    NtfyError,
                >(error),
            },
    {
        let message = render_message(result);
        self.publish_message(message.as_str())
    }

    /// Publishes an already-rendered outbox message with the same bounded
    /// transport and authentication policy.
    pub fn publish_message(&self, message: &str) -> (r: Result<NtfyRequest, NtfyError>)
        ensures
            match r {
                Ok(request) => self.publication(None, message@) == Ok::<RequestView, NtfyError>(
                    request@,
                ),
                Err(error) => self.publication(None, message@) == Err::<RequestView, NtfyError>(
                    error,
                ),
            },
    {
        self.publish_internal(None, message)
    }

    /// Publishes an outbox message with its stable delivery identity.
    pub fn publish_with_delivery_id(&self, delivery_id: &str, message: &str) -> (r: Result<
        NtfyRequest,
        NtfyError,
    >)
        ensures
            match r {
                Ok(request) => self.publication(Some(delivery_id@), message@) == Ok::<
                    RequestView,
                    NtfyError,
                >(request@),
                Err(error) => self.publication(Some(delivery_id@), message@) == Err::<
                    RequestView,
                    NtfyError,
                >(error),
            },
    {
        self.publish_internal(Some(delivery_id), message)
    }

    fn publish_internal(&self, delivery_id: Option<&str>, message: &str) -> (r: Result<
        NtfyRequest,
        NtfyError,
    >)
        ensures
            ({
                let wanted = self.publication(
                    match delivery_id {
                        Some(delivery_id) => Some(delivery_id@),
                        None => None,
                    },
                    message@,
                );
                match r {
                    Ok(request) => wanted == Ok::<RequestView, NtfyError>(request@),
                    Err(error) => wanted == Err::<RequestView, NtfyError>(error),
                }
            }),
    {
        if !self.config.is_valid() || text::byte_len(message) > MAX_MESSAGE_BYTES {
            return Err(NtfyError::Rejected);
        }
        let mut url = trim::without_trailing(self.config.endpoint.as_str(), '/');
        url.append("/");
        url.append(self.config.topic.as_str());
        let mut headers = vec![
            process::variable("Title", "AI SRE shadow investigation"),
            process::variable("Tags", "mag,robot_face"),
        ];
        match delivery_id {
            Some(delivery_id) => headers.push(process::variable("X-Idempotency-Key", delivery_id)),
            None => {},
        }
        proof {
            assert(process::pairs(headers@) =~= publish_headers(
                match delivery_id {
                    Some(delivery_id) => Some(delivery_id@),
                    None => None,
                },
            ));
        }
        let bearer = match &self.access_token {
            Some(token) => Some(token.clone()),
            None => None,
        };
        Ok(NtfyRequest { url, headers, bearer, body: message.to_owned() })
    }

    /// The outcome of a publication: the status that came back, if one did.
    pub fn settle(&self, status: Option<u16>) -> (r: Result<(), NtfyError>)
        ensures
            r == (match status {
                Some(status) => if status == 200 {
                    Ok(())
                } else {
                    Err(NtfyError::Rejected)
                },
                None => Err(NtfyError::Transport),
            }),
    {
        match status {
            Some(status) => {
                if status == 200 {
                    Ok(())
                } else {
                    Err(NtfyError::Rejected)
                }
            },
            None => Err(NtfyError::Transport),
        }
    }
}

/// The provider that a report names.
pub open spec fn report_provider(result: InvestigationResult) -> Seq<char> {
    match result.terminal_provider {
        Some(provider) => router::provider_name(provider),
        None => "deterministic-baseline"@,
    }
}

/// A report, given its link if it has one. Of the summary it shows the first 60000 characters of
/// its redacted form.
pub open spec fn report_text(result: InvestigationResult, link: Option<Seq<char>>) -> Seq<char> {
    "Incident: "@ + result.incident_id@ + "\nProvider: "@ + report_provider(result)
        + "\nSummary: "@ + trim::clipped(result.redacted_summary@, 60000) + "\nEvidence: "@
        + number::decimal(result.evidence_ids@.len()) + " item(s)\nMode: shadow; no action executed."@
        + match link {
        Some(link) => "\nView: "@ + link,
        None => Seq::<char>::empty(),
    }
}

/// Renders a report, given its link if it has one.
pub fn render_linked(result: &InvestigationResult, link: Option<&str>) -> (r: String)
    ensures
        r@ == report_text(
            *result,
            match link {
                Some(link) => Some(link@),
                None => None,
            },
        ),
{
    let mut out = "Incident: ".to_owned();
    out.append(result.incident_id.as_str());
    out.append("\nProvider: ");
    match result.terminal_provider {
        Some(provider) => {
            let name = provider.name();
            out.append(name.as_str());
        },
        None => out.append("deterministic-baseline"),
    }
    out.append("\nSummary: ");
    let summary = trim::clip(result.redacted_summary.as_str(), 60000);
    out.append(summary.as_str());
    out.append("\nEvidence: ");
    let count = number::decimal_text(result.evidence_ids.len() as u64);
    out.append(count.as_str());
    out.append(" item(s)\nMode: shadow; no action executed.");
    match link {
        Some(link) => {
            out.append("\nView: ");
            out.append(link);
        },
        None => {},
    }
    proof {
        assert(out@ =~= report_text(
            *result,
            match link {
                Some(link) => Some(link@),
                None => None,
            },
        ));
    }
    out
}

/// Renders a bounded operator-facing report without raw tool payloads, from the redacted summary.
pub fn render_message(result: &InvestigationResult) -> (r: String)
    ensures
        r@ == report_text(*result, None),
{
    render_linked(result, None)
}

/// Renders a report with an optional server-owned read-only incident link.
pub fn render_message_with_view(result: &InvestigationResult, view_base_url: Option<&str>) -> (r:
    String)
    requires
        view_base_url is Some ==> result.incident_id@.len() <= url::MAX_PATH_CHARS,
        view_base_url matches Some(base) ==> base@.len() <= url::MAX_URL_CHARS,
    ensures
        r@ == report_text(
            *result,
            match view_base_url {
                Some(base) => url::url_with_segment(trim::trim(base@), result.incident_id@),
                None => None,
            },
        ),
{
    match view_base_url {
        Some(base) => {
            proof {
                trim::lemma_trim_len(base@);
            }
            let base = trim::trimmed(base);
            match url::with_segment(base.as_str(), result.incident_id.as_str()) {
                Some(link) => render_linked(result, Some(link.as_str())),
                None => render_linked(result, None),
            }
        },
        None => render_linked(result, None),
    }
}

/// Every report says that nothing was executed.
pub proof fn reports_say_that_no_action_was_executed(
    result: InvestigationResult,
    link: Option<Seq<char>>,
)
    ensures
        text::has_part(report_text(result, link), " item(s)\nMode: shadow; no action executed."@),
{
    let before = "Incident: "@ + result.incident_id@ + "\nProvider: "@ + report_provider(result)
        + "\nSummary: "@ + trim::clipped(result.redacted_summary@, 60000) + "\nEvidence: "@
        + number::decimal(result.evidence_ids@.len());
    let words = " item(s)\nMode: shadow; no action executed."@;
    let whole = report_text(result, link);
    assert(whole.subrange(before.len() as int, before.len() + words.len() as int) =~= words);
    assert(text::occurs_at(whole, words, before.len() as int));
}

/// A topic is one path segment of at most 128 bytes that changes no URL; a destination is a plain
/// `https` URL with such a topic.
pub proof fn destinations_are_one_topic_of_one_https_server(config: NtfyConfig)
    ensures
        is_topic(config.topic@) <==> (exists|i: int|
            0 <= i < config.topic@.len() && !trim::is_space(#[trigger] config.topic@[i]))
            && vstd::utf8::encode_utf8(config.topic@).len() <= 128 && forall|i: int|
            0 <= i < config.topic@.len() ==> #[trigger] config.topic@[i] != '/' && config.topic@[i]
                != '?' && config.topic@[i] != '#' && config.topic@[i] >= '\u{20}' && !('\u{7f}'
                <= config.topic@[i] <= '\u{9f}'),
        config.valid() <==> is_topic(config.topic@) && (url::url_parts(
            trim::trim(config.endpoint@),
        ) matches Some(parts) && parts.scheme == "https"@ && parts.username.len() == 0
            && parts.password is None && parts.query is None && parts.fragment is None && parts.host
            is Some),
{
    let topic = config.topic@;
    assert forall|i: int| 0 <= i < topic.len() implies topic.contains(#[trigger] topic[i]) by {}
    assert(topic.contains('/') == exists|i: int| 0 <= i < topic.len() && #[trigger] topic[i] == '/');
    assert(topic.contains('?') == exists|i: int| 0 <= i < topic.len() && #[trigger] topic[i] == '?');
    assert(topic.contains('#') == exists|i: int| 0 <= i < topic.len() && #[trigger] topic[i] == '#');
}

/// A publication goes to the topic below the endpoint, whatever slashes end the endpoint, under a
/// fixed title, with the token as bearer and the message as body; a retry carries its identity.
pub proof fn publications_go_to_the_topic(
    publisher: NtfyPublisher,
    delivery_id: Option<Seq<char>>,
    message: Seq<char>,
) -> (n: int)
    ensures
        ({
            let endpoint = publisher.settings().endpoint@;
            let outcome = publisher.publication(delivery_id, message);
            &&& 0 <= n <= endpoint.len()
            &&& forall|i: int| n <= i < endpoint.len() ==> #[trigger] endpoint[i] == '/'
            &&& n > 0 ==> endpoint[n - 1] != '/'
            &&& outcome is Ok <==> publisher.settings().valid() && vstd::utf8::encode_utf8(
                message,
            ).len() <= 65536
            &&& outcome matches Err(error) ==> error == NtfyError::Rejected
            &&& outcome matches Ok(request) ==> {
                &&& request.url == endpoint.take(n) + "/"@ + publisher.settings().topic@
                &&& request.body == message
                &&& request.bearer == publisher.token()
                &&& request.headers.len() == (if delivery_id is Some {
                    3nat
                } else {
                    2nat
                })
                &&& request.headers[0] == ("Title"@, "AI SRE shadow investigation"@)
                &&& request.headers[1] == ("Tags"@, "mag,robot_face"@)
                &&& delivery_id matches Some(id) ==> request.headers[2] == (
                    "X-Idempotency-Key"@,
                    id,
                )
            }
        }),
{
    lemma_skip_trailing_cut(publisher.settings().endpoint@, '/')
}

proof fn lemma_skip_trailing_cut(s: Seq<char>, c: char) -> (n: int)
    ensures
        0 <= n <= s.len(),
        trim::skip_trailing(s, c) == s.take(n),
        forall|i: int| n <= i < s.len() ==> #[trigger] s[i] == c,
        n > 0 ==> s[n - 1] != c,
    decreases s.len(),
{
    if s.len() > 0 && s.last() == c {
        let rest = s.drop_last();
        let m = lemma_skip_trailing_cut(rest, c);
        assert(rest.take(m) =~= s.take(m));
        assert forall|i: int| m <= i < s.len() implies #[trigger] s[i] == c by {
            if i < rest.len() {
                assert(rest[i] == s[i]);
            }
        }
        if m > 0 {
            assert(rest[m - 1] == s[m - 1]);
        }
        m
    } else {
        assert(s.take(s.len() as int) =~= s);
        s.len() as int
    }
}

/// A report names, in this order and on lines of their own, the incident, the provider, at most
/// 60000 characters of the redacted summary, the number of evidence items and the mode; the link
/// comes last, where there is one.
pub proof fn reports_name_incident_provider_summary_and_evidence(
    result: InvestigationResult,
    link: Seq<char>,
) -> (summary: Seq<char>)
    ensures
        summary.len() == (if result.redacted_summary@.len() <= 60000 {
            result.redacted_summary@.len()
        } else {
            60000
        }),
        summary == result.redacted_summary@.take(summary.len() as int),
        ({
            let provider = match result.terminal_provider {
                Some(router::ProviderKind::OpenAi) => "OpenAi"@,
                Some(router::ProviderKind::Gemini) => "Gemini"@,
                Some(router::ProviderKind::DeepSeek) => "DeepSeek"@,
                Some(router::ProviderKind::Deterministic) => "Deterministic"@,
                None => "deterministic-baseline"@,
            };
            let head = "Incident: "@ + result.incident_id@ + "\nProvider: "@ + provider;
            let rest = "\nSummary: "@ + summary + "\nEvidence: "@ + number::decimal(
                result.evidence_ids@.len(),
            );
            let text = report_text(result, None);
            &&& text.take(head.len() as int) == head
            &&& text.subrange(head.len() as int, (head.len() + rest.len()) as int) == rest
            &&& text.skip((head.len() + rest.len()) as int)
                == " item(s)\nMode: shadow; no action executed."@
            &&& report_text(result, Some(link)) == text + "\nView: "@ + link
        }),
{
    let summary = trim::clipped(result.redacted_summary@, 60000);
    let provider = report_provider(result);
    let head = "Incident: "@ + result.incident_id@ + "\nProvider: "@ + provider;
    let rest = "\nSummary: "@ + summary + "\nEvidence: "@ + number::decimal(
        result.evidence_ids@.len(),
    );
    let text = report_text(result, None);
    assert(text =~= head + rest + " item(s)\nMode: shadow; no action executed."@);
    assert(text.take(head.len() as int) =~= head);
    assert(text.subrange(head.len() as int, (head.len() + rest.len()) as int) =~= rest);
    assert(text.skip((head.len() + rest.len()) as int)
        =~= " item(s)\nMode: shadow; no action executed."@);
    assert(report_text(result, Some(link)) =~= text + "\nView: "@ + link);
    assert(summary =~= result.redacted_summary@.take(summary.len() as int));
    summary
}

} // verus!
