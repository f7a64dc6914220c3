//! URLs: their parts, and the same URL with another path.

use vstd::prelude::*;

verus! {

/// Longest text, in characters, whose URL is written again with another path. The `url` crate
/// keeps offsets of 32 bits, so that what it writes must stay below four gibibytes.
pub const MAX_URL_CHARS: usize = 16777216;

/// Longest path or segment, in characters, that is put into a URL.
pub const MAX_PATH_CHARS: usize = 268435520;

/// The parts of a URL.
pub struct UrlParts {
    /// Scheme, in lower case.
    pub scheme: String,
    /// User name, empty where there is none.
    pub username: String,
    /// Password.
    pub password: Option<String>,
    /// Host.
    pub host: Option<String>,
    /// Path.
    pub path: String,
    /// Query.
    pub query: Option<String>,
    /// Fragment.
    pub fragment: Option<String>,
    /// The whole URL as it is written.
    pub text: String,
}

/// The parts of a URL.
pub struct UrlView {
    /// Scheme, in lower case.
    pub scheme: Seq<char>,
    /// User name, empty where there is none.
    pub username: Seq<char>,
    /// Password.
    pub password: Option<Seq<char>>,
    /// Host.
    pub host: Option<Seq<char>>,
    /// Path.
    pub path: Seq<char>,
    /// Query.
    pub query: Option<Seq<char>>,
    /// Fragment.
    pub fragment: Option<Seq<char>>,
    /// The whole URL as it is written.
    pub text: Seq<char>,
}

/// A text that may be missing.
pub open spec fn optional(s: Option<String>) -> Option<Seq<char>> {
    match s {
        Some(s) => Some(s@),
        None => None,
    }
}

impl View for UrlParts {
    type V = UrlView;

    open spec fn view(&self) -> UrlView {
        UrlView {
            scheme: self.scheme@,
            username: self.username@,
            password: optional(self.password),
            host: optional(self.host),
            path: self.path@,
            query: optional(self.query),
            fragment: optional(self.fragment),
            text: self.text@,
        }
    }
}

/// The parts of the URL that a text is, if it is one.
pub uninterp spec fn url_parts(text: Seq<char>) -> Option<UrlView>;

/// Parses a text with `reqwest::Url::parse` and takes the parts from `scheme`, `username`,
/// `password`, `host_str`, `path`, `query`, `fragment` and `as_str`. The result is named
/// [`url_parts`]. Each character of the text is written into the path at most once: as up to
/// four bytes of three characters each when it is percent-encoded, and with up to one slash.
#[verifier::external_body]
pub(crate) fn parse(text: &str) -> (r: Option<UrlParts>)
    ensures
        match r {
            Some(parts) => url_parts(text@) == Some(parts@),
            None => url_parts(text@) is None,
        },
        r matches Some(parts) ==> parts.path@.len() <= 16 * text@.len() + 16,
{
    let url = reqwest::Url::parse(text).ok()?;
    Some(UrlParts {
        scheme: url.scheme().to_owned(),
        username: url.username().to_owned(),
        password: url.password().map(str::to_owned),
        host: url.host_str().map(str::to_owned),
        path: url.path().to_owned(),
        query: url.query().map(str::to_owned),
        fragment: url.fragment().map(str::to_owned),
        text: url.as_str().to_owned(),
    })
}

/// The URL that a text is, with its path replaced.
pub uninterp spec fn url_with_path(text: Seq<char>, path: Seq<char>) -> Option<Seq<char>>;

/// Replaces the path of a URL with `reqwest::Url::set_path`, which succeeds on every URL. The
/// result is named [`url_with_path`].
#[verifier::external_body]
pub(crate) fn with_path(text: &str, path: &str) -> (r: Option<String>)
    requires
        text@.len() <= MAX_URL_CHARS,
        path@.len() <= MAX_PATH_CHARS,
    ensures
        optional(r) == url_with_path(text@, path@),
        r is Some == url_parts(text@) is Some,
{
    let mut url = reqwest::Url::parse(text).ok()?;
    url.set_path(path);
    Some(url.into())
}

/// The URL that a text is, with one more segment at the end of its path.
pub uninterp spec fn url_with_segment(text: Seq<char>, segment: Seq<char>) -> Option<Seq<char>>;

/// Appends a segment with `reqwest::Url::path_segments_mut` and `push`: nothing where the text
/// is no URL, or its path has no segments. The result is named [`url_with_segment`].
#[verifier::external_body]
pub(crate) fn with_segment(text: &str, segment: &str) -> (r: Option<String>)
    requires
        text@.len() <= MAX_URL_CHARS,
        segment@.len() <= MAX_PATH_CHARS,
    ensures
        optional(r) == url_with_segment(text@, segment@),
        r is Some ==> url_parts(text@) is Some,
{
    let mut url = reqwest::Url::parse(text).ok()?;
    url.path_segments_mut().ok()?.push(segment);
    Some(url.into())
}

/// A URL without credentials, query and fragment, and with a host.
pub open spec fn is_plain(url: UrlView) -> bool {
    &&& url.username.len() == 0
    &&& url.password is None
    &&& url.query is None
    &&& url.fragment is None
    &&& url.host is Some
}

/// Decides [`is_plain`].
pub fn plain(url: &UrlParts) -> (r: bool)
    ensures
        r == is_plain(url@),
{
    url.username.as_str().is_empty() && url.password.is_none() && url.query.is_none()
        && url.fragment.is_none() && url.host.is_some()
}

/// Plain URLs are those without user, password, query and fragment that have a host, whatever their
/// scheme, path and host are: giving a plain one any of the four, or taking its host, makes it plain no
/// more.
pub proof fn plain_urls_have_a_host_and_nothing_else(url: UrlView, part: Seq<char>)
    ensures
        is_plain(url) <==> url.username == Seq::<char>::empty() && url.password is None && url.query is None
            && url.fragment is None && url.host is Some,
        part.len() > 0 ==> !is_plain(UrlView { username: part, ..url }),
        !is_plain(UrlView { password: Some(part), ..url }),
        !is_plain(UrlView { query: Some(part), ..url }),
        !is_plain(UrlView { fragment: Some(part), ..url }),
        !is_plain(UrlView { host: None, ..url }),
        is_plain(UrlView { scheme: part, ..url }) == is_plain(url),
        is_plain(UrlView { path: part, ..url }) == is_plain(url),
        is_plain(UrlView { text: part, ..url }) == is_plain(url),
        is_plain(url) ==> is_plain(UrlView { host: Some(part), ..url }),
{
    assert(url.username.len() == 0 <==> url.username =~= Seq::<char>::empty());
}

} // verus!
