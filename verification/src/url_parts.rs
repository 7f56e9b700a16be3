use vstd::prelude::*;

verus! {

/// The host of a parsed URL, as the `url` crate classifies it.
pub enum UrlHost {
    /// A domain name (or, for a non-special scheme, an opaque host).
    Domain(String),
    /// An IPv4 address, as its four octets.
    Ipv4([u8; 4]),
    /// An IPv6 address, as its eight 16-bit segments.
    Ipv6([u16; 8]),
}

/// The mathematical form of a [`UrlHost`].
pub enum HostView {
    Domain(Seq<char>),
    Ipv4(Seq<u8>),
    Ipv6(Seq<u16>),
}

impl View for UrlHost {
    type V = HostView;

    open spec fn view(&self) -> HostView {
        match self {
            UrlHost::Domain(d) => HostView::Domain(d@),
            UrlHost::Ipv4(o) => HostView::Ipv4(o@),
            UrlHost::Ipv6(s) => HostView::Ipv6(s@),
        }
    }
}

/// The parts of a parsed absolute URL that the desktop policies read.
pub struct UrlParts {
    /// The scheme, without the `:`.
    pub scheme: String,
    /// The host as text (IPv6 addresses between `[` and `]`), when the URL has one.
    pub host_str: Option<String>,
    /// The host, classified.
    pub host: Option<UrlHost>,
    /// The path.
    pub path: String,
    /// The whole URL, serialized.
    pub serialization: String,
}

/// The mathematical form of [`UrlParts`].
pub struct UrlView {
    pub scheme: Seq<char>,
    pub host_str: Option<Seq<char>>,
    pub host: Option<HostView>,
    pub path: Seq<char>,
    pub serialization: Seq<char>,
}

impl View for UrlParts {
    type V = UrlView;

    open spec fn view(&self) -> UrlView {
        UrlView {
            scheme: self.scheme@,
            host_str: match self.host_str {
                Some(h) => Some(h@),
                None => None,
            },
            host: match self.host {
                Some(h) => Some(h@),
                None => None,
            },
            path: self.path@,
            serialization: self.serialization@,
        }
    }
}

/// What `url::Url::parse` makes of `input`: `None` when it refuses the text, otherwise
/// the parts of the absolute URL it parsed.
pub uninterp spec fn url_parse(input: Seq<char>) -> Option<UrlView>;

/// `c` is copied verbatim into the fragment of a serialized URL: printable ASCII other
/// than space, `"`, `<`, `>` and `` ` `` (the characters outside the crate's fragment
/// percent-encode set, which also strips tabs, newlines and surrounding spaces).
pub open spec fn fragment_char_verbatim(c: char) -> bool {
    '!' <= c && c <= '~' && c != '"' && c != '<' && c != '>' && c != '`'
}

/// The serialization keeps the end of the input's fragment: whenever the input has a `#`
/// followed only by characters that are copied verbatim, the serialization ends with that
/// `#` and those characters.
pub open spec fn keeps_fragment(input: Seq<char>, serialization: Seq<char>) -> bool {
    forall|k: int|
        #![trigger input[k]]
        0 <= k < input.len() && input[k] == '#' && (forall|j: int|
            k < j < input.len() ==> fragment_char_verbatim(#[trigger] input[j])) ==> input.skip(
            k,
        ).is_suffix_of(serialization)
}

/// Calls `url::Url::parse` on `input` and reads back the scheme, host (as text and
/// classified), path and serialization of the result. The contract claims that the
/// outcome is the one `url_parse` names for this input, and one fact of the crate's
/// source (`Parser::parse_fragment`): everything after the first `#` is the fragment,
/// serialized last after a `#`, with only tabs and newlines removed and the characters
/// of its percent-encode set encoded, so a `#` followed only by verbatim characters
/// ends the serialization unchanged. Nothing else is said of how the `url` crate parses.
#[verifier::external_body]
pub(crate) fn parse_url(input: &str) -> (parsed: Option<UrlParts>)
    ensures
        match parsed {
            Some(p) => url_parse(input@) == Some(p@),
            None => url_parse(input@) is None,
        },
        parsed matches Some(p) ==> keeps_fragment(input@, p.serialization@),
{
    let url = url::Url::parse(input).ok()?;
    let host = match url.host() {
        Some(url::Host::Domain(d)) => Some(UrlHost::Domain(d.to_string())),
        Some(url::Host::Ipv4(ip)) => Some(UrlHost::Ipv4(ip.octets())),
        Some(url::Host::Ipv6(ip)) => Some(UrlHost::Ipv6(ip.segments())),
        None => None,
    };
    let host_str = url.host_str().map(str::to_string);
    let scheme = url.scheme().to_string();
    let path = url.path().to_string();
    Some(UrlParts { scheme, host_str, host, path, serialization: url.to_string() })
}

} // verus!
