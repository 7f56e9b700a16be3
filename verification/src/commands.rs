use vstd::prelude::*;

use crate::error::{is_validation_error, reports, validation_error, AppError};
use crate::ip::{ipv4_is_internal, ipv6_is_internal, is_internal_ipv6, is_private_ipv4};
use crate::text::{chars_end_with, chars_of, chars_start_with, str_eq};
use crate::url_parts::{fragment_char_verbatim, keeps_fragment, parse_url, url_parse, HostView, UrlHost, UrlParts, UrlView};
use crate::version::{spec_update_check, validate_update_version};

verus! {

// ---------------------------------------------------------------------------
// Types handed to the front end
// ---------------------------------------------------------------------------

/// Facts about the machine and the application, shown in the settings page.
pub struct SystemInfo {
    pub os: String,
    pub os_version: String,
    pub arch: String,
    pub app_version: String,
    pub tauri_version: String,
}

/// An update that the release server offers.
pub struct UpdateInfo {
    pub version: String,
    pub current_version: String,
    pub body: Option<String>,
    pub date: Option<String>,
}

/// What the release server reported about an available update.
pub struct UpdateCandidate {
    pub version: String,
    pub body: Option<String>,
    pub date: Option<String>,
}

// ---------------------------------------------------------------------------
// Updater endpoint
// ---------------------------------------------------------------------------

/// Release download paths of the MyWallpapers client repository.
pub open spec fn release_download_path() -> Seq<char> {
    "/MyWallpapers/client/releases/download/"@
}

/// Paths of the latest release of the MyWallpapers client repository.
pub open spec fn release_latest_path() -> Seq<char> {
    "/MyWallpapers/client/releases/latest/download/"@
}

/// Why an updater endpoint is refused, or `None` when it is accepted: it must use
/// HTTPS, be hosted on `github.com` and point into the client's releases.
pub open spec fn endpoint_rejection(u: UrlView) -> Option<Seq<char>> {
    if u.scheme != "https"@ {
        Some("Endpoint must use HTTPS"@)
    } else if u.host_str != Some("github.com"@) {
        Some("Endpoint must be on github.com"@)
    } else if !(release_download_path().is_prefix_of(u.path) || release_latest_path().is_prefix_of(
        u.path,
    )) {
        Some("Endpoint must point to MyWallpapers/client releases"@)
    } else {
        None
    }
}

/// What validating the updater endpoint `url` gives.
pub open spec fn spec_validate_endpoint(url: Seq<char>) -> Result<(), Seq<char>> {
    match url_parse(url) {
        None => Err("Invalid endpoint URL"@),
        Some(u) => match endpoint_rejection(u) {
            None => Ok(()),
            Some(m) => Err(m),
        },
    }
}

/// Checks a parsed updater endpoint, handing it back when it is accepted.
pub fn check_updater_endpoint(parsed: UrlParts) -> (r: Result<UrlParts, AppError>)
    ensures
        match r {
            Ok(p) => p == parsed && endpoint_rejection(parsed@) is None,
            Err(e) => endpoint_rejection(parsed@) matches Some(m) && is_validation_error(e, m),
        },
{
    if !str_eq(parsed.scheme.as_str(), "https") {
        return Err(validation_error("Endpoint must use HTTPS"));
    }
    let on_github = match &parsed.host_str {
        Some(h) => str_eq(h.as_str(), "github.com"),
        None => false,
    };
    if !on_github {
        return Err(validation_error("Endpoint must be on github.com"));
    }
    let path = chars_of(parsed.path.as_str());
    let download = chars_of("/MyWallpapers/client/releases/download/");
    let latest = chars_of("/MyWallpapers/client/releases/latest/download/");
    if !chars_start_with(path.as_slice(), download.as_slice()) && !chars_start_with(
        path.as_slice(),
        latest.as_slice(),
    ) {
        return Err(validation_error("Endpoint must point to MyWallpapers/client releases"));
    }
    Ok(parsed)
}

/// Parses and validates the updater endpoint URL, returning the parsed URL on success.
pub fn validate_updater_endpoint(url: &str) -> (r: Result<UrlParts, AppError>)
    ensures
        reports(r, spec_validate_endpoint(url@)),
        r matches Ok(p) ==> url_parse(url@) == Some(p@),
{
    match parse_url(url) {
        None => Err(validation_error("Invalid endpoint URL")),
        Some(parsed) => check_updater_endpoint(parsed),
    }
}

// ---------------------------------------------------------------------------
// OAuth URLs
// ---------------------------------------------------------------------------

/// Hosts that the OAuth flow may open over HTTPS: `mywallpaper.online`, its subdomains,
/// and the identity providers `accounts.google.com` and `github.com`.
pub open spec fn oauth_host_allowed(host: Seq<char>) -> bool {
    ||| host == "mywallpaper.online"@
    ||| ".mywallpaper.online"@.is_suffix_of(host)
    ||| host == "accounts.google.com"@
    ||| host == "github.com"@
}

/// Hosts that plain HTTP may reach: the local machine.
pub open spec fn http_host_allowed(host: Seq<char>) -> bool {
    host == "localhost"@ || host == "127.0.0.1"@ || host == "[::1]"@
}

/// Why an OAuth URL is refused, or `None` when it is accepted.
pub open spec fn oauth_rejection(u: UrlView) -> Option<Seq<char>> {
    if u.scheme == "https"@ {
        match u.host {
            Some(HostView::Domain(h)) => if oauth_host_allowed(h) {
                None
            } else {
                Some("URL host is not allowed for desktop OAuth"@)
            },
            Some(HostView::Ipv4(o)) => if ipv4_is_internal(o) {
                Some("HTTPS to private/internal IPs is not allowed"@)
            } else {
                None
            },
            Some(HostView::Ipv6(s)) => if ipv6_is_internal(s) {
                Some("HTTPS to private/internal IPs is not allowed"@)
            } else {
                None
            },
            None => None,
        }
    } else if u.scheme == "http"@ {
        let h = match u.host_str {
            Some(h) => h,
            None => Seq::empty(),
        };
        if http_host_allowed(h) {
            None
        } else {
            Some("HTTP is only allowed for localhost"@)
        }
    } else {
        Some("URL must use https:// (or http:// for localhost)"@)
    }
}

/// What validating the OAuth URL `url` gives.
pub open spec fn spec_validate_oauth(url: Seq<char>) -> Result<(), Seq<char>> {
    match url_parse(url) {
        None => Err("Invalid URL"@),
        Some(u) => match oauth_rejection(u) {
            None => Ok(()),
            Some(m) => Err(m),
        },
    }
}

/// Whether `host` may be opened over HTTPS by the OAuth flow.
pub fn is_allowed_oauth_https_host(host: &str) -> (r: bool)
    ensures
        r == oauth_host_allowed(host@),
{
    let h = chars_of(host);
    let apex = chars_of("mywallpaper.online");
    let sub = chars_of(".mywallpaper.online");
    let google = chars_of("accounts.google.com");
    let github = chars_of("github.com");
    crate::text::chars_eq(h.as_slice(), apex.as_slice()) || chars_end_with(
        h.as_slice(),
        sub.as_slice(),
    ) || crate::text::chars_eq(h.as_slice(), google.as_slice()) || crate::text::chars_eq(
        h.as_slice(),
        github.as_slice(),
    )
}

/// Checks a parsed OAuth URL against the desktop policy.
pub fn check_oauth_url(parsed: &UrlParts) -> (r: Result<(), AppError>)
    ensures
        match r {
            Ok(()) => oauth_rejection(parsed@) is None,
            Err(e) => oauth_rejection(parsed@) matches Some(m) && is_validation_error(e, m),
        },
{
    if str_eq(parsed.scheme.as_str(), "https") {
        match &parsed.host {
            Some(UrlHost::Domain(host)) => {
                if !is_allowed_oauth_https_host(host.as_str()) {
                    return Err(validation_error("URL host is not allowed for desktop OAuth"));
                }
            },
            Some(UrlHost::Ipv4(ip)) => {
                if is_private_ipv4(*ip) {
                    return Err(validation_error("HTTPS to private/internal IPs is not allowed"));
                }
            },
            Some(UrlHost::Ipv6(seg)) => {
                if is_internal_ipv6(*seg) {
                    return Err(validation_error("HTTPS to private/internal IPs is not allowed"));
                }
            },
            None => {},
        }
        Ok(())
    } else if str_eq(parsed.scheme.as_str(), "http") {
        let local = match &parsed.host_str {
            Some(h) => str_eq(h.as_str(), "localhost") || str_eq(h.as_str(), "127.0.0.1")
                || str_eq(h.as_str(), "[::1]"),
            None => {
                proof {
                    reveal_strlit("localhost");
                    reveal_strlit("127.0.0.1");
                    reveal_strlit("[::1]");
                    assert("localhost"@.len() == 9);
                    assert("127.0.0.1"@.len() == 9);
                    assert("[::1]"@.len() == 5);
                    assert(!http_host_allowed(Seq::<char>::empty()));
                }
                false
            },
        };
        if !local {
            return Err(validation_error("HTTP is only allowed for localhost"));
        }
        Ok(())
    } else {
        Err(validation_error("URL must use https:// (or http:// for localhost)"))
    }
}

/// Validates a URL that the OAuth flow is about to open in the browser.
pub fn validate_oauth_url(url_str: &str) -> (r: Result<(), AppError>)
    ensures
        reports(r, spec_validate_oauth(url_str@)),
{
    match parse_url(url_str) {
        None => Err(validation_error("Invalid URL")),
        Some(parsed) => check_oauth_url(&parsed),
    }
}

// ---------------------------------------------------------------------------
// Deep links
// ---------------------------------------------------------------------------

/// Actions that a `mywallpaper://` deep link may name as its host.
pub open spec fn deep_link_action_allowed(host: Seq<char>) -> bool {
    host == "callback"@ || host == "auth"@ || host == "oauth"@ || host == "login"@ || host
        == "app"@
}

/// A parsed deep link is accepted: its scheme is `mywallpaper` and its host, when it
/// has a non-empty one, is an allowed action.
pub open spec fn deep_link_accepted(u: UrlView) -> bool {
    &&& u.scheme == "mywallpaper"@
    &&& u.host_str matches Some(h) ==> (h.len() == 0 || deep_link_action_allowed(h))
}

/// What validating the deep link `raw` gives: the serialized URL when it is accepted.
pub open spec fn spec_validate_deep_link(raw: Seq<char>) -> Option<Seq<char>> {
    match url_parse(raw) {
        Some(u) => if deep_link_accepted(u) {
            Some(u.serialization)
        } else {
            None
        },
        None => None,
    }
}

/// Checks a parsed deep link, giving its serialization when it is accepted.
pub fn check_deep_link(parsed: UrlParts) -> (r: Option<String>)
    ensures
        match r {
            Some(s) => deep_link_accepted(parsed@) && s@ == parsed@.serialization,
            None => !deep_link_accepted(parsed@),
        },
{
    if !str_eq(parsed.scheme.as_str(), "mywallpaper") {
        return None;
    }
    if let Some(h) = &parsed.host_str {
        let empty = h.as_str().unicode_len() == 0;
        let allowed = str_eq(h.as_str(), "callback") || str_eq(h.as_str(), "auth") || str_eq(
            h.as_str(),
            "oauth",
        ) || str_eq(h.as_str(), "login") || str_eq(h.as_str(), "app");
        if !empty && !allowed {
            return None;
        }
    }
    Some(parsed.serialization)
}

/// Validates a deep link handed to the application, giving back its normalized form.
pub fn validate_deep_link(raw: &str) -> (r: Option<String>)
    ensures
        match r {
            Some(s) => spec_validate_deep_link(raw@) == Some(s@),
            None => spec_validate_deep_link(raw@) is None,
        },
        r matches Some(s) ==> keeps_fragment(raw@, s@),
{
    match parse_url(raw) {
        None => None,
        Some(parsed) => check_deep_link(parsed),
    }
}

// ---------------------------------------------------------------------------
// Opening paths in the browser
// ---------------------------------------------------------------------------

/// What checking a path before opening it gives: only `http` and `https` URLs may be
/// opened.
pub open spec fn spec_validate_open_path(path: Seq<char>) -> Result<(), Seq<char>> {
    match url_parse(path) {
        None => Err("Invalid URL"@),
        Some(u) => if u.scheme == "https"@ || u.scheme == "http"@ {
            Ok(())
        } else {
            Err("Only http/https URLs are allowed"@)
        },
    }
}

/// Checks that `path` is an `http` or `https` URL before it is opened.
pub fn validate_open_path(path: &str) -> (r: Result<(), AppError>)
    ensures
        reports(r, spec_validate_open_path(path@)),
{
    match parse_url(path) {
        None => Err(validation_error("Invalid URL")),
        Some(parsed) => {
            if str_eq(parsed.scheme.as_str(), "https") || str_eq(parsed.scheme.as_str(), "http") {
                Ok(())
            } else {
                Err(validation_error("Only http/https URLs are allowed"))
            }
        },
    }
}

// ---------------------------------------------------------------------------
// Updates
// ---------------------------------------------------------------------------

/// Turns what the release server reported into the update offered to the user: no
/// update stays no update; an offered version older than `current_version` is refused.
pub fn update_info_from_check(current_version: &str, found: Option<UpdateCandidate>) -> (r: Result<
    Option<UpdateInfo>,
    AppError,
>)
    ensures
        match found {
            None => r matches Ok(None),
            Some(c) => {
                &&& reports(r, spec_update_check(current_version@, c.version@))
                &&& r matches Ok(Some(info)) ==> {
                    &&& info.version == c.version
                    &&& info.current_version@ == current_version@
                    &&& info.body == c.body
                    &&& info.date == c.date
                }
                &&& !(r matches Ok(None))
            },
        },
{
    match found {
        None => Ok(None),
        Some(c) => {
            validate_update_version(current_version, c.version.as_str())?;
            Ok(
                Some(
                    UpdateInfo {
                        version: c.version,
                        current_version: String::from_str(current_version),
                        body: c.body,
                        date: c.date,
                    },
                ),
            )
        },
    }
}

/// Picks the update to download and install: there must be one, and it must not be
/// older than `current_version`.
pub fn update_to_install(current_version: &str, found: Option<UpdateCandidate>) -> (r: Result<
    UpdateCandidate,
    AppError,
>)
    ensures
        match found {
            None => r matches Err(AppError::Updater(m)) && m@ == "No update available"@,
            Some(c) => {
                &&& reports(r, spec_update_check(current_version@, c.version@))
                &&& r matches Ok(u) ==> u == c
            },
        },
{
    match found {
        None => Err(AppError::Updater(String::from_str("No update available"))),
        Some(c) => {
            validate_update_version(current_version, c.version.as_str())?;
            Ok(c)
        },
    }
}


// ---------------------------------------------------------------------------
// Laws of the URL policies
// ---------------------------------------------------------------------------

/// An OAuth URL is accepted only with the `https` scheme, or with `http` to the local
/// machine.
pub proof fn law_oauth_accepts_only_https_or_local_http(url: Seq<char>)
    requires
        spec_validate_oauth(url) is Ok,
    ensures
        url_parse(url) matches Some(u) && (u.scheme == "https"@ || (u.scheme == "http"@ && (
        u.host_str == Some("localhost"@) || u.host_str == Some("127.0.0.1"@) || u.host_str == Some(
            "[::1]"@,
        )))),
{
    reveal_strlit("localhost");
    reveal_strlit("127.0.0.1");
    reveal_strlit("[::1]");
    assert("localhost"@.len() == 9);
    assert("127.0.0.1"@.len() == 9);
    assert("[::1]"@.len() == 5);
}

/// HTTPS to an internal IPv4 or IPv6 address is refused.
pub proof fn law_oauth_refuses_internal_addresses(u: UrlView)
    requires
        u.scheme == "https"@,
        (u.host matches Some(HostView::Ipv4(o)) && ipv4_is_internal(o)) || (u.host matches Some(
            HostView::Ipv6(s),
        ) && ipv6_is_internal(s)),
    ensures
        oauth_rejection(u) == Some("HTTPS to private/internal IPs is not allowed"@),
{
}

/// An OAuth URL accepted over HTTPS with a domain host names an allowed host.
pub proof fn law_oauth_domain_allowed(u: UrlView, h: Seq<char>)
    requires
        u.scheme == "https"@,
        u.host == Some(HostView::Domain(h)),
        oauth_rejection(u) is None,
    ensures
        oauth_host_allowed(h),
{
}

/// Over HTTPS, a domain host is accepted exactly when it is `mywallpaper.online`, ends
/// with `.mywallpaper.online`, or is `accounts.google.com` or `github.com`.
pub proof fn law_oauth_https_domains(u: UrlView, h: Seq<char>)
    requires
        u.scheme == "https"@,
        u.host == Some(HostView::Domain(h)),
    ensures
        oauth_rejection(u) is None <==> (h == "mywallpaper.online"@ || (h.len() >= 19 && h.subrange(
            h.len() - 19,
            h.len() as int,
        ) == ".mywallpaper.online"@) || h == "accounts.google.com"@ || h == "github.com"@),
        oauth_rejection(u) is Some ==> oauth_rejection(u) == Some(
            "URL host is not allowed for desktop OAuth"@,
        ),
{
    reveal_strlit(".mywallpaper.online");
    assert(".mywallpaper.online"@.len() == 19);
}

/// Over HTTPS, an IPv4 host is refused exactly when it lies in `10.0.0.0/8`,
/// `172.16.0.0/12`, `192.168.0.0/16`, `127.0.0.0/8`, `169.254.0.0/16`, or is `0.0.0.0`.
pub proof fn law_oauth_https_ipv4(u: UrlView, o: Seq<u8>)
    requires
        u.scheme == "https"@,
        u.host == Some(HostView::Ipv4(o)),
    ensures
        oauth_rejection(u) is Some <==> (o[0] == 10 || (o[0] == 172 && 16 <= o[1] && o[1] <= 31) || (
        o[0] == 192 && o[1] == 168) || o[0] == 127 || (o[0] == 169 && o[1] == 254) || (o[0] == 0
            && o[1] == 0 && o[2] == 0 && o[3] == 0)),
        oauth_rejection(u) is Some ==> oauth_rejection(u) == Some(
            "HTTPS to private/internal IPs is not allowed"@,
        ),
{
}

/// Over HTTPS, an IPv6 host is refused exactly when it is `::1` or `::`, starts with a
/// segment in `fc00..=fdff` or `fe80..=febf`, or is `::ffff:a.b.c.d` with `a.b.c.d` an
/// internal IPv4 address.
pub proof fn law_oauth_https_ipv6(u: UrlView, s: Seq<u16>)
    requires
        u.scheme == "https"@,
        u.host == Some(HostView::Ipv6(s)),
    ensures
        oauth_rejection(u) is Some <==> ({
            let zero5 = s[0] == 0 && s[1] == 0 && s[2] == 0 && s[3] == 0 && s[4] == 0;
            let a = s[6] / 256;
            let b = s[6] % 256;
            let c = s[7] / 256;
            let d = s[7] % 256;
            ||| zero5 && s[5] == 0 && s[6] == 0 && (s[7] == 1 || s[7] == 0)
            ||| (0xfc00 <= s[0] && s[0] <= 0xfdff)
            ||| (0xfe80 <= s[0] && s[0] <= 0xfebf)
            ||| zero5 && s[5] == 0xffff && (a == 10 || (a == 172 && 16 <= b && b <= 31) || (a == 192
                && b == 168) || a == 127 || (a == 169 && b == 254) || (a == 0 && b == 0 && c == 0
                && d == 0))
        }),
{
}

/// Every subdomain of `mywallpaper.online` is an allowed OAuth host.
pub proof fn law_oauth_subdomains_allowed(label: Seq<char>)
    ensures
        oauth_host_allowed(label + ".mywallpaper.online"@),
{
    let h = label + ".mywallpaper.online"@;
    let sfx = ".mywallpaper.online"@;
    assert(sfx =~= h.subrange(h.len() - sfx.len(), h.len() as int));
}

/// An accepted updater endpoint uses HTTPS, is hosted on `github.com` and points into the
/// client's releases.
pub proof fn law_endpoint_accepted(url: Seq<char>)
    requires
        spec_validate_endpoint(url) is Ok,
    ensures
        url_parse(url) matches Some(u) && u.scheme == "https"@ && u.host_str == Some("github.com"@)
            && ("/MyWallpapers/client/releases/download/"@.is_prefix_of(u.path)
            || "/MyWallpapers/client/releases/latest/download/"@.is_prefix_of(u.path)),
{
}

/// An HTTPS endpoint on `github.com` whose path lies under one of the client's release
/// download paths is accepted, and one whose path lies under neither is refused with the
/// release-path message.
pub proof fn law_endpoint_paths(url: Seq<char>, u: UrlView)
    requires
        url_parse(url) == Some(u),
        u.scheme == "https"@,
        u.host_str == Some("github.com"@),
    ensures
        spec_validate_endpoint(url) is Ok <==> ("/MyWallpapers/client/releases/download/"@.is_prefix_of(
            u.path,
        ) || "/MyWallpapers/client/releases/latest/download/"@.is_prefix_of(u.path)),
        spec_validate_endpoint(url) is Err ==> spec_validate_endpoint(url) == Err::<(), Seq<char>>(
            "Endpoint must point to MyWallpapers/client releases"@,
        ),
{
}

/// A plain-HTTP OAuth URL is accepted exactly when its host text is `localhost`,
/// `127.0.0.1` or `[::1]`; any other host, including the HTTPS allow-list, is refused.
pub proof fn law_oauth_http_hosts(url: Seq<char>, u: UrlView)
    requires
        url_parse(url) == Some(u),
        u.scheme == "http"@,
    ensures
        spec_validate_oauth(url) is Ok <==> (u.host_str == Some("localhost"@) || u.host_str == Some(
            "127.0.0.1"@,
        ) || u.host_str == Some("[::1]"@)),
        spec_validate_oauth(url) is Err ==> spec_validate_oauth(url) == Err::<(), Seq<char>>(
            "HTTP is only allowed for localhost"@,
        ),
{
    reveal_strlit("localhost");
    reveal_strlit("127.0.0.1");
    reveal_strlit("[::1]");
    reveal_strlit("https");
    reveal_strlit("http");
    assert("localhost"@.len() == 9);
    assert("127.0.0.1"@.len() == 9);
    assert("[::1]"@.len() == 5);
    assert("https"@.len() == 5);
    assert("http"@.len() == 4);
}

/// An accepted deep link uses the `mywallpaper` scheme, names an allowed action (or
/// none), and is handed back in its serialized form.
pub proof fn law_deep_link_accepted(raw: Seq<char>)
    requires
        spec_validate_deep_link(raw) is Some,
    ensures
        url_parse(raw) matches Some(u) && u.scheme == "mywallpaper"@ && spec_validate_deep_link(raw)
            == Some(u.serialization) && (u.host_str matches Some(h) ==> (h.len() == 0
            || deep_link_action_allowed(h))),
{
}

/// A parsed `mywallpaper:` link is accepted exactly when it has no host, an empty host,
/// or one of the hosts `callback`, `auth`, `oauth`, `login`, `app`; it is then handed
/// back as its serialization.
pub proof fn law_deep_link_actions(raw: Seq<char>, u: UrlView)
    requires
        url_parse(raw) == Some(u),
        u.scheme == "mywallpaper"@,
    ensures
        spec_validate_deep_link(raw) is Some <==> (u.host_str is None || u.host_str == Some(
            Seq::<char>::empty(),
        ) || u.host_str == Some("callback"@) || u.host_str == Some("auth"@) || u.host_str == Some(
            "oauth"@,
        ) || u.host_str == Some("login"@) || u.host_str == Some("app"@)),
        spec_validate_deep_link(raw) is Some ==> spec_validate_deep_link(raw) == Some(u.serialization),
{
    reveal_strlit("callback");
    reveal_strlit("auth");
    reveal_strlit("oauth");
    reveal_strlit("login");
    reveal_strlit("app");
    assert("callback"@.len() == 8 && "auth"@.len() == 4 && "oauth"@.len() == 5);
    assert("login"@.len() == 5 && "app"@.len() == 3);
    if let Some(h) = u.host_str {
        if h.len() == 0 {
            assert(h =~= Seq::<char>::empty());
        }
    }
}

/// A deep link `p#f` whose fragment `f` holds only characters that URLs keep verbatim
/// (as an OAuth token does) is handed back with that fragment at its end: when
/// `validate_deep_link` gives `Some(s)`, `s` ends with `#` followed by `f`.
pub proof fn law_deep_link_fragment_kept(p: Seq<char>, f: Seq<char>, s: Seq<char>)
    requires
        keeps_fragment(p + seq!['#'] + f, s),
        forall|j: int| 0 <= j < f.len() ==> fragment_char_verbatim(#[trigger] f[j]),
    ensures
        (seq!['#'] + f).is_suffix_of(s),
{
    let raw = p + seq!['#'] + f;
    let k = p.len() as int;
    assert(raw[k] == '#');
    assert forall|j: int| k < j < raw.len() implies fragment_char_verbatim(#[trigger] raw[j]) by {
        assert(raw[j] == f[j - k - 1]);
    }
    assert(raw.skip(k) =~= seq!['#'] + f);
}

/// Only `http` and `https` URLs are ever opened.
pub proof fn law_open_path_scheme(path: Seq<char>)
    requires
        spec_validate_open_path(path) is Ok,
    ensures
        url_parse(path) matches Some(u) && (u.scheme == "https"@ || u.scheme == "http"@),
{
}

} // verus!
