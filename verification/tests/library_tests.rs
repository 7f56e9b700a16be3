use mywallpaper_desktop::commands::{
    check_oauth_url, is_allowed_oauth_https_host, update_info_from_check, update_to_install,
    validate_deep_link, validate_oauth_url, validate_open_path, validate_updater_endpoint,
    UpdateCandidate,
};
use mywallpaper_desktop::discord::{
    build_activity, init, next_retry_action, presence_update_result, record_connection, shutdown,
    PresenceState, RetryAction,
};
use mywallpaper_desktop::error::AppError;
use mywallpaper_desktop::ip::{ipv6_to_ipv4_mapped, is_internal_ipv6, is_private_ipv4};
use mywallpaper_desktop::media::{
    get_media_info, media_info_from_session, media_next, media_play_pause, media_prev,
    non_empty_text, playback_status_label, session_command_result, PlaybackStatus,
    SessionSnapshot,
};
use mywallpaper_desktop::system_monitor::{
    category_bit, parse_categories, MASK_ALL, MASK_CPU, MASK_MEMORY, MASK_UPTIME,
};
use mywallpaper_desktop::text::{chars_end_with, chars_of, chars_start_with, str_eq};
use mywallpaper_desktop::url_parts::{UrlHost, UrlParts};
use mywallpaper_desktop::version::{parse_semver, parse_u32, validate_update_version, version_less};

fn message_of<T>(r: Result<T, AppError>) -> String {
    match r {
        Ok(_) => panic!("expected an error"),
        Err(e) => e.message(),
    }
}

fn url_parts(scheme: &str, host_str: Option<&str>, host: Option<UrlHost>) -> UrlParts {
    UrlParts {
        scheme: scheme.to_string(),
        host_str: host_str.map(|h| h.to_string()),
        host,
        path: "/".to_string(),
        serialization: String::new(),
    }
}

// -- numbers and versions --

#[test]
fn parse_u32_follows_from_str() {
    let chars = |s: &str| s.chars().collect::<Vec<char>>();
    assert_eq!(parse_u32(&chars("0")), Some(0));
    assert_eq!(parse_u32(&chars("+42")), Some(42));
    assert_eq!(parse_u32(&chars("4294967295")), Some(u32::MAX));
    assert_eq!(parse_u32(&chars("4294967296")), None);
    assert_eq!(parse_u32(&chars("99999999999999999999")), None);
    assert_eq!(parse_u32(&chars("")), None);
    assert_eq!(parse_u32(&chars("+")), None);
    assert_eq!(parse_u32(&chars("-1")), None);
    assert_eq!(parse_u32(&chars("1a")), None);
    for s in ["7", "+7", "0012", "123456789", "4294967295", "4294967296", "", "+", "-3", " 1", "1 "] {
        assert_eq!(parse_u32(&chars(s)), s.parse::<u32>().ok(), "input {:?}", s);
    }
}

#[test]
fn parse_semver_error_messages() {
    assert_eq!(message_of(parse_semver("1.2")), "Validation: Invalid version: 1.2");
    assert_eq!(message_of(parse_semver("v1.2-rc.1")), "Validation: Invalid version: 1.2");
    assert_eq!(message_of(parse_semver("a.2.3")), "Validation: bad major");
    assert_eq!(message_of(parse_semver("1..3")), "Validation: bad minor");
    assert_eq!(message_of(parse_semver("1.2.4294967296")), "Validation: bad patch");
    assert_eq!(message_of(parse_semver("-1.2.3")), "Validation: Invalid version: ");
}

#[test]
fn parse_semver_edge_cases() {
    assert_eq!(parse_semver("vv1.2.3").unwrap(), (1, 2, 3));
    assert_eq!(parse_semver("+1.2.3").unwrap(), (1, 2, 3));
    assert_eq!(parse_semver("4294967295.0.7").unwrap(), (u32::MAX, 0, 7));
    assert_eq!(parse_semver("1.2.3-").unwrap(), (1, 2, 3));
    assert!(parse_semver("").is_err());
    assert!(parse_semver("1.2.3.4").is_err());
}

#[test]
fn version_prefix_and_prerelease_do_not_matter() {
    for core in ["0.0.1", "3.10.2", "1.2"] {
        let plain = parse_semver(core).ok();
        assert_eq!(parse_semver(&format!("v{}", core)).ok(), plain);
        assert_eq!(parse_semver(&format!("{}-alpha.1", core)).ok(), plain);
    }
}

#[test]
fn version_ordering_is_lexicographic() {
    assert!(version_less((1, 2, 3), (1, 2, 4)));
    assert!(version_less((1, 9, 9), (2, 0, 0)));
    assert!(!version_less((1, 2, 3), (1, 2, 3)));
    assert!(!version_less((2, 0, 0), (1, 99, 99)));
}

#[test]
fn update_check_messages_and_order() {
    assert_eq!(
        message_of(validate_update_version("1.0.250", "1.0.249")),
        "Validation: Refusing downgrade from 1.0.250 to 1.0.249"
    );
    // The candidate is parsed first.
    assert_eq!(message_of(validate_update_version("x.y", "1.x.0")), "Validation: bad minor");
    assert_eq!(message_of(validate_update_version("x.y", "1.0.0")), "Validation: Invalid version: x.y");
}

#[test]
fn update_check_laws_on_values() {
    // Transitive and total on a chain of releases.
    let chain = ["v0.9.0", "1.0.0-beta", "1.0.1", "1.1.0", "2.0.0"];
    for (i, a) in chain.iter().enumerate() {
        for (j, b) in chain.iter().enumerate() {
            let ok = validate_update_version(a, b).is_ok();
            assert_eq!(ok, i <= j, "{} -> {}", a, b);
            assert!(validate_update_version(a, b).is_ok() || validate_update_version(b, a).is_ok());
        }
    }
}

#[test]
fn update_info_from_check_cases() {
    assert!(matches!(update_info_from_check("1.0.0", None), Ok(None)));
    let found = UpdateCandidate {
        version: "1.1.0".to_string(),
        body: Some("notes".to_string()),
        date: None,
    };
    let info = update_info_from_check("1.0.0", Some(found)).unwrap().unwrap();
    assert_eq!(info.version, "1.1.0");
    assert_eq!(info.current_version, "1.0.0");
    assert_eq!(info.body, Some("notes".to_string()));
    assert_eq!(info.date, None);
    let old = UpdateCandidate { version: "0.9.0".to_string(), body: None, date: None };
    assert_eq!(
        message_of(update_info_from_check("1.0.0", Some(old))),
        "Validation: Refusing downgrade from 1.0.0 to 0.9.0"
    );
}

#[test]
fn update_to_install_cases() {
    assert_eq!(message_of(update_to_install("1.0.0", None)), "Updater: No update available");
    let found = UpdateCandidate { version: "1.0.0".to_string(), body: None, date: None };
    assert_eq!(update_to_install("1.0.0", Some(found)).unwrap().version, "1.0.0");
    let old = UpdateCandidate { version: "0.1.0".to_string(), body: None, date: None };
    assert!(update_to_install("1.0.0", Some(old)).is_err());
}

// -- addresses --

#[test]
fn ipv4_classification() {
    assert!(is_private_ipv4([10, 1, 2, 3]));
    assert!(is_private_ipv4([172, 16, 0, 1]));
    assert!(is_private_ipv4([172, 31, 255, 255]));
    assert!(!is_private_ipv4([172, 32, 0, 1]));
    assert!(!is_private_ipv4([172, 15, 0, 1]));
    assert!(is_private_ipv4([192, 168, 0, 1]));
    assert!(is_private_ipv4([127, 0, 0, 1]));
    assert!(is_private_ipv4([169, 254, 3, 4]));
    assert!(is_private_ipv4([0, 0, 0, 0]));
    assert!(!is_private_ipv4([8, 8, 8, 8]));
    assert!(!is_private_ipv4([0, 0, 0, 1]));
}

#[test]
fn ipv6_classification() {
    assert!(is_internal_ipv6([0, 0, 0, 0, 0, 0, 0, 1]));
    assert!(is_internal_ipv6([0, 0, 0, 0, 0, 0, 0, 0]));
    assert!(is_internal_ipv6([0xfc00, 0, 0, 0, 0, 0, 0, 1]));
    assert!(is_internal_ipv6([0xfdff, 0, 0, 0, 0, 0, 0, 1]));
    assert!(is_internal_ipv6([0xfe80, 0, 0, 0, 0, 0, 0, 1]));
    assert!(is_internal_ipv6([0xfebf, 0, 0, 0, 0, 0, 0, 1]));
    assert!(!is_internal_ipv6([0xfec0, 0, 0, 0, 0, 0, 0, 1]));
    assert!(!is_internal_ipv6([0x2001, 0xdb8, 0, 0, 0, 0, 0, 1]));
    assert!(is_internal_ipv6([0, 0, 0, 0, 0, 0xffff, 0xc0a8, 0x0101]));
    assert!(!is_internal_ipv6([0, 0, 0, 0, 0, 0xffff, 0x0808, 0x0808]));
    assert_eq!(ipv6_to_ipv4_mapped([0, 0, 0, 0, 0, 0xffff, 0xc0a8, 0x0102]), Some([192, 168, 1, 2]));
    assert_eq!(ipv6_to_ipv4_mapped([0, 0, 0, 0, 0, 0, 0xc0a8, 0x0102]), None);
}

// -- URL policies --

#[test]
fn oauth_host_list() {
    assert!(is_allowed_oauth_https_host("mywallpaper.online"));
    assert!(is_allowed_oauth_https_host("a.b.mywallpaper.online"));
    assert!(is_allowed_oauth_https_host("accounts.google.com"));
    assert!(is_allowed_oauth_https_host("github.com"));
    assert!(!is_allowed_oauth_https_host("xmywallpaper.online"));
    assert!(!is_allowed_oauth_https_host("mywallpaper.online.evil.com"));
    assert!(!is_allowed_oauth_https_host("google.com"));
    assert!(!is_allowed_oauth_https_host(""));
}

#[test]
fn oauth_error_messages() {
    assert_eq!(message_of(validate_oauth_url("not a url")), "Validation: Invalid URL");
    assert_eq!(
        message_of(validate_oauth_url("https://evil.com/phish")),
        "Validation: URL host is not allowed for desktop OAuth"
    );
    assert_eq!(
        message_of(validate_oauth_url("https://10.0.0.1/")),
        "Validation: HTTPS to private/internal IPs is not allowed"
    );
    assert_eq!(
        message_of(validate_oauth_url("https://[::ffff:10.0.0.1]/")),
        "Validation: HTTPS to private/internal IPs is not allowed"
    );
    assert_eq!(
        message_of(validate_oauth_url("http://evil.com/")),
        "Validation: HTTP is only allowed for localhost"
    );
    assert_eq!(
        message_of(validate_oauth_url("ftp://mywallpaper.online/file")),
        "Validation: URL must use https:// (or http:// for localhost)"
    );
}

#[test]
fn oauth_public_addresses_and_normalized_hosts() {
    assert!(validate_oauth_url("https://8.8.8.8/").is_ok());
    assert!(validate_oauth_url("https://[2001:db8::1]/").is_ok());
    // The URL parser lower-cases the host before the policy reads it.
    assert!(validate_oauth_url("HTTPS://GitHub.COM/login").is_ok());
    assert!(validate_oauth_url("http://LOCALHOST:1420/").is_ok());
}

#[test]
fn oauth_check_on_parts() {
    let no_host_http = url_parts("http", None, None);
    assert_eq!(message_of(check_oauth_url(&no_host_http)), "Validation: HTTP is only allowed for localhost");
    let https_no_host = url_parts("https", None, None);
    assert!(check_oauth_url(&https_no_host).is_ok());
    let ip = url_parts("https", Some("172.20.0.1"), Some(UrlHost::Ipv4([172, 20, 0, 1])));
    assert!(check_oauth_url(&ip).is_err());
}

#[test]
fn updater_endpoint_messages_and_result() {
    assert_eq!(message_of(validate_updater_endpoint("::")), "Validation: Invalid endpoint URL");
    assert_eq!(
        message_of(validate_updater_endpoint("http://github.com/MyWallpapers/client/releases/download/x")),
        "Validation: Endpoint must use HTTPS"
    );
    assert_eq!(
        message_of(validate_updater_endpoint("https://example.com/MyWallpapers/client/releases/download/x")),
        "Validation: Endpoint must be on github.com"
    );
    assert_eq!(
        message_of(validate_updater_endpoint("https://github.com/MyWallpapers/client/tags")),
        "Validation: Endpoint must point to MyWallpapers/client releases"
    );
    let parsed = validate_updater_endpoint(
        "HTTPS://GITHUB.COM/MyWallpapers/client/releases/latest/download/latest.json",
    )
    .unwrap();
    assert_eq!(
        parsed.serialization,
        "https://github.com/MyWallpapers/client/releases/latest/download/latest.json"
    );
    assert_eq!(parsed.host_str.as_deref(), Some("github.com"));
}

#[test]
fn deep_link_gives_serialization() {
    assert_eq!(
        validate_deep_link("mywallpaper://callback?code=abc").as_deref(),
        Some("mywallpaper://callback?code=abc")
    );
    assert_eq!(validate_deep_link("MyWallpaper://app").as_deref(), Some("mywallpaper://app"));
    assert_eq!(validate_deep_link("mywallpaper:callback").as_deref(), Some("mywallpaper:callback"));
    assert!(validate_deep_link("mywallpaper://Callback").is_none());
}

#[test]
fn open_path_schemes() {
    assert!(validate_open_path("https://mywallpaper.online/docs").is_ok());
    assert!(validate_open_path("http://example.com").is_ok());
    assert_eq!(
        message_of(validate_open_path("file:///etc/passwd")),
        "Validation: Only http/https URLs are allowed"
    );
    assert_eq!(message_of(validate_open_path("relative/path")), "Validation: Invalid URL");
}

// -- text helpers --

#[test]
fn text_helpers() {
    assert!(str_eq("abc", "abc"));
    assert!(!str_eq("abc", "abd"));
    assert!(!str_eq("abc", "ab"));
    assert_eq!(chars_of("héllo"), vec!['h', 'é', 'l', 'l', 'o']);
    let s = chars_of("releases/latest");
    assert!(chars_start_with(&s, &chars_of("releases/")));
    assert!(!chars_start_with(&s, &chars_of("latest")));
    assert!(chars_end_with(&s, &chars_of("/latest")));
    assert!(!chars_end_with(&s, &chars_of("releases")));
    assert!(chars_end_with(&s, &chars_of("")));
}

// -- categories --

#[test]
fn category_masks() {
    assert_eq!(category_bit("cpu"), MASK_CPU);
    assert_eq!(category_bit("memory"), MASK_MEMORY);
    assert_eq!(category_bit("uptime"), MASK_UPTIME);
    assert_eq!(category_bit("CPU"), 0);
    let a: Vec<String> = vec!["uptime".into(), "bogus".into()];
    let b: Vec<String> = vec!["cpu".into(), "cpu".into()];
    let ab: Vec<String> = a.iter().chain(b.iter()).cloned().collect();
    let ba: Vec<String> = b.iter().chain(a.iter()).cloned().collect();
    assert_eq!(parse_categories(&ab), parse_categories(&a) | parse_categories(&b));
    assert_eq!(parse_categories(&ab), parse_categories(&ba));
    assert_eq!(parse_categories(&ab) & !MASK_ALL, 0);
}

// -- media --

#[test]
fn media_on_this_platform() {
    let info = get_media_info().unwrap();
    assert_eq!(info.playback_status, "unknown");
    assert!(info.title.is_none() && info.artist.is_none() && info.album.is_none());
    assert!(info.source_app.is_none());
    for r in [media_play_pause(), media_next(), media_prev()] {
        assert_eq!(message_of(r), "Media: Not supported on this platform");
    }
}

#[test]
fn media_session_summary() {
    assert_eq!(playback_status_label(Some(PlaybackStatus::Playing)), "playing");
    assert_eq!(playback_status_label(Some(PlaybackStatus::Paused)), "paused");
    assert_eq!(playback_status_label(Some(PlaybackStatus::Stopped)), "stopped");
    assert_eq!(playback_status_label(Some(PlaybackStatus::Closed)), "stopped");
    assert_eq!(playback_status_label(Some(PlaybackStatus::Opened)), "unknown");
    assert_eq!(playback_status_label(Some(PlaybackStatus::Changing)), "unknown");
    assert_eq!(playback_status_label(None), "unknown");
    assert_eq!(non_empty_text(Some(String::new())), None);
    assert_eq!(non_empty_text(Some("x".to_string())), Some("x".to_string()));
    let none = media_info_from_session(None);
    assert_eq!(none.playback_status, "stopped");
    let info = media_info_from_session(Some(SessionSnapshot {
        status: Some(PlaybackStatus::Playing),
        title: Some("Song".to_string()),
        artist: Some(String::new()),
        album: None,
        source_app: Some("Spotify.exe".to_string()),
    }));
    assert_eq!(info.playback_status, "playing");
    assert_eq!(info.title.as_deref(), Some("Song"));
    assert_eq!(info.artist, None);
    assert_eq!(info.album, None);
    assert_eq!(info.source_app.as_deref(), Some("Spotify.exe"));
    assert!(session_command_result("SkipNext", true).is_ok());
    assert_eq!(
        message_of(session_command_result("SkipNext", false)),
        "Media: SkipNext was rejected by the active media session"
    );
}

// -- Discord presence --

#[test]
fn presence_life_cycle() {
    let a = build_activity("Using MyWallpaper", "Animated Wallpaper");
    assert_eq!(a.details, "Using MyWallpaper");
    assert_eq!(a.state, "Animated Wallpaper");
    assert_eq!(a.large_image, "logo");
    assert_eq!(a.large_text, "MyWallpaper Desktop");

    let mut s = PresenceState::new();
    assert!(matches!(next_retry_action(&s), RetryAction::Stop));
    init(&mut s);
    assert!(matches!(next_retry_action(&s), RetryAction::TryConnect));
    record_connection(&mut s, false);
    assert!(matches!(next_retry_action(&s), RetryAction::TryConnect));
    record_connection(&mut s, true);
    assert!(matches!(next_retry_action(&s), RetryAction::Stop));
    assert!(shutdown(&mut s));
    assert!(!s.running && !s.connected);
    assert!(!shutdown(&mut s));
    assert!(matches!(next_retry_action(&s), RetryAction::Stop));
}

#[test]
fn presence_update_outcomes() {
    assert!(presence_update_result(None).is_ok());
    assert!(presence_update_result(Some(Ok(()))).is_ok());
    assert_eq!(
        message_of(presence_update_result(Some(Err("pipe closed".to_string())))),
        "Discord: pipe closed"
    );
}

#[test]
fn error_messages() {
    assert_eq!(AppError::WindowLayer("w".into()).message(), "Window layer: w");
    assert_eq!(AppError::Updater("u".into()).message(), "Updater: u");
    assert_eq!(AppError::OAuth("o".into()).message(), "OAuth: o");
    assert_eq!(AppError::Tauri("t".into()).message(), "t");
    assert_eq!(AppError::Io("i".into()).message(), "IO: i");
}
