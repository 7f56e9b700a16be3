use vstd::prelude::*;

use crate::error::{is_media_error, AppError};

verus! {

/// What is playing in the system's active media session.
pub struct MediaInfo {
    pub title: Option<String>,
    pub artist: Option<String>,
    pub album: Option<String>,
    /// One of `"playing"`, `"paused"`, `"stopped"`, `"unknown"`.
    pub playback_status: String,
    pub source_app: Option<String>,
}

/// The playback states that a system media session reports.
pub enum PlaybackStatus {
    Closed,
    Opened,
    Changing,
    Stopped,
    Playing,
    Paused,
}

/// What the system reported about its current media session.
pub struct SessionSnapshot {
    /// The playback state, when the session reported one.
    pub status: Option<PlaybackStatus>,
    pub title: Option<String>,
    pub artist: Option<String>,
    pub album: Option<String>,
    pub source_app: Option<String>,
}

/// The label shown for a playback state: `playing`, `paused`, `stopped` (also for a
/// closed session) or `unknown` (also when no state was reported).
pub open spec fn status_label(status: Option<PlaybackStatus>) -> Seq<char> {
    match status {
        Some(PlaybackStatus::Playing) => "playing"@,
        Some(PlaybackStatus::Paused) => "paused"@,
        Some(PlaybackStatus::Stopped) => "stopped"@,
        Some(PlaybackStatus::Closed) => "stopped"@,
        _ => "unknown"@,
    }
}

/// A text reported by the session, kept only when it is not empty.
pub open spec fn kept_text(s: Option<String>) -> Option<Seq<char>> {
    match s {
        Some(t) => if t@.len() > 0 {
            Some(t@)
        } else {
            None
        },
        None => None,
    }
}

/// The view of an optional string.
pub open spec fn opt_view(s: Option<String>) -> Option<Seq<char>> {
    match s {
        Some(t) => Some(t@),
        None => None,
    }
}

/// The message of the error for a platform without media session control.
pub open spec fn unsupported_message() -> Seq<char> {
    "Not supported on this platform"@
}

/// The label for a playback state.
pub fn playback_status_label(status: Option<PlaybackStatus>) -> (label: String)
    ensures
        label@ == status_label(status),
{
    match status {
        Some(PlaybackStatus::Playing) => String::from_str("playing"),
        Some(PlaybackStatus::Paused) => String::from_str("paused"),
        Some(PlaybackStatus::Stopped) => String::from_str("stopped"),
        Some(PlaybackStatus::Closed) => String::from_str("stopped"),
        _ => String::from_str("unknown"),
    }
}

/// Keeps a reported text only when it is not empty.
pub fn non_empty_text(s: Option<String>) -> (r: Option<String>)
    ensures
        opt_view(r) == kept_text(s),
        s matches Some(t) ==> (t@.len() > 0 ==> (r matches Some(u) && u@ == t@)),
        s matches Some(t) ==> (t@.len() == 0 ==> r is None),
        s is None ==> r is None,
{
    match s {
        Some(t) => {
            if t.as_str().unicode_len() > 0 {
                Some(t)
            } else {
                None
            }
        },
        None => None,
    }
}

/// Summarizes the current media session; without a session nothing is playing.
pub fn media_info_from_session(session: Option<SessionSnapshot>) -> (info: MediaInfo)
    ensures
        match session {
            None => {
                &&& info.playback_status@ == "stopped"@
                &&& info.title is None && info.artist is None && info.album is None
                &&& info.source_app is None
            },
            Some(s) => {
                &&& info.playback_status@ == status_label(s.status)
                &&& opt_view(info.title) == kept_text(s.title)
                &&& opt_view(info.artist) == kept_text(s.artist)
                &&& opt_view(info.album) == kept_text(s.album)
                &&& opt_view(info.source_app) == kept_text(s.source_app)
                &&& s.title matches Some(t) ==> (t@.len() > 0 ==> (info.title matches Some(x) && x@ == t@))
                &&& s.artist matches Some(t) ==> (t@.len() > 0 ==> (info.artist matches Some(x) && x@ == t@))
                &&& s.album matches Some(t) ==> (t@.len() > 0 ==> (info.album matches Some(x) && x@ == t@))
                &&& s.source_app matches Some(t) ==> (t@.len() > 0 ==> (info.source_app matches Some(x)
                    && x@ == t@))
            },
        },
{
    match session {
        None => MediaInfo {
            title: None,
            artist: None,
            album: None,
            playback_status: String::from_str("stopped"),
            source_app: None,
        },
        Some(s) => MediaInfo {
            title: non_empty_text(s.title),
            artist: non_empty_text(s.artist),
            album: non_empty_text(s.album),
            playback_status: playback_status_label(s.status),
            source_app: non_empty_text(s.source_app),
        },
    }
}

/// The outcome of a playback command named `name`: the session must accept it.
pub fn session_command_result(name: &str, accepted: bool) -> (r: Result<(), AppError>)
    ensures
        accepted ==> r is Ok,
        !accepted ==> (r is Err && is_media_error(r->Err_0, name@ + " was rejected by the active media session"@)),
{
    if accepted {
        Ok(())
    } else {
        let mut msg = String::from_str(name);
        msg.append(" was rejected by the active media session");
        Err(AppError::Media(msg))
    }
}

/// Media information on a platform without media session control: the state is unknown.
pub fn get_media_info() -> (r: Result<MediaInfo, AppError>)
    ensures
        r matches Ok(info) && info.playback_status@ == "unknown"@ && info.title is None
            && info.artist is None && info.album is None && info.source_app is None,
{
    Ok(
        MediaInfo {
            title: None,
            artist: None,
            album: None,
            playback_status: String::from_str("unknown"),
            source_app: None,
        },
    )
}

/// Toggling play/pause is not supported on this platform.
pub fn media_play_pause() -> (r: Result<(), AppError>)
    ensures
        r is Err && is_media_error(r->Err_0, unsupported_message()),
{
    Err(AppError::Media(String::from_str("Not supported on this platform")))
}

/// Skipping to the next track is not supported on this platform.
pub fn media_next() -> (r: Result<(), AppError>)
    ensures
        r is Err && is_media_error(r->Err_0, unsupported_message()),
{
    Err(AppError::Media(String::from_str("Not supported on this platform")))
}

/// Skipping to the previous track is not supported on this platform.
pub fn media_prev() -> (r: Result<(), AppError>)
    ensures
        r is Err && is_media_error(r->Err_0, unsupported_message()),
{
    Err(AppError::Media(String::from_str("Not supported on this platform")))
}


// ---------------------------------------------------------------------------
// Laws of media summaries
// ---------------------------------------------------------------------------

/// A non-empty text reported by the session is kept as it is; only the empty text and a
/// missing text are dropped.
pub proof fn law_reported_text_kept(s: Option<String>)
    ensures
        s matches Some(t) ==> (t@.len() > 0 ==> kept_text(s) == Some(t@)),
        s matches Some(t) ==> (t@.len() == 0 ==> kept_text(s) is None),
        s is None ==> kept_text(s) is None,
{
}

/// The summary of a session carries each non-empty reported text unchanged.
pub proof fn law_session_texts_unchanged(s: SessionSnapshot, info: MediaInfo)
    requires
        opt_view(info.title) == kept_text(s.title),
        opt_view(info.artist) == kept_text(s.artist),
        opt_view(info.album) == kept_text(s.album),
        opt_view(info.source_app) == kept_text(s.source_app),
    ensures
        s.title matches Some(t) ==> (t@.len() > 0 ==> (info.title matches Some(x) && x@ == t@)),
        s.artist matches Some(t) ==> (t@.len() > 0 ==> (info.artist matches Some(x) && x@ == t@)),
        s.album matches Some(t) ==> (t@.len() > 0 ==> (info.album matches Some(x) && x@ == t@)),
        s.source_app matches Some(t) ==> (t@.len() > 0 ==> (info.source_app matches Some(x) && x@ == t@)),
{
}


/// The labels of the playback states: `Playing` is `playing`, `Paused` is `paused`,
/// `Stopped` and `Closed` are `stopped`; `Opened`, `Changing` and an unreported state
/// are `unknown`.
pub proof fn law_status_labels()
    ensures
        status_label(Some(PlaybackStatus::Playing)) == "playing"@,
        status_label(Some(PlaybackStatus::Paused)) == "paused"@,
        status_label(Some(PlaybackStatus::Stopped)) == "stopped"@,
        status_label(Some(PlaybackStatus::Closed)) == "stopped"@,
        status_label(Some(PlaybackStatus::Opened)) == "unknown"@,
        status_label(Some(PlaybackStatus::Changing)) == "unknown"@,
        status_label(None) == "unknown"@,
{
}

} // verus!
