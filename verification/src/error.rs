use vstd::prelude::*;

verus! {

/// Errors reported by the desktop commands. Each variant carries the human-readable
/// message that the front end shows.
#[derive(Debug)]
pub enum AppError {
    WindowLayer(String),
    Updater(String),
    Validation(String),
    OAuth(String),
    Media(String),
    Discord(String),
    /// The message of an error raised by the application runtime.
    Tauri(String),
    /// The message of an input/output error.
    Io(String),
}

/// The text shown to the user for `e`: its kind followed by its message, or the
/// message alone for runtime errors.
pub open spec fn error_text(e: AppError) -> Seq<char> {
    match e {
        AppError::WindowLayer(m) => "Window layer: "@ + m@,
        AppError::Updater(m) => "Updater: "@ + m@,
        AppError::Validation(m) => "Validation: "@ + m@,
        AppError::OAuth(m) => "OAuth: "@ + m@,
        AppError::Media(m) => "Media: "@ + m@,
        AppError::Discord(m) => "Discord: "@ + m@,
        AppError::Tauri(m) => m@,
        AppError::Io(m) => "IO: "@ + m@,
    }
}

impl AppError {
    /// The text shown to the user for this error; the front end receives errors as this
    /// text.
    pub fn message(&self) -> (text: String)
        ensures
            text@ == error_text(*self),
    {
        let (prefix, m) = match self {
            AppError::WindowLayer(m) => ("Window layer: ", m),
            AppError::Updater(m) => ("Updater: ", m),
            AppError::Validation(m) => ("Validation: ", m),
            AppError::OAuth(m) => ("OAuth: ", m),
            AppError::Media(m) => ("Media: ", m),
            AppError::Discord(m) => ("Discord: ", m),
            AppError::Tauri(m) => return m.clone(),
            AppError::Io(m) => ("IO: ", m),
        };
        let mut text = String::from_str(prefix);
        text.append(m.as_str());
        text
    }
}

/// `e` is a validation error whose message is `msg`.
pub open spec fn is_validation_error(e: AppError, msg: Seq<char>) -> bool {
    e matches AppError::Validation(m) && m@ == msg
}

/// `e` is a media error whose message is `msg`.
pub open spec fn is_media_error(e: AppError, msg: Seq<char>) -> bool {
    e matches AppError::Media(m) && m@ == msg
}

/// `r` reports the outcome `o`: `Ok` exactly when `o` is `Ok`, and otherwise a
/// validation error carrying the message of `o`.
pub open spec fn reports<T>(r: Result<T, AppError>, o: Result<(), Seq<char>>) -> bool {
    match r {
        Ok(_) => o is Ok,
        Err(e) => o matches Err(m) && is_validation_error(e, m),
    }
}

/// Builds a validation error holding a copy of `msg`.
pub fn validation_error(msg: &str) -> (e: AppError)
    ensures
        is_validation_error(e, msg@),
{
    AppError::Validation(String::from_str(msg))
}

} // verus!
