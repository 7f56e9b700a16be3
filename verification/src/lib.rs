//! Validation and decision logic of the MyWallpaper desktop shell: URL policies for
//! OAuth, deep links and the updater, release version ordering, system-monitor category
//! masks, media-session summaries and the Discord presence life cycle.

pub mod error;
pub mod text;
pub mod version;
pub mod ip;
pub mod url_parts;
pub mod commands;
pub mod system_monitor;
pub mod media;
pub mod discord;
