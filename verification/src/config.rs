//! The settings of one run and the validation of the resize command.

use std::time::Duration;
use vstd::prelude::*;
use vstd::string::*;

use crate::paths::PathProfile;
use crate::quality::Quality;
use crate::text::contains;
use crate::text::contains_text;

verus! {

/// The resize command that is used where none is given.
pub const ZVUK_DEFAULT_COVER_RESIZE_COMMAND: &'static str =
    "magick {source} -define jpeg:extent=1MB {target}";

/// The user agent that is sent where none is given.
pub const ZVUK_USER_AGENT: &'static str =
    "Mozilla/5.0 (Windows NT 10.0; Win64; x64) AppleWebKit/537.36 (KHTML, like Gecko) Chrome/131.0.0.0 Safari/537.36";

/// How log lines are laid out.
#[derive(Clone, Copy, Debug, PartialEq, Eq, Structural)]
pub enum LogFormat {
    /// Readable lines for a terminal.
    Console,
    /// One JSON object per line.
    Json,
}

/// From which level on log lines are written.
#[derive(Clone, Copy, Debug, PartialEq, Eq, Structural)]
pub enum LogLevel {
    Off,
    Trace,
    Debug,
    Info,
    Warn,
    Error,
}

/// The settings of one run.
#[derive(Debug)]
pub struct Config {
    /// The catalog URLs of the releases, tracks and audiobooks to download.
    pub urls: Vec<String>,
    /// The token of the session, sent as a cookie.
    pub token: String,
    /// The directory under which everything is written.
    pub output_dir: String,
    /// Which characters the file system refuses in the names of files.
    pub path_profile: PathProfile,
    /// The quality tier to ask for.
    pub quality: Quality,
    /// Whether the cover is embedded into the audio files.
    pub embed_cover: bool,
    /// Whether a large cover is resized.
    pub resize_cover: bool,
    /// The size in bytes above which a cover is resized.
    pub resize_cover_limit: u64,
    /// Whether lyrics are fetched and embedded.
    pub download_lyrics: bool,
    /// The resize command, with the placeholders `{source}` and `{target}`.
    pub resize_command: String,
    /// The user agent to send.
    pub user_agent: String,
    /// The pause after each lookup of a download link.
    pub pause_between_getting_track_links: Duration,
    /// The limit on the time of one request.
    pub request_timeout: Duration,
    /// The base URL of the service.
    pub zvuk_host: String,
    pub zvuk_releases_endpoint: String,
    pub zvuk_labels_endpoint: String,
    pub zvuk_tracks_endpoint: String,
    pub zvuk_download_endpoint: String,
    pub zvuk_lyrics_endpoint: String,
    pub zvuk_graphql_endpoint: String,
    pub log_level: LogLevel,
    pub log_format: LogFormat,
}

/// Why a setting was refused.
#[derive(Clone, Copy, Debug, PartialEq, Eq, Structural)]
pub enum ConfigError {
    /// The resize command lacks `{source}` or `{target}`.
    MissingPlaceholder,
}

/// The placeholder for the file that is read.
pub open spec fn source_placeholder() -> Seq<char> {
    "{source}"@
}

/// The placeholder for the file that is written.
pub open spec fn target_placeholder() -> Seq<char> {
    "{target}"@
}

/// Whether `command` is a usable resize command: one that names both
/// placeholders.
pub open spec fn valid_resize_command(command: Seq<char>) -> bool {
    contains(command, source_placeholder()) && contains(command, target_placeholder())
}

/// Accepts a resize command that holds both `{source}` and `{target}` and
/// hands it back; refuses any other.
pub fn resize_command_validator(value: &str) -> (r: Result<String, ConfigError>)
    ensures
        r is Ok <==> valid_resize_command(value@),
        r matches Ok(command) ==> command@ == value@,
        r matches Err(e) ==> e == ConfigError::MissingPlaceholder,
{
    if contains_text(value, "{source}") && contains_text(value, "{target}") {
        return Ok(String::from_str(value));
    }
    Err(ConfigError::MissingPlaceholder)
}

} // verus!
