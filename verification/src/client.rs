//! The client of the catalog: the settings of a run with the endpoints
//! resolved against the host.

use reqwest::header::HeaderValue;
use reqwest::Url;
use std::time::Duration;
use vstd::prelude::*;
use vstd::string::*;

use crate::config::resize_command_validator;
use crate::config::valid_resize_command;
use crate::config::Config;
use crate::paths::PathProfile;
use crate::quality::Quality;
use crate::resolver::Endpoint;
use crate::tags::text_view;

verus! {

/// The base URL of the service.
pub const ZVUK_HOST: &'static str = "https://zvuk.com";

pub const ZVUK_RELEASES_ENDPOINT: &'static str = "/api/tiny/releases";

pub const ZVUK_LABELS_ENDPOINT: &'static str = "/api/tiny/labels";

pub const ZVUK_TRACKS_ENDPOINT: &'static str = "/api/tiny/tracks";

pub const ZVUK_DOWNLOAD_ENDPOINT: &'static str = "/api/tiny/track/stream";

pub const ZVUK_LYRICS_ENDPOINT: &'static str = "/api/tiny/lyrics";

pub const ZVUK_GRAPHQL_ENDPOINT: &'static str = "/api/v1/graphql";

/// The text of the URL that the `url` crate reads from `text`, or `None`
/// where it reads none.
pub uninterp spec fn parsed_url(text: Seq<char>) -> Option<Seq<char>>;

/// The text of the URL that the `url` crate gives for the reference `path`
/// against the base `base`, or `None` where it gives none.
pub uninterp spec fn joined_url(base: Seq<char>, path: Seq<char>) -> Option<Seq<char>>;

/// Calls `Url::parse` of the `url` crate, as `reqwest` hands it on, and gives
/// the URL back as text. The contract names that result.
#[verifier::external_body]
fn parse_url(text: &str) -> (url: Option<String>)
    ensures
        text_view(url) == parsed_url(text@),
{
    match Url::parse(text) {
        Ok(url) => Some(String::from(url)),
        Err(_) => None,
    }
}

/// Calls `Url::join` of the `url` crate on the base, read from its text, with
/// the reference `path`, and gives the URL back as text. The contract names
/// that result.
#[verifier::external_body]
fn join_url(base: &str, path: &str) -> (url: Option<String>)
    ensures
        text_view(url) == joined_url(base@, path@),
{
    match Url::parse(base) {
        Ok(base) => match base.join(path) {
            Ok(url) => Some(String::from(url)),
            Err(_) => None,
        },
        Err(_) => None,
    }
}

/// Whether `c` may stand in the value of a header: any character but the
/// control characters, and the tabulator.
pub open spec fn header_char(c: char) -> bool {
    (c as u32 >= 32 && c as u32 != 127) || c == '\t'
}

/// Whether `text` can be the value of a header.
pub open spec fn header_text(text: Seq<char>) -> bool {
    forall|i: int| 0 <= i < text.len() ==> header_char(#[trigger] text[i])
}

/// Calls `HeaderValue::from_str` of the `http` crate, as `reqwest` hands it
/// on, and tells whether it took the text. It takes a text whose bytes are
/// all 32 or above and not 127, or the tabulator; for text, which is UTF-8,
/// that is the same demand on its characters.
#[verifier::external_body]
fn accepts_header(text: &str) -> (ok: bool)
    ensures
        ok == header_text(text@),
{
    HeaderValue::from_str(text).is_ok()
}

/// Why no client could be made from the settings.
#[derive(Clone, Copy, Debug, PartialEq, Eq, Structural)]
pub enum BuildError {
    /// The resize command lacks `{source}` or `{target}`.
    InvalidResizeCommand,
    /// The host is no URL.
    IncorrectHost,
    /// The path of this endpoint gives no URL against the host.
    IncorrectEndpoint(Endpoint),
    /// The user agent cannot be sent as a header.
    InvalidUserAgent,
}

/// The settings that steer the downloads, with the URL of each endpoint.
#[derive(Debug)]
pub struct Client {
    pub embed_cover: bool,
    pub resize_cover: bool,
    pub resize_cover_limit: u64,
    pub download_lyrics: bool,
    pub resize_command: String,
    pub quality: Quality,
    pub output_dir: String,
    /// Which characters are replaced in the names of directories and files.
    pub path_profile: PathProfile,
    pub pause_between_getting_track_links: Duration,
    pub request_timeout: Duration,
    pub token: String,
    pub user_agent: String,
    pub zvuk_host: String,
    pub zvuk_releases_url: String,
    pub zvuk_labels_url: String,
    pub zvuk_tracks_url: String,
    pub zvuk_download_url: String,
    pub zvuk_lyrics_url: String,
    pub zvuk_graphql_url: String,
}

/// The mathematical value of a [`Client`].
pub struct ClientView {
    pub embed_cover: bool,
    pub resize_cover: bool,
    pub resize_cover_limit: u64,
    pub download_lyrics: bool,
    pub resize_command: Seq<char>,
    pub quality: Quality,
    pub output_dir: Seq<char>,
    pub path_profile: PathProfile,
    pub pause_between_getting_track_links: Duration,
    pub request_timeout: Duration,
    pub token: Seq<char>,
    pub user_agent: Seq<char>,
    pub zvuk_host: Seq<char>,
    pub zvuk_releases_url: Seq<char>,
    pub zvuk_labels_url: Seq<char>,
    pub zvuk_tracks_url: Seq<char>,
    pub zvuk_download_url: Seq<char>,
    pub zvuk_lyrics_url: Seq<char>,
    pub zvuk_graphql_url: Seq<char>,
}

impl View for Client {
    type V = ClientView;

    open spec fn view(&self) -> ClientView {
        ClientView {
            embed_cover: self.embed_cover,
            resize_cover: self.resize_cover,
            resize_cover_limit: self.resize_cover_limit,
            download_lyrics: self.download_lyrics,
            resize_command: self.resize_command@,
            quality: self.quality,
            output_dir: self.output_dir@,
            path_profile: self.path_profile,
            pause_between_getting_track_links: self.pause_between_getting_track_links,
            request_timeout: self.request_timeout,
            token: self.token@,
            user_agent: self.user_agent@,
            zvuk_host: self.zvuk_host@,
            zvuk_releases_url: self.zvuk_releases_url@,
            zvuk_labels_url: self.zvuk_labels_url@,
            zvuk_tracks_url: self.zvuk_tracks_url@,
            zvuk_download_url: self.zvuk_download_url@,
            zvuk_lyrics_url: self.zvuk_lyrics_url@,
            zvuk_graphql_url: self.zvuk_graphql_url@,
        }
    }
}

/// The URL of an endpoint: its path against the host as the `url` crate
/// read it.
pub open spec fn endpoint_url(host: Seq<char>, path: Seq<char>) -> Option<Seq<char>> {
    match parsed_url(host) {
        Some(base) => joined_url(base, path),
        None => None,
    }
}

/// The host and the endpoints as URLs, each `None` where it is none.
#[derive(Debug, PartialEq, Eq)]
pub struct Resolved {
    pub host: Option<String>,
    pub releases: Option<String>,
    pub tracks: Option<String>,
    pub download: Option<String>,
    pub lyrics: Option<String>,
    pub graphql: Option<String>,
    pub labels: Option<String>,
}

/// The mathematical value of a [`Resolved`].
pub struct ResolvedView {
    pub host: Option<Seq<char>>,
    pub releases: Option<Seq<char>>,
    pub tracks: Option<Seq<char>>,
    pub download: Option<Seq<char>>,
    pub lyrics: Option<Seq<char>>,
    pub graphql: Option<Seq<char>>,
    pub labels: Option<Seq<char>>,
}

impl View for Resolved {
    type V = ResolvedView;

    open spec fn view(&self) -> ResolvedView {
        ResolvedView {
            host: text_view(self.host),
            releases: text_view(self.releases),
            tracks: text_view(self.tracks),
            download: text_view(self.download),
            lyrics: text_view(self.lyrics),
            graphql: text_view(self.graphql),
            labels: text_view(self.labels),
        }
    }
}

/// The host of `config` and its endpoints against that host, as the `url`
/// crate gives them.
pub open spec fn resolved_of(config: Config) -> ResolvedView {
    let host = config.zvuk_host@;
    ResolvedView {
        host: parsed_url(host),
        releases: endpoint_url(host, config.zvuk_releases_endpoint@),
        tracks: endpoint_url(host, config.zvuk_tracks_endpoint@),
        download: endpoint_url(host, config.zvuk_download_endpoint@),
        lyrics: endpoint_url(host, config.zvuk_lyrics_endpoint@),
        graphql: endpoint_url(host, config.zvuk_graphql_endpoint@),
        labels: endpoint_url(host, config.zvuk_labels_endpoint@),
    }
}

/// The reason why `config` with the URLs `urls` gives no client, if there is
/// one: the resize command is looked at first, then the host, then the
/// endpoints in the order releases, tracks, links, lyrics, GraphQL, labels,
/// then the user agent.
pub open spec fn build_error(config: Config, urls: ResolvedView) -> Option<BuildError> {
    if !valid_resize_command(config.resize_command@) {
        Some(BuildError::InvalidResizeCommand)
    } else if urls.host is None {
        Some(BuildError::IncorrectHost)
    } else if urls.releases is None {
        Some(BuildError::IncorrectEndpoint(Endpoint::Releases))
    } else if urls.tracks is None {
        Some(BuildError::IncorrectEndpoint(Endpoint::Tracks))
    } else if urls.download is None {
        Some(BuildError::IncorrectEndpoint(Endpoint::Links))
    } else if urls.lyrics is None {
        Some(BuildError::IncorrectEndpoint(Endpoint::Lyrics))
    } else if urls.graphql is None {
        Some(BuildError::IncorrectEndpoint(Endpoint::Books))
    } else if urls.labels is None {
        Some(BuildError::IncorrectEndpoint(Endpoint::Labels))
    } else if !header_text(config.user_agent@) {
        Some(BuildError::InvalidUserAgent)
    } else {
        None
    }
}

/// The client that `config` gives with the URLs `urls`, where they are all
/// there.
pub open spec fn client_of(config: Config, urls: ResolvedView) -> ClientView {
    ClientView {
        embed_cover: config.embed_cover,
        resize_cover: config.resize_cover,
        resize_cover_limit: config.resize_cover_limit,
        download_lyrics: config.download_lyrics,
        resize_command: config.resize_command@,
        quality: config.quality,
        output_dir: config.output_dir@,
        path_profile: config.path_profile,
        pause_between_getting_track_links: config.pause_between_getting_track_links,
        request_timeout: config.request_timeout,
        token: config.token@,
        user_agent: config.user_agent@,
        zvuk_host: urls.host.unwrap(),
        zvuk_releases_url: urls.releases.unwrap(),
        zvuk_labels_url: urls.labels.unwrap(),
        zvuk_tracks_url: urls.tracks.unwrap(),
        zvuk_download_url: urls.download.unwrap(),
        zvuk_lyrics_url: urls.lyrics.unwrap(),
        zvuk_graphql_url: urls.graphql.unwrap(),
    }
}

/// What `Client::with_urls` gives for `config` and `urls`.
pub open spec fn with_urls_of(config: Config, urls: ResolvedView) -> Result<
    ClientView,
    BuildError,
> {
    match build_error(config, urls) {
        Some(e) => Err(e),
        None => Ok(client_of(config, urls)),
    }
}

/// What `Client::build` gives for `config`.
pub open spec fn build_of(config: Config) -> Result<ClientView, BuildError> {
    with_urls_of(config, resolved_of(config))
}

/// The view of a result of `Client::build`.
pub open spec fn built_view(r: Result<Client, BuildError>) -> Result<ClientView, BuildError> {
    match r {
        Ok(client) => Ok(client@),
        Err(e) => Err(e),
    }
}

/// Resolves `path` against the host where there is one.
fn endpoint(host: &Option<String>, path: &str) -> (url: Option<String>)
    ensures
        text_view(url) == match text_view(*host) {
            Some(base) => joined_url(base, path@),
            None => None,
        },
{
    match host {
        Some(base) => join_url(base.as_str(), path),
        None => None,
    }
}

/// Reads the host of `config` as a URL and resolves its endpoints against
/// it.
fn resolve(config: &Config) -> (urls: Resolved)
    ensures
        urls@ == resolved_of(*config),
{
    let host = parse_url(config.zvuk_host.as_str());
    let releases = endpoint(&host, config.zvuk_releases_endpoint.as_str());
    let tracks = endpoint(&host, config.zvuk_tracks_endpoint.as_str());
    let download = endpoint(&host, config.zvuk_download_endpoint.as_str());
    let lyrics = endpoint(&host, config.zvuk_lyrics_endpoint.as_str());
    let graphql = endpoint(&host, config.zvuk_graphql_endpoint.as_str());
    let labels = endpoint(&host, config.zvuk_labels_endpoint.as_str());
    Resolved { host, releases, tracks, download, lyrics, graphql, labels }
}

impl Client {
    /// Makes the client for a run from the settings and the URLs of host and
    /// endpoints: holds the resize command to its two placeholders, the URLs
    /// to being there, and the user agent to what a header can carry, and
    /// takes the other settings over as they are.
    pub fn with_urls(config: &Config, urls: Resolved) -> (r: Result<Client, BuildError>)
        ensures
            built_view(r) == with_urls_of(*config, urls@),
    {
        if resize_command_validator(config.resize_command.as_str()).is_err() {
            return Err(BuildError::InvalidResizeCommand);
        }
        let host = match urls.host {
            Some(url) => url,
            None => {
                return Err(BuildError::IncorrectHost);
            },
        };
        let releases = match urls.releases {
            Some(url) => url,
            None => {
                return Err(BuildError::IncorrectEndpoint(Endpoint::Releases));
            },
        };
        let tracks = match urls.tracks {
            Some(url) => url,
            None => {
                return Err(BuildError::IncorrectEndpoint(Endpoint::Tracks));
            },
        };
        let download = match urls.download {
            Some(url) => url,
            None => {
                return Err(BuildError::IncorrectEndpoint(Endpoint::Links));
            },
        };
        let lyrics = match urls.lyrics {
            Some(url) => url,
            None => {
                return Err(BuildError::IncorrectEndpoint(Endpoint::Lyrics));
            },
        };
        let graphql = match urls.graphql {
            Some(url) => url,
            None => {
                return Err(BuildError::IncorrectEndpoint(Endpoint::Books));
            },
        };
        let labels = match urls.labels {
            Some(url) => url,
            None => {
                return Err(BuildError::IncorrectEndpoint(Endpoint::Labels));
            },
        };
        if !accepts_header(config.user_agent.as_str()) {
            return Err(BuildError::InvalidUserAgent);
        }
        Ok(
            Client {
                embed_cover: config.embed_cover,
                resize_cover: config.resize_cover,
                resize_cover_limit: config.resize_cover_limit,
                download_lyrics: config.download_lyrics,
                resize_command: config.resize_command.clone(),
                quality: config.quality,
                output_dir: config.output_dir.clone(),
                path_profile: config.path_profile,
                pause_between_getting_track_links: config.pause_between_getting_track_links,
                request_timeout: config.request_timeout,
                token: config.token.clone(),
                user_agent: config.user_agent.clone(),
                zvuk_host: host,
                zvuk_releases_url: releases,
                zvuk_labels_url: labels,
                zvuk_tracks_url: tracks,
                zvuk_download_url: download,
                zvuk_lyrics_url: lyrics,
                zvuk_graphql_url: graphql,
            },
        )
    }

    /// Makes the client for a run: reads the host as a URL, resolves the path
    /// of every endpoint against it, and goes on as `with_urls` does.
    /// Nothing is asked of the network for it.
    pub fn build(config: &Config) -> (r: Result<Client, BuildError>)
        ensures
            built_view(r) == build_of(*config),
    {
        Client::with_urls(config, resolve(config))
    }
}

} // verus!
