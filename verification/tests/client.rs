use std::time::Duration;
use zvuk_dl::client::BuildError;
use zvuk_dl::client::Resolved;
use zvuk_dl::client::ZVUK_DOWNLOAD_ENDPOINT;
use zvuk_dl::client::ZVUK_GRAPHQL_ENDPOINT;
use zvuk_dl::client::ZVUK_HOST;
use zvuk_dl::client::ZVUK_LABELS_ENDPOINT;
use zvuk_dl::client::ZVUK_LYRICS_ENDPOINT;
use zvuk_dl::client::ZVUK_RELEASES_ENDPOINT;
use zvuk_dl::client::ZVUK_TRACKS_ENDPOINT;
use zvuk_dl::config::ZVUK_DEFAULT_COVER_RESIZE_COMMAND;
use zvuk_dl::config::ZVUK_USER_AGENT;
use zvuk_dl::paths::PathProfile;
use zvuk_dl::resolver::Endpoint;
use zvuk_dl::Client;
use zvuk_dl::Config;
use zvuk_dl::LogFormat;
use zvuk_dl::LogLevel;
use zvuk_dl::Quality;

fn config() -> Config {
    Config {
        urls: vec![String::from("https://zvuk.com/track/1")],
        token: String::from("1"),
        output_dir: String::from("."),
        path_profile: PathProfile::Unix,
        quality: Quality::Flac,
        embed_cover: false,
        resize_cover: true,
        resize_cover_limit: 2 * 1000 * 1000,
        download_lyrics: true,
        resize_command: String::from(ZVUK_DEFAULT_COVER_RESIZE_COMMAND),
        user_agent: String::from(ZVUK_USER_AGENT),
        pause_between_getting_track_links: Duration::from_secs(1),
        request_timeout: Duration::from_secs(30),
        zvuk_host: String::from(ZVUK_HOST),
        zvuk_releases_endpoint: String::from(ZVUK_RELEASES_ENDPOINT),
        zvuk_labels_endpoint: String::from(ZVUK_LABELS_ENDPOINT),
        zvuk_tracks_endpoint: String::from(ZVUK_TRACKS_ENDPOINT),
        zvuk_download_endpoint: String::from(ZVUK_DOWNLOAD_ENDPOINT),
        zvuk_lyrics_endpoint: String::from(ZVUK_LYRICS_ENDPOINT),
        zvuk_graphql_endpoint: String::from(ZVUK_GRAPHQL_ENDPOINT),
        log_level: LogLevel::Debug,
        log_format: LogFormat::Console,
    }
}

#[test]
fn endpoints_resolve_against_the_host() {
    let client = Client::build(&config()).unwrap();
    assert_eq!(client.zvuk_host, "https://zvuk.com/");
    assert_eq!(client.zvuk_releases_url, "https://zvuk.com/api/tiny/releases");
    assert_eq!(client.zvuk_labels_url, "https://zvuk.com/api/tiny/labels");
    assert_eq!(client.zvuk_tracks_url, "https://zvuk.com/api/tiny/tracks");
    assert_eq!(client.zvuk_download_url, "https://zvuk.com/api/tiny/track/stream");
    assert_eq!(client.zvuk_lyrics_url, "https://zvuk.com/api/tiny/lyrics");
    assert_eq!(client.zvuk_graphql_url, "https://zvuk.com/api/v1/graphql");
}

#[test]
fn settings_are_taken_over() {
    let mut settings = config();
    settings.quality = Quality::MP3Mid;
    settings.embed_cover = true;
    settings.resize_cover = false;
    settings.resize_cover_limit = 17;
    settings.download_lyrics = false;
    settings.resize_command = String::from("cmd {source} {target}");
    settings.output_dir = String::from("/music");
    settings.path_profile = PathProfile::Windows;
    settings.pause_between_getting_track_links = Duration::from_millis(250);
    settings.request_timeout = Duration::from_secs(5);
    settings.token = String::from("secret");
    settings.user_agent = String::from("agent/1.0");
    let client = Client::build(&settings).unwrap();
    assert_eq!(client.quality, Quality::MP3Mid);
    assert!(client.embed_cover);
    assert!(!client.resize_cover);
    assert_eq!(client.resize_cover_limit, 17);
    assert!(!client.download_lyrics);
    assert_eq!(client.resize_command, "cmd {source} {target}");
    assert_eq!(client.output_dir, "/music");
    assert_eq!(client.path_profile, PathProfile::Windows);
    assert_eq!(client.pause_between_getting_track_links, Duration::from_millis(250));
    assert_eq!(client.request_timeout, Duration::from_secs(5));
    assert_eq!(client.token, "secret");
    assert_eq!(client.user_agent, "agent/1.0");
}

#[test]
fn a_mock_host_with_port_and_path() {
    let mut settings = config();
    settings.zvuk_host = String::from("http://127.0.0.1:5000");
    settings.zvuk_lyrics_endpoint = String::from("lyrics?x=1");
    let client = Client::build(&settings).unwrap();
    assert_eq!(client.zvuk_host, "http://127.0.0.1:5000/");
    assert_eq!(client.zvuk_releases_url, "http://127.0.0.1:5000/api/tiny/releases");
    assert_eq!(client.zvuk_lyrics_url, "http://127.0.0.1:5000/lyrics?x=1");
}

#[test]
fn a_host_that_is_no_url_is_refused() {
    for host in ["", "zvuk.com", "not a url", "://x"] {
        let mut settings = config();
        settings.zvuk_host = String::from(host);
        assert_eq!(Client::build(&settings).err(), Some(BuildError::IncorrectHost), "{}", host);
    }
}

#[test]
fn an_endpoint_that_gives_no_url_is_refused() {
    let bad = "http://[";
    let mut settings = config();
    settings.zvuk_releases_endpoint = String::from(bad);
    settings.zvuk_tracks_endpoint = String::from(bad);
    assert_eq!(
        Client::build(&settings).err(),
        Some(BuildError::IncorrectEndpoint(Endpoint::Releases))
    );
    let mut settings = config();
    settings.zvuk_tracks_endpoint = String::from(bad);
    assert_eq!(
        Client::build(&settings).err(),
        Some(BuildError::IncorrectEndpoint(Endpoint::Tracks))
    );
    let mut settings = config();
    settings.zvuk_download_endpoint = String::from(bad);
    assert_eq!(
        Client::build(&settings).err(),
        Some(BuildError::IncorrectEndpoint(Endpoint::Links))
    );
    let mut settings = config();
    settings.zvuk_lyrics_endpoint = String::from(bad);
    assert_eq!(
        Client::build(&settings).err(),
        Some(BuildError::IncorrectEndpoint(Endpoint::Lyrics))
    );
    let mut settings = config();
    settings.zvuk_graphql_endpoint = String::from(bad);
    assert_eq!(
        Client::build(&settings).err(),
        Some(BuildError::IncorrectEndpoint(Endpoint::Books))
    );
    let mut settings = config();
    settings.zvuk_labels_endpoint = String::from(bad);
    assert_eq!(
        Client::build(&settings).err(),
        Some(BuildError::IncorrectEndpoint(Endpoint::Labels))
    );
}

#[test]
fn a_user_agent_must_fit_a_header() {
    for agent in ["bad\nagent", "bad\ragent", "nul\0", "del\u{7f}", "\u{1}"] {
        let mut settings = config();
        settings.user_agent = String::from(agent);
        assert_eq!(Client::build(&settings).err(), Some(BuildError::InvalidUserAgent));
    }
    for agent in ["", "plain", "with\ttab", "Mozilla/5.0 (X11; Linux)", "ünïcödé", "~ !"] {
        let mut settings = config();
        settings.user_agent = String::from(agent);
        assert!(Client::build(&settings).is_ok(), "{}", agent);
    }
}

#[test]
fn a_resize_command_without_its_placeholders_is_refused() {
    for command in ["cmd {target}", "cmd {source}", "cmd", ""] {
        let mut settings = config();
        settings.resize_command = String::from(command);
        settings.zvuk_host = String::from("nonsense");
        assert_eq!(Client::build(&settings).err(), Some(BuildError::InvalidResizeCommand));
    }
    let mut settings = config();
    settings.resize_command = String::from("cmd {source} {target}");
    settings.resize_cover = false;
    assert!(Client::build(&settings).is_ok());
}

#[test]
fn the_host_is_looked_at_before_the_user_agent() {
    let mut settings = config();
    settings.zvuk_host = String::from("nonsense");
    settings.user_agent = String::from("bad\nagent");
    assert_eq!(Client::build(&settings).err(), Some(BuildError::IncorrectHost));
}

fn resolved() -> Resolved {
    Resolved {
        host: Some(String::from("https://host/")),
        releases: Some(String::from("https://host/r")),
        tracks: Some(String::from("https://host/t")),
        download: Some(String::from("https://host/d")),
        lyrics: Some(String::from("https://host/l")),
        graphql: Some(String::from("https://host/g")),
        labels: Some(String::from("https://host/b")),
    }
}

#[test]
fn a_client_from_given_urls() {
    let client = Client::with_urls(&config(), resolved()).unwrap();
    assert_eq!(client.zvuk_host, "https://host/");
    assert_eq!(client.zvuk_releases_url, "https://host/r");
    assert_eq!(client.zvuk_tracks_url, "https://host/t");
    assert_eq!(client.zvuk_download_url, "https://host/d");
    assert_eq!(client.zvuk_lyrics_url, "https://host/l");
    assert_eq!(client.zvuk_graphql_url, "https://host/g");
    assert_eq!(client.zvuk_labels_url, "https://host/b");
    assert_eq!(client.quality, Quality::Flac);
    assert_eq!(client.token, "1");
}

#[test]
fn the_first_missing_url_is_the_error() {
    let missing = |edit: &dyn Fn(&mut Resolved)| {
        let mut urls = resolved();
        edit(&mut urls);
        Client::with_urls(&config(), urls).err()
    };
    assert_eq!(missing(&|urls| urls.host = None), Some(BuildError::IncorrectHost));
    assert_eq!(
        missing(&|urls| {
            urls.host = None;
            urls.releases = None;
            urls.labels = None;
        }),
        Some(BuildError::IncorrectHost)
    );
    assert_eq!(
        missing(&|urls| urls.releases = None),
        Some(BuildError::IncorrectEndpoint(Endpoint::Releases))
    );
    assert_eq!(
        missing(&|urls| {
            urls.labels = None;
            urls.tracks = None;
        }),
        Some(BuildError::IncorrectEndpoint(Endpoint::Tracks))
    );
    assert_eq!(
        missing(&|urls| {
            urls.graphql = None;
            urls.download = None;
        }),
        Some(BuildError::IncorrectEndpoint(Endpoint::Links))
    );
    assert_eq!(
        missing(&|urls| {
            urls.graphql = None;
            urls.lyrics = None;
        }),
        Some(BuildError::IncorrectEndpoint(Endpoint::Lyrics))
    );
    assert_eq!(
        missing(&|urls| {
            urls.graphql = None;
            urls.labels = None;
        }),
        Some(BuildError::IncorrectEndpoint(Endpoint::Books))
    );
    assert_eq!(
        missing(&|urls| urls.labels = None),
        Some(BuildError::IncorrectEndpoint(Endpoint::Labels))
    );
    let mut settings = config();
    settings.user_agent = String::from("bad\nagent");
    let mut urls = resolved();
    urls.labels = None;
    assert_eq!(
        Client::with_urls(&settings, urls).err(),
        Some(BuildError::IncorrectEndpoint(Endpoint::Labels))
    );
    assert_eq!(
        Client::with_urls(&settings, resolved()).err(),
        Some(BuildError::InvalidUserAgent)
    );
}
