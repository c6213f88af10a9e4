use std::time::Duration;
use zvuk_dl::client::BuildError;
use zvuk_dl::download::classify;
use zvuk_dl::download::Targets;
use zvuk_dl::entities::ConversionError;
use zvuk_dl::entities::ReleaseInfo;
use zvuk_dl::models::ZvukBook;
use zvuk_dl::models::ZvukBookAuthor;
use zvuk_dl::models::ZvukDownload;
use zvuk_dl::models::ZvukGQLBook;
use zvuk_dl::models::ZvukGQLChapter;
use zvuk_dl::models::ZvukGQLImage;
use zvuk_dl::models::ZvukGQLMediaContent;
use zvuk_dl::models::ZvukGQLStream;
use zvuk_dl::models::ZvukImage;
use zvuk_dl::models::ZvukLabel;
use zvuk_dl::models::ZvukLyrics;
use zvuk_dl::models::ZvukRelease;
use zvuk_dl::models::ZvukTrack;
use zvuk_dl::paths::PathProfile;
use zvuk_dl::protocol::FilePath;
use zvuk_dl::protocol::JobError;
use zvuk_dl::protocol::Next;
use zvuk_dl::protocol::Notice;
use zvuk_dl::protocol::Request;
use zvuk_dl::protocol::Response;
use zvuk_dl::protocol::Turn;
use zvuk_dl::resolver::BatchError;
use zvuk_dl::resolver::Endpoint;
use zvuk_dl::session::Session;
use zvuk_dl::session::Stage;
use zvuk_dl::tags::CoverArt;
use zvuk_dl::tags::ExtraTags;
use zvuk_dl::tags::TagFormat;
use zvuk_dl::tags::TagSet;
use zvuk_dl::tags::TagStart;
use zvuk_dl::Client;
use zvuk_dl::Config;
use zvuk_dl::LogFormat;
use zvuk_dl::LogLevel;
use zvuk_dl::Quality;

const MOCK_TRACK_ID: &str = "1";
const MOCK_RELEASE_ID: &str = "99";
const MOCK_BOOK_ID: &str = "00";
const MOCK_CHAPTER_ID: &str = "88";
const MOCK_LYRICS: &str = "mocked lyrics";
const MOCK_AUDIO_URL: &str = "http://127.0.0.1:5000/file.flac";
const MOCK_COVER_URL: &str = "http://127.0.0.1:5000/file.jpg";

fn config(urls: &[&str]) -> Config {
    Config {
        urls: urls.iter().map(|url| url.to_string()).collect(),
        token: String::from("1"),
        output_dir: String::from("."),
        path_profile: PathProfile::Unix,
        quality: Quality::Flac,
        embed_cover: false,
        resize_cover: true,
        resize_cover_limit: 2 * 1000 * 1000,
        download_lyrics: true,
        resize_command: String::from("magick {source} -define jpeg:extent=1MB {target}"),
        user_agent: String::from("agent"),
        pause_between_getting_track_links: Duration::from_secs(0),
        request_timeout: Duration::from_secs(30),
        zvuk_host: String::from("https://zvuk.com"),
        zvuk_releases_endpoint: String::from("/api/tiny/releases"),
        zvuk_labels_endpoint: String::from("/api/tiny/labels"),
        zvuk_tracks_endpoint: String::from("/api/tiny/tracks"),
        zvuk_download_endpoint: String::from("/api/tiny/track/stream"),
        zvuk_lyrics_endpoint: String::from("/api/tiny/lyrics"),
        zvuk_graphql_endpoint: String::from("/api/v1/graphql"),
        log_level: LogLevel::Debug,
        log_format: LogFormat::Console,
    }
}

fn mock_track() -> ZvukTrack {
    ZvukTrack {
        credits: String::from("Some artist"),
        genres: Vec::new(),
        has_flac: true,
        id: MOCK_TRACK_ID.parse::<i64>().unwrap(),
        image: ZvukImage { src: String::from(MOCK_COVER_URL) },
        lyrics: Some(true),
        position: 1,
        release_id: MOCK_RELEASE_ID.parse::<i64>().unwrap(),
        release_title: String::from("Some release title"),
        title: String::from("Some track title"),
    }
}

fn mock_release() -> ZvukRelease {
    ZvukRelease {
        credits: String::from("Some artist"),
        date: 1,
        label_id: 1,
        title: String::from("Some release title"),
        track_ids: vec![MOCK_TRACK_ID.parse::<i64>().unwrap()],
    }
}

fn mock_books() -> Vec<ZvukGQLBook> {
    vec![ZvukGQLBook {
        title: String::from("Some book title"),
        chapters: vec![ZvukGQLChapter {
            id: String::from(MOCK_CHAPTER_ID),
            title: String::from("Some chapter title"),
            image: ZvukGQLImage { src: String::from(MOCK_COVER_URL) },
            book: ZvukBook { title: String::from("Some book title") },
            book_authors: vec![ZvukBookAuthor { rname: String::from("Rname") }],
            position: 1,
        }],
    }]
}

fn mock_streams() -> Vec<ZvukGQLMediaContent> {
    vec![ZvukGQLMediaContent { stream: ZvukGQLStream { mid: String::from(MOCK_AUDIO_URL) } }]
}

/// The answers of a service and a disk on which nothing is there yet.
fn mock_answer(request: &Request) -> Response {
    match request {
        Request::Batch { endpoint: Endpoint::Releases, .. } => {
            Response::Releases(vec![(String::from(MOCK_RELEASE_ID), mock_release())])
        },
        Request::Batch { endpoint: Endpoint::Labels, .. } => Response::Labels(vec![(
            String::from("1"),
            ZvukLabel { title: String::from("Some label") },
        )]),
        Request::Batch { endpoint: Endpoint::Tracks, .. } => {
            Response::Tracks(vec![(String::from(MOCK_TRACK_ID), mock_track())])
        },
        Request::Batch { .. } => Response::Failed,
        Request::Link { .. } => {
            Response::Link(ZvukDownload { stream: String::from(MOCK_AUDIO_URL) })
        },
        Request::Pause { .. } => Response::Done,
        Request::Lyrics { .. } => Response::Lyrics(ZvukLyrics {
            lyrics: String::from(MOCK_LYRICS),
            type_: String::from("lyrics"),
        }),
        Request::Graphql { endpoint: Endpoint::Books, .. } => Response::Books(Some(mock_books())),
        Request::Graphql { endpoint: Endpoint::Streams, .. } => {
            Response::Streams(Some(mock_streams()))
        },
        Request::Graphql { .. } => Response::Failed,
        Request::CreateDirectory { .. } => Response::Done,
        Request::Probe { .. } => Response::Flag(false),
        Request::Exists { .. } => Response::Flag(false),
        Request::Download { .. } => Response::Done,
        Request::FileSize { .. } => Response::Size(3),
        Request::PathText { .. } => Response::Text(Some(String::from("cover.jpg"))),
        Request::Run { .. } => Response::Flag(true),
        Request::ReadFile { .. } => Response::Bytes(b"ohi".to_vec()),
        Request::LoadTags { .. } => Response::Flag(false),
        Request::WriteTags { .. } => Response::Done,
    }
}

struct Run {
    requests: Vec<Request>,
    notices: Vec<Notice>,
    result: Result<(), BatchError>,
    session: Session,
}

fn run(start: (Session, Turn), answer: &mut dyn FnMut(&Request) -> Response) -> Run {
    let (mut session, mut turn) = start;
    let mut requests = Vec::new();
    let mut notices = Vec::new();
    for _ in 0..10_000 {
        notices.append(&mut turn.notices);
        match turn.next {
            Next::Finished(result) => return Run { requests, notices, result, session },
            Next::Ask(request) => {
                let response = answer(&request);
                requests.push(request);
                turn = session.step(response);
            },
        }
    }
    panic!("the run does not end");
}

fn kinds(requests: &[Request]) -> Vec<&'static str> {
    requests
        .iter()
        .map(|request| match request {
            Request::Batch { endpoint: Endpoint::Releases, .. } => "releases",
            Request::Batch { endpoint: Endpoint::Labels, .. } => "labels",
            Request::Batch { endpoint: Endpoint::Tracks, .. } => "tracks",
            Request::Batch { .. } => "batch",
            Request::Link { .. } => "link",
            Request::Pause { .. } => "pause",
            Request::Lyrics { .. } => "lyrics",
            Request::Graphql { endpoint: Endpoint::Books, .. } => "books",
            Request::Graphql { .. } => "streams",
            Request::CreateDirectory { .. } => "mkdir",
            Request::Probe { .. } => "probe",
            Request::Exists { .. } => "exists",
            Request::Download { .. } => "download",
            Request::FileSize { .. } => "size",
            Request::PathText { .. } => "path",
            Request::Run { .. } => "run",
            Request::ReadFile { .. } => "read",
            Request::LoadTags { .. } => "load",
            Request::WriteTags { .. } => "tags",
        })
        .collect()
}

const TRACK_WORK: [&str; 9] =
    ["mkdir", "probe", "download", "size", "exists", "download", "load", "lyrics", "tags"];

#[test]
fn get_lyrics() {
    let config = config(&["https://zvuk.com/track/1"]);
    let c = Client::build(&config).unwrap();

    let mut asked = Vec::new();
    let done = run(c.download_tracks(&[MOCK_TRACK_ID.to_owned()], Vec::new()), &mut |request| {
        if let Request::Lyrics { url, track_id } = request {
            asked.push((url.clone(), track_id.clone()));
        }
        mock_answer(request)
    });

    assert_eq!(
        asked,
        vec![(String::from("https://zvuk.com/api/tiny/lyrics"), String::from(MOCK_TRACK_ID))]
    );
    let text = done.requests.iter().find_map(|request| match request {
        Request::WriteTags { tags: TagSet { extra: ExtraTags::Vorbis { comments }, .. }, .. } => {
            comments.iter().find(|(key, _)| key == "LYRICS").map(|(_, text)| text.clone())
        },
        _ => None,
    });
    assert_eq!(text.unwrap(), MOCK_LYRICS);
}

#[test]
fn get_download_link() {
    let config = config(&["https://zvuk.com/track/1"]);
    let c = Client::build(&config).unwrap();

    let (mut session, turn) = c.download_tracks(&[MOCK_TRACK_ID.to_owned()], Vec::new());
    assert_eq!(
        turn.next,
        Next::Ask(Request::Batch {
            endpoint: Endpoint::Tracks,
            url: String::from("https://zvuk.com/api/tiny/tracks"),
            id_list: String::from(MOCK_TRACK_ID),
        })
    );
    let mut metadata = mock_track();
    metadata.title = String::from("Some title");
    metadata.genres = vec![String::from("Some genre")];
    metadata.release_title = String::from("Some album");
    metadata.release_id = 1;
    metadata.image.src = String::new();
    metadata.lyrics = Some(false);
    let turn = session.step(Response::Tracks(vec![(MOCK_TRACK_ID.to_string(), metadata)]));
    assert_eq!(
        turn.next,
        Next::Ask(Request::Link {
            url: String::from("https://zvuk.com/api/tiny/track/stream"),
            quality: String::from("flac"),
            id: String::from(MOCK_TRACK_ID),
        })
    );
    session.step(Response::Link(ZvukDownload { stream: String::from(MOCK_AUDIO_URL) }));

    assert_eq!(session.links[0].0, MOCK_TRACK_ID);
    assert_eq!(session.links[0].1.quality, Quality::Flac);
    assert_eq!(session.links[0].1.url, MOCK_AUDIO_URL);
}

#[test]
fn download_albums() {
    let config = config(&["https://zvuk.com/track/1"]);

    let c = Client::build(&config).unwrap();
    let done = run(c.download_albums(&[MOCK_RELEASE_ID.to_string()]), &mut mock_answer);

    assert_eq!(done.result, Ok(()));
    let mut expected = vec!["releases", "labels", "tracks", "link", "pause"];
    expected.extend(TRACK_WORK);
    assert_eq!(kinds(&done.requests), expected);
}

#[test]
fn download_abook() {
    let config = config(&["https://zvuk.com/track/1"]);

    let c = Client::build(&config).unwrap();
    let done = run(c.download_abooks(&[MOCK_BOOK_ID.to_string()]), &mut mock_answer);

    assert_eq!(done.result, Ok(()));
    assert_eq!(
        kinds(&done.requests),
        vec!["books", "streams", "mkdir", "probe", "download", "size", "exists", "download", "load", "tags"]
    );
    assert_eq!(
        done.requests[0],
        Request::Graphql {
            endpoint: Endpoint::Books,
            url: String::from("https://zvuk.com/api/v1/graphql"),
            ids: vec![String::from(MOCK_BOOK_ID)],
        }
    );
    assert_eq!(
        done.requests[1],
        Request::Graphql {
            endpoint: Endpoint::Streams,
            url: String::from("https://zvuk.com/api/v1/graphql"),
            ids: vec![String::from(MOCK_CHAPTER_ID)],
        }
    );
}

#[test]
fn download() {
    let config = config(&[
        &format!("https://zvuk.com/track/{MOCK_TRACK_ID}"),
        &format!("https://zvuk.com/release/{MOCK_RELEASE_ID}"),
        &format!("https://zvuk.com/abook/{MOCK_BOOK_ID}"),
    ]);

    let done = run(zvuk_dl::download(&config).unwrap(), &mut mock_answer);

    assert_eq!(done.result, Ok(()));
    let mut expected = vec!["releases", "labels", "tracks", "link", "pause"];
    expected.extend(TRACK_WORK);
    expected.extend(["tracks", "link", "pause", "releases", "labels"]);
    expected.extend(TRACK_WORK);
    expected.extend([
        "books", "streams", "mkdir", "probe", "download", "size", "exists", "download", "load",
        "tags",
    ]);
    assert_eq!(kinds(&done.requests), expected);
    assert_eq!(
        done.notices,
        vec![
            Notice::RequestedQuality {
                track_id: String::from("1"),
                quality: Quality::Flac,
                has_flac: true,
            },
            Notice::RequestedQuality {
                track_id: String::from("1"),
                quality: Quality::Flac,
                has_flac: true,
            },
        ]
    );
    assert_eq!(done.session.stage, Stage::Over);
}

#[test]
fn urls_are_sorted_by_their_prefix() {
    let urls: Vec<String> = [
        "https://zvuk.com/track/128672726",
        "https://example.com/release/1",
        "https://zvuk.com/release/29970563",
        "https://zvuk.com/abook/00",
        "https://zvuk.com/track/7",
        "http://zvuk.com/track/8",
        "https://zvuk.com/release/",
        "",
    ]
    .iter()
    .map(|url| url.to_string())
    .collect();
    let skipped = |url: &str| Notice::SkippedUrl { url: String::from(url) };
    assert_eq!(
        classify(&urls),
        Targets {
            release_ids: vec![String::from("29970563"), String::new()],
            track_ids: vec![String::from("128672726"), String::from("7")],
            book_ids: vec![String::from("00")],
            skipped: vec![
                skipped("https://example.com/release/1"),
                skipped("http://zvuk.com/track/8"),
                skipped(""),
            ],
        }
    );
}

#[test]
fn unrecognized_urls_ask_nothing() {
    let config = config(&["https://example.com/track/1", "zvuk.com/release/99", "nonsense"]);
    let (session, turn) = zvuk_dl::download(&config).unwrap();
    assert_eq!(
        turn,
        Turn {
            notices: vec![
                Notice::SkippedUrl { url: String::from("https://example.com/track/1") },
                Notice::SkippedUrl { url: String::from("zvuk.com/release/99") },
                Notice::SkippedUrl { url: String::from("nonsense") },
            ],
            next: Next::Finished(Ok(())),
        }
    );
    assert_eq!(session.stage, Stage::Over);

    let (_, turn) = zvuk_dl::download(&self::config(&[])).unwrap();
    assert_eq!(turn, Turn { notices: Vec::new(), next: Next::Finished(Ok(())) });
}

#[test]
fn no_client_no_run() {
    let mut config = config(&["https://zvuk.com/track/1"]);
    config.zvuk_host = String::from("not a url");
    assert_eq!(zvuk_dl::download::download(&config).err(), Some(BuildError::IncorrectHost));
}

#[test]
fn a_lossless_release_end_to_end() {
    let mut config = config(&["https://zvuk.com/release/99"]);
    config.embed_cover = true;
    let done = run(zvuk_dl::download(&config).unwrap(), &mut mock_answer);
    assert_eq!(done.result, Ok(()));

    let directory = "Some artist - Some release title (1)";
    let cover = || FilePath { directory: String::from(directory), name: String::from("cover.jpg") };
    let audio = || FilePath {
        directory: String::from(directory),
        name: String::from("01 - Some track title.flac"),
    };
    assert_eq!(
        done.requests,
        vec![
            Request::Batch {
                endpoint: Endpoint::Releases,
                url: String::from("https://zvuk.com/api/tiny/releases"),
                id_list: String::from("99"),
            },
            Request::Batch {
                endpoint: Endpoint::Labels,
                url: String::from("https://zvuk.com/api/tiny/labels"),
                id_list: String::from("1"),
            },
            Request::Batch {
                endpoint: Endpoint::Tracks,
                url: String::from("https://zvuk.com/api/tiny/tracks"),
                id_list: String::from("1"),
            },
            Request::Link {
                url: String::from("https://zvuk.com/api/tiny/track/stream"),
                quality: String::from("flac"),
                id: String::from("1"),
            },
            Request::Pause { duration: Duration::from_secs(0) },
            Request::CreateDirectory { directory: String::from(directory) },
            Request::Probe { file: cover() },
            Request::Download { url: String::from(MOCK_COVER_URL), file: cover() },
            Request::FileSize { file: cover() },
            Request::Exists { file: audio() },
            Request::Download { url: String::from(MOCK_AUDIO_URL), file: audio() },
            Request::LoadTags { file: audio(), format: TagFormat::Flac },
            Request::ReadFile { file: cover() },
            Request::Lyrics {
                url: String::from("https://zvuk.com/api/tiny/lyrics"),
                track_id: String::from("1"),
            },
            Request::WriteTags {
                file: audio(),
                start: TagStart::Empty,
                tags: TagSet {
                    format: TagFormat::Flac,
                    artist: String::from("Some artist"),
                    title: String::from("Some track title"),
                    album_title: String::from("Some release title"),
                    track_number: 1,
                    total_tracks: Some(1),
                    genre: Some(String::new()),
                    date: None,
                    year: None,
                    cover: Some(CoverArt {
                        mime_type: String::from("image/jpeg"),
                        data: b"ohi".to_vec(),
                    }),
                    extra: ExtraTags::Vorbis {
                        comments: vec![
                            (String::from("COPYRIGHT"), String::from("Some label")),
                            (String::from("RELEASE_ID"), String::from("99")),
                            (String::from("TRACK_ID"), String::from("1")),
                            (String::from("LYRICS"), String::from(MOCK_LYRICS)),
                        ],
                    },
                },
            },
        ]
    );
}

#[test]
fn an_mp3_request_is_not_upgraded() {
    let mut config = config(&["https://zvuk.com/track/1"]);
    config.quality = Quality::MP3High;
    config.download_lyrics = false;
    let done = run(zvuk_dl::download(&config).unwrap(), &mut mock_answer);
    assert_eq!(done.result, Ok(()));
    assert_eq!(
        done.notices,
        vec![Notice::RequestedQuality {
            track_id: String::from("1"),
            quality: Quality::MP3High,
            has_flac: true,
        }]
    );
    assert!(done.requests.contains(&Request::Link {
        url: String::from("https://zvuk.com/api/tiny/track/stream"),
        quality: String::from("high"),
        id: String::from("1"),
    }));
    let tags = done.requests.iter().find_map(|request| match request {
        Request::WriteTags { file, tags, .. } => Some((file, tags)),
        _ => None,
    });
    let (file, tags) = tags.unwrap();
    assert_eq!(file.name, "01 - Some track title.mp3");
    assert_eq!(tags.format, TagFormat::Id3v2);
    assert_eq!(
        tags.extra,
        ExtraTags::Id3 {
            text_frames: vec![(String::from("TCOP"), String::from("Some label"))],
            lyrics: None,
        }
    );
}

#[test]
fn a_lossless_request_falls_back_per_track() {
    let config = config(&["https://zvuk.com/track/1,2"]);
    let mut answer = |request: &Request| match request {
        Request::Batch { endpoint: Endpoint::Tracks, .. } => {
            let mut lossy = mock_track();
            lossy.id = 2;
            lossy.has_flac = false;
            lossy.title = String::from("Other");
            lossy.position = 2;
            Response::Tracks(vec![
                (String::from("1"), mock_track()),
                (String::from("2"), lossy),
            ])
        },
        other => mock_answer(other),
    };
    let done = run(zvuk_dl::download(&config).unwrap(), &mut answer);
    assert_eq!(done.result, Ok(()));
    assert_eq!(
        done.notices,
        vec![
            Notice::RequestedQuality {
                track_id: String::from("1"),
                quality: Quality::Flac,
                has_flac: true,
            },
            Notice::FallbackQuality {
                track_id: String::from("2"),
                quality: Quality::MP3High,
                has_flac: false,
            },
        ]
    );
    let links: Vec<(String, String)> = done
        .requests
        .iter()
        .filter_map(|request| match request {
            Request::Link { quality, id, .. } => Some((id.clone(), quality.clone())),
            _ => None,
        })
        .collect();
    assert_eq!(
        links,
        vec![
            (String::from("1"), String::from("flac")),
            (String::from("2"), String::from("high")),
        ]
    );
    let files: Vec<String> = done
        .requests
        .iter()
        .filter_map(|request| match request {
            Request::WriteTags { file, .. } => Some(file.name.clone()),
            _ => None,
        })
        .collect();
    assert_eq!(files, vec!["01 - Some track title.flac", "02 - Other.mp3"]);
    assert_eq!(kinds(&done.requests).iter().filter(|kind| **kind == "pause").count(), 2);
}

#[test]
fn a_missing_link_gives_up_the_batch() {
    let config = config(&["https://zvuk.com/track/1", "https://zvuk.com/abook/00"]);
    let mut answer = |request: &Request| match request {
        Request::Link { .. } => Response::Failed,
        other => mock_answer(other),
    };
    let done = run(zvuk_dl::download(&config).unwrap(), &mut answer);
    assert_eq!(done.result, Err(BatchError::CountMismatch { metadata: 1, links: 0 }));
    assert_eq!(kinds(&done.requests), vec!["tracks", "link", "pause"]);
    assert_eq!(
        done.notices,
        vec![
            Notice::RequestedQuality {
                track_id: String::from("1"),
                quality: Quality::Flac,
                has_flac: true,
            },
            Notice::LinkFailed { track_id: String::from("1") },
        ]
    );
}

#[test]
fn fewer_streams_than_chapters_give_up_the_batch() {
    let config = config(&["https://zvuk.com/abook/00"]);
    let mut answer = |request: &Request| match request {
        Request::Graphql { endpoint: Endpoint::Streams, .. } => Response::Streams(Some(Vec::new())),
        other => mock_answer(other),
    };
    let done = run(zvuk_dl::download(&config).unwrap(), &mut answer);
    assert_eq!(done.result, Err(BatchError::CountMismatch { metadata: 1, links: 0 }));
    assert_eq!(kinds(&done.requests), vec!["books", "streams"]);
}

#[test]
fn metadata_failures_end_the_run() {
    let fail_at = |kind: &'static str| {
        let config = config(&["https://zvuk.com/release/99", "https://zvuk.com/abook/00"]);
        let mut answer = move |request: &Request| {
            if kinds(std::slice::from_ref(request))[0] == kind {
                Response::Failed
            } else {
                mock_answer(request)
            }
        };
        run(zvuk_dl::download(&config).unwrap(), &mut answer)
    };
    let done = fail_at("releases");
    assert_eq!(done.result, Err(BatchError::Transport(Endpoint::Releases)));
    assert_eq!(kinds(&done.requests), vec!["releases"]);
    let done = fail_at("labels");
    assert_eq!(done.result, Err(BatchError::Transport(Endpoint::Labels)));
    let done = fail_at("tracks");
    assert_eq!(done.result, Err(BatchError::Transport(Endpoint::Tracks)));
    assert_eq!(kinds(&done.requests), vec!["releases", "labels", "tracks"]);

    let books_only = |answer: &mut dyn FnMut(&Request) -> Response| {
        run(zvuk_dl::download(&config(&["https://zvuk.com/abook/00"])).unwrap(), answer)
    };
    let done = books_only(&mut |request| match request {
        Request::Graphql { endpoint: Endpoint::Books, .. } => Response::Failed,
        other => mock_answer(other),
    });
    assert_eq!(done.result, Err(BatchError::Transport(Endpoint::Books)));
    let done = books_only(&mut |request| match request {
        Request::Graphql { endpoint: Endpoint::Books, .. } => Response::Books(None),
        other => mock_answer(other),
    });
    assert_eq!(done.result, Err(BatchError::NoBookInfo));
    let done = books_only(&mut |request| match request {
        Request::Graphql { endpoint: Endpoint::Streams, .. } => Response::Streams(None),
        other => mock_answer(other),
    });
    assert_eq!(done.result, Err(BatchError::NoMediaContents));
    let done = books_only(&mut |request| match request {
        Request::Graphql { endpoint: Endpoint::Streams, .. } => Response::Failed,
        other => mock_answer(other),
    });
    assert_eq!(done.result, Err(BatchError::Transport(Endpoint::Streams)));
    let done = books_only(&mut |request| match request {
        Request::Graphql { endpoint: Endpoint::Books, .. } => Response::Done,
        other => mock_answer(other),
    });
    assert_eq!(done.result, Err(BatchError::UnexpectedAnswer));
}

#[test]
fn records_that_cannot_be_converted_end_the_run() {
    let config = config(&["https://zvuk.com/track/1"]);
    let mut answer = |request: &Request| match request {
        Request::Batch { endpoint: Endpoint::Tracks, .. } => {
            let mut bad = mock_track();
            bad.position = -1;
            Response::Tracks(vec![(String::from("1"), bad)])
        },
        other => mock_answer(other),
    };
    let done = run(zvuk_dl::download(&config).unwrap(), &mut answer);
    assert_eq!(
        done.result,
        Err(BatchError::Conversion(Endpoint::Tracks, ConversionError::PositionOutOfRange))
    );
}

#[test]
fn releases_without_their_label_or_tracks_without_their_release() {
    let config = config(&["https://zvuk.com/track/1"]);
    let mut answer = |request: &Request| match request {
        Request::Batch { endpoint: Endpoint::Labels, .. } => Response::Labels(Vec::new()),
        other => mock_answer(other),
    };
    let done = run(zvuk_dl::download(&config).unwrap(), &mut answer);
    assert_eq!(done.result, Err(BatchError::MissingLabel));

    let mut answer = |request: &Request| match request {
        Request::Batch { endpoint: Endpoint::Releases, .. } => {
            Response::Releases(vec![(String::from("100"), mock_release())])
        },
        other => mock_answer(other),
    };
    let done = run(
        zvuk_dl::download(&self::config(&["https://zvuk.com/track/1", "https://zvuk.com/abook/00"]))
            .unwrap(),
        &mut answer,
    );
    assert_eq!(done.result, Ok(()));
    assert_eq!(
        kinds(&done.requests),
        vec![
            "tracks", "link", "pause", "releases", "labels", "books", "streams", "mkdir", "probe",
            "download", "size", "exists", "download", "load", "tags",
        ]
    );
    assert!(done.notices.contains(&Notice::ItemFailed {
        id: String::from("1"),
        error: JobError::NoReleaseInfo,
    }));
}

#[test]
fn a_track_without_its_release_leaves_the_others() {
    let config = config(&["https://zvuk.com/track/1"]);
    let mut answer = |request: &Request| match request {
        Request::Batch { endpoint: Endpoint::Tracks, .. } => {
            let mut rows = Vec::new();
            for (id, release_id) in [(1, 5), (2, 99), (3, 6)] {
                let mut track = mock_track();
                track.id = id;
                track.position = id;
                track.title = format!("Title {id}");
                track.release_id = release_id;
                rows.push((id.to_string(), track));
            }
            Response::Tracks(rows)
        },
        other => mock_answer(other),
    };
    let done = run(zvuk_dl::download(&config).unwrap(), &mut answer);
    assert_eq!(done.result, Ok(()));
    let failed: Vec<&Notice> =
        done.notices.iter().filter(|n| matches!(n, Notice::ItemFailed { .. })).collect();
    assert_eq!(
        failed,
        vec![
            &Notice::ItemFailed { id: String::from("1"), error: JobError::NoReleaseInfo },
            &Notice::ItemFailed { id: String::from("3"), error: JobError::NoReleaseInfo },
        ]
    );
    let written: Vec<String> = done
        .requests
        .iter()
        .filter_map(|request| match request {
            Request::WriteTags { file, .. } => Some(file.name.clone()),
            _ => None,
        })
        .collect();
    assert_eq!(written, vec!["02 - Title 2.flac"]);
}

#[test]
fn releases_of_single_tracks_are_asked_for_once_each() {
    let config = config(&["https://zvuk.com/track/1"]);
    let mut asked = Vec::new();
    let mut answer = |request: &Request| match request {
        Request::Batch { endpoint: Endpoint::Tracks, .. } => {
            let mut rows = Vec::new();
            for (id, release_id) in [(1, 99), (2, 100), (3, 99)] {
                let mut track = mock_track();
                track.id = id;
                track.position = id;
                track.release_id = release_id;
                rows.push((id.to_string(), track));
            }
            Response::Tracks(rows)
        },
        Request::Batch { endpoint: Endpoint::Releases, id_list, .. } => {
            asked.push(id_list.clone());
            Response::Releases(vec![
                (String::from("100"), mock_release()),
                (String::from("99"), mock_release()),
            ])
        },
        other => mock_answer(other),
    };
    let done = run(zvuk_dl::download(&config).unwrap(), &mut answer);
    assert_eq!(done.result, Ok(()));
    assert_eq!(asked, vec![String::from("99,100")]);
}

#[test]
fn known_releases_are_not_asked_for_again() {
    let c = Client::build(&config(&[])).unwrap();
    let known = vec![(
        String::from("99"),
        ReleaseInfo {
            track_ids: vec![String::from("1")],
            track_count: 1,
            label: String::from("Known label"),
            date: String::from("20240115"),
            album: String::from("Known album"),
            author: String::from("Known artist"),
        },
    )];
    let done = run(c.download_tracks(&[String::from("1")], known), &mut mock_answer);
    assert_eq!(done.result, Ok(()));
    let mut expected = vec!["tracks", "link", "pause"];
    expected.extend(TRACK_WORK);
    assert_eq!(kinds(&done.requests), expected);
    assert_eq!(
        done.requests[3],
        Request::CreateDirectory { directory: String::from("Known artist - Known album (2024)") }
    );
}

#[test]
fn a_failure_on_one_track_leaves_the_others() {
    let config = config(&["https://zvuk.com/track/1"]);
    let mut answer = |request: &Request| match request {
        Request::Batch { endpoint: Endpoint::Tracks, .. } => {
            let mut second = mock_track();
            second.id = 2;
            second.title = String::from("Second");
            second.position = 2;
            Response::Tracks(vec![
                (String::from("1"), mock_track()),
                (String::from("2"), second),
            ])
        },
        Request::Download { file, .. } if file.name == "01 - Some track title.flac" => {
            Response::Failed
        },
        other => mock_answer(other),
    };
    let done = run(zvuk_dl::download(&config).unwrap(), &mut answer);
    assert_eq!(done.result, Ok(()));
    assert!(done.notices.contains(&Notice::ItemFailed {
        id: String::from("1"),
        error: JobError::AudioDownload,
    }));
    let written: Vec<String> = done
        .requests
        .iter()
        .filter_map(|request| match request {
            Request::WriteTags { file, .. } => Some(file.name.clone()),
            _ => None,
        })
        .collect();
    assert_eq!(written, vec!["02 - Second.flac"]);
}

#[test]
fn a_second_run_fetches_metadata_only() {
    let config = config(&["https://zvuk.com/release/99", "https://zvuk.com/abook/00"]);
    let mut answer = |request: &Request| match request {
        Request::Probe { .. } | Request::Exists { .. } => Response::Flag(true),
        other => mock_answer(other),
    };
    let done = run(zvuk_dl::download(&config).unwrap(), &mut answer);
    assert_eq!(done.result, Ok(()));
    assert_eq!(
        kinds(&done.requests),
        vec![
            "releases", "labels", "tracks", "link", "pause", "mkdir", "probe", "size", "exists",
            "books", "streams", "mkdir", "probe", "size", "exists",
        ]
    );
    assert_eq!(
        done.notices.iter().filter(|n| matches!(n, Notice::AlreadyExists { .. })).count(),
        2
    );
}

#[test]
fn nothing_follows_the_end() {
    let (mut session, turn) = zvuk_dl::download(&config(&[])).unwrap();
    assert_eq!(turn.next, Next::Finished(Ok(())));
    let turn = session.step(Response::Done);
    assert_eq!(turn.next, Next::Finished(Err(BatchError::UnexpectedAnswer)));
    assert_eq!(session.stage, Stage::Over);
}
