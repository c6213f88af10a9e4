//! What each step of a run comes to, as a function of the state and the
//! answer.

use vstd::prelude::*;
use vstd::string::*;

use crate::tags::TagStart;
use crate::client::ClientView;
use crate::entities::ConversionError;
use crate::entities::TrackView;
use crate::job::model::first_request;
use crate::job::model::job_step;
use crate::job::ItemView;
use crate::job::JobNextView;
use crate::job::JobView;
use crate::job::Outcome;
use crate::job::Phase;
use crate::protocol::JobError;
use crate::protocol::NextView;
use crate::protocol::NoticeView;
use crate::protocol::RequestView;
use crate::protocol::Response;
use crate::protocol::TurnView;
use crate::quality::effective_quality;
use crate::quality::Quality;
use crate::resolver::chapter_table;
use crate::resolver::chapters_convertible;
use crate::resolver::chapters_in;
use crate::resolver::dedup;
use crate::resolver::id_separator;
use crate::resolver::label_titles;
use crate::resolver::labels_known;
use crate::resolver::labels_of;
use crate::resolver::merged;
use crate::resolver::release_refs;
use crate::resolver::releases_convertible;
use crate::resolver::releases_of;
use crate::resolver::streams_of;
use crate::resolver::track_ids_of;
use crate::resolver::tracks_convertible;
use crate::resolver::tracks_of;
use crate::resolver::BatchError;
use crate::resolver::Endpoint;
use crate::session::SessionView;
use crate::session::Stage;
use crate::table::index_of;
use crate::table::keys;
use crate::table::row_keys;
use crate::text::join;

verus! {

/// The state `s` at `stage`, with `request` asked after `notices` are told.
pub open spec fn asks(s: SessionView, stage: Stage, notices: Seq<NoticeView>, request: RequestView)
    -> (SessionView, TurnView) {
    (SessionView { stage, ..s }, TurnView { notices, next: NextView::Ask(request) })
}

/// The end of the run with `result`, after `notices` are told.
pub open spec fn finishes(s: SessionView, notices: Seq<NoticeView>, result: Result<(), BatchError>)
    -> (SessionView, TurnView) {
    (SessionView { stage: Stage::Over, ..s }, TurnView { notices, next: NextView::Finished(result) })
}

/// The request for the records of `endpoint` for `ids`.
pub open spec fn batch_request(client: ClientView, endpoint: Endpoint, ids: Seq<Seq<char>>)
    -> RequestView {
    RequestView::Batch {
        endpoint,
        url: match endpoint {
            Endpoint::Releases => client.zvuk_releases_url,
            Endpoint::Labels => client.zvuk_labels_url,
            _ => client.zvuk_tracks_url,
        },
        id_list: join(ids, id_separator()),
    }
}

/// What follows the end of a batch: the tracks that were asked for one by
/// one, then the books, then the end of the run.
pub open spec fn next_batch(s: SessionView, notices: Seq<NoticeView>) -> (SessionView, TurnView) {
    if s.track_ids.len() > 0 {
        begin_tracks(
            SessionView { track_ids: Seq::empty(), releases: Seq::empty(), ..s },
            s.track_ids,
            notices,
        )
    } else if s.book_ids.len() > 0 {
        begin_books(SessionView { book_ids: Seq::empty(), ..s }, s.book_ids, notices)
    } else {
        finishes(s, notices, Ok(()))
    }
}

/// The step on the answer to a releases request. The releases come with the
/// identifiers of their labels, which are asked for next, each once.
pub open spec fn on_releases(s: SessionView, response: Response, album: bool) -> (
    SessionView,
    TurnView,
) {
    match response {
        Response::Releases(answer) => if releases_convertible(answer@) {
            asks(
                SessionView { releases: releases_of(answer@), ..s },
                if album {
                    Stage::AlbumLabels
                } else {
                    Stage::TrackLabels
                },
                Seq::empty(),
                batch_request(s.client, Endpoint::Labels, dedup(labels_of(releases_of(answer@)))),
            )
        } else {
            finishes(
                s,
                Seq::empty(),
                Err(
                    BatchError::Conversion(
                        Endpoint::Releases,
                        ConversionError::TrackCountOverflow,
                    ),
                ),
            )
        },
        Response::Failed => finishes(
            s,
            Seq::empty(),
            Err(BatchError::Transport(Endpoint::Releases)),
        ),
        _ => finishes(s, Seq::empty(), Err(BatchError::UnexpectedAnswer)),
    }
}

/// The step on the answer to a labels request. The titles go into the
/// releases. An album download goes on to all tracks of its releases; a
/// download of tracks has its tracks and links already and takes up the
/// first track. Releases whose labels are not all known are dropped.
pub open spec fn on_labels(s: SessionView, response: Response, album: bool) -> (
    SessionView,
    TurnView,
) {
    match response {
        Response::Labels(answer) => if labels_known(s.releases, keys(answer@)) {
            let releases = merged(s.releases, label_titles(answer@));
            if album {
                asks(
                    SessionView {
                        releases,
                        tracks: Seq::empty(),
                        links: Seq::empty(),
                        cursor: 0,
                        ..s
                    },
                    Stage::Tracks,
                    Seq::empty(),
                    batch_request(s.client, Endpoint::Tracks, track_ids_of(releases)),
                )
            } else {
                next_job(SessionView { releases, cursor: 0, ..s }, Seq::empty())
            }
        } else {
            finishes(
                SessionView { releases: Seq::empty(), ..s },
                Seq::empty(),
                Err(BatchError::MissingLabel),
            )
        },
        Response::Failed => finishes(s, Seq::empty(), Err(BatchError::Transport(Endpoint::Labels))),
        _ => finishes(s, Seq::empty(), Err(BatchError::UnexpectedAnswer)),
    }
}

/// The step on the answer to a tracks request: the links are resolved next,
/// track by track.
pub open spec fn on_tracks(s: SessionView, response: Response) -> (SessionView, TurnView) {
    match response {
        Response::Tracks(answer) => if tracks_convertible(answer@) {
            next_link(
                SessionView { tracks: tracks_of(answer@), links: Seq::empty(), cursor: 0, ..s },
                Seq::empty(),
            )
        } else {
            finishes(
                s,
                Seq::empty(),
                Err(BatchError::Conversion(Endpoint::Tracks, ConversionError::PositionOutOfRange)),
            )
        },
        Response::Failed => finishes(s, Seq::empty(), Err(BatchError::Transport(Endpoint::Tracks))),
        _ => finishes(s, Seq::empty(), Err(BatchError::UnexpectedAnswer)),
    }
}

/// What is told of the tier that a track is fetched at.
pub open spec fn quality_notice(requested: Quality, key: Seq<char>, track: TrackView)
    -> NoticeView {
    let quality = effective_quality(requested, track.has_flac);
    if quality == requested {
        NoticeView::RequestedQuality { track_id: key, quality, has_flac: track.has_flac }
    } else {
        NoticeView::FallbackQuality { track_id: key, quality, has_flac: track.has_flac }
    }
}

/// The request for the link of the track at the cursor, at the tier that is
/// negotiated for this track; after the last track, what follows the links.
pub open spec fn next_link(s: SessionView, notices: Seq<NoticeView>) -> (SessionView, TurnView) {
    if s.cursor < s.tracks.len() {
        let (key, track) = s.tracks[s.cursor as int];
        let quality = effective_quality(s.client.quality, track.has_flac);
        asks(
            s,
            Stage::Link,
            notices.push(quality_notice(s.client.quality, key, track)),
            RequestView::Link {
                url: s.client.zvuk_download_url,
                quality: quality.wire_text(),
                id: key,
            },
        )
    } else {
        after_links(s, notices)
    }
}

/// The pause that follows each link request.
pub open spec fn pause_request(client: ClientView) -> RequestView {
    RequestView::Pause { duration: client.pause_between_getting_track_links }
}

/// The step on the answer to a link request: the link is kept under the key
/// of its track, or its failure is told; a pause follows either way.
pub open spec fn on_link(s: SessionView, response: Response) -> (SessionView, TurnView) {
    if s.cursor < s.tracks.len() {
        let (key, track) = s.tracks[s.cursor as int];
        match response {
            Response::Link(answer) => asks(
                SessionView {
                    links: s.links.push(
                        (key, (answer.stream@, effective_quality(s.client.quality, track.has_flac))),
                    ),
                    ..s
                },
                Stage::LinkPause,
                Seq::empty(),
                pause_request(s.client),
            ),
            Response::Failed => asks(
                s,
                Stage::LinkPause,
                seq![NoticeView::LinkFailed { track_id: key }],
                pause_request(s.client),
            ),
            _ => finishes(s, Seq::empty(), Err(BatchError::UnexpectedAnswer)),
        }
    } else {
        finishes(s, Seq::empty(), Err(BatchError::UnexpectedAnswer))
    }
}

/// The step on the end of a pause: the next track's link.
pub open spec fn on_pause(s: SessionView, response: Response) -> (SessionView, TurnView) {
    match response {
        Response::Done => if s.cursor < s.tracks.len() {
            next_link(SessionView { cursor: s.cursor + 1, ..s }, Seq::empty())
        } else {
            finishes(s, Seq::empty(), Err(BatchError::UnexpectedAnswer))
        },
        _ => finishes(s, Seq::empty(), Err(BatchError::UnexpectedAnswer)),
    }
}

/// What follows the links: the batch is given up unless every track has its
/// link; releases that are not at hand are asked for, exactly those that the
/// tracks belong to; else the first track is taken up.
pub open spec fn after_links(s: SessionView, notices: Seq<NoticeView>) -> (SessionView, TurnView) {
    if s.tracks.len() != s.links.len() {
        finishes(
            s,
            notices,
            Err(BatchError::CountMismatch { metadata: s.tracks.len() as usize, links: s.links.len() as usize }),
        )
    } else if s.releases.len() == 0 {
        asks(
            s,
            Stage::TrackReleases,
            notices,
            batch_request(s.client, Endpoint::Releases, dedup(release_refs(s.tracks))),
        )
    } else {
        next_job(SessionView { cursor: 0, ..s }, notices)
    }
}

/// The track at hand with its release and the tier of its link.
pub open spec fn track_item(s: SessionView) -> ItemView {
    ItemView::Track {
        track: s.tracks[s.cursor as int].1,
        release: s.releases[s.release_at as int].1,
        quality: s.links[s.link_at as int].1.1,
    }
}

/// The chapter at hand.
pub open spec fn chapter_item(s: SessionView) -> ItemView {
    ItemView::Chapter { chapter: s.chapters[s.cursor as int].1 }
}

/// The state of work that has just begun.
pub open spec fn fresh_job() -> JobView {
    JobView { phase: Phase::CreatingDirectory, cover: None, start: TagStart::Empty }
}

/// What is told of a track whose release was not resolved.
pub open spec fn no_release_notice(key: Seq<char>) -> NoticeView {
    NoticeView::ItemFailed { id: key, error: JobError::NoReleaseInfo }
}

/// The first request of the work on the track at the cursor, which needs
/// its link and its release. A track without a link gives up the batch. A
/// track whose release was not resolved is given up by itself, and the track
/// after it is taken up. After the last track comes the next batch.
pub open spec fn next_job(s: SessionView, notices: Seq<NoticeView>) -> (SessionView, TurnView)
    decreases s.tracks.len() - s.cursor,
{
    if s.cursor < s.tracks.len() {
        let (key, track) = s.tracks[s.cursor as int];
        match index_of(row_keys(s.links), key) {
            None => finishes(s, notices, Err(BatchError::NoLink)),
            Some(link_at) => match index_of(row_keys(s.releases), track.release_id) {
                None => next_job(
                    SessionView { cursor: s.cursor + 1, ..s },
                    notices.push(no_release_notice(key)),
                ),
                Some(release_at) => {
                    let at = SessionView {
                        link_at: link_at as nat,
                        release_at: release_at as nat,
                        job: fresh_job(),
                        ..s
                    };
                    asks(at, Stage::TrackJob, notices, first_request(s.client, track_item(at)))
                },
            },
        }
    } else {
        next_batch(s, notices)
    }
}

/// What is told of work on an item that ended.
pub open spec fn outcome_notices(id: Seq<char>, result: Result<Outcome, JobError>) -> Seq<
    NoticeView,
> {
    match result {
        Ok(_) => Seq::empty(),
        Err(error) => seq![NoticeView::ItemFailed { id, error }],
    }
}

/// The step on the answer to a request of the work on the track at hand.
/// When that work ends, well or not, the next track is taken up.
pub open spec fn on_track_job(s: SessionView, response: Response) -> (SessionView, TurnView) {
    if s.cursor < s.tracks.len() && s.link_at < s.links.len() && s.release_at < s.releases.len() {
        let (job, turn) = job_step(
            s.client,
            track_item(s),
            s.links[s.link_at as int].1.0,
            s.job,
            response,
        );
        match turn.next {
            JobNextView::Ask(request) => asks(
                SessionView { job, ..s },
                Stage::TrackJob,
                turn.notices,
                request,
            ),
            JobNextView::Over(result) => next_job(
                SessionView { job, cursor: s.cursor + 1, ..s },
                turn.notices + outcome_notices(s.tracks[s.cursor as int].0, result),
            ),
        }
    } else {
        finishes(s, Seq::empty(), Err(BatchError::UnexpectedAnswer))
    }
}

/// The step on the answer to the chapters request: the streams of all
/// chapters are asked for in one request.
pub open spec fn on_books(s: SessionView, response: Response) -> (SessionView, TurnView) {
    match response {
        Response::Books(Some(books)) => if chapters_convertible(chapters_in(books@)) {
            let chapters = chapter_table(chapters_in(books@));
            asks(
                SessionView { chapters, ..s },
                Stage::Streams,
                Seq::empty(),
                RequestView::Graphql {
                    endpoint: Endpoint::Streams,
                    url: s.client.zvuk_graphql_url,
                    ids: row_keys(chapters),
                },
            )
        } else {
            finishes(
                s,
                Seq::empty(),
                Err(BatchError::Conversion(Endpoint::Books, ConversionError::PositionOutOfRange)),
            )
        },
        Response::Books(None) => finishes(s, Seq::empty(), Err(BatchError::NoBookInfo)),
        Response::Failed => finishes(s, Seq::empty(), Err(BatchError::Transport(Endpoint::Books))),
        _ => finishes(s, Seq::empty(), Err(BatchError::UnexpectedAnswer)),
    }
}

/// The step on the answer to the streams request: the batch is given up
/// unless there are as many streams as chapters; else the first chapter is
/// taken up.
pub open spec fn on_streams(s: SessionView, response: Response) -> (SessionView, TurnView) {
    match response {
        Response::Streams(Some(contents)) => {
            let links = streams_of(contents@);
            let with = SessionView { chapter_links: links, cursor: 0, ..s };
            if s.chapters.len() != links.len() {
                finishes(
                    with,
                    Seq::empty(),
                    Err(
                        BatchError::CountMismatch {
                            metadata: s.chapters.len() as usize,
                            links: links.len() as usize,
                        },
                    ),
                )
            } else {
                next_chapter(with, Seq::empty())
            }
        },
        Response::Streams(None) => finishes(s, Seq::empty(), Err(BatchError::NoMediaContents)),
        Response::Failed => finishes(
            s,
            Seq::empty(),
            Err(BatchError::Transport(Endpoint::Streams)),
        ),
        _ => finishes(s, Seq::empty(), Err(BatchError::UnexpectedAnswer)),
    }
}

/// The first request of the work on the chapter at the cursor; after the
/// last chapter, the next batch.
pub open spec fn next_chapter(s: SessionView, notices: Seq<NoticeView>) -> (SessionView, TurnView) {
    if s.cursor < s.chapters.len() {
        let at = SessionView { job: fresh_job(), ..s };
        asks(at, Stage::ChapterJob, notices, first_request(s.client, chapter_item(at)))
    } else {
        next_batch(s, notices)
    }
}

/// The step on the answer to a request of the work on the chapter at hand.
/// When that work ends, well or not, the next chapter is taken up.
pub open spec fn on_chapter_job(s: SessionView, response: Response) -> (SessionView, TurnView) {
    if s.cursor < s.chapters.len() && s.cursor < s.chapter_links.len() {
        let (job, turn) = job_step(
            s.client,
            chapter_item(s),
            s.chapter_links[s.cursor as int],
            s.job,
            response,
        );
        match turn.next {
            JobNextView::Ask(request) => asks(
                SessionView { job, ..s },
                Stage::ChapterJob,
                turn.notices,
                request,
            ),
            JobNextView::Over(result) => next_chapter(
                SessionView { job, cursor: s.cursor + 1, ..s },
                turn.notices + outcome_notices(s.chapters[s.cursor as int].0, result),
            ),
        }
    } else {
        finishes(s, Seq::empty(), Err(BatchError::UnexpectedAnswer))
    }
}

/// The step of a run from the state `s` on the answer `response`.
pub open spec fn advance(s: SessionView, response: Response) -> (SessionView, TurnView) {
    match s.stage {
        Stage::AlbumReleases => on_releases(s, response, true),
        Stage::AlbumLabels => on_labels(s, response, true),
        Stage::Tracks => on_tracks(s, response),
        Stage::Link => on_link(s, response),
        Stage::LinkPause => on_pause(s, response),
        Stage::TrackReleases => on_releases(s, response, false),
        Stage::TrackLabels => on_labels(s, response, false),
        Stage::TrackJob => on_track_job(s, response),
        Stage::Books => on_books(s, response),
        Stage::Streams => on_streams(s, response),
        Stage::ChapterJob => on_chapter_job(s, response),
        Stage::Over => finishes(s, Seq::empty(), Err(BatchError::UnexpectedAnswer)),
    }
}

/// The state before anything was asked.
pub open spec fn idle(client: ClientView) -> SessionView {
    SessionView {
        client,
        stage: Stage::Over,
        track_ids: Seq::empty(),
        book_ids: Seq::empty(),
        releases: Seq::empty(),
        tracks: Seq::empty(),
        links: Seq::empty(),
        chapters: Seq::empty(),
        chapter_links: Seq::empty(),
        cursor: 0,
        link_at: 0,
        release_at: 0,
        job: fresh_job(),
    }
}

/// The beginning of an album download: the releases are asked for.
pub open spec fn begin_albums(s: SessionView, ids: Seq<Seq<char>>, notices: Seq<NoticeView>) -> (
    SessionView,
    TurnView,
) {
    asks(s, Stage::AlbumReleases, notices, batch_request(s.client, Endpoint::Releases, ids))
}

/// The beginning of a download of tracks: the tracks are asked for. The
/// releases of `s` are the ones at hand.
pub open spec fn begin_tracks(s: SessionView, ids: Seq<Seq<char>>, notices: Seq<NoticeView>) -> (
    SessionView,
    TurnView,
) {
    asks(
        SessionView { tracks: Seq::empty(), links: Seq::empty(), cursor: 0, ..s },
        Stage::Tracks,
        notices,
        batch_request(s.client, Endpoint::Tracks, ids),
    )
}

/// The beginning of a download of audiobooks: the chapters are asked for.
pub open spec fn begin_books(s: SessionView, ids: Seq<Seq<char>>, notices: Seq<NoticeView>) -> (
    SessionView,
    TurnView,
) {
    asks(
        SessionView { chapters: Seq::empty(), chapter_links: Seq::empty(), cursor: 0, ..s },
        Stage::Books,
        notices,
        RequestView::Graphql { endpoint: Endpoint::Books, url: s.client.zvuk_graphql_url, ids },
    )
}

/// The beginning of a run for the given releases, tracks and books: the
/// releases come first, then the tracks, then the books; with none of them
/// the run is over before anything is asked.
pub open spec fn start(
    client: ClientView,
    release_ids: Seq<Seq<char>>,
    track_ids: Seq<Seq<char>>,
    book_ids: Seq<Seq<char>>,
    notices: Seq<NoticeView>,
) -> (SessionView, TurnView) {
    let s = SessionView { track_ids, book_ids, ..idle(client) };
    if release_ids.len() > 0 {
        begin_albums(s, release_ids, notices)
    } else {
        next_batch(s, notices)
    }
}

} // verus!
