//! A run as a sequence of steps. The session holds what was resolved so far
//! and decides, on each answer, what is asked next: releases and their
//! labels, tracks, one download link per track with a pause after each, then
//! the work on each track; for audiobooks the chapters, their streams, then
//! the work on each chapter.
//!
//! A failure while metadata is resolved gives up the batch and the run. A
//! failure while one track or chapter is worked on is told and the next one
//! is taken up.

pub mod laws;
pub mod model;

use vstd::prelude::*;
use vstd::string::*;

use crate::tags::TagStart;
use crate::client::Client;
use crate::client::ClientView;
use crate::entities::BookChapter;
use crate::entities::ChapterView;
use crate::entities::ReleaseInfo;
use crate::entities::ReleaseView;
use crate::entities::TrackInfo;
use crate::entities::TrackView;
use crate::job::Item;
use crate::job::Job;
use crate::job::JobNext;
use crate::job::JobView;
use crate::job::Phase;
use crate::protocol::notice_views;
use crate::protocol::JobError;
use crate::protocol::Next;
use crate::protocol::Notice;
use crate::protocol::NoticeView;
use crate::protocol::Request;
use crate::protocol::Response;
use crate::protocol::Turn;
use crate::quality::fell_back;
use crate::quality::negotiate;
use crate::quality::Quality;
use crate::resolver::album_track_ids;
use crate::resolver::chapters_from;
use crate::resolver::check_counts;
use crate::resolver::ids_query;
use crate::resolver::label_ids;
use crate::resolver::merge_labels;
use crate::resolver::release_ids_of;
use crate::resolver::releases_from;
use crate::resolver::stream_links;
use crate::resolver::tracks_from;
use crate::resolver::BatchError;
use crate::resolver::Endpoint;
use crate::session::model::advance;
use crate::session::model::after_links;
use crate::session::model::asks;
use crate::session::model::batch_request;
use crate::session::model::begin_albums;
use crate::session::model::begin_books;
use crate::session::model::begin_tracks;
use crate::session::model::chapter_item;
use crate::session::model::finishes;
use crate::session::model::idle;
use crate::session::model::next_batch;
use crate::session::model::next_chapter;
use crate::session::model::next_job;
use crate::session::model::next_link;
use crate::session::model::on_books;
use crate::session::model::on_chapter_job;
use crate::session::model::on_labels;
use crate::session::model::on_link;
use crate::session::model::on_pause;
use crate::session::model::on_releases;
use crate::session::model::on_streams;
use crate::session::model::on_track_job;
use crate::session::model::on_tracks;
use crate::session::model::pause_request;
use crate::session::model::start;
use crate::session::model::track_item;
use crate::table::find_row;
use crate::table::row_keys;
use crate::table::rows;
use crate::text::views;

verus! {

/// The request that is out, or that the run is over.
#[derive(Clone, Copy, Debug, PartialEq, Eq, Structural)]
pub enum Stage {
    /// The releases of an album download.
    AlbumReleases,
    /// The labels of the releases of an album download.
    AlbumLabels,
    /// The tracks of a batch.
    Tracks,
    /// The download link of the track at the cursor.
    Link,
    /// The pause after the link of the track at the cursor.
    LinkPause,
    /// The releases that the tracks of a batch belong to.
    TrackReleases,
    /// The labels of those releases.
    TrackLabels,
    /// A request of the work on the track at the cursor.
    TrackJob,
    /// The chapters of the books.
    Books,
    /// The streams of the chapters.
    Streams,
    /// A request of the work on the chapter at the cursor.
    ChapterJob,
    /// Nothing: the run is over.
    Over,
}

/// A resolved download link and the tier it is for.
#[derive(Debug, PartialEq, Eq)]
pub struct Link {
    pub url: String,
    pub quality: Quality,
}

/// The state of a run.
#[derive(Debug)]
pub struct Session {
    pub client: Client,
    pub stage: Stage,
    /// The tracks that were asked for one by one and are still to come.
    pub track_ids: Vec<String>,
    /// The books that are still to come.
    pub book_ids: Vec<String>,
    /// The releases of the batch at hand, each under its key.
    pub releases: Vec<(String, ReleaseInfo)>,
    /// The tracks of the batch at hand, each under its key.
    pub tracks: Vec<(String, TrackInfo)>,
    /// The links that were resolved, each under the key of its track.
    pub links: Vec<(String, Link)>,
    /// The chapters of the batch at hand, each under its identifier.
    pub chapters: Vec<(String, BookChapter)>,
    /// The links of the chapters, in the order of the answer.
    pub chapter_links: Vec<String>,
    /// The position of the track or chapter at hand.
    pub cursor: usize,
    /// The position of the link of the track at hand.
    pub link_at: usize,
    /// The position of the release of the track at hand.
    pub release_at: usize,
    /// The work on the track or chapter at hand.
    pub job: Job,
}

/// The mathematical value of a [`Session`].
pub struct SessionView {
    pub client: ClientView,
    pub stage: Stage,
    pub track_ids: Seq<Seq<char>>,
    pub book_ids: Seq<Seq<char>>,
    pub releases: Seq<(Seq<char>, ReleaseView)>,
    pub tracks: Seq<(Seq<char>, TrackView)>,
    pub links: Seq<(Seq<char>, (Seq<char>, Quality))>,
    pub chapters: Seq<(Seq<char>, ChapterView)>,
    pub chapter_links: Seq<Seq<char>>,
    pub cursor: nat,
    pub link_at: nat,
    pub release_at: nat,
    pub job: JobView,
}

impl View for Link {
    type V = (Seq<char>, Quality);

    open spec fn view(&self) -> (Seq<char>, Quality) {
        (self.url@, self.quality)
    }
}

impl View for Session {
    type V = SessionView;

    open spec fn view(&self) -> SessionView {
        SessionView {
            client: self.client@,
            stage: self.stage,
            track_ids: views(self.track_ids@),
            book_ids: views(self.book_ids@),
            releases: rows(self.releases@),
            tracks: rows(self.tracks@),
            links: rows(self.links@),
            chapters: rows(self.chapters@),
            chapter_links: views(self.chapter_links@),
            cursor: self.cursor as nat,
            link_at: self.link_at as nat,
            release_at: self.release_at as nat,
            job: self.job@,
        }
    }
}

fn batch(client: &Client, endpoint: Endpoint, ids: &[String]) -> (request: Request)
    ensures
        request@ == batch_request(client@, endpoint, views(ids@)),
{
    let url = match endpoint {
        Endpoint::Releases => client.zvuk_releases_url.clone(),
        Endpoint::Labels => client.zvuk_labels_url.clone(),
        _ => client.zvuk_tracks_url.clone(),
    };
    Request::Batch { endpoint, url, id_list: ids_query(ids) }
}

fn no_notices() -> (notices: Vec<Notice>)
    ensures
        notice_views(notices@) == Seq::<NoticeView>::empty(),
{
    let notices: Vec<Notice> = Vec::new();
    assert(notice_views(notices@) =~= Seq::empty());
    notices
}

fn no_strings() -> (items: Vec<String>)
    ensures
        views(items@) == Seq::<Seq<char>>::empty(),
{
    let items: Vec<String> = Vec::new();
    assert(views(items@) =~= Seq::empty());
    items
}

fn no_rows<T: View>() -> (table: Vec<(String, T)>)
    ensures
        rows(table@) == Seq::<(Seq<char>, T::V)>::empty(),
{
    let table: Vec<(String, T)> = Vec::new();
    assert(rows(table@) =~= Seq::empty());
    table
}

impl Session {
    fn finish(&mut self, notices: Vec<Notice>, result: Result<(), BatchError>) -> (turn: Turn)
        ensures
            (final(self)@, turn@) == finishes(old(self)@, notice_views(notices@), result),
    {
        self.stage = Stage::Over;
        Turn { notices, next: Next::Finished(result) }
    }

    fn ask(&mut self, stage: Stage, notices: Vec<Notice>, request: Request) -> (turn: Turn)
        ensures
            (final(self)@, turn@) == asks(old(self)@, stage, notice_views(notices@), request@),
    {
        self.stage = stage;
        Turn { notices, next: Next::Ask(request) }
    }

    fn next_batch(&mut self, notices: Vec<Notice>) -> (turn: Turn)
        ensures
            (final(self)@, turn@) == next_batch(old(self)@, notice_views(notices@)),
    {
        if self.track_ids.len() > 0 {
            let request = batch(&self.client, Endpoint::Tracks, self.track_ids.as_slice());
            self.track_ids = no_strings();
            self.releases = no_rows();
            self.tracks = no_rows();
            self.links = no_rows();
            self.cursor = 0;
            self.ask(Stage::Tracks, notices, request)
        } else if self.book_ids.len() > 0 {
            let mut ids = no_strings();
            std::mem::swap(&mut ids, &mut self.book_ids);
            let request = Request::Graphql {
                endpoint: Endpoint::Books,
                url: self.client.zvuk_graphql_url.clone(),
                ids,
            };
            self.chapters = no_rows();
            self.chapter_links = no_strings();
            self.cursor = 0;
            self.ask(Stage::Books, notices, request)
        } else {
            self.finish(notices, Ok(()))
        }
    }

    fn next_chapter(&mut self, notices: Vec<Notice>) -> (turn: Turn)
        ensures
            (final(self)@, turn@) == next_chapter(old(self)@, notice_views(notices@)),
    {
        if self.cursor < self.chapters.len() {
            let item = Item::Chapter { chapter: &self.chapters[self.cursor].1 };
            let (job, request) = Job::begin(&self.client, &item);
            self.job = job;
            self.ask(Stage::ChapterJob, notices, request)
        } else {
            self.next_batch(notices)
        }
    }

    fn next_job(&mut self, notices: Vec<Notice>) -> (turn: Turn)
        ensures
            (final(self)@, turn@) == next_job(old(self)@, notice_views(notices@)),
    {
        let ghost goal = next_job(self@, notice_views(notices@));
        let mut pending = notices;
        while self.cursor < self.tracks.len()
            invariant
                goal == next_job(old(self)@, notice_views(notices@)),
                next_job(self@, notice_views(pending@)) == goal,
            decreases self.tracks.len() - self.cursor,
        {
            proof {
                crate::table::lemma_row_keys(self.links@);
                crate::table::lemma_row_keys(self.releases@);
            }
            let link_at = match find_row(&self.links, self.tracks[self.cursor].0.as_str()) {
                Some(i) => i,
                None => {
                    return self.finish(pending, Err(BatchError::NoLink));
                },
            };
            match find_row(&self.releases, self.tracks[self.cursor].1.release_id.as_str()) {
                Some(release_at) => {
                    let item = Item::Track {
                        track: &self.tracks[self.cursor].1,
                        release: &self.releases[release_at].1,
                        quality: self.links[link_at].1.quality,
                    };
                    let (job, request) = Job::begin(&self.client, &item);
                    self.job = job;
                    self.link_at = link_at;
                    self.release_at = release_at;
                    return self.ask(Stage::TrackJob, pending, request);
                },
                None => {
                    let notice = Notice::ItemFailed {
                        id: self.tracks[self.cursor].0.clone(),
                        error: JobError::NoReleaseInfo,
                    };
                    proof {
                        assert(notice_views(pending@.push(notice)) =~= notice_views(
                            pending@,
                        ).push(notice@));
                    }
                    pending.push(notice);
                    self.cursor = self.cursor + 1;
                },
            }
        }
        self.next_batch(pending)
    }

    fn after_links(&mut self, notices: Vec<Notice>) -> (turn: Turn)
        ensures
            (final(self)@, turn@) == after_links(old(self)@, notice_views(notices@)),
    {
        match check_counts(self.tracks.len(), self.links.len()) {
            Err(e) => self.finish(notices, Err(e)),
            Ok(()) => {
                if self.releases.len() == 0 {
                    let ids = release_ids_of(&self.tracks);
                    let request = batch(&self.client, Endpoint::Releases, ids.as_slice());
                    self.ask(Stage::TrackReleases, notices, request)
                } else {
                    self.cursor = 0;
                    self.next_job(notices)
                }
            },
        }
    }

    fn next_link(&mut self, notices: Vec<Notice>) -> (turn: Turn)
        ensures
            (final(self)@, turn@) == next_link(old(self)@, notice_views(notices@)),
    {
        if self.cursor < self.tracks.len() {
            let key = self.tracks[self.cursor].0.clone();
            let has_flac = self.tracks[self.cursor].1.has_flac;
            let quality = negotiate(self.client.quality, has_flac);
            let notice = if fell_back(self.client.quality, quality) {
                Notice::FallbackQuality { track_id: key.clone(), quality, has_flac }
            } else {
                Notice::RequestedQuality { track_id: key.clone(), quality, has_flac }
            };
            let request = Request::Link {
                url: self.client.zvuk_download_url.clone(),
                quality: quality.wire_name(),
                id: key,
            };
            let mut notices = notices;
            proof {
                assert(notice_views(notices@.push(notice)) =~= notice_views(notices@).push(notice@));
            }
            notices.push(notice);
            self.ask(Stage::Link, notices, request)
        } else {
            self.after_links(notices)
        }
    }
}

impl Session {
    fn on_releases(&mut self, response: Response, album: bool) -> (turn: Turn)
        ensures
            (final(self)@, turn@) == on_releases(old(self)@, response, album),
    {
        match response {
            Response::Releases(answer) => {
                match releases_from(answer) {
                    Ok(releases) => {
                        let ids = label_ids(&releases);
                        let request = batch(&self.client, Endpoint::Labels, ids.as_slice());
                        self.releases = releases;
                        let stage = if album {
                            Stage::AlbumLabels
                        } else {
                            Stage::TrackLabels
                        };
                        self.ask(stage, no_notices(), request)
                    },
                    Err(e) => self.finish(
                        no_notices(),
                        Err(BatchError::Conversion(Endpoint::Releases, e)),
                    ),
                }
            },
            Response::Failed => self.finish(
                no_notices(),
                Err(BatchError::Transport(Endpoint::Releases)),
            ),
            _ => self.finish(no_notices(), Err(BatchError::UnexpectedAnswer)),
        }
    }

    fn on_labels(&mut self, response: Response, album: bool) -> (turn: Turn)
        ensures
            (final(self)@, turn@) == on_labels(old(self)@, response, album),
    {
        match response {
            Response::Labels(answer) => {
                let mut releases = no_rows();
                std::mem::swap(&mut releases, &mut self.releases);
                let ghost before = rows(releases@);
                match merge_labels(releases, &answer) {
                    Ok(merged) => {
                        self.releases = merged;
                        if album {
                            let ids = album_track_ids(&self.releases);
                            let request = batch(&self.client, Endpoint::Tracks, ids.as_slice());
                            self.tracks = no_rows();
                            self.links = no_rows();
                            self.cursor = 0;
                            self.ask(Stage::Tracks, no_notices(), request)
                        } else {
                            self.cursor = 0;
                            self.next_job(no_notices())
                        }
                    },
                    Err(e) => {
                        // The releases are of no use without their labels.
                        let turn = self.finish(no_notices(), Err(e));
                        turn
                    },
                }
            },
            Response::Failed => self.finish(
                no_notices(),
                Err(BatchError::Transport(Endpoint::Labels)),
            ),
            _ => self.finish(no_notices(), Err(BatchError::UnexpectedAnswer)),
        }
    }

    fn on_tracks(&mut self, response: Response) -> (turn: Turn)
        ensures
            (final(self)@, turn@) == on_tracks(old(self)@, response),
    {
        match response {
            Response::Tracks(answer) => {
                match tracks_from(answer) {
                    Ok(tracks) => {
                        self.tracks = tracks;
                        self.links = no_rows();
                        self.cursor = 0;
                        self.next_link(no_notices())
                    },
                    Err(e) => self.finish(
                        no_notices(),
                        Err(BatchError::Conversion(Endpoint::Tracks, e)),
                    ),
                }
            },
            Response::Failed => self.finish(
                no_notices(),
                Err(BatchError::Transport(Endpoint::Tracks)),
            ),
            _ => self.finish(no_notices(), Err(BatchError::UnexpectedAnswer)),
        }
    }

    fn pause(&self) -> (request: Request)
        ensures
            request@ == pause_request(self.client@),
    {
        Request::Pause { duration: self.client.pause_between_getting_track_links }
    }

    fn on_link(&mut self, response: Response) -> (turn: Turn)
        ensures
            (final(self)@, turn@) == on_link(old(self)@, response),
    {
        if self.cursor >= self.tracks.len() {
            return self.finish(no_notices(), Err(BatchError::UnexpectedAnswer));
        }
        match response {
            Response::Link(answer) => {
                let key = self.tracks[self.cursor].0.clone();
                let quality = negotiate(self.client.quality, self.tracks[self.cursor].1.has_flac);
                let link = Link { url: answer.stream, quality };
                proof {
                    assert(rows(self.links@.push((key, link))) =~= rows(self.links@).push(
                        (key@, link@),
                    ));
                }
                self.links.push((key, link));
                let request = self.pause();
                self.ask(Stage::LinkPause, no_notices(), request)
            },
            Response::Failed => {
                let key = self.tracks[self.cursor].0.clone();
                let mut notices: Vec<Notice> = Vec::new();
                notices.push(Notice::LinkFailed { track_id: key });
                assert(notice_views(notices@) =~= seq![NoticeView::LinkFailed { track_id: key@ }]);
                let request = self.pause();
                self.ask(Stage::LinkPause, notices, request)
            },
            _ => self.finish(no_notices(), Err(BatchError::UnexpectedAnswer)),
        }
    }

    fn on_pause(&mut self, response: Response) -> (turn: Turn)
        ensures
            (final(self)@, turn@) == on_pause(old(self)@, response),
    {
        match response {
            Response::Done => {
                if self.cursor < self.tracks.len() {
                    self.cursor = self.cursor + 1;
                    self.next_link(no_notices())
                } else {
                    self.finish(no_notices(), Err(BatchError::UnexpectedAnswer))
                }
            },
            _ => self.finish(no_notices(), Err(BatchError::UnexpectedAnswer)),
        }
    }

    fn on_books(&mut self, response: Response) -> (turn: Turn)
        ensures
            (final(self)@, turn@) == on_books(old(self)@, response),
    {
        match response {
            Response::Books(Some(books)) => {
                match chapters_from(books) {
                    Ok(chapters) => {
                        let mut ids: Vec<String> = Vec::new();
                        let mut i: usize = 0;
                        while i < chapters.len()
                            invariant
                                i <= chapters.len(),
                                views(ids@) == row_keys(rows(chapters@)).take(i as int),
                            decreases chapters.len() - i,
                        {
                            let id = chapters[i].0.clone();
                            proof {
                                assert(views(ids@.push(id)) =~= views(ids@).push(id@));
                                assert(row_keys(rows(chapters@)).take(i + 1) =~= row_keys(
                                    rows(chapters@),
                                ).take(i as int).push(id@));
                            }
                            ids.push(id);
                            i = i + 1;
                        }
                        assert(row_keys(rows(chapters@)).take(chapters.len() as int) =~= row_keys(
                            rows(chapters@),
                        ));
                        let request = Request::Graphql {
                            endpoint: Endpoint::Streams,
                            url: self.client.zvuk_graphql_url.clone(),
                            ids,
                        };
                        self.chapters = chapters;
                        self.ask(Stage::Streams, no_notices(), request)
                    },
                    Err(e) => self.finish(
                        no_notices(),
                        Err(BatchError::Conversion(Endpoint::Books, e)),
                    ),
                }
            },
            Response::Books(None) => self.finish(no_notices(), Err(BatchError::NoBookInfo)),
            Response::Failed => self.finish(
                no_notices(),
                Err(BatchError::Transport(Endpoint::Books)),
            ),
            _ => self.finish(no_notices(), Err(BatchError::UnexpectedAnswer)),
        }
    }

    fn on_streams(&mut self, response: Response) -> (turn: Turn)
        ensures
            (final(self)@, turn@) == on_streams(old(self)@, response),
    {
        match response {
            Response::Streams(Some(contents)) => {
                self.chapter_links = stream_links(contents);
                self.cursor = 0;
                match check_counts(self.chapters.len(), self.chapter_links.len()) {
                    Err(e) => self.finish(no_notices(), Err(e)),
                    Ok(()) => self.next_chapter(no_notices()),
                }
            },
            Response::Streams(None) => self.finish(no_notices(), Err(BatchError::NoMediaContents)),
            Response::Failed => self.finish(
                no_notices(),
                Err(BatchError::Transport(Endpoint::Streams)),
            ),
            _ => self.finish(no_notices(), Err(BatchError::UnexpectedAnswer)),
        }
    }
}

impl Session {
    fn on_track_job(&mut self, response: Response) -> (turn: Turn)
        ensures
            (final(self)@, turn@) == on_track_job(old(self)@, response),
    {
        if !(self.cursor < self.tracks.len() && self.link_at < self.links.len() && self.release_at
            < self.releases.len()) {
            return self.finish(no_notices(), Err(BatchError::UnexpectedAnswer));
        }
        let item = Item::Track {
            track: &self.tracks[self.cursor].1,
            release: &self.releases[self.release_at].1,
            quality: self.links[self.link_at].1.quality,
        };
        assert(item@ == track_item(self@));
        let done = self.job.step(
            &self.client,
            &item,
            self.links[self.link_at].1.url.as_str(),
            response,
        );
        match done.next {
            JobNext::Ask(request) => self.ask(Stage::TrackJob, done.notices, request),
            JobNext::Over(result) => {
                let mut notices = done.notices;
                match result {
                    Ok(_) => {
                        assert(notice_views(notices@) + Seq::<NoticeView>::empty() =~= notice_views(
                            notices@,
                        ));
                    },
                    Err(error) => {
                        let notice = Notice::ItemFailed {
                            id: self.tracks[self.cursor].0.clone(),
                            error,
                        };
                        assert(notice_views(notices@.push(notice)) =~= notice_views(notices@)
                            + seq![notice@]);
                        notices.push(notice);
                    },
                }
                self.cursor = self.cursor + 1;
                self.next_job(notices)
            },
        }
    }

    fn on_chapter_job(&mut self, response: Response) -> (turn: Turn)
        ensures
            (final(self)@, turn@) == on_chapter_job(old(self)@, response),
    {
        if !(self.cursor < self.chapters.len() && self.cursor < self.chapter_links.len()) {
            return self.finish(no_notices(), Err(BatchError::UnexpectedAnswer));
        }
        let item = Item::Chapter { chapter: &self.chapters[self.cursor].1 };
        assert(item@ == chapter_item(self@));
        let done = self.job.step(
            &self.client,
            &item,
            self.chapter_links[self.cursor].as_str(),
            response,
        );
        match done.next {
            JobNext::Ask(request) => self.ask(Stage::ChapterJob, done.notices, request),
            JobNext::Over(result) => {
                let mut notices = done.notices;
                match result {
                    Ok(_) => {
                        assert(notice_views(notices@) + Seq::<NoticeView>::empty() =~= notice_views(
                            notices@,
                        ));
                    },
                    Err(error) => {
                        let notice = Notice::ItemFailed {
                            id: self.chapters[self.cursor].0.clone(),
                            error,
                        };
                        assert(notice_views(notices@.push(notice)) =~= notice_views(notices@)
                            + seq![notice@]);
                        notices.push(notice);
                    },
                }
                self.cursor = self.cursor + 1;
                self.next_chapter(notices)
            },
        }
    }

    /// Takes what came of the request that is out and says what follows.
    ///
    /// Metadata is all or nothing: a request that failed, an answer with a
    /// record that cannot be converted, a missing label, or a number of
    /// links other than the number of tracks ends the run with the error.
    /// Once the work on the tracks or chapters has begun, a failure on one of
    /// them is told in a notice and the next one is taken up.
    pub fn step(&mut self, response: Response) -> (turn: Turn)
        ensures
            (final(self)@, turn@) == advance(old(self)@, response),
    {
        match self.stage {
            Stage::AlbumReleases => self.on_releases(response, true),
            Stage::AlbumLabels => self.on_labels(response, true),
            Stage::Tracks => self.on_tracks(response),
            Stage::Link => self.on_link(response),
            Stage::LinkPause => self.on_pause(response),
            Stage::TrackReleases => self.on_releases(response, false),
            Stage::TrackLabels => self.on_labels(response, false),
            Stage::TrackJob => self.on_track_job(response),
            Stage::Books => self.on_books(response),
            Stage::Streams => self.on_streams(response),
            Stage::ChapterJob => self.on_chapter_job(response),
            Stage::Over => self.finish(no_notices(), Err(BatchError::UnexpectedAnswer)),
        }
    }

    /// Begins the run of `client` for `targets`.
    pub fn begin(client: Client, targets: crate::download::Targets) -> (r: (Session, Turn))
        ensures
            (r.0@, r.1@) == start(
                client@,
                views(targets.release_ids@),
                views(targets.track_ids@),
                views(targets.book_ids@),
                notice_views(targets.skipped@),
            ),
    {
        let mut session = Session::idle(client);
        session.track_ids = targets.track_ids;
        session.book_ids = targets.book_ids;
        if targets.release_ids.len() > 0 {
            let request = batch(
                &session.client,
                Endpoint::Releases,
                targets.release_ids.as_slice(),
            );
            let turn = session.ask(Stage::AlbumReleases, targets.skipped, request);
            (session, turn)
        } else {
            let turn = session.next_batch(targets.skipped);
            (session, turn)
        }
    }

    /// The session of `client` before anything was asked.
    fn idle(client: Client) -> (session: Session)
        ensures
            session@ == idle(client@),
    {
        Session {
            client,
            stage: Stage::Over,
            track_ids: no_strings(),
            book_ids: no_strings(),
            releases: no_rows(),
            tracks: no_rows(),
            links: no_rows(),
            chapters: no_rows(),
            chapter_links: no_strings(),
            cursor: 0,
            link_at: 0,
            release_at: 0,
            job: Job { phase: Phase::CreatingDirectory, cover: None, start: TagStart::Empty },
        }
    }
}

fn copy_strings(items: &[String]) -> (copy: Vec<String>)
    ensures
        views(copy@) == views(items@),
{
    let mut copy: Vec<String> = Vec::new();
    let mut i: usize = 0;
    while i < items.len()
        invariant
            i <= items.len(),
            views(copy@) == views(items@).take(i as int),
        decreases items.len() - i,
    {
        let item = items[i].clone();
        proof {
            assert(views(copy@.push(item)) =~= views(copy@).push(item@));
            assert(views(items@).take(i + 1) =~= views(items@).take(i as int).push(item@));
        }
        copy.push(item);
        i = i + 1;
    }
    assert(views(items@).take(items.len() as int) =~= views(items@));
    copy
}

impl Client {
    /// Begins the download of the releases `release_ids` with all their
    /// tracks. The first request is for the releases.
    pub fn download_albums(self, release_ids: &[String]) -> (r: (Session, Turn))
        ensures
            (r.0@, r.1@) == begin_albums(idle(self@), views(release_ids@), Seq::empty()),
    {
        let mut session = Session::idle(self);
        let request = batch(&session.client, Endpoint::Releases, release_ids);
        let turn = session.ask(Stage::AlbumReleases, no_notices(), request);
        (session, turn)
    }

    /// Begins the download of the tracks `track_ids`. Where `releases` holds
    /// releases, they are the ones the tracks are looked up in; where it is
    /// empty, the releases that the tracks belong to are resolved once the
    /// tracks are known. The first request is for the tracks.
    pub fn download_tracks(self, track_ids: &[String], releases: Vec<(String, ReleaseInfo)>) -> (r:
        (Session, Turn))
        ensures
            (r.0@, r.1@) == begin_tracks(
                SessionView { releases: rows(releases@), ..idle(self@) },
                views(track_ids@),
                Seq::empty(),
            ),
    {
        let mut session = Session::idle(self);
        session.releases = releases;
        let request = batch(&session.client, Endpoint::Tracks, track_ids);
        let turn = session.ask(Stage::Tracks, no_notices(), request);
        (session, turn)
    }

    /// Begins the download of the audiobooks `book_ids`. The first request is
    /// for their chapters.
    pub fn download_abooks(self, book_ids: &[String]) -> (r: (Session, Turn))
        ensures
            (r.0@, r.1@) == begin_books(idle(self@), views(book_ids@), Seq::empty()),
    {
        let mut session = Session::idle(self);
        let request = Request::Graphql {
            endpoint: Endpoint::Books,
            url: session.client.zvuk_graphql_url.clone(),
            ids: copy_strings(book_ids),
        };
        let turn = session.ask(Stage::Books, no_notices(), request);
        (session, turn)
    }
}

} // verus!
