//! The work on one track or chapter: directory, cover, audio, tags. Each
//! step takes what came of the last request and says what to ask next. A
//! failure ends the work on this item and on no other.

pub mod laws;
pub mod model;

use vstd::prelude::*;
use vstd::string::*;

use crate::client::Client;
use crate::cover::needs_resize;
use crate::cover::resize_command_line;
use crate::entities::lyrics_kind_of;
use crate::entities::BookChapter;
use crate::entities::ChapterView;
use crate::entities::Lyrics;
use crate::entities::ReleaseInfo;
use crate::entities::ReleaseView;
use crate::entities::TrackInfo;
use crate::entities::TrackView;
use crate::job::model::after_audio;
use crate::job::model::after_cover;
use crate::job::model::after_cover_read;
use crate::job::model::after_load;
use crate::job::model::asking;
use crate::job::model::asking_with;
use crate::job::model::ended;
use crate::job::model::audio_path;
use crate::job::model::cover_path;
use crate::job::model::cover_url;
use crate::job::model::failed;
use crate::job::model::first_request;
use crate::job::model::item_directory;
use crate::job::model::item_tags;
use crate::job::model::job_step;
use crate::job::model::look_for_audio;
use crate::job::model::lyrics_notices;
use crate::job::model::writing;
use crate::paths::chapter_directory_name;
use crate::paths::chapter_file_name;
use crate::paths::release_directory_name;
use crate::paths::track_file_name;
use crate::paths::PathProfile;
use crate::protocol::notice_views;
use crate::protocol::FilePath;
use crate::protocol::JobError;
use crate::protocol::Notice;
use crate::protocol::NoticeView;
use crate::protocol::Request;
use crate::protocol::RequestView;
use crate::protocol::Response;
use crate::quality::Quality;
use crate::tags::bytes_view;
use crate::tags::chapter_tags;
use crate::tags::lyrics_view;
use crate::tags::tags_view;
use crate::tags::write_tags;
use crate::tags::TagError;
use crate::tags::tag_format;
use crate::tags::TagFormat;
use crate::tags::TagSet;
use crate::tags::TagStart;

verus! {

/// What is downloaded and tagged: a track with its release and the tier it
/// is fetched at, or an audiobook chapter.
pub enum Item<'a> {
    Track { track: &'a TrackInfo, release: &'a ReleaseInfo, quality: Quality },
    Chapter { chapter: &'a BookChapter },
}

/// The mathematical value of an [`Item`].
pub enum ItemView {
    Track { track: TrackView, release: ReleaseView, quality: Quality },
    Chapter { chapter: ChapterView },
}

impl<'a> View for Item<'a> {
    type V = ItemView;

    open spec fn view(&self) -> ItemView {
        match self {
            Item::Track { track, release, quality } => ItemView::Track {
                track: track@,
                release: release@,
                quality: *quality,
            },
            Item::Chapter { chapter } => ItemView::Chapter { chapter: chapter@ },
        }
    }
}

/// How far the work on an item has come: the request that is out.
#[derive(Clone, Copy, Debug, PartialEq, Eq, Structural)]
pub enum Phase {
    CreatingDirectory,
    ProbingCover,
    FetchingCover,
    SizingCover,
    AskingPath,
    Resizing,
    ProbingAudio,
    FetchingAudio,
    LoadingTags,
    ReadingCover,
    FetchingLyrics,
    WritingTags,
    Over,
}

/// How the work on an item ended where it did not fail.
#[derive(Clone, Copy, Debug, PartialEq, Eq, Structural)]
pub enum Outcome {
    /// The audio was downloaded and tagged.
    Written,
    /// The audio file was there already; nothing was downloaded for it or
    /// written to it.
    Skipped,
}

/// What follows a step of the work on an item.
#[derive(Debug, PartialEq, Eq)]
pub enum JobNext {
    Ask(Request),
    Over(Result<Outcome, JobError>),
}

/// The mathematical value of a [`JobNext`].
pub enum JobNextView {
    Ask(RequestView),
    Over(Result<Outcome, JobError>),
}

impl View for JobNext {
    type V = JobNextView;

    open spec fn view(&self) -> JobNextView {
        match self {
            JobNext::Ask(request) => JobNextView::Ask(request@),
            JobNext::Over(result) => JobNextView::Over(*result),
        }
    }
}

/// The outcome of one step of the work on an item.
#[derive(Debug, PartialEq, Eq)]
pub struct JobTurn {
    pub notices: Vec<Notice>,
    pub next: JobNext,
}

/// The mathematical value of a [`JobTurn`].
pub struct JobTurnView {
    pub notices: Seq<NoticeView>,
    pub next: JobNextView,
}

impl View for JobTurn {
    type V = JobTurnView;

    open spec fn view(&self) -> JobTurnView {
        JobTurnView { notices: notice_views(self.notices@), next: self.next@ }
    }
}

/// The state of the work on an item.
#[derive(Debug, PartialEq, Eq)]
pub struct Job {
    pub phase: Phase,
    /// The bytes of the cover, from when they were read until they go into
    /// the tags.
    pub cover: Option<Vec<u8>>,
    /// What the fields of the tags are set on, once the tags of the file
    /// were looked for.
    pub start: TagStart,
}

/// The mathematical value of a [`Job`].
pub struct JobView {
    pub phase: Phase,
    pub cover: Option<Seq<u8>>,
    pub start: TagStart,
}

impl View for Job {
    type V = JobView;

    open spec fn view(&self) -> JobView {
        JobView { phase: self.phase, cover: bytes_view(self.cover), start: self.start }
    }
}

fn directory_of(profile: PathProfile, item: &Item) -> (name: String)
    ensures
        name@ == item_directory(profile, item@),
{
    match item {
        Item::Track { track, release, quality } => release_directory_name(profile, release),
        Item::Chapter { chapter } => chapter_directory_name(profile, chapter),
    }
}

fn cover_of(profile: PathProfile, item: &Item) -> (file: FilePath)
    ensures
        file@ == cover_path(profile, item@),
{
    FilePath { directory: directory_of(profile, item), name: String::from_str("cover.jpg") }
}

fn audio_of(profile: PathProfile, item: &Item) -> (file: FilePath)
    ensures
        file@ == audio_path(profile, item@),
{
    let name = match item {
        Item::Track { track, release, quality } => track_file_name(profile, track, *quality),
        Item::Chapter { chapter } => chapter_file_name(profile, chapter),
    };
    FilePath { directory: directory_of(profile, item), name }
}

fn cover_url_of(item: &Item) -> (url: String)
    ensures
        url@ == cover_url(item@),
{
    match item {
        Item::Track { track, release, quality } => track.image.clone(),
        Item::Chapter { chapter } => chapter.image.clone(),
    }
}

/// Puts together the tags of `item`.
fn tags_of(item: &Item, cover: Option<Vec<u8>>, lyrics: Option<&Lyrics>) -> (r: Result<
    TagSet,
    TagError,
>)
    requires
        *item is Chapter ==> lyrics is None,
    ensures
        tags_view(r) == item_tags(item@, bytes_view(cover), lyrics_view(lyrics)),
{
    match item {
        Item::Track { track, release, quality } => write_tags(
            track,
            release,
            *quality,
            cover,
            lyrics,
        ),
        Item::Chapter { chapter } => chapter_tags(chapter, cover),
    }
}

/// What stands in the way of the tags of `item`, whatever cover and lyrics
/// it gets.
fn tag_obstacle(item: &Item) -> (obstacle: Option<TagError>)
    ensures
        match item_tags(item@, None, None) {
            Ok(_) => obstacle is None,
            Err(e) => obstacle == Some(e),
        },
{
    match item {
        Item::Track { track, release, quality } => {
            if track.number > 65535 {
                Some(TagError::TrackNumberTooLarge)
            } else if release.track_count > 65535 {
                Some(TagError::TrackCountTooLarge)
            } else {
                None
            }
        },
        Item::Chapter { chapter } => {
            if chapter.number > 65535 {
                Some(TagError::TrackNumberTooLarge)
            } else {
                None
            }
        },
    }
}

impl Job {
    /// Begins the work on `item`: the first thing asked for is its
    /// directory.
    pub fn begin(client: &Client, item: &Item) -> (r: (Job, Request))
        ensures
            r.0@ == (JobView {
                phase: Phase::CreatingDirectory,
                cover: None,
                start: TagStart::Empty,
            }),
            r.1@ == first_request(client@, item@),
    {
        let directory = directory_of(client.path_profile, item);
        (
            Job { phase: Phase::CreatingDirectory, cover: None, start: TagStart::Empty },
            Request::CreateDirectory { directory },
        )
    }

    fn fail(&mut self, error: JobError) -> (turn: JobTurn)
        ensures
            (final(self)@, turn@) == failed(error),
    {
        self.phase = Phase::Over;
        self.cover = None;
        self.start = TagStart::Empty;
        let turn = JobTurn { notices: Vec::new(), next: JobNext::Over(Err(error)) };
        assert(turn@.notices =~= Seq::empty());
        turn
    }

    fn end(&mut self, notices: Vec<Notice>, result: Result<Outcome, JobError>) -> (turn: JobTurn)
        ensures
            final(self)@ == ended(),
            turn@ == (JobTurnView {
                notices: notice_views(notices@),
                next: JobNextView::Over(result),
            }),
    {
        self.phase = Phase::Over;
        self.cover = None;
        self.start = TagStart::Empty;
        JobTurn { notices, next: JobNext::Over(result) }
    }

    fn ask(&mut self, phase: Phase, request: Request) -> (turn: JobTurn)
        ensures
            (final(self)@, turn@) == asking(phase, request@),
    {
        self.phase = phase;
        self.cover = None;
        self.start = TagStart::Empty;
        let turn = JobTurn { notices: Vec::new(), next: JobNext::Ask(request) };
        assert(turn@.notices =~= Seq::empty());
        turn
    }

    fn ask_on(&mut self, phase: Phase, request: Request) -> (turn: JobTurn)
        ensures
            (final(self)@, turn@) == asking_with(
                phase,
                bytes_view(old(self).cover),
                old(self).start,
                request@,
            ),
    {
        self.phase = phase;
        let turn = JobTurn { notices: Vec::new(), next: JobNext::Ask(request) };
        assert(turn@.notices =~= Seq::empty());
        turn
    }

    fn look_for_audio(&mut self, client: &Client, item: &Item) -> (turn: JobTurn)
        ensures
            (final(self)@, turn@) == look_for_audio(client@, item@),
    {
        let file = audio_of(client.path_profile, item);
        self.ask(Phase::ProbingAudio, Request::Exists { file })
    }

    fn after_cover(&mut self, client: &Client, item: &Item) -> (turn: JobTurn)
        ensures
            (final(self)@, turn@) == after_cover(client@, item@),
    {
        if client.resize_cover {
            let file = cover_of(client.path_profile, item);
            self.ask(Phase::SizingCover, Request::FileSize { file })
        } else {
            self.look_for_audio(client, item)
        }
    }

    fn write(
        &mut self,
        client: &Client,
        item: &Item,
        lyrics: Option<&Lyrics>,
        notices: Vec<Notice>,
    ) -> (turn: JobTurn)
        requires
            *item is Chapter ==> lyrics is None,
        ensures
            (final(self)@, turn@) == writing(
                client@,
                item@,
                bytes_view(old(self).cover),
                old(self).start,
                lyrics_view(lyrics),
                notice_views(notices@),
            ),
    {
        let cover = self.cover.take();
        match tags_of(item, cover, lyrics) {
            Ok(tags) => {
                self.phase = Phase::WritingTags;
                let file = audio_of(client.path_profile, item);
                let start = self.start;
                JobTurn { notices, next: JobNext::Ask(Request::WriteTags { file, start, tags }) }
            },
            Err(e) => self.end(notices, Err(JobError::Tags(e))),
        }
    }

    fn after_cover_read(&mut self, client: &Client, item: &Item) -> (turn: JobTurn)
        ensures
            (final(self)@, turn@) == after_cover_read(
                client@,
                item@,
                bytes_view(old(self).cover),
                old(self).start,
            ),
    {
        match item {
            Item::Track { track, release, quality } => {
                if client.download_lyrics && track.lyrics {
                    let request = Request::Lyrics {
                        url: client.zvuk_lyrics_url.clone(),
                        track_id: track.track_id.clone(),
                    };
                    self.ask_on(Phase::FetchingLyrics, request)
                } else {
                    let notices: Vec<Notice> = Vec::new();
                    assert(notice_views(notices@) =~= Seq::empty());
                    self.write(client, item, None, notices)
                }
            },
            Item::Chapter { chapter } => {
                let notices: Vec<Notice> = Vec::new();
                assert(notice_views(notices@) =~= Seq::empty());
                self.write(client, item, None, notices)
            },
        }
    }

    fn after_audio(&mut self, client: &Client, item: &Item) -> (turn: JobTurn)
        ensures
            (final(self)@, turn@) == after_audio(client@, item@),
    {
        let file = audio_of(client.path_profile, item);
        let format = match item {
            Item::Track { track, release, quality } => tag_format(*quality),
            Item::Chapter { chapter } => TagFormat::Id3v2,
        };
        self.ask(Phase::LoadingTags, Request::LoadTags { file, format })
    }

    fn after_load(&mut self, client: &Client, item: &Item, start: TagStart) -> (turn: JobTurn)
        ensures
            (final(self)@, turn@) == after_load(client@, item@, start),
    {
        match tag_obstacle(item) {
            Some(e) => self.fail(JobError::Tags(e)),
            None => {
                self.cover = None;
                self.start = start;
                if client.embed_cover {
                    let file = cover_of(client.path_profile, item);
                    self.ask_on(Phase::ReadingCover, Request::ReadFile { file })
                } else {
                    self.after_cover_read(client, item)
                }
            },
        }
    }
}

impl Job {
    fn on_path(&mut self, client: &Client, response: Response) -> (turn: JobTurn)
        requires
            old(self).phase == Phase::AskingPath,
        ensures
            forall|item: ItemView, audio_url: Seq<char>|
                (final(self)@, turn@) == #[trigger] job_step(
                    client@,
                    item,
                    audio_url,
                    old(self)@,
                    response,
                ),
    {
        match response {
            Response::Text(Some(path)) => {
                match resize_command_line(client.resize_command.as_str(), path.as_str()) {
                    Some(command) => self.ask(Phase::Resizing, Request::Run { command }),
                    None => self.fail(JobError::ResizeCommand),
                }
            },
            Response::Text(None) => self.fail(JobError::CoverPath),
            Response::Failed => self.fail(JobError::CoverPath),
            _ => self.fail(JobError::UnexpectedAnswer),
        }
    }

    fn on_lyrics(&mut self, client: &Client, item: &Item, response: Response) -> (turn: JobTurn)
        requires
            old(self).phase == Phase::FetchingLyrics,
        ensures
            forall|audio_url: Seq<char>|
                (final(self)@, turn@) == #[trigger] job_step(
                    client@,
                    item@,
                    audio_url,
                    old(self)@,
                    response,
                ),
    {
        match response {
            Response::Lyrics(answer) => {
                let ghost text = answer.lyrics@;
                let ghost kind = lyrics_kind_of(answer.type_@);
                match Lyrics::try_from(answer) {
                    Ok(lyrics) => {
                        let mut notices: Vec<Notice> = Vec::new();
                        if lyrics.text.as_str().unicode_len() == 0 {
                            let file = audio_of(client.path_profile, item);
                            notices.push(Notice::EmptyLyrics { file });
                        }
                        assert(notice_views(notices@) =~= lyrics_notices(client@, item@, text));
                        match item {
                            Item::Track { track, release, quality } => self.write(
                                client,
                                item,
                                Some(&lyrics),
                                notices,
                            ),
                            Item::Chapter { chapter } => self.write(client, item, None, notices),
                        }
                    },
                    Err(_) => self.fail(JobError::Lyrics),
                }
            },
            Response::Failed => self.fail(JobError::Lyrics),
            _ => self.fail(JobError::UnexpectedAnswer),
        }
    }

    /// Takes what came of the request that is out and says what follows: the
    /// next request, or the end of the work on this item.
    ///
    /// The order is: directory; cover, downloaded unless it is there;
    /// resizing, where it is switched on and the cover is above the limit;
    /// audio, with everything after it left out where the file is there
    /// already; the tags that the file has, or none where none can be read;
    /// the cover bytes where they are embedded; the lyrics where they are
    /// wanted; the tags.
    pub fn step(&mut self, client: &Client, item: &Item, audio_url: &str, response: Response) -> (turn:
        JobTurn)
        ensures
            (final(self)@, turn@) == job_step(client@, item@, audio_url@, old(self)@, response),
    {
        let profile = client.path_profile;
        match self.phase {
            Phase::CreatingDirectory => {
                match response {
                    Response::Done => {
                        let file = cover_of(profile, item);
                        self.ask(Phase::ProbingCover, Request::Probe { file })
                    },
                    Response::Failed => self.fail(JobError::CreateDirectory),
                    _ => self.fail(JobError::UnexpectedAnswer),
                }
            },
            Phase::ProbingCover => {
                match response {
                    Response::Flag(there) => {
                        if there {
                            self.after_cover(client, item)
                        } else {
                            let file = cover_of(profile, item);
                            let url = cover_url_of(item);
                            self.ask(Phase::FetchingCover, Request::Download { url, file })
                        }
                    },
                    Response::Failed => self.fail(JobError::CoverProbe),
                    _ => self.fail(JobError::UnexpectedAnswer),
                }
            },
            Phase::FetchingCover => {
                match response {
                    Response::Done => self.after_cover(client, item),
                    Response::Failed => self.fail(JobError::CoverDownload),
                    _ => self.fail(JobError::UnexpectedAnswer),
                }
            },
            Phase::SizingCover => {
                match response {
                    Response::Size(size) => {
                        if needs_resize(client.resize_cover, size, client.resize_cover_limit) {
                            let file = cover_of(profile, item);
                            self.ask(Phase::AskingPath, Request::PathText { file })
                        } else {
                            self.look_for_audio(client, item)
                        }
                    },
                    Response::Failed => self.fail(JobError::CoverSize),
                    _ => self.fail(JobError::UnexpectedAnswer),
                }
            },
            Phase::AskingPath => self.on_path(client, response),
            Phase::Resizing => {
                match response {
                    Response::Flag(well) => {
                        if well {
                            self.look_for_audio(client, item)
                        } else {
                            self.fail(JobError::ResizeFailed)
                        }
                    },
                    Response::Failed => self.fail(JobError::ResizeRun),
                    _ => self.fail(JobError::UnexpectedAnswer),
                }
            },
            Phase::ProbingAudio => {
                match response {
                    Response::Flag(there) => {
                        if there {
                            let file = audio_of(profile, item);
                            let mut notices: Vec<Notice> = Vec::new();
                            notices.push(Notice::AlreadyExists { file });
                            assert(notice_views(notices@) =~= seq![
                                NoticeView::AlreadyExists { file: audio_path(profile, item@) },
                            ]);
                            self.end(notices, Ok(Outcome::Skipped))
                        } else {
                            let file = audio_of(profile, item);
                            let url = String::from_str(audio_url);
                            self.ask(Phase::FetchingAudio, Request::Download { url, file })
                        }
                    },
                    _ => self.fail(JobError::UnexpectedAnswer),
                }
            },
            Phase::FetchingAudio => {
                match response {
                    Response::Done => self.after_audio(client, item),
                    Response::Failed => self.fail(JobError::AudioDownload),
                    _ => self.fail(JobError::UnexpectedAnswer),
                }
            },
            Phase::LoadingTags => {
                match response {
                    Response::Flag(read) => {
                        let start = if read {
                            TagStart::Loaded
                        } else {
                            TagStart::Empty
                        };
                        self.after_load(client, item, start)
                    },
                    Response::Failed => self.after_load(client, item, TagStart::Empty),
                    _ => self.fail(JobError::UnexpectedAnswer),
                }
            },
            Phase::ReadingCover => {
                match response {
                    Response::Bytes(bytes) => {
                        self.cover = Some(bytes);
                        self.after_cover_read(client, item)
                    },
                    Response::Failed => self.fail(JobError::CoverRead),
                    _ => self.fail(JobError::UnexpectedAnswer),
                }
            },
            Phase::FetchingLyrics => self.on_lyrics(client, item, response),
            Phase::WritingTags => {
                match response {
                    Response::Done => {
                        let notices: Vec<Notice> = Vec::new();
                        assert(notice_views(notices@) =~= Seq::empty());
                        self.end(notices, Ok(Outcome::Written))
                    },
                    Response::Failed => self.fail(JobError::TagWrite),
                    _ => self.fail(JobError::UnexpectedAnswer),
                }
            },
            Phase::Over => self.fail(JobError::UnexpectedAnswer),
        }
    }
}

} // verus!
