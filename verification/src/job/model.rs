//! What each step of the work on an item comes to, as a function of the
//! state and the answer.

use vstd::prelude::*;
use vstd::string::*;

use crate::client::ClientView;
use crate::cover::resize_due;
use crate::cover::resize_words;
use crate::cover::CommandLineView;
use crate::entities::lyrics_kind_of;
use crate::entities::LyricsView;
use crate::job::ItemView;
use crate::job::JobNextView;
use crate::job::JobTurnView;
use crate::job::JobView;
use crate::job::Outcome;
use crate::job::Phase;
use crate::paths::chapter_directory;
use crate::paths::chapter_file;
use crate::paths::cover_file;
use crate::paths::release_directory;
use crate::paths::track_file;
use crate::paths::PathProfile;
use crate::protocol::FilePathView;
use crate::protocol::JobError;
use crate::protocol::NoticeView;
use crate::protocol::RequestView;
use crate::protocol::Response;
use crate::tags::chapter_tags_of;
use crate::tags::format_of;
use crate::tags::TagFormat;
use crate::tags::TagStart;
use crate::tags::chrono_ymd;
use crate::tags::tag_date_of;
use crate::tags::write_tags_of;
use crate::tags::TagError;
use crate::tags::TagSetView;
use crate::text::words;

verus! {

/// The name of the directory of `item`.
pub open spec fn item_directory(profile: PathProfile, item: ItemView) -> Seq<char> {
    match item {
        ItemView::Track { track, release, quality } => release_directory(profile, release),
        ItemView::Chapter { chapter } => chapter_directory(profile, chapter),
    }
}

/// The cover file of `item`.
pub open spec fn cover_path(profile: PathProfile, item: ItemView) -> FilePathView {
    FilePathView { directory: item_directory(profile, item), name: cover_file() }
}

/// The audio file of `item`.
pub open spec fn audio_path(profile: PathProfile, item: ItemView) -> FilePathView {
    FilePathView {
        directory: item_directory(profile, item),
        name: match item {
            ItemView::Track { track, release, quality } => track_file(profile, track, quality),
            ItemView::Chapter { chapter } => chapter_file(profile, chapter),
        },
    }
}

/// The URL of the cover of `item`.
pub open spec fn cover_url(item: ItemView) -> Seq<char> {
    match item {
        ItemView::Track { track, release, quality } => track.image,
        ItemView::Chapter { chapter } => chapter.image,
    }
}

/// Whether lyrics are fetched for `item`: only for a track that has lyrics,
/// and only where lyrics are switched on.
pub open spec fn wants_lyrics(download_lyrics: bool, item: ItemView) -> bool {
    match item {
        ItemView::Track { track, release, quality } => download_lyrics && track.lyrics,
        ItemView::Chapter { chapter } => false,
    }
}

/// The tags of `item`, or why there are none.
pub open spec fn item_tags(item: ItemView, cover: Option<Seq<u8>>, lyrics: Option<LyricsView>)
    -> Result<TagSetView, TagError> {
    match item {
        ItemView::Track { track, release, quality } => write_tags_of(
            track,
            release,
            quality,
            tag_date_of(chrono_ymd(release.date)),
            cover,
            lyrics,
        ),
        ItemView::Chapter { chapter } => chapter_tags_of(chapter, cover),
    }
}

/// The container of the tags of `item`.
pub open spec fn item_format(item: ItemView) -> TagFormat {
    match item {
        ItemView::Track { track, release, quality } => format_of(quality),
        ItemView::Chapter { chapter } => TagFormat::Id3v2,
    }
}

/// The state at the end of the work.
pub open spec fn ended() -> JobView {
    JobView { phase: Phase::Over, cover: None, start: TagStart::Empty }
}

/// A step that ends the work with `error`.
pub open spec fn failed(error: JobError) -> (JobView, JobTurnView) {
    (ended(), JobTurnView { notices: Seq::empty(), next: JobNextView::Over(Err(error)) })
}

/// A step that goes to `phase` and asks `request`, before any tags were
/// looked for.
pub open spec fn asking(phase: Phase, request: RequestView) -> (JobView, JobTurnView) {
    asking_with(phase, None, TagStart::Empty, request)
}

/// A step that goes to `phase` and asks `request`, with the cover bytes and
/// the start of the tags that are at hand.
pub open spec fn asking_with(
    phase: Phase,
    cover: Option<Seq<u8>>,
    start: TagStart,
    request: RequestView,
) -> (JobView, JobTurnView) {
    (
        JobView { phase, cover, start },
        JobTurnView { notices: Seq::empty(), next: JobNextView::Ask(request) },
    )
}

/// The first request of the work on `item`: its directory.
pub open spec fn first_request(client: ClientView, item: ItemView) -> RequestView {
    RequestView::CreateDirectory { directory: item_directory(client.path_profile, item) }
}

/// What follows once the cover is in place: its size is asked where covers
/// are resized, else the audio file is looked for.
pub open spec fn after_cover(client: ClientView, item: ItemView) -> (JobView, JobTurnView) {
    if client.resize_cover {
        asking(
            Phase::SizingCover,
            RequestView::FileSize { file: cover_path(client.path_profile, item) },
        )
    } else {
        look_for_audio(client, item)
    }
}

/// The step that looks for the audio file.
pub open spec fn look_for_audio(client: ClientView, item: ItemView) -> (JobView, JobTurnView) {
    asking(
        Phase::ProbingAudio,
        RequestView::Exists { file: audio_path(client.path_profile, item) },
    )
}

/// What follows once the audio is written: the tags of the file are looked
/// for.
pub open spec fn after_audio(client: ClientView, item: ItemView) -> (JobView, JobTurnView) {
    asking(
        Phase::LoadingTags,
        RequestView::LoadTags {
            file: audio_path(client.path_profile, item),
            format: item_format(item),
        },
    )
}

/// What the fields are set on, going by the answer to the look for tags:
/// the tags that were read, or none where none were read. That none can be
/// read is no failure.
pub open spec fn start_of(read: bool) -> TagStart {
    if read {
        TagStart::Loaded
    } else {
        TagStart::Empty
    }
}

/// What follows once the tags were looked for: the tags to come are checked
/// for what cannot be written, then the cover is read where it is embedded.
pub open spec fn after_load(client: ClientView, item: ItemView, start: TagStart) -> (
    JobView,
    JobTurnView,
) {
    match item_tags(item, None, None) {
        Err(e) => failed(JobError::Tags(e)),
        Ok(_) => if client.embed_cover {
            asking_with(
                Phase::ReadingCover,
                None,
                start,
                RequestView::ReadFile { file: cover_path(client.path_profile, item) },
            )
        } else {
            after_cover_read(client, item, None, start)
        },
    }
}

/// What follows once the cover bytes are at hand or not needed: the lyrics
/// are fetched where they are wanted, else the tags are written.
pub open spec fn after_cover_read(
    client: ClientView,
    item: ItemView,
    cover: Option<Seq<u8>>,
    start: TagStart,
) -> (JobView, JobTurnView) {
    match item {
        ItemView::Track { track, release, quality } => if wants_lyrics(client.download_lyrics, item) {
            asking_with(
                Phase::FetchingLyrics,
                cover,
                start,
                RequestView::Lyrics { url: client.zvuk_lyrics_url, track_id: track.track_id },
            )
        } else {
            writing(client, item, cover, start, None, Seq::empty())
        },
        ItemView::Chapter { chapter } => writing(client, item, cover, start, None, Seq::empty()),
    }
}

/// The step that hands the tags to be written, after telling `notices`.
pub open spec fn writing(
    client: ClientView,
    item: ItemView,
    cover: Option<Seq<u8>>,
    start: TagStart,
    lyrics: Option<LyricsView>,
    notices: Seq<NoticeView>,
) -> (JobView, JobTurnView) {
    match item_tags(item, cover, lyrics) {
        Err(e) => (ended(), JobTurnView { notices, next: JobNextView::Over(Err(JobError::Tags(e))) }),
        Ok(tags) => (
            JobView { phase: Phase::WritingTags, cover: None, start },
            JobTurnView {
                notices,
                next: JobNextView::Ask(
                    RequestView::WriteTags {
                        file: audio_path(client.path_profile, item),
                        start,
                        tags,
                    },
                ),
            },
        ),
    }
}

/// What is told of lyrics that came: that they are empty, where they are.
pub open spec fn lyrics_notices(client: ClientView, item: ItemView, text: Seq<char>) -> Seq<NoticeView> {
    if text.len() == 0 {
        seq![NoticeView::EmptyLyrics { file: audio_path(client.path_profile, item) }]
    } else {
        Seq::empty()
    }
}

/// The step of the work on `item` from the state `job` on the answer
/// `response`.
pub open spec fn job_step(client: ClientView, item: ItemView, audio_url: Seq<char>, job: JobView, response:
    Response) -> (JobView, JobTurnView) {
    let profile = client.path_profile;
    match job.phase {
        Phase::CreatingDirectory => match response {
            Response::Done => asking(
                Phase::ProbingCover,
                RequestView::Probe { file: cover_path(profile, item) },
            ),
            Response::Failed => failed(JobError::CreateDirectory),
            _ => failed(JobError::UnexpectedAnswer),
        },
        Phase::ProbingCover => match response {
            Response::Flag(there) => if there {
                after_cover(client, item)
            } else {
                asking(
                    Phase::FetchingCover,
                    RequestView::Download { url: cover_url(item), file: cover_path(profile, item) },
                )
            },
            Response::Failed => failed(JobError::CoverProbe),
            _ => failed(JobError::UnexpectedAnswer),
        },
        Phase::FetchingCover => match response {
            Response::Done => after_cover(client, item),
            Response::Failed => failed(JobError::CoverDownload),
            _ => failed(JobError::UnexpectedAnswer),
        },
        Phase::SizingCover => match response {
            Response::Size(size) => if resize_due(
                client.resize_cover,
                size,
                client.resize_cover_limit,
            ) {
                asking(
                    Phase::AskingPath,
                    RequestView::PathText { file: cover_path(profile, item) },
                )
            } else {
                look_for_audio(client, item)
            },
            Response::Failed => failed(JobError::CoverSize),
            _ => failed(JobError::UnexpectedAnswer),
        },
        Phase::AskingPath => match response {
            Response::Text(Some(path)) => if words(client.resize_command).len() > 0 {
                asking(
                    Phase::Resizing,
                    RequestView::Run {
                        command: CommandLineView {
                            program: resize_words(client.resize_command, path@)[0],
                            arguments: resize_words(client.resize_command, path@).skip(1),
                        },
                    },
                )
            } else {
                failed(JobError::ResizeCommand)
            },
            Response::Text(None) => failed(JobError::CoverPath),
            Response::Failed => failed(JobError::CoverPath),
            _ => failed(JobError::UnexpectedAnswer),
        },
        Phase::Resizing => match response {
            Response::Flag(well) => if well {
                look_for_audio(client, item)
            } else {
                failed(JobError::ResizeFailed)
            },
            Response::Failed => failed(JobError::ResizeRun),
            _ => failed(JobError::UnexpectedAnswer),
        },
        Phase::ProbingAudio => match response {
            Response::Flag(there) => if there {
                (
                    ended(),
                    JobTurnView {
                        notices: seq![
                            NoticeView::AlreadyExists { file: audio_path(profile, item) },
                        ],
                        next: JobNextView::Over(Ok(Outcome::Skipped)),
                    },
                )
            } else {
                asking(
                    Phase::FetchingAudio,
                    RequestView::Download { url: audio_url, file: audio_path(profile, item) },
                )
            },
            _ => failed(JobError::UnexpectedAnswer),
        },
        Phase::FetchingAudio => match response {
            Response::Done => after_audio(client, item),
            Response::Failed => failed(JobError::AudioDownload),
            _ => failed(JobError::UnexpectedAnswer),
        },
        Phase::LoadingTags => match response {
            Response::Flag(read) => after_load(client, item, start_of(read)),
            Response::Failed => after_load(client, item, TagStart::Empty),
            _ => failed(JobError::UnexpectedAnswer),
        },
        Phase::ReadingCover => match response {
            Response::Bytes(bytes) => after_cover_read(client, item, Some(bytes@), job.start),
            Response::Failed => failed(JobError::CoverRead),
            _ => failed(JobError::UnexpectedAnswer),
        },
        Phase::FetchingLyrics => match response {
            Response::Lyrics(answer) => writing(
                client,
                item,
                job.cover,
                job.start,
                Some(LyricsView { kind: lyrics_kind_of(answer.type_@), text: answer.lyrics@ }),
                lyrics_notices(client, item, answer.lyrics@),
            ),
            Response::Failed => failed(JobError::Lyrics),
            _ => failed(JobError::UnexpectedAnswer),
        },
        Phase::WritingTags => match response {
            Response::Done => (
                ended(),
                JobTurnView { notices: Seq::empty(), next: JobNextView::Over(Ok(Outcome::Written)) },
            ),
            Response::Failed => failed(JobError::TagWrite),
            _ => failed(JobError::UnexpectedAnswer),
        },
        Phase::Over => failed(JobError::UnexpectedAnswer),
    }
}

/// What a run of the work on `item` asks and how it ends, from the state
/// `job` on, when the requests are answered by `answers` in turn: the
/// requests that follow the one that is out, and the outcome if the answers
/// reach it.
pub open spec fn job_trace(
    client: ClientView,
    item: ItemView,
    audio_url: Seq<char>,
    job: JobView,
    answers: Seq<Response>,
) -> (Seq<RequestView>, Option<Result<Outcome, JobError>>)
    decreases answers.len(),
{
    if answers.len() == 0 {
        (Seq::empty(), None)
    } else {
        let (after, turn) = job_step(client, item, audio_url, job, answers[0]);
        match turn.next {
            JobNextView::Over(result) => (Seq::empty(), Some(result)),
            JobNextView::Ask(request) => {
                let (requests, outcome) = job_trace(
                    client,
                    item,
                    audio_url,
                    after,
                    answers.skip(1),
                );
                (seq![request] + requests, outcome)
            },
        }
    }
}

/// Whether `request` goes to the network.
pub open spec fn on_network(request: RequestView) -> bool {
    request is Download || request is Lyrics || request is Link || request is Batch
        || request is Graphql
}

} // verus!
