//! What passes between the download logic and the program that drives it.
//! The logic asks for one piece of outside work at a time with a
//! [`Request`]; the driver does it and hands back a [`Response`].

use std::time::Duration;
use vstd::prelude::*;
use vstd::string::*;

use crate::cover::CommandLine;
use crate::cover::CommandLineView;
use crate::models::ZvukDownload;
use crate::models::ZvukGQLBook;
use crate::models::ZvukGQLMediaContent;
use crate::models::ZvukLabel;
use crate::models::ZvukLyrics;
use crate::models::ZvukRelease;
use crate::models::ZvukTrack;
use crate::quality::Quality;
use crate::resolver::BatchError;
use crate::resolver::Endpoint;
use crate::tags::TagError;
use crate::tags::TagFormat;
use crate::tags::TagSet;
use crate::tags::TagStart;
use crate::tags::TagSetView;
use crate::text::views;

verus! {

/// A file in a directory under the output directory.
#[derive(Debug, PartialEq, Eq)]
pub struct FilePath {
    pub directory: String,
    pub name: String,
}

/// The mathematical value of a [`FilePath`].
pub struct FilePathView {
    pub directory: Seq<char>,
    pub name: Seq<char>,
}

impl View for FilePath {
    type V = FilePathView;

    open spec fn view(&self) -> FilePathView {
        FilePathView { directory: self.directory@, name: self.name@ }
    }
}

/// One piece of outside work.
#[derive(Debug, PartialEq, Eq)]
pub enum Request {
    /// Get the records of `endpoint` at `url` with `id_list` as the value of
    /// the query parameter `ids`. Answered by the endpoint's records.
    Batch { endpoint: Endpoint, url: String, id_list: String },
    /// Get the download link of one track at a tier. Answered by `Link`.
    Link { url: String, quality: String, id: String },
    /// Wait. Answered by `Done`.
    Pause { duration: Duration },
    /// Get the lyrics of one track. Answered by `Lyrics`.
    Lyrics { url: String, track_id: String },
    /// Post the GraphQL document of `endpoint` with the identifiers `ids`.
    /// Answered by `Books` or `Streams`.
    Graphql { endpoint: Endpoint, url: String, ids: Vec<String> },
    /// Make the directory and all that lead to it. Answered by `Done`.
    CreateDirectory { directory: String },
    /// Tell whether the file is there; not knowing is a failure. Answered by
    /// `Flag`.
    Probe { file: FilePath },
    /// Tell whether the file is there; not knowing counts as not there.
    /// Answered by `Flag`.
    Exists { file: FilePath },
    /// Get `url` and write the bytes to the file. Answered by `Done`.
    Download { url: String, file: FilePath },
    /// Tell the size of the file in bytes. Answered by `Size`.
    FileSize { file: FilePath },
    /// Give the whole path of the file as text. Answered by `Text`, with
    /// `None` where the path is no text.
    PathText { file: FilePath },
    /// Run the command and wait for it. Answered by `Flag`, which tells
    /// whether it ended well.
    Run { command: CommandLine },
    /// Read the file. Answered by `Bytes`.
    ReadFile { file: FilePath },
    /// Try to read the tags of the file from the container `format` and keep
    /// them at hand. Answered by `Flag`, which tells whether tags were read.
    LoadTags { file: FilePath, format: TagFormat },
    /// Set every field of `tags` on the tags that `start` names, the ones
    /// that were read or none, and write them to the file. Answered by
    /// `Done`.
    WriteTags { file: FilePath, start: TagStart, tags: TagSet },
}

/// The mathematical value of a [`Request`].
pub enum RequestView {
    Batch { endpoint: Endpoint, url: Seq<char>, id_list: Seq<char> },
    Link { url: Seq<char>, quality: Seq<char>, id: Seq<char> },
    Pause { duration: Duration },
    Lyrics { url: Seq<char>, track_id: Seq<char> },
    Graphql { endpoint: Endpoint, url: Seq<char>, ids: Seq<Seq<char>> },
    CreateDirectory { directory: Seq<char> },
    Probe { file: FilePathView },
    Exists { file: FilePathView },
    Download { url: Seq<char>, file: FilePathView },
    FileSize { file: FilePathView },
    PathText { file: FilePathView },
    Run { command: CommandLineView },
    ReadFile { file: FilePathView },
    LoadTags { file: FilePathView, format: TagFormat },
    WriteTags { file: FilePathView, start: TagStart, tags: TagSetView },
}

impl View for Request {
    type V = RequestView;

    open spec fn view(&self) -> RequestView {
        match self {
            Request::Batch { endpoint, url, id_list } => RequestView::Batch {
                endpoint: *endpoint,
                url: url@,
                id_list: id_list@,
            },
            Request::Link { url, quality, id } => RequestView::Link {
                url: url@,
                quality: quality@,
                id: id@,
            },
            Request::Pause { duration } => RequestView::Pause { duration: *duration },
            Request::Lyrics { url, track_id } => RequestView::Lyrics {
                url: url@,
                track_id: track_id@,
            },
            Request::Graphql { endpoint, url, ids } => RequestView::Graphql {
                endpoint: *endpoint,
                url: url@,
                ids: views(ids@),
            },
            Request::CreateDirectory { directory } => RequestView::CreateDirectory {
                directory: directory@,
            },
            Request::Probe { file } => RequestView::Probe { file: file@ },
            Request::Exists { file } => RequestView::Exists { file: file@ },
            Request::Download { url, file } => RequestView::Download { url: url@, file: file@ },
            Request::FileSize { file } => RequestView::FileSize { file: file@ },
            Request::PathText { file } => RequestView::PathText { file: file@ },
            Request::Run { command } => RequestView::Run { command: command@ },
            Request::ReadFile { file } => RequestView::ReadFile { file: file@ },
            Request::LoadTags { file, format } => RequestView::LoadTags {
                file: file@,
                format: *format,
            },
            Request::WriteTags { file, start, tags } => RequestView::WriteTags {
                file: file@,
                start: *start,
                tags: tags@,
            },
        }
    }
}

/// What came of a piece of outside work.
#[derive(Debug)]
pub enum Response {
    /// The work failed.
    Failed,
    /// The work is done and has nothing to tell.
    Done,
    Flag(bool),
    Size(u64),
    Text(Option<String>),
    Bytes(Vec<u8>),
    /// The releases of an answer, each under its key.
    Releases(Vec<(String, ZvukRelease)>),
    /// The labels of an answer, each under its key.
    Labels(Vec<(String, ZvukLabel)>),
    /// The tracks of an answer, each under its key.
    Tracks(Vec<(String, ZvukTrack)>),
    Link(ZvukDownload),
    Lyrics(ZvukLyrics),
    /// The books of an answer, if it holds any.
    Books(Option<Vec<ZvukGQLBook>>),
    /// The media contents of an answer, if it holds any.
    Streams(Option<Vec<ZvukGQLMediaContent>>),
}

/// Why the work on one track or chapter was given up. The other tracks and
/// chapters of the batch go on.
#[derive(Clone, Copy, Debug, PartialEq, Eq, Structural)]
pub enum JobError {
    /// The release that the track belongs to was not resolved.
    NoReleaseInfo,
    /// The directory could not be made.
    CreateDirectory,
    /// It could not be told whether the cover is there.
    CoverProbe,
    /// The cover could not be downloaded or written.
    CoverDownload,
    /// The size of the cover could not be told.
    CoverSize,
    /// The path of the cover is no text.
    CoverPath,
    /// The resize command holds no word.
    ResizeCommand,
    /// The resize command could not be run.
    ResizeRun,
    /// The resize command did not end well.
    ResizeFailed,
    /// The audio could not be downloaded or written.
    AudioDownload,
    /// The tags could not be put together.
    Tags(TagError),
    /// The cover could not be read for embedding.
    CoverRead,
    /// The lyrics could not be fetched.
    Lyrics,
    /// The tags could not be written.
    TagWrite,
    /// An answer does not fit the request that was made.
    UnexpectedAnswer,
}

/// Something for the operator to see. None of it changes what is done.
#[derive(Debug, PartialEq, Eq)]
pub enum Notice {
    /// A URL that is none of the catalog's was passed over.
    SkippedUrl { url: String },
    /// A track is fetched at the tier that was asked for.
    RequestedQuality { track_id: String, quality: Quality, has_flac: bool },
    /// A track is fetched at another tier than was asked for.
    FallbackQuality { track_id: String, quality: Quality, has_flac: bool },
    /// No download link could be had for a track.
    LinkFailed { track_id: String },
    /// The audio file is there already and is left alone.
    AlreadyExists { file: FilePath },
    /// The lyrics of a track are empty and are not embedded.
    EmptyLyrics { file: FilePath },
    /// The work on a track or chapter was given up.
    ItemFailed { id: String, error: JobError },
}

/// The mathematical value of a [`Notice`].
pub enum NoticeView {
    SkippedUrl { url: Seq<char> },
    RequestedQuality { track_id: Seq<char>, quality: Quality, has_flac: bool },
    FallbackQuality { track_id: Seq<char>, quality: Quality, has_flac: bool },
    LinkFailed { track_id: Seq<char> },
    AlreadyExists { file: FilePathView },
    EmptyLyrics { file: FilePathView },
    ItemFailed { id: Seq<char>, error: JobError },
}

impl View for Notice {
    type V = NoticeView;

    open spec fn view(&self) -> NoticeView {
        match self {
            Notice::SkippedUrl { url } => NoticeView::SkippedUrl { url: url@ },
            Notice::RequestedQuality { track_id, quality, has_flac } => {
                NoticeView::RequestedQuality {
                    track_id: track_id@,
                    quality: *quality,
                    has_flac: *has_flac,
                }
            },
            Notice::FallbackQuality { track_id, quality, has_flac } => NoticeView::FallbackQuality {
                track_id: track_id@,
                quality: *quality,
                has_flac: *has_flac,
            },
            Notice::LinkFailed { track_id } => NoticeView::LinkFailed { track_id: track_id@ },
            Notice::AlreadyExists { file } => NoticeView::AlreadyExists { file: file@ },
            Notice::EmptyLyrics { file } => NoticeView::EmptyLyrics { file: file@ },
            Notice::ItemFailed { id, error } => NoticeView::ItemFailed { id: id@, error: *error },
        }
    }
}

/// The views of `notices`, in order.
pub open spec fn notice_views(notices: Seq<Notice>) -> Seq<NoticeView> {
    notices.map_values(|n: Notice| n@)
}

/// What is to happen next.
#[derive(Debug, PartialEq, Eq)]
pub enum Next {
    /// The driver does this work and hands back what came of it.
    Ask(Request),
    /// The run is over: all batches were gone through, or one was given up.
    Finished(Result<(), BatchError>),
}

/// The mathematical value of a [`Next`].
pub enum NextView {
    Ask(RequestView),
    Finished(Result<(), BatchError>),
}

impl View for Next {
    type V = NextView;

    open spec fn view(&self) -> NextView {
        match self {
            Next::Ask(request) => NextView::Ask(request@),
            Next::Finished(result) => NextView::Finished(*result),
        }
    }
}

/// The outcome of one step: what to tell the operator, then what to do.
#[derive(Debug, PartialEq, Eq)]
pub struct Turn {
    pub notices: Vec<Notice>,
    pub next: Next,
}

/// The mathematical value of a [`Turn`].
pub struct TurnView {
    pub notices: Seq<NoticeView>,
    pub next: NextView,
}

impl View for Turn {
    type V = TurnView;

    open spec fn view(&self) -> TurnView {
        TurnView { notices: notice_views(self.notices@), next: self.next@ }
    }
}

} // verus!
