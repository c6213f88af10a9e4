//! The shapes in which the catalog answers, reduced to the fields that are
//! read. They are filled in from the decoded response bodies and turned into
//! entities at once.

use vstd::prelude::*;

verus! {

/// The answer of the stream endpoint for one track.
#[derive(Debug)]
pub struct ZvukDownload {
    /// The short-lived URL of the audio stream.
    pub stream: String,
}

/// The envelope of the stream endpoint.
#[derive(Debug)]
pub struct ZvukDownloadResponse {
    pub result: ZvukDownload,
}

/// The answer of the lyrics endpoint.
#[derive(Debug)]
pub struct ZvukLyrics {
    /// The text; it may be empty.
    pub lyrics: String,
    /// The upstream `type` field.
    pub type_: String,
}

/// The envelope of the lyrics endpoint.
#[derive(Debug)]
pub struct ZvukLyricsResponse {
    pub result: ZvukLyrics,
}

/// An image reference of the REST endpoints.
#[derive(Debug)]
pub struct ZvukImage {
    pub src: String,
}

/// One release as the releases endpoint gives it.
#[derive(Debug)]
pub struct ZvukRelease {
    pub credits: String,
    pub date: i64,
    pub label_id: i64,
    pub title: String,
    pub track_ids: Vec<i64>,
}

/// One track as the tracks endpoint gives it.
#[derive(Debug)]
pub struct ZvukTrack {
    pub credits: String,
    pub genres: Vec<String>,
    pub has_flac: bool,
    pub id: i64,
    pub image: ZvukImage,
    pub lyrics: Option<bool>,
    pub position: i64,
    pub release_id: i64,
    pub release_title: String,
    pub title: String,
}

/// One record label as the labels endpoint gives it.
#[derive(Debug)]
pub struct ZvukLabel {
    pub title: String,
}

/// The keyed records of a REST answer, each with the key it came under.
#[derive(Debug)]
pub struct ZvukResult {
    pub releases: Vec<(String, ZvukRelease)>,
    pub tracks: Vec<(String, ZvukTrack)>,
}

/// The envelope of the releases and tracks endpoints.
#[derive(Debug)]
pub struct ZvukResponse {
    pub result: ZvukResult,
}

/// An image reference of the GraphQL endpoint.
#[derive(Debug)]
pub struct ZvukGQLImage {
    pub src: String,
}

/// The book that a chapter belongs to.
#[derive(Debug)]
pub struct ZvukBook {
    pub title: String,
}

/// One author of a book.
#[derive(Debug)]
pub struct ZvukBookAuthor {
    pub rname: String,
}

/// One audiobook chapter as `getBookChapters` gives it.
#[derive(Debug)]
pub struct ZvukGQLChapter {
    pub id: String,
    pub title: String,
    pub image: ZvukGQLImage,
    pub book: ZvukBook,
    pub book_authors: Vec<ZvukBookAuthor>,
    pub position: i64,
}

/// One audiobook as `getBookChapters` gives it.
#[derive(Debug)]
pub struct ZvukGQLBook {
    pub title: String,
    pub chapters: Vec<ZvukGQLChapter>,
}

/// The stream of one media item as `getStream` gives it.
#[derive(Debug)]
pub struct ZvukGQLStream {
    pub mid: String,
}

/// One media item as `getStream` gives it.
#[derive(Debug)]
pub struct ZvukGQLMediaContent {
    pub stream: ZvukGQLStream,
}

/// The `data` member of a GraphQL answer.
#[derive(Debug)]
pub struct ZvukGQLData {
    pub get_books: Option<Vec<ZvukGQLBook>>,
    pub media_contents: Option<Vec<ZvukGQLMediaContent>>,
}

/// The envelope of the GraphQL endpoint.
#[derive(Debug)]
pub struct ZvukGQLResponse {
    pub data: ZvukGQLData,
}

} // verus!
