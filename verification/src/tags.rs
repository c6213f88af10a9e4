//! The tag writer: which fields a downloaded file gets, and with which
//! values, for each of the two tag formats.

use chrono::Datelike;
use chrono::NaiveDate;
use vstd::prelude::*;
use vstd::string::*;

use crate::entities::BookChapter;
use crate::entities::ChapterView;
use crate::entities::Lyrics;
use crate::entities::LyricsView;
use crate::entities::ReleaseInfo;
use crate::entities::ReleaseView;
use crate::entities::TrackInfo;
use crate::entities::TrackView;
use crate::quality::Quality;

verus! {

/// The container that holds the tags of a file.
#[derive(Clone, Copy, Debug, PartialEq, Eq, Structural)]
pub enum TagFormat {
    /// Vorbis comments in a FLAC metadata block.
    Flac,
    /// ID3v2 frames.
    Id3v2,
}

/// The container that goes with a quality tier.
pub open spec fn format_of(quality: Quality) -> TagFormat {
    match quality {
        Quality::Flac => TagFormat::Flac,
        Quality::MP3High | Quality::MP3Mid => TagFormat::Id3v2,
    }
}

/// Picks the container for a file of the tier `quality`.
pub fn tag_format(quality: Quality) -> (format: TagFormat)
    ensures
        format == format_of(quality),
{
    match quality {
        Quality::Flac => TagFormat::Flac,
        Quality::MP3High | Quality::MP3Mid => TagFormat::Id3v2,
    }
}

/// What the fields of a tag set are set on.
#[derive(Clone, Copy, Debug, PartialEq, Eq, Structural)]
pub enum TagStart {
    /// The tags that were read from the file.
    Loaded,
    /// No tags: none could be read from the file, which is no error.
    Empty,
}

/// A date of recording as a tag holds it.
#[derive(Clone, Copy, Debug, PartialEq, Eq, Structural)]
pub struct TagDate {
    pub year: i32,
    pub month: Option<u8>,
    pub day: Option<u8>,
}

/// Year, month and day of the date that `chrono` reads from `date` under the
/// format `%Y%m%d`, or `None` where it reads none.
pub uninterp spec fn chrono_ymd(date: Seq<char>) -> Option<(i32, u32, u32)>;

/// Calls `chrono::NaiveDate::parse_from_str` with the format `%Y%m%d` and
/// hands out year, month and day of the date it gives. The contract names
/// that result and adds what `chrono::Datelike` documents of every date: the
/// month is between 1 and 12, the day between 1 and 31.
#[verifier::external_body]
fn parse_date(date: &str) -> (parsed: Option<(i32, u32, u32)>)
    ensures
        parsed == chrono_ymd(date@),
        parsed matches Some((_, month, day)) ==> 1 <= month <= 12 && 1 <= day <= 31,
{
    match NaiveDate::parse_from_str(date, "%Y%m%d") {
        Ok(day) => Some((day.year(), day.month(), day.day())),
        Err(_) => None,
    }
}

/// The part of a date that fits a tag's month or day field.
pub open spec fn small(part: u32) -> Option<u8> {
    if part <= u8::MAX {
        Some(part as u8)
    } else {
        None
    }
}

/// The tag date for what was read from a release date: none where no date
/// was read.
pub open spec fn tag_date_of(parsed: Option<(i32, u32, u32)>) -> Option<TagDate> {
    match parsed {
        Some((year, month, day)) => Some(TagDate { year, month: small(month), day: small(day) }),
        None => None,
    }
}

/// Turns year, month and day into a tag date. A month or day that does not
/// fit its field is left out; where no date was read there is no tag date.
pub fn tag_date(parsed: Option<(i32, u32, u32)>) -> (date: Option<TagDate>)
    ensures
        date == tag_date_of(parsed),
{
    match parsed {
        Some((year, month, day)) => {
            let month = if month <= 255 {
                Some(month as u8)
            } else {
                None
            };
            let day = if day <= 255 {
                Some(day as u8)
            } else {
                None
            };
            Some(TagDate { year, month, day })
        },
        None => None,
    }
}

/// Reads a release date of the form `YYYYMMDD`. A date that cannot be read
/// gives no tag date and is no error. A date that is read has its month and
/// its day.
pub fn release_date(date: &str) -> (r: Option<TagDate>)
    ensures
        r == tag_date_of(chrono_ymd(date@)),
        r matches Some(d) ==> d.month is Some && d.day is Some,
{
    tag_date(parse_date(date))
}

/// A picture as a tag holds it.
#[derive(Debug, PartialEq, Eq)]
pub struct CoverArt {
    /// The media type of the picture.
    pub mime_type: String,
    pub data: Vec<u8>,
}

/// The mathematical value of a [`CoverArt`].
pub struct CoverArtView {
    pub mime_type: Seq<char>,
    pub data: Seq<u8>,
}

impl View for CoverArt {
    type V = CoverArtView;

    open spec fn view(&self) -> CoverArtView {
        CoverArtView { mime_type: self.mime_type@, data: self.data@ }
    }
}

/// A frame of unsynchronised lyrics as an ID3v2 tag holds it.
#[derive(Debug, PartialEq, Eq)]
pub struct LyricsFrame {
    pub lang: String,
    pub description: String,
    pub text: String,
}

/// The mathematical value of a [`LyricsFrame`].
pub struct LyricsFrameView {
    pub lang: Seq<char>,
    pub description: Seq<char>,
    pub text: Seq<char>,
}

impl View for LyricsFrame {
    type V = LyricsFrameView;

    open spec fn view(&self) -> LyricsFrameView {
        LyricsFrameView { lang: self.lang@, description: self.description@, text: self.text@ }
    }
}

/// The fields that only one of the containers has.
#[derive(Debug, PartialEq, Eq)]
pub enum ExtraTags {
    /// Nothing beyond the common fields.
    Plain,
    /// Vorbis comments: each key with the one value it is set to, in the
    /// order in which they are set.
    Vorbis { comments: Vec<(String, String)> },
    /// ID3v2 frames: each text frame by its identifier with the text it is
    /// set to, and the frame of unsynchronised lyrics that is added.
    Id3 { text_frames: Vec<(String, String)>, lyrics: Option<LyricsFrame> },
}

/// The mathematical value of an [`ExtraTags`].
pub enum ExtraTagsView {
    Plain,
    Vorbis { comments: Seq<(Seq<char>, Seq<char>)> },
    Id3 { text_frames: Seq<(Seq<char>, Seq<char>)>, lyrics: Option<LyricsFrameView> },
}

/// The pairs of `pairs` with each text taken by its view.
pub open spec fn pair_views(pairs: Seq<(String, String)>) -> Seq<(Seq<char>, Seq<char>)> {
    pairs.map_values(|pair: (String, String)| (pair.0@, pair.1@))
}

/// The view of a text that may be missing.
pub open spec fn text_view(text: Option<String>) -> Option<Seq<char>> {
    match text {
        Some(t) => Some(t@),
        None => None,
    }
}

/// The view of bytes that may be missing.
pub open spec fn bytes_view(bytes: Option<Vec<u8>>) -> Option<Seq<u8>> {
    match bytes {
        Some(b) => Some(b@),
        None => None,
    }
}

/// The view of a picture that may be missing.
pub open spec fn cover_view(cover: Option<CoverArt>) -> Option<CoverArtView> {
    match cover {
        Some(c) => Some(c@),
        None => None,
    }
}

/// The view of a lyrics frame that may be missing.
pub open spec fn frame_view(frame: Option<LyricsFrame>) -> Option<LyricsFrameView> {
    match frame {
        Some(f) => Some(f@),
        None => None,
    }
}

impl View for ExtraTags {
    type V = ExtraTagsView;

    open spec fn view(&self) -> ExtraTagsView {
        match self {
            ExtraTags::Plain => ExtraTagsView::Plain,
            ExtraTags::Vorbis { comments } => ExtraTagsView::Vorbis {
                comments: pair_views(comments@),
            },
            ExtraTags::Id3 { text_frames, lyrics } => ExtraTagsView::Id3 {
                text_frames: pair_views(text_frames@),
                lyrics: frame_view(*lyrics),
            },
        }
    }
}

/// Everything that is written into the tags of one file. A field that is
/// `None` is left as the file has it.
#[derive(Debug, PartialEq, Eq)]
pub struct TagSet {
    pub format: TagFormat,
    pub artist: String,
    pub title: String,
    pub album_title: String,
    pub track_number: u16,
    pub total_tracks: Option<u16>,
    pub genre: Option<String>,
    /// The date of recording.
    pub date: Option<TagDate>,
    /// The year, which is the year of the date.
    pub year: Option<i32>,
    /// The front cover.
    pub cover: Option<CoverArt>,
    pub extra: ExtraTags,
}

/// The mathematical value of a [`TagSet`].
pub struct TagSetView {
    pub format: TagFormat,
    pub artist: Seq<char>,
    pub title: Seq<char>,
    pub album_title: Seq<char>,
    pub track_number: nat,
    pub total_tracks: Option<u16>,
    pub genre: Option<Seq<char>>,
    pub date: Option<TagDate>,
    pub year: Option<i32>,
    pub cover: Option<CoverArtView>,
    pub extra: ExtraTagsView,
}

impl View for TagSet {
    type V = TagSetView;

    open spec fn view(&self) -> TagSetView {
        TagSetView {
            format: self.format,
            artist: self.artist@,
            title: self.title@,
            album_title: self.album_title@,
            track_number: self.track_number as nat,
            total_tracks: self.total_tracks,
            genre: text_view(self.genre),
            date: self.date,
            year: self.year,
            cover: cover_view(self.cover),
            extra: self.extra@,
        }
    }
}

/// Why the tags of a file could not be put together.
#[derive(Clone, Copy, Debug, PartialEq, Eq, Structural)]
pub enum TagError {
    /// The position does not fit a tag's track number.
    TrackNumberTooLarge,
    /// The release's track count does not fit a tag's total.
    TrackCountTooLarge,
}

/// The text of lyrics that are embedded: none where there are no lyrics or
/// their text is empty.
pub open spec fn embedded_lyrics(lyrics: Option<LyricsView>) -> Option<Seq<char>> {
    match lyrics {
        Some(l) => if l.text.len() == 0 {
            None
        } else {
            Some(l.text)
        },
        None => None,
    }
}

/// The view of lyrics that may be missing.
pub open spec fn lyrics_view(lyrics: Option<&Lyrics>) -> Option<LyricsView> {
    match lyrics {
        Some(l) => Some(l@),
        None => None,
    }
}

/// The media type under which a cover is embedded.
pub open spec fn cover_mime_type() -> Seq<char> {
    "image/jpeg"@
}

/// The cover as it is embedded: the bytes as a JPEG picture.
pub open spec fn cover_art_of(cover: Option<Seq<u8>>) -> Option<CoverArtView> {
    match cover {
        Some(data) => Some(CoverArtView { mime_type: cover_mime_type(), data }),
        None => None,
    }
}

/// The year that goes with a date.
pub open spec fn year_of(date: Option<TagDate>) -> Option<i32> {
    match date {
        Some(d) => Some(d.year),
        None => None,
    }
}

/// The Vorbis comments beyond the common fields: the label as `COPYRIGHT`,
/// the identifiers of release and track, and the lyrics where there are
/// some.
pub open spec fn vorbis_comments_of(
    track: TrackView,
    release: ReleaseView,
    lyrics: Option<LyricsView>,
) -> Seq<(Seq<char>, Seq<char>)> {
    let fixed = seq![
        ("COPYRIGHT"@, release.label),
        ("RELEASE_ID"@, track.release_id),
        ("TRACK_ID"@, track.track_id),
    ];
    match embedded_lyrics(lyrics) {
        Some(text) => fixed.push(("LYRICS"@, text)),
        None => fixed,
    }
}

/// The frame of unsynchronised lyrics: language and description are empty.
pub open spec fn lyrics_frame_of(lyrics: Option<LyricsView>) -> Option<LyricsFrameView> {
    match embedded_lyrics(lyrics) {
        Some(text) => Some(
            LyricsFrameView { lang: Seq::empty(), description: Seq::empty(), text },
        ),
        None => None,
    }
}

/// The fields that only the container of `quality` has, for a track.
pub open spec fn extra_tags_of(
    track: TrackView,
    release: ReleaseView,
    quality: Quality,
    lyrics: Option<LyricsView>,
) -> ExtraTagsView {
    match format_of(quality) {
        TagFormat::Flac => ExtraTagsView::Vorbis {
            comments: vorbis_comments_of(track, release, lyrics),
        },
        TagFormat::Id3v2 => ExtraTagsView::Id3 {
            text_frames: seq![("TCOP"@, release.label)],
            lyrics: lyrics_frame_of(lyrics),
        },
    }
}

/// The tags of a track's file.
pub open spec fn track_tags_of(
    track: TrackView,
    release: ReleaseView,
    quality: Quality,
    date: Option<TagDate>,
    cover: Option<Seq<u8>>,
    lyrics: Option<LyricsView>,
) -> TagSetView {
    TagSetView {
        format: format_of(quality),
        artist: track.author,
        title: track.name,
        album_title: release.album,
        track_number: track.number,
        total_tracks: Some(release.track_count as u16),
        genre: Some(track.genre),
        date,
        year: year_of(date),
        cover: cover_art_of(cover),
        extra: extra_tags_of(track, release, quality, lyrics),
    }
}

/// What `write_tags` gives: the tags, or the reason why there are none. The
/// track number is looked at before the track count.
pub open spec fn write_tags_of(
    track: TrackView,
    release: ReleaseView,
    quality: Quality,
    date: Option<TagDate>,
    cover: Option<Seq<u8>>,
    lyrics: Option<LyricsView>,
) -> Result<TagSetView, TagError> {
    if track.number > u16::MAX {
        Err(TagError::TrackNumberTooLarge)
    } else if release.track_count > u16::MAX {
        Err(TagError::TrackCountTooLarge)
    } else {
        Ok(track_tags_of(track, release, quality, date, cover, lyrics))
    }
}

/// The view of a result of `write_tags`.
pub open spec fn tags_view(r: Result<TagSet, TagError>) -> Result<TagSetView, TagError> {
    match r {
        Ok(tags) => Ok(tags@),
        Err(e) => Err(e),
    }
}

fn lyrics_text(lyrics: Option<&Lyrics>) -> (text: Option<String>)
    ensures
        text_view(text) == embedded_lyrics(lyrics_view(lyrics)),
{
    match lyrics {
        Some(l) => {
            if l.text.as_str().unicode_len() == 0 {
                None
            } else {
                Some(l.text.clone())
            }
        },
        None => None,
    }
}

fn cover_art(cover: Option<Vec<u8>>) -> (art: Option<CoverArt>)
    ensures
        cover_view(art) == cover_art_of(bytes_view(cover)),
{
    match cover {
        Some(data) => Some(CoverArt { mime_type: String::from_str("image/jpeg"), data }),
        None => None,
    }
}

fn vorbis_comments(track: &TrackInfo, release: &ReleaseInfo, lyrics: Option<&Lyrics>) -> (comments:
    Vec<(String, String)>)
    ensures
        pair_views(comments@) == vorbis_comments_of(track@, release@, lyrics_view(lyrics)),
{
    let mut comments: Vec<(String, String)> = Vec::new();
    comments.push((String::from_str("COPYRIGHT"), release.label.clone()));
    comments.push((String::from_str("RELEASE_ID"), track.release_id.clone()));
    comments.push((String::from_str("TRACK_ID"), track.track_id.clone()));
    assert(pair_views(comments@) =~= seq![
        ("COPYRIGHT"@, release@.label),
        ("RELEASE_ID"@, track@.release_id),
        ("TRACK_ID"@, track@.track_id),
    ]);
    match lyrics_text(lyrics) {
        Some(text) => {
            let ghost before = pair_views(comments@);
            comments.push((String::from_str("LYRICS"), text));
            assert(pair_views(comments@) =~= before.push(("LYRICS"@, text@)));
        },
        None => {},
    }
    comments
}

fn lyrics_frame(lyrics: Option<&Lyrics>) -> (frame: Option<LyricsFrame>)
    ensures
        frame_view(frame) == lyrics_frame_of(lyrics_view(lyrics)),
{
    match lyrics_text(lyrics) {
        Some(text) => Some(LyricsFrame { lang: String::new(), description: String::new(), text }),
        None => None,
    }
}

/// Puts together the tags of a track's file, given the date that was read
/// from the release, the cover bytes where the cover is embedded, and the
/// lyrics where they were fetched.
///
/// Artist, title and genre come from the track; album title, track count
/// and label from the release. The year is that of the date. The cover is
/// embedded as a JPEG picture. A lossless file gets the Vorbis comments
/// `COPYRIGHT` with the label, `RELEASE_ID`, `TRACK_ID`, and `LYRICS`; an MP3
/// file gets the ID3v2 text frame `TCOP` with the label and the lyrics as
/// unsynchronised lyrics with empty language and description. Empty lyrics
/// are never embedded. Fails where the track number or the track count is
/// above 65535.
pub fn write_tags_with(
    track: &TrackInfo,
    release: &ReleaseInfo,
    quality: Quality,
    date: Option<TagDate>,
    cover: Option<Vec<u8>>,
    lyrics: Option<&Lyrics>,
) -> (r: Result<TagSet, TagError>)
    ensures
        tags_view(r) == write_tags_of(
            track@,
            release@,
            quality,
            date,
            bytes_view(cover),
            lyrics_view(lyrics),
        ),
{
    if track.number > 65535 {
        return Err(TagError::TrackNumberTooLarge);
    }
    if release.track_count > 65535 {
        return Err(TagError::TrackCountTooLarge);
    }
    let extra = match tag_format(quality) {
        TagFormat::Flac => ExtraTags::Vorbis { comments: vorbis_comments(track, release, lyrics) },
        TagFormat::Id3v2 => {
            let mut text_frames: Vec<(String, String)> = Vec::new();
            text_frames.push((String::from_str("TCOP"), release.label.clone()));
            assert(pair_views(text_frames@) =~= seq![("TCOP"@, release@.label)]);
            ExtraTags::Id3 { text_frames, lyrics: lyrics_frame(lyrics) }
        },
    };
    let year = match date {
        Some(d) => Some(d.year),
        None => None,
    };
    Ok(
        TagSet {
            format: tag_format(quality),
            artist: track.author.clone(),
            title: track.name.clone(),
            album_title: release.album.clone(),
            track_number: track.number as u16,
            total_tracks: Some(release.track_count as u16),
            genre: Some(track.genre.clone()),
            date,
            year,
            cover: cover_art(cover),
            extra,
        },
    )
}

/// Puts together the tags of a track's file as `write_tags_with` does, with
/// the date read from the release's date: a date that `chrono` does not read
/// as `YYYYMMDD` leaves date and year out and is no error.
pub fn write_tags(
    track: &TrackInfo,
    release: &ReleaseInfo,
    quality: Quality,
    cover: Option<Vec<u8>>,
    lyrics: Option<&Lyrics>,
) -> (r: Result<TagSet, TagError>)
    ensures
        tags_view(r) == write_tags_of(
            track@,
            release@,
            quality,
            tag_date_of(chrono_ymd(release@.date)),
            bytes_view(cover),
            lyrics_view(lyrics),
        ),
{
    let date = release_date(release.date.as_str());
    write_tags_with(track, release, quality, date, cover, lyrics)
}

/// The tags of a chapter's file: the reduced set, always in ID3v2.
pub open spec fn chapter_tags_of(chapter: ChapterView, cover: Option<Seq<u8>>) -> Result<
    TagSetView,
    TagError,
> {
    if chapter.number > u16::MAX {
        Err(TagError::TrackNumberTooLarge)
    } else {
        Ok(
            TagSetView {
                format: TagFormat::Id3v2,
                artist: chapter.author,
                title: chapter.title,
                album_title: chapter.book_title,
                track_number: chapter.number,
                total_tracks: None,
                genre: None,
                date: None,
                year: None,
                cover: cover_art_of(cover),
                extra: ExtraTagsView::Plain,
            },
        )
    }
}

/// Puts together the tags of an audiobook chapter: authors as artist,
/// chapter title, book title as album, position, and the cover where it is
/// embedded; no date, no genre, no lyrics. Fails where the position is above
/// 65535.
pub fn chapter_tags(chapter: &BookChapter, cover: Option<Vec<u8>>) -> (r: Result<TagSet, TagError>)
    ensures
        tags_view(r) == chapter_tags_of(chapter@, bytes_view(cover)),
{
    if chapter.number > 65535 {
        return Err(TagError::TrackNumberTooLarge);
    }
    Ok(
        TagSet {
            format: TagFormat::Id3v2,
            artist: chapter.author.clone(),
            title: chapter.title.clone(),
            album_title: chapter.book_title.clone(),
            track_number: chapter.number as u16,
            total_tracks: None,
            genre: None,
            date: None,
            year: None,
            cover: cover_art(cover),
            extra: ExtraTags::Plain,
        },
    )
}

/// Whatever the track, the tags of a lossless file carry the identifiers of
/// its release and of the track itself, and the label as copyright.
pub proof fn lemma_vorbis_cross_references(
    track: TrackView,
    release: ReleaseView,
    lyrics: Option<LyricsView>,
)
    ensures
        vorbis_comments_of(track, release, lyrics)[0] == ("COPYRIGHT"@, release.label),
        vorbis_comments_of(track, release, lyrics)[1] == ("RELEASE_ID"@, track.release_id),
        vorbis_comments_of(track, release, lyrics)[2] == ("TRACK_ID"@, track.track_id),
        vorbis_comments_of(track, release, lyrics).len() == 4 <==> embedded_lyrics(lyrics) is Some,
        vorbis_comments_of(track, release, lyrics).len() == 3 <==> embedded_lyrics(lyrics) is None,
{
}

/// The container of the tags is the one of the tier, and the fields beyond
/// the common ones are those of that container: an MP3 file never gets
/// Vorbis comments and a lossless file never gets ID3v2 frames.
pub proof fn lemma_extra_tags_fit_the_container(
    track: TrackView,
    release: ReleaseView,
    quality: Quality,
    date: Option<TagDate>,
    cover: Option<Seq<u8>>,
    lyrics: Option<LyricsView>,
)
    ensures
        track_tags_of(track, release, quality, date, cover, lyrics).format == TagFormat::Flac
            <==> quality == Quality::Flac,
        track_tags_of(track, release, quality, date, cover, lyrics).extra is Vorbis <==> quality
            == Quality::Flac,
        track_tags_of(track, release, quality, date, cover, lyrics).extra is Id3 <==> quality
            != Quality::Flac,
{
}

} // verus!
