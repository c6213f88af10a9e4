//! The catalog's entities, whichever endpoint they came from, and their
//! conversion from the wire model.

use vstd::prelude::*;
use vstd::string::*;

use crate::models::ZvukBookAuthor;
use crate::models::ZvukGQLChapter;
use crate::models::ZvukLyrics;
use crate::models::ZvukRelease;
use crate::models::ZvukTrack;
use crate::text::decimal;
use crate::text::decimal_string;
use crate::text::join;
use crate::text::join_strings;
use crate::text::replace_all;
use crate::text::replace_text;
use crate::text::views;

verus! {

/// Why a wire record could not become an entity.
#[derive(Clone, Copy, Debug, PartialEq, Eq, Structural)]
pub enum ConversionError {
    /// A release lists more tracks than the track counter can hold.
    TrackCountOverflow,
    /// A position is negative or above what the position counter can hold.
    PositionOutOfRange,
}

/// What a lyrics payload holds.
#[derive(Clone, Copy, Debug, PartialEq, Eq, Structural)]
pub enum LyricsKind {
    /// Time-coded subtitles.
    Subtitle,
    /// Plain lyrics.
    Lyrics,
}

/// The lyrics of one track.
#[derive(Debug, PartialEq, Eq)]
pub struct Lyrics {
    pub kind: LyricsKind,
    /// The text; empty text is never embedded.
    pub text: String,
}

/// The mathematical value of a [`Lyrics`].
pub struct LyricsView {
    pub kind: LyricsKind,
    pub text: Seq<char>,
}

impl View for Lyrics {
    type V = LyricsView;

    open spec fn view(&self) -> LyricsView {
        LyricsView { kind: self.kind, text: self.text@ }
    }
}

/// A release: an album-like collection of tracks.
#[derive(Debug, PartialEq, Eq)]
pub struct ReleaseInfo {
    /// The identifiers of the release's tracks.
    pub track_ids: Vec<String>,
    /// The number of tracks, derived from `track_ids`.
    pub track_count: u32,
    /// The record label.
    pub label: String,
    /// The release date as upstream gives it, digits of a `YYYYMMDD` number.
    pub date: String,
    /// The album title.
    pub album: String,
    /// The credited artist.
    pub author: String,
}

/// The mathematical value of a [`ReleaseInfo`].
pub struct ReleaseView {
    pub track_ids: Seq<Seq<char>>,
    pub track_count: nat,
    pub label: Seq<char>,
    pub date: Seq<char>,
    pub album: Seq<char>,
    pub author: Seq<char>,
}

impl View for ReleaseInfo {
    type V = ReleaseView;

    open spec fn view(&self) -> ReleaseView {
        ReleaseView {
            track_ids: views(self.track_ids@),
            track_count: self.track_count as nat,
            label: self.label@,
            date: self.date@,
            album: self.album@,
            author: self.author@,
        }
    }
}

impl ReleaseInfo {
    /// The invariant of a release: the track count is the number of track
    /// identifiers.
    pub open spec fn wf(&self) -> bool {
        self.track_count == self.track_ids@.len()
    }
}

/// A track of the catalog.
#[derive(Debug, PartialEq, Eq)]
pub struct TrackInfo {
    /// The credited artist.
    pub author: String,
    /// The title.
    pub name: String,
    /// The title of the release.
    pub album: String,
    /// The identifier of the owning release.
    pub release_id: String,
    /// The identifier of the track.
    pub track_id: String,
    /// The genres, joined by a comma and a space.
    pub genre: String,
    /// The position on the release.
    pub number: u32,
    /// The URL of the cover image.
    pub image: String,
    /// Whether upstream holds lyrics for the track.
    pub lyrics: bool,
    /// Whether upstream holds a lossless stream for the track.
    pub has_flac: bool,
}

/// The mathematical value of a [`TrackInfo`].
pub struct TrackView {
    pub author: Seq<char>,
    pub name: Seq<char>,
    pub album: Seq<char>,
    pub release_id: Seq<char>,
    pub track_id: Seq<char>,
    pub genre: Seq<char>,
    pub number: nat,
    pub image: Seq<char>,
    pub lyrics: bool,
    pub has_flac: bool,
}

impl View for TrackInfo {
    type V = TrackView;

    open spec fn view(&self) -> TrackView {
        TrackView {
            author: self.author@,
            name: self.name@,
            album: self.album@,
            release_id: self.release_id@,
            track_id: self.track_id@,
            genre: self.genre@,
            number: self.number as nat,
            image: self.image@,
            lyrics: self.lyrics,
            has_flac: self.has_flac,
        }
    }
}

/// A chapter of an audiobook.
#[derive(Debug, PartialEq, Eq)]
pub struct BookChapter {
    /// The authors of the book, joined by a comma and a space.
    pub author: String,
    pub book_title: String,
    /// The title of the chapter.
    pub title: String,
    /// The URL of the cover image.
    pub image: String,
    /// The position of the chapter in the book.
    pub number: u32,
}

/// The mathematical value of a [`BookChapter`].
pub struct ChapterView {
    pub author: Seq<char>,
    pub book_title: Seq<char>,
    pub title: Seq<char>,
    pub image: Seq<char>,
    pub number: nat,
}

impl View for BookChapter {
    type V = ChapterView;

    open spec fn view(&self) -> ChapterView {
        ChapterView {
            author: self.author@,
            book_title: self.book_title@,
            title: self.title@,
            image: self.image@,
            number: self.number as nat,
        }
    }
}

/// The decimal texts of the numbers of `ids`, in order.
pub open spec fn decimals(ids: Seq<i64>) -> Seq<Seq<char>> {
    ids.map_values(|n: i64| decimal(n as int))
}

/// The release that the wire record `w` stands for.
pub open spec fn release_of(w: ZvukRelease) -> ReleaseView {
    ReleaseView {
        track_ids: decimals(w.track_ids@),
        track_count: w.track_ids@.len(),
        label: decimal(w.label_id as int),
        date: decimal(w.date as int),
        album: w.title@,
        author: w.credits@,
    }
}

impl ReleaseInfo {
    /// Turns a wire record into a release. The identifiers become their
    /// decimal texts, the label is the label's identifier until the labels
    /// are resolved, and the track count is the number of track identifiers.
    /// Fails only where that number does not fit the counter.
    pub fn try_from(value: ZvukRelease) -> (r: Result<ReleaseInfo, ConversionError>)
        ensures
            r is Ok <==> value.track_ids@.len() <= u32::MAX,
            r matches Ok(release) ==> release@ == release_of(value) && release.wf(),
            r matches Err(e) ==> e == ConversionError::TrackCountOverflow,
    {
        let mut track_ids: Vec<String> = Vec::new();
        let mut i: usize = 0;
        while i < value.track_ids.len()
            invariant
                i <= value.track_ids.len(),
                views(track_ids@) == decimals(value.track_ids@).take(i as int),
            decreases value.track_ids.len() - i,
        {
            let id = decimal_string(value.track_ids[i]);
            proof {
                assert(views(track_ids@.push(id)) =~= views(track_ids@).push(id@));
                assert(decimals(value.track_ids@).take(i + 1) =~= decimals(value.track_ids@).take(
                    i as int,
                ).push(decimal(value.track_ids@[i as int] as int)));
            }
            track_ids.push(id);
            i = i + 1;
        }
        assert(decimals(value.track_ids@).take(value.track_ids.len() as int) =~= decimals(
            value.track_ids@,
        ));
        if track_ids.len() > u32::MAX as usize {
            return Err(ConversionError::TrackCountOverflow);
        }
        let track_count: u32 = track_ids.len() as u32;
        Ok(
            ReleaseInfo {
                track_ids,
                track_count,
                label: decimal_string(value.label_id),
                date: decimal_string(value.date),
                album: value.title,
                author: value.credits,
            },
        )
    }
}

/// The size suffix that upstream leaves in cover URLs.
pub open spec fn cover_size_suffix() -> Seq<char> {
    "&size={size}&ext=jpg"@
}

/// The separator between joined genres and between joined authors.
pub open spec fn list_separator() -> Seq<char> {
    ", "@
}

/// Whether `position` fits the position counter.
pub open spec fn position_in_range(position: i64) -> bool {
    0 <= position <= u32::MAX
}

/// The track that the wire record `w` stands for.
pub open spec fn track_of(w: ZvukTrack) -> TrackView {
    TrackView {
        author: w.credits@,
        name: w.title@,
        album: w.release_title@,
        release_id: decimal(w.release_id as int),
        track_id: decimal(w.id as int),
        genre: join(views(w.genres@), list_separator()),
        number: w.position as nat,
        image: replace_all(w.image.src@, cover_size_suffix(), Seq::empty()),
        lyrics: w.lyrics == Some(true),
        has_flac: w.has_flac,
    }
}

impl TrackInfo {
    /// Turns a wire record into a track. The identifiers become their decimal
    /// texts, the genres are joined, the size suffix is cut out of the cover
    /// URL, and a missing lyrics flag counts as `false`. Fails only where the
    /// position does not fit the counter.
    pub fn try_from(value: ZvukTrack) -> (r: Result<TrackInfo, ConversionError>)
        ensures
            r is Ok <==> position_in_range(value.position),
            r matches Ok(track) ==> track@ == track_of(value),
            r matches Err(e) ==> e == ConversionError::PositionOutOfRange,
    {
        if value.position < 0 || value.position > u32::MAX as i64 {
            return Err(ConversionError::PositionOutOfRange);
        }
        let number: u32 = value.position as u32;
        proof {
            reveal_strlit("&size={size}&ext=jpg");
            reveal_strlit("");
        }
        let image = replace_text(value.image.src.as_str(), "&size={size}&ext=jpg", "");
        let lyrics = match value.lyrics {
            Some(flag) => flag,
            None => false,
        };
        assert(""@ =~= Seq::<char>::empty());
        Ok(
            TrackInfo {
                author: value.credits,
                name: value.title,
                album: value.release_title,
                release_id: decimal_string(value.release_id),
                track_id: decimal_string(value.id),
                genre: join_strings(value.genres.as_slice(), ", "),
                number,
                image,
                lyrics,
                has_flac: value.has_flac,
            },
        )
    }
}

/// The kind that the upstream `type` field stands for.
pub open spec fn lyrics_kind_of(type_: Seq<char>) -> LyricsKind {
    if type_ == "subtitle"@ {
        LyricsKind::Subtitle
    } else {
        LyricsKind::Lyrics
    }
}

impl Lyrics {
    /// Turns a wire record into lyrics: `subtitle` marks subtitles, any other
    /// type plain lyrics; the text is kept as it is.
    pub fn try_from(value: ZvukLyrics) -> (r: Result<Lyrics, ConversionError>)
        ensures
            r matches Ok(lyrics) && lyrics@ == (LyricsView {
                kind: lyrics_kind_of(value.type_@),
                text: value.lyrics@,
            }),
    {
        let subtitle = String::from_str("subtitle");
        let kind = if value.type_ == subtitle {
            LyricsKind::Subtitle
        } else {
            LyricsKind::Lyrics
        };
        Ok(Lyrics { kind, text: value.lyrics })
    }
}

/// The names of `authors`, in order.
pub open spec fn author_names(authors: Seq<ZvukBookAuthor>) -> Seq<Seq<char>> {
    authors.map_values(|a: ZvukBookAuthor| a.rname@)
}

/// The chapter that the wire record `w` stands for.
pub open spec fn chapter_of(w: ZvukGQLChapter) -> ChapterView {
    ChapterView {
        author: join(author_names(w.book_authors@), list_separator()),
        book_title: w.book.title@,
        title: w.title@,
        image: w.image.src@,
        number: w.position as nat,
    }
}

impl BookChapter {
    /// Turns a wire record into a chapter, with the names of the book's
    /// authors joined. Fails only where the position does not fit the
    /// counter.
    pub fn try_from(value: ZvukGQLChapter) -> (r: Result<BookChapter, ConversionError>)
        ensures
            r is Ok <==> position_in_range(value.position),
            r matches Ok(chapter) ==> chapter@ == chapter_of(value),
            r matches Err(e) ==> e == ConversionError::PositionOutOfRange,
    {
        if value.position < 0 || value.position > u32::MAX as i64 {
            return Err(ConversionError::PositionOutOfRange);
        }
        let number: u32 = value.position as u32;
        let mut names: Vec<String> = Vec::new();
        let mut i: usize = 0;
        while i < value.book_authors.len()
            invariant
                i <= value.book_authors.len(),
                views(names@) == author_names(value.book_authors@).take(i as int),
            decreases value.book_authors.len() - i,
        {
            let name = value.book_authors[i].rname.clone();
            proof {
                assert(views(names@.push(name)) =~= views(names@).push(name@));
                assert(author_names(value.book_authors@).take(i + 1) =~= author_names(
                    value.book_authors@,
                ).take(i as int).push(value.book_authors@[i as int].rname@));
            }
            names.push(name);
            i = i + 1;
        }
        assert(author_names(value.book_authors@).take(value.book_authors.len() as int)
            =~= author_names(value.book_authors@));
        Ok(
            BookChapter {
                author: join_strings(names.as_slice(), ", "),
                book_title: value.book.title,
                title: value.title,
                image: value.image.src,
                number,
            },
        )
    }
}

} // verus!
