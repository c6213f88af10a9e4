//! The tags of a FLAC file: Vorbis comments and pictures.

use audiotags::AudioTagEdit;
use audiotags::FlacTag;
use audiotags::MimeType;
use audiotags::Picture;
use vstd::prelude::*;
use vstd::string::*;

use crate::tagging::supported_mime;
use crate::tagging::timestamp_text;
use crate::tagging::ApplyError;
use crate::entities::LyricsView;
use crate::entities::ReleaseView;
use crate::entities::TrackView;
use crate::quality::Quality;
use crate::tags::embedded_lyrics;
use crate::tags::pair_views;
use crate::tags::track_tags_of;
use crate::tags::TagDate;
use crate::tags::ExtraTags;
use crate::tags::ExtraTagsView;
use crate::tags::TagFormat;
use crate::tags::TagSet;
use crate::tags::TagSetView;
use crate::text::decimal;
use crate::text::decimal_digits;

verus! {

/// The tags of a FLAC file as the `audiotags` crate holds them.
#[verifier::external_type_specification]
#[verifier::external_body]
pub struct ExFlacTag(audiotags::FlacTag);

/// The Vorbis comments that a FLAC tag holds: each key with its values. A
/// tag without a block of comments holds none.
pub uninterp spec fn vorbis_comments(tag: audiotags::FlacTag) -> Map<Seq<char>, Seq<Seq<char>>>;

/// The front cover that a FLAC tag holds: media type and bytes of its first
/// picture of the type front cover.
pub uninterp spec fn flac_cover(tag: audiotags::FlacTag) -> Option<(Seq<char>, Seq<u8>)>;

/// No comments at all.
pub open spec fn no_comments() -> Map<Seq<char>, Seq<Seq<char>>> {
    Map::empty()
}

/// No cover.
pub open spec fn no_cover() -> Option<(Seq<char>, Seq<u8>)> {
    None
}

/// The comments `comments` with `key` set to the one value `value`.
pub open spec fn with_comment(
    comments: Map<Seq<char>, Seq<Seq<char>>>,
    key: Seq<char>,
    value: Seq<char>,
) -> Map<Seq<char>, Seq<Seq<char>>> {
    comments.insert(key, seq![value])
}

/// `FlacTag::new` of `audiotags` makes a tag without any block: it holds no
/// comment and no picture.
#[verifier::external_body]
pub(crate) fn flac_new() -> (tag: FlacTag)
    ensures
        vorbis_comments(tag) == no_comments(),
        flac_cover(tag) == no_cover(),
{
    FlacTag::new()
}

/// `AudioTagEdit::set_artist` of `audiotags` on a FLAC tag sets the comment
/// `ARTIST` to the one value that is given; everything else stays.
#[verifier::external_body]
fn flac_set_artist(tag: &mut FlacTag, artist: &str)
    ensures
        vorbis_comments(*final(tag)) == with_comment(vorbis_comments(*old(tag)), "ARTIST"@, artist@),
        flac_cover(*final(tag)) == flac_cover(*old(tag)),
{
    tag.set_artist(artist)
}

/// `AudioTagEdit::set_title` of `audiotags` on a FLAC tag sets the comment
/// `TITLE` to the one value that is given; everything else stays.
#[verifier::external_body]
fn flac_set_title(tag: &mut FlacTag, title: &str)
    ensures
        vorbis_comments(*final(tag)) == with_comment(vorbis_comments(*old(tag)), "TITLE"@, title@),
        flac_cover(*final(tag)) == flac_cover(*old(tag)),
{
    tag.set_title(title)
}

/// `AudioTagEdit::set_album_title` of `audiotags` on a FLAC tag sets the
/// comment `ALBUM` to the one value that is given; everything else stays.
#[verifier::external_body]
fn flac_set_album_title(tag: &mut FlacTag, title: &str)
    ensures
        vorbis_comments(*final(tag)) == with_comment(vorbis_comments(*old(tag)), "ALBUM"@, title@),
        flac_cover(*final(tag)) == flac_cover(*old(tag)),
{
    tag.set_album_title(title)
}

/// `AudioTagEdit::set_track_number` of `audiotags` on a FLAC tag sets the
/// comment `TRACKNUMBER` to the decimal text of the number; everything else
/// stays.
#[verifier::external_body]
fn flac_set_track_number(tag: &mut FlacTag, number: u16)
    ensures
        vorbis_comments(*final(tag)) == with_comment(
            vorbis_comments(*old(tag)),
            "TRACKNUMBER"@,
            decimal_digits(number as nat),
        ),
        flac_cover(*final(tag)) == flac_cover(*old(tag)),
{
    tag.set_track_number(number)
}

/// `AudioTagEdit::set_total_tracks` of `audiotags` on a FLAC tag sets the
/// comment `TOTALTRACKS` to the decimal text of the number; everything else
/// stays.
#[verifier::external_body]
fn flac_set_total_tracks(tag: &mut FlacTag, total: u16)
    ensures
        vorbis_comments(*final(tag)) == with_comment(
            vorbis_comments(*old(tag)),
            "TOTALTRACKS"@,
            decimal_digits(total as nat),
        ),
        flac_cover(*final(tag)) == flac_cover(*old(tag)),
{
    tag.set_total_tracks(total)
}

/// `AudioTagEdit::set_genre` of `audiotags` on a FLAC tag sets the comment
/// `GENRE` to the one value that is given; everything else stays.
#[verifier::external_body]
fn flac_set_genre(tag: &mut FlacTag, genre: &str)
    ensures
        vorbis_comments(*final(tag)) == with_comment(vorbis_comments(*old(tag)), "GENRE"@, genre@),
        flac_cover(*final(tag)) == flac_cover(*old(tag)),
{
    tag.set_genre(genre)
}

/// `AudioTagEdit::set_date` of `audiotags` on a FLAC tag sets the comment
/// `DATE` to the text of the timestamp, which `id3` writes as year, month
/// and day with hyphens between them; everything else stays.
#[verifier::external_body]
fn flac_set_date(tag: &mut FlacTag, year: i32, month: Option<u8>, day: Option<u8>)
    ensures
        vorbis_comments(*final(tag)) == with_comment(
            vorbis_comments(*old(tag)),
            "DATE"@,
            timestamp_text(year, month, day),
        ),
        flac_cover(*final(tag)) == flac_cover(*old(tag)),
{
    tag.set_date(id3::Timestamp { year, month, day, hour: None, minute: None, second: None })
}

/// `AudioTagEdit::set_year` of `audiotags` on a FLAC tag sets the comment
/// `YEAR` to the decimal text of the year; everything else stays.
#[verifier::external_body]
fn flac_set_year(tag: &mut FlacTag, year: i32)
    ensures
        vorbis_comments(*final(tag)) == with_comment(
            vorbis_comments(*old(tag)),
            "YEAR"@,
            decimal(year as int),
        ),
        flac_cover(*final(tag)) == flac_cover(*old(tag)),
{
    tag.set_year(year)
}

/// `AudioTagEdit::set_album_cover` of `audiotags` on a FLAC tag takes out
/// every picture of the type front cover and adds one with the media type
/// and the bytes that are given; the comments stay. The media type is read
/// by `MimeType::try_from`, which knows five of them; with another one
/// nothing is set.
#[verifier::external_body]
fn flac_set_cover(tag: &mut FlacTag, mime_type: &str, data: &[u8]) -> (done: bool)
    ensures
        done == supported_mime(mime_type@),
        vorbis_comments(*final(tag)) == vorbis_comments(*old(tag)),
        flac_cover(*final(tag)) == if done {
            Some((mime_type@, data@))
        } else {
            flac_cover(*old(tag))
        },
{
    match MimeType::try_from(mime_type) {
        Ok(mime_type) => {
            tag.set_album_cover(Picture { data, mime_type });
            true
        },
        Err(_) => false,
    }
}

/// `VorbisComment::set` of `metaflac`, on the block of comments of the tag,
/// sets the comment under the key to the one value that is given;
/// everything else stays. The tag is handed to `metaflac` and taken back by
/// the conversions of `audiotags`.
#[verifier::external_body]
fn flac_set_comment(tag: &mut FlacTag, key: &str, value: &str)
    ensures
        vorbis_comments(*final(tag)) == with_comment(vorbis_comments(*old(tag)), key@, value@),
        flac_cover(*final(tag)) == flac_cover(*old(tag)),
{
    let mut inner: metaflac::Tag = std::mem::take(tag).into();
    inner.vorbis_comments_mut().set(key, vec![value]);
    *tag = inner.into();
}

/// The comments `comments` with those that `extra` names set one after the
/// other.
pub open spec fn with_comments(
    comments: Map<Seq<char>, Seq<Seq<char>>>,
    extra: Seq<(Seq<char>, Seq<char>)>,
) -> Map<Seq<char>, Seq<Seq<char>>>
    decreases extra.len(),
{
    if extra.len() == 0 {
        comments
    } else {
        with_comment(with_comments(comments, extra.drop_last()), extra.last().0, extra.last().1)
    }
}

/// The comments `comments` with the common fields of `tags` set.
pub open spec fn with_common(comments: Map<Seq<char>, Seq<Seq<char>>>, tags: TagSetView) -> Map<
    Seq<char>,
    Seq<Seq<char>>,
> {
    let named = with_comment(
        with_comment(
            with_comment(
                with_comment(comments, "ARTIST"@, tags.artist),
                "TITLE"@,
                tags.title,
            ),
            "ALBUM"@,
            tags.album_title,
        ),
        "TRACKNUMBER"@,
        decimal_digits(tags.track_number),
    );
    let counted = match tags.total_tracks {
        Some(total) => with_comment(named, "TOTALTRACKS"@, decimal_digits(total as nat)),
        None => named,
    };
    let sorted = match tags.genre {
        Some(genre) => with_comment(counted, "GENRE"@, genre),
        None => counted,
    };
    let dated = match tags.date {
        Some(date) => with_comment(sorted, "DATE"@, timestamp_text(date.year, date.month, date.day)),
        None => sorted,
    };
    match tags.year {
        Some(year) => with_comment(dated, "YEAR"@, decimal(year as int)),
        None => dated,
    }
}

/// The comments beyond the common ones that `tags` names.
pub open spec fn extra_comments(tags: TagSetView) -> Seq<(Seq<char>, Seq<char>)> {
    match tags.extra {
        ExtraTagsView::Vorbis { comments } => comments,
        _ => Seq::empty(),
    }
}

/// The comments of a FLAC tag that held `comments` once `tags` is set on
/// it: the common fields first, then the other comments in their order.
pub open spec fn flac_after(comments: Map<Seq<char>, Seq<Seq<char>>>, tags: TagSetView) -> Map<
    Seq<char>,
    Seq<Seq<char>>,
> {
    with_comments(with_common(comments, tags), extra_comments(tags))
}

/// The front cover of a FLAC tag that held `cover` once `tags` is set on it.
pub open spec fn cover_after(cover: Option<(Seq<char>, Seq<u8>)>, tags: TagSetView) -> Option<
    (Seq<char>, Seq<u8>),
> {
    match tags.cover {
        Some(art) => Some((art.mime_type, art.data)),
        None => cover,
    }
}

/// Why `tags` cannot be set on a FLAC tag, if it cannot: it is for the other
/// container, or its cover has a media type that no tag can hold.
pub open spec fn flac_obstacle(tags: TagSetView) -> Option<ApplyError> {
    if tags.format != TagFormat::Flac || tags.extra is Id3 {
        Some(ApplyError::WrongContainer)
    } else if tags.cover matches Some(art) && !supported_mime(art.mime_type) {
        Some(ApplyError::UnsupportedCover)
    } else {
        None
    }
}

/// Sets the common fields of `tags` but the cover.
fn set_common(tag: &mut FlacTag, tags: &TagSet)
    ensures
        vorbis_comments(*final(tag)) == with_common(vorbis_comments(*old(tag)), tags@),
        flac_cover(*final(tag)) == flac_cover(*old(tag)),
{
    flac_set_artist(tag, tags.artist.as_str());
    flac_set_title(tag, tags.title.as_str());
    flac_set_album_title(tag, tags.album_title.as_str());
    flac_set_track_number(tag, tags.track_number);
    match tags.total_tracks {
        Some(total) => flac_set_total_tracks(tag, total),
        None => {},
    }
    match &tags.genre {
        Some(genre) => flac_set_genre(tag, genre.as_str()),
        None => {},
    }
    match tags.date {
        Some(date) => flac_set_date(tag, date.year, date.month, date.day),
        None => {},
    }
    match tags.year {
        Some(year) => flac_set_year(tag, year),
        None => {},
    }
}

/// Sets the comments `comments` one after the other.
fn set_comments(tag: &mut FlacTag, comments: &Vec<(String, String)>)
    ensures
        vorbis_comments(*final(tag)) == with_comments(
            vorbis_comments(*old(tag)),
            pair_views(comments@),
        ),
        flac_cover(*final(tag)) == flac_cover(*old(tag)),
{
    let ghost before = vorbis_comments(*tag);
    let ghost cover = flac_cover(*tag);
    let mut i: usize = 0;
    while i < comments.len()
        invariant
            i <= comments.len(),
            vorbis_comments(*tag) == with_comments(before, pair_views(comments@).take(i as int)),
            flac_cover(*tag) == cover,
        decreases comments.len() - i,
    {
        proof {
            let next = pair_views(comments@).take(i + 1);
            assert(next.drop_last() =~= pair_views(comments@).take(i as int));
            assert(next.last() == (comments@[i as int].0@, comments@[i as int].1@));
        }
        flac_set_comment(tag, comments[i].0.as_str(), comments[i].1.as_str());
        i = i + 1;
    }
    assert(pair_views(comments@).take(comments.len() as int) =~= pair_views(comments@));
}

/// Sets `tags` on a FLAC tag: artist, title, album, track number, and where
/// they are given the track count, the genre, the date and the year, each
/// as one comment; the front cover in place of any that is there; then the
/// other comments in their order. Every other comment stays as it is.
///
/// Fails where `tags` is for the other container or its cover has a media
/// type that no tag can hold.
pub fn apply_flac(tag: FlacTag, tags: &TagSet) -> (r: Result<FlacTag, ApplyError>)
    ensures
        match flac_obstacle(tags@) {
            Some(e) => r == Err::<FlacTag, ApplyError>(e),
            None => r matches Ok(out) && vorbis_comments(out) == flac_after(
                vorbis_comments(tag),
                tags@,
            ) && flac_cover(out) == cover_after(flac_cover(tag), tags@),
        },
{
    match tags.format {
        TagFormat::Flac => {},
        TagFormat::Id3v2 => {
            return Err(ApplyError::WrongContainer);
        },
    }
    match &tags.extra {
        ExtraTags::Id3 { text_frames, lyrics } => {
            return Err(ApplyError::WrongContainer);
        },
        _ => {},
    }
    let mut tag = tag;
    set_common(&mut tag, tags);
    match &tags.cover {
        Some(art) => {
            if !flac_set_cover(&mut tag, art.mime_type.as_str(), art.data.as_slice()) {
                return Err(ApplyError::UnsupportedCover);
            }
        },
        None => {},
    }
    match &tags.extra {
        ExtraTags::Vorbis { comments } => {
            set_comments(&mut tag, comments);
        },
        _ => {
            assert(extra_comments(tags@) =~= Seq::empty());
        },
    }
    Ok(tag)
}

/// Whatever a FLAC tag held, once the tags of a lossless track are set on it
/// it holds the identifiers of the release and of the track, the label as
/// copyright, and the lyrics where there are some to embed; where there are
/// none, the lyrics that it held stay.
pub proof fn lemma_lossless_track_is_cross_referenced(
    comments: Map<Seq<char>, Seq<Seq<char>>>,
    track: TrackView,
    release: ReleaseView,
    date: Option<TagDate>,
    cover: Option<Seq<u8>>,
    lyrics: Option<LyricsView>,
)
    ensures
        ({
            let tags = track_tags_of(track, release, Quality::Flac, date, cover, lyrics);
            let after = flac_after(comments, tags);
            &&& after.dom().contains("RELEASE_ID"@) && after["RELEASE_ID"@] == seq![track.release_id]
            &&& after.dom().contains("TRACK_ID"@) && after["TRACK_ID"@] == seq![track.track_id]
            &&& after.dom().contains("COPYRIGHT"@) && after["COPYRIGHT"@] == seq![release.label]
            &&& embedded_lyrics(lyrics) matches Some(text) ==> after.dom().contains("LYRICS"@)
                && after["LYRICS"@] == seq![text]
            &&& embedded_lyrics(lyrics) is None ==> (after.dom().contains("LYRICS"@)
                <==> comments.dom().contains("LYRICS"@)) && (comments.dom().contains("LYRICS"@)
                ==> after["LYRICS"@] == comments["LYRICS"@])
        }),
{
    let tags = track_tags_of(track, release, Quality::Flac, date, cover, lyrics);
    let common = with_common(comments, tags);
    let extra = extra_comments(tags);
    reveal_strlit("COPYRIGHT");
    reveal_strlit("RELEASE_ID");
    reveal_strlit("TRACK_ID");
    reveal_strlit("LYRICS");
    reveal_strlit("ARTIST");
    reveal_strlit("TITLE");
    reveal_strlit("ALBUM");
    reveal_strlit("TRACKNUMBER");
    reveal_strlit("TOTALTRACKS");
    reveal_strlit("GENRE");
    reveal_strlit("DATE");
    reveal_strlit("YEAR");
    assert("COPYRIGHT"@ != "RELEASE_ID"@) by {
        assert("COPYRIGHT"@[0] != "RELEASE_ID"@[0]);
    }
    assert("COPYRIGHT"@ != "TRACK_ID"@) by {
        assert("COPYRIGHT"@[0] != "TRACK_ID"@[0]);
    }
    assert("COPYRIGHT"@ != "LYRICS"@) by {
        assert("COPYRIGHT"@[0] != "LYRICS"@[0]);
    }
    assert("RELEASE_ID"@ != "TRACK_ID"@) by {
        assert("RELEASE_ID"@[0] != "TRACK_ID"@[0]);
    }
    assert("RELEASE_ID"@ != "LYRICS"@) by {
        assert("RELEASE_ID"@[0] != "LYRICS"@[0]);
    }
    assert("TRACK_ID"@ != "LYRICS"@) by {
        assert("TRACK_ID"@[0] != "LYRICS"@[0]);
    }
    assert("LYRICS"@ != "ARTIST"@) by {
        assert("LYRICS"@[0] != "ARTIST"@[0]);
    }
    assert("LYRICS"@ != "TITLE"@) by {
        assert("LYRICS"@[0] != "TITLE"@[0]);
    }
    assert("LYRICS"@ != "ALBUM"@) by {
        assert("LYRICS"@[0] != "ALBUM"@[0]);
    }
    assert("LYRICS"@ != "TRACKNUMBER"@) by {
        assert("LYRICS"@[0] != "TRACKNUMBER"@[0]);
    }
    assert("LYRICS"@ != "TOTALTRACKS"@) by {
        assert("LYRICS"@[0] != "TOTALTRACKS"@[0]);
    }
    assert("LYRICS"@ != "GENRE"@) by {
        assert("LYRICS"@[0] != "GENRE"@[0]);
    }
    assert("LYRICS"@ != "DATE"@) by {
        assert("LYRICS"@[0] != "DATE"@[0]);
    }
    assert("LYRICS"@ != "YEAR"@) by {
        assert("LYRICS"@[0] != "YEAR"@[0]);
    }
    let fixed = seq![
        ("COPYRIGHT"@, release.label),
        ("RELEASE_ID"@, track.release_id),
        ("TRACK_ID"@, track.track_id),
    ];
    let e0 = fixed.take(0);
    let e1 = fixed.take(1);
    let e2 = fixed.take(2);
    assert(e1.drop_last() =~= e0);
    assert(e2.drop_last() =~= e1);
    assert(fixed.drop_last() =~= e2);
    assert(with_comments(common, e0) == common);
    assert(with_comments(common, e1) == with_comment(common, "COPYRIGHT"@, release.label));
    assert(with_comments(common, e2) == with_comment(
        with_comments(common, e1),
        "RELEASE_ID"@,
        track.release_id,
    ));
    assert(with_comments(common, fixed) == with_comment(
        with_comments(common, e2),
        "TRACK_ID"@,
        track.track_id,
    ));
    assert(common.dom().contains("LYRICS"@) <==> comments.dom().contains("LYRICS"@));
    assert(comments.dom().contains("LYRICS"@) ==> common["LYRICS"@] == comments["LYRICS"@]);
    match embedded_lyrics(lyrics) {
        Some(text) => {
            let all = fixed.push(("LYRICS"@, text));
            assert(extra == all);
            assert(all.drop_last() =~= fixed);
        },
        None => {
            assert(extra == fixed);
        },
    }
}

} // verus!
