//! The tags of an MP3 file: ID3v2 frames. A tag that was read from a file
//! may hold several frames under one identifier, and setting a frame takes
//! out at most one of them; so what is stated of a frame that was set is
//! that the tag holds it, and of the frames under other identifiers that
//! they stay.

use audiotags::AudioTagEdit;
use audiotags::Id3v2Tag;
use audiotags::MimeType;
use audiotags::Picture;
use id3::TagLike;
use vstd::multiset::Multiset;
use vstd::prelude::*;
use vstd::string::*;
use vstd::utf8::is_ascii_chars;

use crate::tagging::supported_mime;
use crate::tagging::timestamp_text;
use crate::tagging::zero_padded;
use crate::tagging::ApplyError;
use crate::entities::LyricsView;
use crate::entities::ReleaseView;
use crate::entities::TrackView;
use crate::quality::Quality;
use crate::tags::embedded_lyrics;
use crate::tags::pair_views;
use crate::tags::track_tags_of;
use crate::tags::TagDate;
use crate::tags::ExtraTags;
use crate::tags::ExtraTagsView;
use crate::tags::TagFormat;
use crate::tags::TagSet;
use crate::tags::TagSetView;
use crate::text::decimal_digits;
use crate::text::has_prefix;

verus! {

/// The tags of an MP3 file as the `audiotags` crate holds them.
#[verifier::external_type_specification]
#[verifier::external_body]
pub struct ExId3v2Tag(audiotags::Id3v2Tag);

/// The text frames that an ID3v2 tag holds: identifier and text of each
/// frame whose content is text.
pub uninterp spec fn id3_texts(tag: audiotags::Id3v2Tag) -> Multiset<(Seq<char>, Seq<char>)>;

/// The unsynchronised lyrics that an ID3v2 tag holds: language, description
/// and text of each `USLT` frame whose content is lyrics.
pub uninterp spec fn id3_lyrics(tag: audiotags::Id3v2Tag) -> Multiset<
    (Seq<char>, Seq<char>, Seq<char>),
>;

/// The front cover that an ID3v2 tag holds: media type and bytes of the
/// first of its `APIC` frames that is a picture of the type front cover.
pub uninterp spec fn id3_cover(tag: audiotags::Id3v2Tag) -> Option<(Seq<char>, Seq<u8>)>;

/// No text frames.
pub open spec fn no_texts() -> Multiset<(Seq<char>, Seq<char>)> {
    Multiset::empty()
}

/// No lyrics.
pub open spec fn no_lyrics() -> Multiset<(Seq<char>, Seq<char>, Seq<char>)> {
    Multiset::empty()
}

/// Whether `tag` holds the text frame `frame`.
pub open spec fn holds_text(tag: Id3v2Tag, frame: (Seq<char>, Seq<char>)) -> bool {
    id3_texts(tag).count(frame) > 0
}

/// Whether the text frames of `after` under identifiers other than `id` are
/// those of `before`.
pub open spec fn other_texts_stay(before: Id3v2Tag, after: Id3v2Tag, id: Seq<char>) -> bool {
    forall|other: (Seq<char>, Seq<char>)|
        other.0 != id ==> #[trigger] id3_texts(after).count(other) == id3_texts(before).count(other)
}

/// What setting the text frame `id` to `text` comes to: the tag holds that
/// frame, and the text frames under other identifiers, the lyrics and the
/// cover stay.
pub open spec fn text_set(before: Id3v2Tag, after: Id3v2Tag, id: Seq<char>, text: Seq<char>)
    -> bool {
    &&& holds_text(after, (id, text))
    &&& other_texts_stay(before, after, id)
    &&& id3_lyrics(after) == id3_lyrics(before)
    &&& id3_cover(after) == id3_cover(before)
}

/// Whether `text` is what a track number is written as: the number, alone
/// or with a slash and more behind it.
pub open spec fn track_text(text: Seq<char>, number: nat) -> bool {
    text == decimal_digits(number) || has_prefix(text, decimal_digits(number) + seq!['/'])
}

/// Whether `text` is what a track count is written as: something, a slash,
/// and the count.
pub open spec fn total_text(text: Seq<char>, total: nat) -> bool {
    exists|first: Seq<char>| text == first + seq!['/'] + decimal_digits(total)
}

/// Whether `tag` holds a frame `TRCK` that gives the track number `number`.
pub open spec fn holds_track(tag: Id3v2Tag, number: nat) -> bool {
    exists|text: Seq<char>| holds_text(tag, ("TRCK"@, text)) && track_text(text, number)
}

/// Whether `tag` holds a frame `TRCK` that gives the track count `total`.
pub open spec fn holds_total(tag: Id3v2Tag, total: nat) -> bool {
    exists|text: Seq<char>| holds_text(tag, ("TRCK"@, text)) && total_text(text, total)
}

/// `Id3v2Tag::new` of `audiotags` makes a tag without frames.
#[verifier::external_body]
pub(crate) fn id3_new() -> (tag: Id3v2Tag)
    ensures
        id3_texts(tag) == no_texts(),
        id3_lyrics(tag) == no_lyrics(),
        id3_cover(tag) is None,
{
    Id3v2Tag::new()
}

/// `AudioTagEdit::set_artist` of `audiotags` on an ID3v2 tag adds the text
/// frame `TPE1` with the artist, in place of at most one frame under that
/// identifier.
#[verifier::external_body]
fn id3_set_artist(tag: &mut Id3v2Tag, artist: &str)
    ensures
        text_set(*old(tag), *final(tag), "TPE1"@, artist@),
{
    tag.set_artist(artist)
}

/// `AudioTagEdit::set_title` of `audiotags` on an ID3v2 tag adds the text
/// frame `TIT2` with the title, in place of at most one frame under that
/// identifier.
#[verifier::external_body]
fn id3_set_title(tag: &mut Id3v2Tag, title: &str)
    ensures
        text_set(*old(tag), *final(tag), "TIT2"@, title@),
{
    tag.set_title(title)
}

/// `AudioTagEdit::set_album_title` of `audiotags` on an ID3v2 tag adds the
/// text frame `TALB` with the title, in place of at most one frame under
/// that identifier.
#[verifier::external_body]
fn id3_set_album_title(tag: &mut Id3v2Tag, title: &str)
    ensures
        text_set(*old(tag), *final(tag), "TALB"@, title@),
{
    tag.set_album_title(title)
}

/// `AudioTagEdit::set_track_number` of `audiotags` on an ID3v2 tag adds a
/// text frame `TRCK` with the number, followed by a slash and the count
/// where the tag had one, in place of at most one frame under that
/// identifier.
#[verifier::external_body]
fn id3_set_track_number(tag: &mut Id3v2Tag, number: u16)
    ensures
        holds_track(*final(tag), number as nat),
        other_texts_stay(*old(tag), *final(tag), "TRCK"@),
        id3_lyrics(*final(tag)) == id3_lyrics(*old(tag)),
        id3_cover(*final(tag)) == id3_cover(*old(tag)),
{
    tag.set_track_number(number)
}

/// `AudioTagEdit::set_total_tracks` of `audiotags` on an ID3v2 tag adds a
/// text frame `TRCK` with a track number, a slash and the count, in place of
/// at most one frame under that identifier.
#[verifier::external_body]
fn id3_set_total_tracks(tag: &mut Id3v2Tag, total: u16)
    ensures
        holds_total(*final(tag), total as nat),
        other_texts_stay(*old(tag), *final(tag), "TRCK"@),
        id3_lyrics(*final(tag)) == id3_lyrics(*old(tag)),
        id3_cover(*final(tag)) == id3_cover(*old(tag)),
{
    tag.set_total_tracks(total)
}

/// `AudioTagEdit::set_genre` of `audiotags` on an ID3v2 tag adds the text
/// frame `TCON` with the genre, in place of at most one frame under that
/// identifier.
#[verifier::external_body]
fn id3_set_genre(tag: &mut Id3v2Tag, genre: &str)
    ensures
        text_set(*old(tag), *final(tag), "TCON"@, genre@),
{
    tag.set_genre(genre)
}

/// `AudioTagEdit::set_date` of `audiotags` on an ID3v2 tag adds the text
/// frame `TDRC` with the text of the timestamp, which `id3` writes as year,
/// month and day with hyphens between them, in place of at most one frame
/// under that identifier.
#[verifier::external_body]
fn id3_set_date(tag: &mut Id3v2Tag, year: i32, month: Option<u8>, day: Option<u8>)
    ensures
        text_set(*old(tag), *final(tag), "TDRC"@, timestamp_text(year, month, day)),
{
    tag.set_date(id3::Timestamp { year, month, day, hour: None, minute: None, second: None })
}

/// `AudioTagEdit::set_year` of `audiotags` on an ID3v2 tag adds the text
/// frame `TYER` with the year in four places, in place of at most one frame
/// under that identifier.
#[verifier::external_body]
fn id3_set_year(tag: &mut Id3v2Tag, year: i32)
    ensures
        text_set(*old(tag), *final(tag), "TYER"@, zero_padded(year as int, 4)),
{
    tag.set_year(year)
}

/// `AudioTagEdit::set_album_cover` of `audiotags` on an ID3v2 tag takes out
/// every `APIC` frame that is a picture of the type front cover, or no
/// picture, and adds one with the media type and the bytes that are given;
/// the frames under other identifiers stay. The media type is read by
/// `MimeType::try_from`, which knows five of them; with another one nothing
/// is set.
#[verifier::external_body]
fn id3_set_cover(tag: &mut Id3v2Tag, mime_type: &str, data: &[u8]) -> (done: bool)
    ensures
        done == supported_mime(mime_type@),
        other_texts_stay(*old(tag), *final(tag), "APIC"@),
        id3_lyrics(*final(tag)) == id3_lyrics(*old(tag)),
        id3_cover(*final(tag)) == if done {
            Some((mime_type@, data@))
        } else {
            id3_cover(*old(tag))
        },
{
    match MimeType::try_from(mime_type) {
        Ok(mime_type) => {
            tag.set_album_cover(Picture { data, mime_type });
            true
        },
        Err(_) => false,
    }
}

/// `TagLike::set_text` of `id3` adds the text frame with the identifier and
/// the text, in place of at most one frame under that identifier. It takes
/// an identifier of four bytes as it is. The tag is handed to `id3` and
/// taken back by the conversions of `audiotags`.
#[verifier::external_body]
fn id3_set_text(tag: &mut Id3v2Tag, id: &str, text: &str)
    requires
        id@.len() == 4,
        is_ascii_chars(id@),
    ensures
        text_set(*old(tag), *final(tag), id@, text@),
{
    let mut inner: id3::Tag = std::mem::take(tag).into();
    inner.set_text(id, text);
    *tag = inner.into();
}

/// `TagLike::add_frame` of `id3` with a frame of unsynchronised lyrics adds
/// that frame, in place of at most one frame of the same language and
/// description; the text frames and the cover stay. The tag is handed to
/// `id3` and taken back by the conversions of `audiotags`.
#[verifier::external_body]
fn id3_add_lyrics(tag: &mut Id3v2Tag, lang: &str, description: &str, text: &str)
    ensures
        id3_lyrics(*final(tag)).count((lang@, description@, text@)) > 0,
        id3_texts(*final(tag)) == id3_texts(*old(tag)),
        id3_cover(*final(tag)) == id3_cover(*old(tag)),
{
    let mut inner: id3::Tag = std::mem::take(tag).into();
    inner.add_frame(id3::frame::Lyrics {
        lang: lang.to_owned(),
        description: description.to_owned(),
        text: text.to_owned(),
    });
    *tag = inner.into();
}

/// Whether `id` can be the identifier of a frame: four ASCII characters.
pub open spec fn frame_id(id: Seq<char>) -> bool {
    id.len() == 4 && is_ascii_chars(id)
}

/// The text frames beyond the common ones that `tags` names.
pub open spec fn extra_texts(tags: TagSetView) -> Seq<(Seq<char>, Seq<char>)> {
    match tags.extra {
        ExtraTagsView::Id3 { text_frames, lyrics } => text_frames,
        _ => Seq::empty(),
    }
}

/// The text frames that the common fields of `tags` are set as, but for the
/// track number and count: artist, title, album, and where they are given
/// the genre, the date and the year.
pub open spec fn common_texts(tags: TagSetView) -> Seq<(Seq<char>, Seq<char>)> {
    let named = seq![("TPE1"@, tags.artist), ("TIT2"@, tags.title), ("TALB"@, tags.album_title)];
    let sorted = match tags.genre {
        Some(genre) => named.push(("TCON"@, genre)),
        None => named,
    };
    let dated = match tags.date {
        Some(date) => sorted.push(("TDRC"@, timestamp_text(date.year, date.month, date.day))),
        None => sorted,
    };
    match tags.year {
        Some(year) => dated.push(("TYER"@, zero_padded(year as int, 4))),
        None => dated,
    }
}

/// All text frames that `tags` names with their text, in the order in which
/// they are set.
pub open spec fn wanted_texts(tags: TagSetView) -> Seq<(Seq<char>, Seq<char>)> {
    common_texts(tags) + extra_texts(tags)
}

/// Whether no frame after the one at `i` is under its identifier.
pub open spec fn last_under_its_id(frames: Seq<(Seq<char>, Seq<char>)>, i: int) -> bool {
    forall|j: int| i < j < frames.len() ==> (#[trigger] frames[j]).0 != frames[i].0
}

/// Whether `tag` holds each frame of `frames` that is the last one under its
/// identifier.
pub open spec fn holds_wanted(tag: Id3v2Tag, frames: Seq<(Seq<char>, Seq<char>)>) -> bool {
    forall|i: int|
        0 <= i < frames.len() && last_under_its_id(frames, i) ==> holds_text(
            tag,
            #[trigger] frames[i],
        )
}

/// Whether a frame of `frames` is under `id`.
pub open spec fn names(frames: Seq<(Seq<char>, Seq<char>)>, id: Seq<char>) -> bool {
    exists|i: int| 0 <= i < frames.len() && (#[trigger] frames[i]).0 == id
}

/// Whether `id` is one of the identifiers that the common fields are set
/// under.
pub open spec fn common_id(id: Seq<char>) -> bool {
    id == "TPE1"@ || id == "TIT2"@ || id == "TALB"@ || id == "TRCK"@ || id == "TCON"@ || id
        == "TDRC"@ || id == "TYER"@ || id == "APIC"@
}

/// Why `tags` cannot be set on an ID3v2 tag, if it cannot: it is for the
/// other container, its cover has a media type that no tag can hold, or the
/// identifier of one of its frames is not made of four ASCII characters.
pub open spec fn id3_obstacle(tags: TagSetView) -> Option<ApplyError> {
    if tags.format != TagFormat::Id3v2 || tags.extra is Vorbis {
        Some(ApplyError::WrongContainer)
    } else if tags.cover matches Some(art) && !supported_mime(art.mime_type) {
        Some(ApplyError::UnsupportedCover)
    } else if exists|i: int|
        0 <= i < extra_texts(tags).len() && !frame_id((#[trigger] extra_texts(tags)[i]).0) {
        Some(ApplyError::InvalidFrame)
    } else {
        None
    }
}

/// What holds of the track number and count of a tag on which `tags` was
/// set: it holds a frame `TRCK` that gives the count, or the number where
/// there is no count.
pub open spec fn holds_position(tag: Id3v2Tag, tags: TagSetView) -> bool {
    match tags.total_tracks {
        Some(total) => holds_total(tag, total as nat),
        None => holds_track(tag, tags.track_number),
    }
}

/// What holds of the cover of a tag that was `before` and on which `tags`
/// was set.
pub open spec fn cover_set(before: Id3v2Tag, after: Id3v2Tag, tags: TagSetView) -> bool {
    match tags.cover {
        Some(art) => id3_cover(after) == Some((art.mime_type, art.data)),
        None => id3_cover(after) == id3_cover(before),
    }
}

/// What holds of the lyrics of a tag that was `before` and on which `tags`
/// was set.
pub open spec fn lyrics_set(before: Id3v2Tag, after: Id3v2Tag, tags: TagSetView) -> bool {
    match tags.extra {
        ExtraTagsView::Id3 { text_frames, lyrics: Some(frame) } => id3_lyrics(after).count(
            (frame.lang, frame.description, frame.text),
        ) > 0,
        _ => id3_lyrics(after) == id3_lyrics(before),
    }
}

/// Whether the text frames of `after` under identifiers that `tags` does not
/// touch are those of `before`.
pub open spec fn untouched_stay(before: Id3v2Tag, after: Id3v2Tag, extra: Seq<
    (Seq<char>, Seq<char>),
>) -> bool {
    forall|other: (Seq<char>, Seq<char>)|
        !common_id(other.0) && !names(extra, other.0) ==> #[trigger] id3_texts(after).count(other)
            == id3_texts(before).count(other)
}

/// What holds of a tag that was `before` once `tags` was set on it.
pub open spec fn id3_set(before: Id3v2Tag, after: Id3v2Tag, tags: TagSetView) -> bool {
    &&& holds_wanted(after, wanted_texts(tags))
    &&& !names(extra_texts(tags), "TRCK"@) ==> holds_position(after, tags)
    &&& cover_set(before, after, tags)
    &&& lyrics_set(before, after, tags)
    &&& untouched_stay(before, after, extra_texts(tags))
}

/// Setting a text frame keeps what is held, and the tag holds the new frame
/// too.
proof fn lemma_set_keeps_wanted(
    before: Id3v2Tag,
    after: Id3v2Tag,
    done: Seq<(Seq<char>, Seq<char>)>,
    id: Seq<char>,
    text: Seq<char>,
)
    requires
        holds_wanted(before, done),
        text_set(before, after, id, text),
    ensures
        holds_wanted(after, done.push((id, text))),
{
    let next = done.push((id, text));
    assert forall|i: int| 0 <= i < next.len() && last_under_its_id(next, i) implies holds_text(
        after,
        #[trigger] next[i],
    ) by {
        if i < done.len() {
            assert(next[done.len() as int].0 == id);
            assert(next[i].0 != id);
            assert(next[i] == done[i]);
            assert forall|j: int| i < j < done.len() implies (#[trigger] done[j]).0
                != done[i].0 by {
                assert(next[j] == done[j]);
            }
            assert(last_under_its_id(done, i));
            assert(holds_text(before, done[i]));
            assert(id3_texts(after).count(done[i]) == id3_texts(before).count(done[i]));
        }
    }
}

/// A change under an identifier that none of the frames is under keeps what
/// is held.
proof fn lemma_other_keeps_wanted(
    before: Id3v2Tag,
    after: Id3v2Tag,
    done: Seq<(Seq<char>, Seq<char>)>,
    id: Seq<char>,
)
    requires
        holds_wanted(before, done),
        other_texts_stay(before, after, id),
        !names(done, id),
    ensures
        holds_wanted(after, done),
{
    assert forall|i: int| 0 <= i < done.len() && last_under_its_id(done, i) implies holds_text(
        after,
        #[trigger] done[i],
    ) by {
        assert(done[i].0 != id);
        assert(holds_text(before, done[i]));
        assert(id3_texts(after).count(done[i]) == id3_texts(before).count(done[i]));
    }
}

/// The identifiers of the common fields are eight different ones of four
/// ASCII characters each.
proof fn lemma_common_ids()
    ensures
        "TPE1"@ != "TRCK"@,
        "TIT2"@ != "TRCK"@,
        "TALB"@ != "TRCK"@,
        "TCON"@ != "TRCK"@,
        "TDRC"@ != "TRCK"@,
        "TYER"@ != "TRCK"@,
        "APIC"@ != "TRCK"@,
        "TPE1"@ != "APIC"@,
        "TIT2"@ != "APIC"@,
        "TALB"@ != "APIC"@,
        "TCON"@ != "APIC"@,
        "TDRC"@ != "APIC"@,
        "TYER"@ != "APIC"@,
{
    reveal_strlit("TPE1");
    reveal_strlit("TIT2");
    reveal_strlit("TALB");
    reveal_strlit("TRCK");
    reveal_strlit("TCON");
    reveal_strlit("TDRC");
    reveal_strlit("TYER");
    reveal_strlit("APIC");
    assert("TPE1"@[1] != "TRCK"@[1]);
    assert("TIT2"@[1] != "TRCK"@[1]);
    assert("TALB"@[1] != "TRCK"@[1]);
    assert("TCON"@[1] != "TRCK"@[1]);
    assert("TDRC"@[1] != "TRCK"@[1]);
    assert("TYER"@[1] != "TRCK"@[1]);
    assert("APIC"@[0] != "TRCK"@[0]);
    assert("TPE1"@[0] != "APIC"@[0]);
    assert("TIT2"@[0] != "APIC"@[0]);
    assert("TALB"@[0] != "APIC"@[0]);
    assert("TCON"@[0] != "APIC"@[0]);
    assert("TDRC"@[0] != "APIC"@[0]);
    assert("TYER"@[0] != "APIC"@[0]);
}

/// A change under another identifier than `TRCK` keeps the frame that gives
/// track number and count.
proof fn lemma_position_stays(before: Id3v2Tag, after: Id3v2Tag, tags: TagSetView, id: Seq<char>)
    requires
        holds_position(before, tags),
        other_texts_stay(before, after, id),
        id != "TRCK"@,
    ensures
        holds_position(after, tags),
{
    match tags.total_tracks {
        Some(total) => {
            let text = choose|text: Seq<char>|
                holds_text(before, ("TRCK"@, text)) && total_text(text, total as nat);
            assert(id3_texts(after).count(("TRCK"@, text)) == id3_texts(before).count(
                ("TRCK"@, text),
            ));
            assert(holds_text(after, ("TRCK"@, text)));
        },
        None => {
            let text = choose|text: Seq<char>|
                holds_text(before, ("TRCK"@, text)) && track_text(text, tags.track_number);
            assert(id3_texts(after).count(("TRCK"@, text)) == id3_texts(before).count(
                ("TRCK"@, text),
            ));
            assert(holds_text(after, ("TRCK"@, text)));
        },
    }
}

/// What holds once the common fields but the cover are set.
spec fn common_set(before: Id3v2Tag, after: Id3v2Tag, tags: TagSetView) -> bool {
    &&& holds_wanted(after, common_texts(tags))
    &&& holds_position(after, tags)
    &&& id3_lyrics(after) == id3_lyrics(before)
    &&& id3_cover(after) == id3_cover(before)
    &&& untouched_stay(before, after, Seq::empty())
}

/// Sets the common fields of `tags` but the cover.
fn set_common(tag: &mut Id3v2Tag, tags: &TagSet)
    ensures
        common_set(*old(tag), *final(tag), tags@),
{
    let ghost mut done: Seq<(Seq<char>, Seq<char>)> = Seq::empty();
    proof {
        lemma_common_ids();
    }
    let ghost before = *tag;
    id3_set_artist(tag, tags.artist.as_str());
    proof {
        lemma_set_keeps_wanted(before, *tag, done, "TPE1"@, tags@.artist);
        done = done.push(("TPE1"@, tags@.artist));
    }
    let ghost before = *tag;
    id3_set_title(tag, tags.title.as_str());
    proof {
        lemma_set_keeps_wanted(before, *tag, done, "TIT2"@, tags@.title);
        done = done.push(("TIT2"@, tags@.title));
    }
    let ghost before = *tag;
    id3_set_album_title(tag, tags.album_title.as_str());
    proof {
        lemma_set_keeps_wanted(before, *tag, done, "TALB"@, tags@.album_title);
        done = done.push(("TALB"@, tags@.album_title));
        assert(done =~= seq![
            ("TPE1"@, tags@.artist),
            ("TIT2"@, tags@.title),
            ("TALB"@, tags@.album_title),
        ]);
        assert(!names(done, "TRCK"@));
    }
    let ghost before = *tag;
    id3_set_track_number(tag, tags.track_number);
    proof {
        lemma_other_keeps_wanted(before, *tag, done, "TRCK"@);
    }
    match tags.total_tracks {
        Some(total) => {
            let ghost before = *tag;
            id3_set_total_tracks(tag, total);
            proof {
                lemma_other_keeps_wanted(before, *tag, done, "TRCK"@);
            }
        },
        None => {},
    }
    assert(holds_position(*tag, tags@));
    match &tags.genre {
        Some(genre) => {
            let ghost before = *tag;
            id3_set_genre(tag, genre.as_str());
            proof {
                lemma_set_keeps_wanted(before, *tag, done, "TCON"@, genre@);
                lemma_position_stays(before, *tag, tags@, "TCON"@);
                done = done.push(("TCON"@, genre@));
            }
        },
        None => {},
    }
    match tags.date {
        Some(date) => {
            let ghost before = *tag;
            id3_set_date(tag, date.year, date.month, date.day);
            proof {
                let text = timestamp_text(date.year, date.month, date.day);
                lemma_set_keeps_wanted(before, *tag, done, "TDRC"@, text);
                lemma_position_stays(before, *tag, tags@, "TDRC"@);
                done = done.push(("TDRC"@, text));
            }
        },
        None => {},
    }
    match tags.year {
        Some(year) => {
            let ghost before = *tag;
            id3_set_year(tag, year);
            proof {
                let text = zero_padded(year as int, 4);
                lemma_set_keeps_wanted(before, *tag, done, "TYER"@, text);
                lemma_position_stays(before, *tag, tags@, "TYER"@);
                done = done.push(("TYER"@, text));
            }
        },
        None => {},
    }
    assert(done =~= common_texts(tags@));
}

/// What holds once the first `count` of the text frames `extra` are set on
/// a tag that was `before` and on which the common fields of `tags` were
/// set.
spec fn extras_set(
    before: Id3v2Tag,
    after: Id3v2Tag,
    tags: TagSetView,
    extra: Seq<(Seq<char>, Seq<char>)>,
) -> bool {
    &&& holds_wanted(after, common_texts(tags) + extra)
    &&& !names(extra, "TRCK"@) ==> holds_position(after, tags)
    &&& id3_lyrics(after) == id3_lyrics(before)
    &&& id3_cover(after) == id3_cover(before)
    &&& untouched_stay(before, after, extra)
}

/// Sets the text frames `frames` one after the other, as far as their
/// identifiers are made of four ASCII characters, and tells whether all of
/// them are.
fn set_texts(tag: &mut Id3v2Tag, frames: &Vec<(String, String)>, Ghost(tags): Ghost<TagSetView>) -> (done:
    bool)
    requires
        extras_set(*old(tag), *old(tag), tags, Seq::empty()),
    ensures
        done <==> forall|i: int| 0 <= i < frames@.len() ==> frame_id((#[trigger] frames@[i]).0@),
        done ==> extras_set(*old(tag), *final(tag), tags, pair_views(frames@)),
{
    let ghost first = *tag;
    let mut i: usize = 0;
    proof {
        assert(pair_views(frames@).take(0) =~= Seq::empty());
    }
    while i < frames.len()
        invariant
            i <= frames.len(),
            forall|k: int| 0 <= k < i ==> frame_id((#[trigger] frames@[k]).0@),
            extras_set(first, *tag, tags, pair_views(frames@).take(i as int)),
        decreases frames.len() - i,
    {
        let id = frames[i].0.as_str();
        let text = frames[i].1.as_str();
        if !(id.is_ascii() && id.unicode_len() == 4) {
            return false;
        }
        let ghost before = *tag;
        let ghost set = pair_views(frames@).take(i as int);
        let ghost next = pair_views(frames@).take(i + 1);
        id3_set_text(tag, id, text);
        proof {
            assert(next =~= set.push((id@, text@)));
            lemma_set_keeps_wanted(before, *tag, common_texts(tags) + set, id@, text@);
            assert((common_texts(tags) + set).push((id@, text@)) =~= common_texts(tags) + next);
            assert(next[i as int].0 == id@);
            if !names(next, "TRCK"@) {
                assert(!names(set, "TRCK"@)) by {
                    if names(set, "TRCK"@) {
                        let k = choose|k: int| 0 <= k < set.len() && (#[trigger] set[k]).0 == "TRCK"@;
                        assert(next[k] == set[k]);
                    }
                }
                assert(id@ != "TRCK"@);
                lemma_position_stays(before, *tag, tags, id@);
            }
            assert forall|other: (Seq<char>, Seq<char>)|
                !common_id(other.0) && !names(next, other.0) implies #[trigger] id3_texts(
                *tag,
            ).count(other) == id3_texts(first).count(other) by {
                assert(other.0 != id@);
                assert(!names(set, other.0)) by {
                    if names(set, other.0) {
                        let k = choose|k: int| 0 <= k < set.len() && (#[trigger] set[k]).0 == other.0;
                        assert(next[k] == set[k]);
                    }
                }
                assert(id3_texts(*tag).count(other) == id3_texts(before).count(other));
            }
        }
        i = i + 1;
    }
    proof {
        assert(pair_views(frames@).take(frames.len() as int) =~= pair_views(frames@));
    }
    true
}

/// Sets `tags` on an ID3v2 tag: artist, title, album, track number, and
/// where they are given the track count, the genre, the date and the year,
/// each as a text frame; the front cover in place of any that is there;
/// then the other text frames in their order, and the lyrics.
///
/// A tag may hold more than one frame under an identifier, and setting a
/// frame takes out at most one of them. So what is promised of the tag that
/// comes out is that it holds each frame that was set and was not set again
/// later, that it holds the cover and the lyrics, and that the text frames
/// under identifiers that `tags` does not name are the ones it had.
///
/// Fails where `tags` is for the other container, its cover has a media
/// type that no tag can hold, or one of its frames has an identifier that is
/// not made of four ASCII characters.
pub fn apply_id3(tag: Id3v2Tag, tags: &TagSet) -> (r: Result<Id3v2Tag, ApplyError>)
    ensures
        match id3_obstacle(tags@) {
            Some(e) => r == Err::<Id3v2Tag, ApplyError>(e),
            None => r matches Ok(out) && id3_set(tag, out, tags@),
        },
{
    match tags.format {
        TagFormat::Id3v2 => {},
        TagFormat::Flac => {
            return Err(ApplyError::WrongContainer);
        },
    }
    match &tags.extra {
        ExtraTags::Vorbis { comments } => {
            return Err(ApplyError::WrongContainer);
        },
        _ => {},
    }
    let ghost first = tag;
    let mut tag = tag;
    set_common(&mut tag, tags);
    proof {
        lemma_common_ids();
        assert(common_texts(tags@) + Seq::<(Seq<char>, Seq<char>)>::empty() =~= common_texts(
            tags@,
        ));
    }
    match &tags.cover {
        Some(art) => {
            let ghost before = tag;
            if !id3_set_cover(&mut tag, art.mime_type.as_str(), art.data.as_slice()) {
                return Err(ApplyError::UnsupportedCover);
            }
            proof {
                assert(!names(common_texts(tags@), "APIC"@));
                lemma_other_keeps_wanted(before, tag, common_texts(tags@), "APIC"@);
                lemma_position_stays(before, tag, tags@, "APIC"@);
            }
        },
        None => {},
    }
    let ghost covered = tag;
    assert(cover_set(first, covered, tags@));
    assert(untouched_stay(first, covered, Seq::empty()));
    assert(id3_lyrics(covered) == id3_lyrics(first));
    match &tags.extra {
        ExtraTags::Id3 { text_frames, lyrics } => {
            if !set_texts(&mut tag, text_frames, Ghost(tags@)) {
                proof {
                    let i = choose|i: int|
                        0 <= i < text_frames@.len() && !frame_id((#[trigger] text_frames@[i]).0@);
                    assert(!frame_id(extra_texts(tags@)[i].0));
                }
                return Err(ApplyError::InvalidFrame);
            }
            proof {
                assert forall|i: int| 0 <= i < extra_texts(tags@).len() implies frame_id(
                    (#[trigger] extra_texts(tags@)[i]).0,
                ) by {
                    assert(frame_id(text_frames@[i].0@));
                }
                assert forall|other: (Seq<char>, Seq<char>)|
                    !common_id(other.0) && !names(extra_texts(tags@), other.0) implies
                    #[trigger] id3_texts(tag).count(other) == id3_texts(first).count(other) by {
                    assert(!names(Seq::<(Seq<char>, Seq<char>)>::empty(), other.0));
                    assert(id3_texts(tag).count(other) == id3_texts(covered).count(other));
                    assert(id3_texts(covered).count(other) == id3_texts(first).count(other));
                }
            }
            match lyrics {
                Some(frame) => {
                    id3_add_lyrics(
                        &mut tag,
                        frame.lang.as_str(),
                        frame.description.as_str(),
                        frame.text.as_str(),
                    );
                },
                None => {},
            }
        },
        _ => {
            proof {
                assert(extra_texts(tags@) =~= Seq::empty());
            }
        },
    }
    Ok(tag)
}

/// Whatever an ID3v2 tag held, once the tags of an MP3 track are set on it
/// it holds the label as `TCOP`, artist, title and album, and the lyrics
/// where there are some to embed, with empty language and description.
pub proof fn lemma_mp3_track_holds_its_label(
    before: Id3v2Tag,
    after: Id3v2Tag,
    track: TrackView,
    release: ReleaseView,
    quality: Quality,
    date: Option<TagDate>,
    cover: Option<Seq<u8>>,
    lyrics: Option<LyricsView>,
)
    requires
        quality != Quality::Flac,
        id3_set(before, after, track_tags_of(track, release, quality, date, cover, lyrics)),
    ensures
        holds_text(after, ("TCOP"@, release.label)),
        holds_text(after, ("TPE1"@, track.author)),
        holds_text(after, ("TIT2"@, track.name)),
        holds_text(after, ("TALB"@, release.album)),
        holds_text(after, ("TCON"@, track.genre)),
        holds_total(after, release.track_count as u16 as nat),
        embedded_lyrics(lyrics) matches Some(text) ==> id3_lyrics(after).count(
            (Seq::<char>::empty(), Seq::<char>::empty(), text),
        ) > 0,
{
    let tags = track_tags_of(track, release, quality, date, cover, lyrics);
    let wanted = wanted_texts(tags);
    let common = common_texts(tags);
    let extra = extra_texts(tags);
    lemma_common_ids();
    reveal_strlit("TPE1");
    reveal_strlit("TIT2");
    reveal_strlit("TALB");
    reveal_strlit("TRCK");
    reveal_strlit("TCON");
    reveal_strlit("TDRC");
    reveal_strlit("TYER");
    reveal_strlit("TCOP");
    assert("TPE1"@[1] != "TIT2"@[1]);
    assert("TPE1"@[1] != "TALB"@[1]);
    assert("TPE1"@[1] != "TCON"@[1]);
    assert("TPE1"@[1] != "TDRC"@[1]);
    assert("TPE1"@[1] != "TYER"@[1]);
    assert("TPE1"@[1] != "TCOP"@[1]);
    assert("TIT2"@[1] != "TALB"@[1]);
    assert("TIT2"@[1] != "TCON"@[1]);
    assert("TIT2"@[1] != "TDRC"@[1]);
    assert("TIT2"@[1] != "TYER"@[1]);
    assert("TIT2"@[1] != "TCOP"@[1]);
    assert("TALB"@[1] != "TCON"@[1]);
    assert("TALB"@[1] != "TDRC"@[1]);
    assert("TALB"@[1] != "TYER"@[1]);
    assert("TALB"@[1] != "TCOP"@[1]);
    assert("TCON"@[1] != "TDRC"@[1]);
    assert("TCON"@[1] != "TYER"@[1]);
    assert("TCON"@[3] != "TCOP"@[3]);
    assert("TDRC"@[1] != "TYER"@[1]);
    assert("TDRC"@[1] != "TCOP"@[1]);
    assert("TYER"@[1] != "TCOP"@[1]);
    assert("TCOP"@[1] != "TRCK"@[1]);
    assert(extra =~= seq![("TCOP"@, release.label)]);
    assert(common.len() >= 4);
    assert(common[0] == ("TPE1"@, track.author));
    assert(common[1] == ("TIT2"@, track.name));
    assert(common[2] == ("TALB"@, release.album));
    assert(common[3] == ("TCON"@, track.genre));
    assert(forall|j: int| 4 <= j < common.len() ==> (#[trigger] common[j]).0 == "TDRC"@
        || common[j].0 == "TYER"@);
    let n = common.len() as int;
    assert(wanted.len() == n + 1);
    assert(wanted[n] == ("TCOP"@, release.label));
    assert forall|j: int| 0 <= j < n implies #[trigger] wanted[j] == common[j] by {}
    assert(last_under_its_id(wanted, n));
    assert(last_under_its_id(wanted, 0)) by {
        assert forall|j: int| 0 < j < wanted.len() implies (#[trigger] wanted[j]).0
            != wanted[0].0 by {
            if j < n {
                assert(wanted[j] == common[j]);
            }
        }
    }
    assert(last_under_its_id(wanted, 1)) by {
        assert forall|j: int| 1 < j < wanted.len() implies (#[trigger] wanted[j]).0
            != wanted[1].0 by {
            if j < n {
                assert(wanted[j] == common[j]);
            }
        }
    }
    assert(last_under_its_id(wanted, 2)) by {
        assert forall|j: int| 2 < j < wanted.len() implies (#[trigger] wanted[j]).0
            != wanted[2].0 by {
            if j < n {
                assert(wanted[j] == common[j]);
            }
        }
    }
    assert(last_under_its_id(wanted, 3)) by {
        assert forall|j: int| 3 < j < wanted.len() implies (#[trigger] wanted[j]).0
            != wanted[3].0 by {
            if j < n {
                assert(wanted[j] == common[j]);
            }
        }
    }
    assert(holds_text(after, wanted[n]));
    assert(holds_text(after, wanted[0]));
    assert(holds_text(after, wanted[1]));
    assert(holds_text(after, wanted[2]));
    assert(holds_text(after, wanted[3]));
    assert(!names(extra, "TRCK"@));
}

} // verus!
