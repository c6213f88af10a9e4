//! The names of the directories and files that a download writes.

use vstd::prelude::*;
use vstd::string::*;

use crate::entities::BookChapter;
use crate::entities::ChapterView;
use crate::entities::ReleaseInfo;
use crate::entities::ReleaseView;
use crate::entities::TrackInfo;
use crate::entities::TrackView;
use crate::quality::Quality;
use crate::text::chars_of;
use crate::text::first_chars;
use crate::text::prefix_of;
use crate::text::string_of;
use crate::text::two_digit_string;
use crate::text::two_digits;

verus! {

/// Which characters a file system refuses in a name.
#[derive(Clone, Copy, Debug, PartialEq, Eq, Structural)]
pub enum PathProfile {
    /// Only the slash is refused.
    Unix,
    /// The characters `<>:"/\|?*` are refused.
    Windows,
}

/// Whether `c` may not stand in a file name under `profile`.
pub open spec fn illegal(profile: PathProfile, c: char) -> bool {
    match profile {
        PathProfile::Unix => c == '/',
        PathProfile::Windows => c == '<' || c == '>' || c == ':' || c == '"' || c == '/' || c
            == '\\' || c == '|' || c == '?' || c == '*',
    }
}

/// `name` with an underscore in place of each character that `profile`
/// refuses.
pub open spec fn sanitized(profile: PathProfile, name: Seq<char>) -> Seq<char> {
    name.map_values(
        |c: char|
            if illegal(profile, c) {
                '_'
            } else {
                c
            },
    )
}

fn is_illegal(profile: PathProfile, c: char) -> (b: bool)
    ensures
        b == illegal(profile, c),
{
    match profile {
        PathProfile::Unix => c == '/',
        PathProfile::Windows => c == '<' || c == '>' || c == ':' || c == '"' || c == '/' || c
            == '\\' || c == '|' || c == '?' || c == '*',
    }
}

/// Replaces by an underscore each character of `path` that `profile` refuses
/// in a file name. The length stays, and every other character stays where
/// it is.
pub fn sanitize_with(profile: PathProfile, path: &str) -> (name: String)
    ensures
        name@ == sanitized(profile, path@),
{
    let text = chars_of(path);
    let mut out: Vec<char> = Vec::new();
    let mut i: usize = 0;
    while i < text.len()
        invariant
            i <= text.len(),
            text@ == path@,
            out@ == sanitized(profile, path@).take(i as int),
        decreases text.len() - i,
    {
        let c = text[i];
        proof {
            assert(sanitized(profile, path@).take(i + 1) =~= sanitized(profile, path@).take(
                i as int,
            ).push(
                if illegal(profile, c) {
                    '_'
                } else {
                    c
                },
            ));
        }
        if is_illegal(profile, c) {
            out.push('_');
        } else {
            out.push(c);
        }
        i = i + 1;
    }
    assert(sanitized(profile, path@).take(text.len() as int) =~= sanitized(profile, path@));
    string_of(out.as_slice())
}

/// Replaces each slash of `path` by an underscore, which makes it a file
/// name wherever only the slash is refused.
pub fn sanitize_path(path: &str) -> (name: String)
    ensures
        name@ == sanitized(PathProfile::Unix, path@),
{
    sanitize_with(PathProfile::Unix, path)
}

/// The name of the cover file in each directory.
pub open spec fn cover_file() -> Seq<char> {
    "cover.jpg"@
}

/// The name of a release's directory before it is sanitized: artist, album,
/// and in brackets the first four characters of the date.
pub open spec fn release_directory_raw(release: ReleaseView) -> Seq<char> {
    release.author + " - "@ + release.album + " ("@ + prefix_of(release.date, 4) + ")"@
}

/// The name of the directory of `release` under `profile`.
pub open spec fn release_directory(profile: PathProfile, release: ReleaseView) -> Seq<char> {
    sanitized(profile, release_directory_raw(release))
}

/// The name of an audio file before it is sanitized: the position in two
/// places, the title, and the extension.
pub open spec fn audio_file_raw(number: nat, title: Seq<char>, extension: Seq<char>) -> Seq<char> {
    two_digits(number) + " - "@ + title + "."@ + extension
}

/// The name of the audio file of `track` at `quality` under `profile`.
pub open spec fn track_file(profile: PathProfile, track: TrackView, quality: Quality) -> Seq<
    char,
> {
    sanitized(profile, audio_file_raw(track.number, track.name, quality.extension_text()))
}

/// The name of a book's directory before it is sanitized: authors and title.
pub open spec fn chapter_directory_raw(chapter: ChapterView) -> Seq<char> {
    chapter.author + " - "@ + chapter.book_title
}

/// The name of the directory of the book of `chapter` under `profile`.
pub open spec fn chapter_directory(profile: PathProfile, chapter: ChapterView) -> Seq<char> {
    sanitized(profile, chapter_directory_raw(chapter))
}

/// The name of the audio file of `chapter` under `profile`; chapters come at
/// the lower MP3 tier.
pub open spec fn chapter_file(profile: PathProfile, chapter: ChapterView) -> Seq<char> {
    sanitized(
        profile,
        audio_file_raw(chapter.number, chapter.title, Quality::MP3Mid.extension_text()),
    )
}

/// The name of the directory that holds the tracks of `release`:
/// `artist - album (year)`, sanitized, the year being the first four
/// characters of the release date.
pub fn release_directory_name(profile: PathProfile, release: &ReleaseInfo) -> (name: String)
    ensures
        name@ == release_directory(profile, release@),
{
    let mut raw = release.author.clone();
    raw.append(" - ");
    raw.append(release.album.as_str());
    raw.append(" (");
    let year = first_chars(release.date.as_str(), 4);
    raw.append(year.as_str());
    raw.append(")");
    sanitize_with(profile, raw.as_str())
}

fn audio_file_name(profile: PathProfile, number: u32, title: &str, extension: &str) -> (name:
    String)
    ensures
        name@ == sanitized(profile, audio_file_raw(number as nat, title@, extension@)),
{
    let mut raw = two_digit_string(number);
    raw.append(" - ");
    raw.append(title);
    raw.append(".");
    raw.append(extension);
    sanitize_with(profile, raw.as_str())
}

/// The name of the audio file of `track` at `quality`:
/// `NN - title.extension`, sanitized.
pub fn track_file_name(profile: PathProfile, track: &TrackInfo, quality: Quality) -> (name: String)
    ensures
        name@ == track_file(profile, track@, quality),
{
    let extension = quality.extension();
    audio_file_name(profile, track.number, track.name.as_str(), extension.as_str())
}

/// The name of the directory that holds the chapters of a book:
/// `authors - title`, sanitized.
pub fn chapter_directory_name(profile: PathProfile, chapter: &BookChapter) -> (name: String)
    ensures
        name@ == chapter_directory(profile, chapter@),
{
    let mut raw = chapter.author.clone();
    raw.append(" - ");
    raw.append(chapter.book_title.as_str());
    sanitize_with(profile, raw.as_str())
}

/// The name of the audio file of `chapter`: `NN - title.mp3`, sanitized.
pub fn chapter_file_name(profile: PathProfile, chapter: &BookChapter) -> (name: String)
    ensures
        name@ == chapter_file(profile, chapter@),
{
    let extension = Quality::MP3Mid.extension();
    audio_file_name(profile, chapter.number, chapter.title.as_str(), extension.as_str())
}

/// A sanitized name has the length of the name it was made from and holds
/// no character that the profile refuses.
pub proof fn lemma_sanitized_is_clean(profile: PathProfile, name: Seq<char>)
    ensures
        sanitized(profile, name).len() == name.len(),
        forall|i: int| 0 <= i < name.len() ==> !illegal(profile, sanitized(profile, name)[i]),
{
}

/// Sanitizing a sanitized name changes nothing.
pub proof fn lemma_sanitized_twice(profile: PathProfile, name: Seq<char>)
    ensures
        sanitized(profile, sanitized(profile, name)) == sanitized(profile, name),
{
    assert(sanitized(profile, sanitized(profile, name)) =~= sanitized(profile, name));
}

} // verus!
