//! Setting a tag set on the tags of a file. The tags are held by the
//! `audiotags` crate, Vorbis comments through `metaflac` and ID3v2 frames
//! through `id3`; what each call does to them is stated here as those crates
//! do it.

pub mod flac;
pub mod id3v2;

use audiotags::FlacTag;
use audiotags::Id3v2Tag;
use vstd::prelude::*;
use vstd::string::*;

use crate::tagging::flac::apply_flac;
use crate::tagging::flac::cover_after;
use crate::tagging::flac::flac_after;
use crate::tagging::flac::flac_cover;
use crate::tagging::flac::flac_new;
use crate::tagging::flac::flac_obstacle;
use crate::tagging::flac::no_comments;
use crate::tagging::flac::vorbis_comments;
use crate::tagging::id3v2::apply_id3;
use crate::tagging::id3v2::id3_cover;
use crate::tagging::id3v2::id3_lyrics;
use crate::tagging::id3v2::id3_new;
use crate::tagging::id3v2::id3_obstacle;
use crate::tagging::id3v2::id3_set;
use crate::tagging::id3v2::id3_texts;
use crate::tagging::id3v2::no_lyrics;
use crate::tagging::id3v2::no_texts;
use crate::tags::TagFormat;
use crate::tags::TagSet;
use crate::tags::TagSetView;
use crate::tags::TagStart;
use crate::text::decimal_digits;
use crate::text::two_digits;

verus! {

/// The decimal text of `n` in at least `width` places, filled up with zeros
/// after the sign, as the format `{:0width}` writes a number.
pub open spec fn zero_padded(n: int, width: nat) -> Seq<char> {
    if n < 0 {
        seq!['-'] + zeros((width - 1 - decimal_digits((-n) as nat).len()) as int) + decimal_digits(
            (-n) as nat,
        )
    } else {
        zeros((width - decimal_digits(n as nat).len()) as int) + decimal_digits(n as nat)
    }
}

/// `count` zeros, none for a count below one.
pub open spec fn zeros(count: int) -> Seq<char> {
    if count <= 0 {
        Seq::empty()
    } else {
        Seq::new(count as nat, |i: int| '0')
    }
}

/// The text of a date as a tag holds it: the year in four places, then the
/// month and the day in two places each, as far as they are given, with
/// hyphens between them.
pub open spec fn timestamp_text(year: i32, month: Option<u8>, day: Option<u8>) -> Seq<char> {
    match month {
        None => zero_padded(year as int, 4),
        Some(m) => match day {
            None => zero_padded(year as int, 4) + seq!['-'] + two_digits(m as nat),
            Some(d) => zero_padded(year as int, 4) + seq!['-'] + two_digits(m as nat) + seq!['-']
                + two_digits(d as nat),
        },
    }
}

/// Why a tag set could not be set on the tags of a file.
#[derive(Clone, Copy, Debug, PartialEq, Eq, Structural)]
pub enum ApplyError {
    /// The tag set is for the other container.
    WrongContainer,
    /// The media type of the cover is none that a tag can hold.
    UnsupportedCover,
    /// The identifier of a frame is not made of four ASCII characters.
    InvalidFrame,
}

/// Whether `mime_type` is a media type that a cover can have.
pub open spec fn supported_mime(mime_type: Seq<char>) -> bool {
    mime_type == "image/jpeg"@ || mime_type == "image/png"@ || mime_type == "image/tiff"@
        || mime_type == "image/bmp"@ || mime_type == "image/gif"@
}

/// The tags of a file, in the container of its format.
pub enum TagContainer {
    /// Vorbis comments and pictures of a FLAC file.
    Flac(FlacTag),
    /// ID3v2 frames of an MP3 file.
    Id3v2(Id3v2Tag),
}

impl TagContainer {
    /// The format that the container is of.
    pub open spec fn format_of(self) -> TagFormat {
        match self {
            TagContainer::Flac(_) => TagFormat::Flac,
            TagContainer::Id3v2(_) => TagFormat::Id3v2,
        }
    }

    /// Whether the container holds nothing.
    pub open spec fn is_empty(self) -> bool {
        match self {
            TagContainer::Flac(tag) => vorbis_comments(tag) == no_comments() && flac_cover(tag)
                is None,
            TagContainer::Id3v2(tag) => id3_texts(tag) == no_texts() && id3_lyrics(tag)
                == no_lyrics() && id3_cover(tag) is None,
        }
    }

    /// The format that the container is of.
    pub fn format(&self) -> (format: TagFormat)
        ensures
            format == self.format_of(),
    {
        match self {
            TagContainer::Flac(_) => TagFormat::Flac,
            TagContainer::Id3v2(_) => TagFormat::Id3v2,
        }
    }

    /// A container of `format` that holds nothing.
    pub fn empty(format: TagFormat) -> (container: TagContainer)
        ensures
            container.format_of() == format,
            container.is_empty(),
    {
        match format {
            TagFormat::Flac => TagContainer::Flac(flac_new()),
            TagFormat::Id3v2 => TagContainer::Id3v2(id3_new()),
        }
    }

    /// The container that a tag set is set on: the tags that were read from
    /// the file where the fields are to be set on those and they are of
    /// `format`, else a container of `format` that holds nothing.
    pub fn started(start: TagStart, format: TagFormat, loaded: Option<TagContainer>) -> (container:
        TagContainer)
        ensures
            container.format_of() == format,
            match loaded {
                Some(tags) if start == TagStart::Loaded && tags.format_of() == format => container
                    == tags,
                _ => container.is_empty(),
            },
    {
        match start {
            TagStart::Loaded => match loaded {
                Some(tags) => {
                    match (&tags, format) {
                        (TagContainer::Flac(_), TagFormat::Flac) => tags,
                        (TagContainer::Id3v2(_), TagFormat::Id3v2) => tags,
                        _ => TagContainer::empty(format),
                    }
                },
                None => TagContainer::empty(format),
            },
            TagStart::Empty => TagContainer::empty(format),
        }
    }

    /// What stands in the way of setting `tags` on the container, if
    /// anything.
    pub open spec fn obstacle(self, tags: TagSetView) -> Option<ApplyError> {
        match self {
            TagContainer::Flac(_) => flac_obstacle(tags),
            TagContainer::Id3v2(_) => id3_obstacle(tags),
        }
    }

    /// Whether `out` is what the container becomes when `tags` is set on it.
    pub open spec fn set_to(self, out: TagContainer, tags: TagSetView) -> bool {
        match (self, out) {
            (TagContainer::Flac(before), TagContainer::Flac(after)) => vorbis_comments(after)
                == flac_after(vorbis_comments(before), tags) && flac_cover(after) == cover_after(
                flac_cover(before),
                tags,
            ),
            (TagContainer::Id3v2(before), TagContainer::Id3v2(after)) => id3_set(
                before,
                after,
                tags,
            ),
            _ => false,
        }
    }

    /// Sets every field of `tags` on the container and hands it back. Fails
    /// where `tags` is for the other container, its cover has a media type
    /// that no tag can hold, or the identifier of one of its frames is not
    /// made of four ASCII characters.
    pub fn apply(self, tags: &TagSet) -> (r: Result<TagContainer, ApplyError>)
        ensures
            match self.obstacle(tags@) {
                Some(e) => r matches Err(error) && error == e,
                None => r matches Ok(out) && self.set_to(out, tags@),
            },
    {
        match self {
            TagContainer::Flac(tag) => match apply_flac(tag, tags) {
                Ok(out) => Ok(TagContainer::Flac(out)),
                Err(e) => Err(e),
            },
            TagContainer::Id3v2(tag) => match apply_id3(tag, tags) {
                Ok(out) => Ok(TagContainer::Id3v2(out)),
                Err(e) => Err(e),
            },
        }
    }
}

} // verus!
