//! The audio quality tiers and the per-track fallback rule.

use vstd::prelude::*;
use vstd::string::*;

verus! {

/// An audio quality tier that the catalog can serve.
#[derive(Clone, Copy, Debug, PartialEq, Eq, Structural)]
pub enum Quality {
    /// Lossless.
    Flac,
    /// MP3 at 320 kbps.
    MP3High,
    /// MP3 at 128 kbps.
    MP3Mid,
}

impl Quality {
    /// The file extension of the tier.
    pub open spec fn extension_text(self) -> Seq<char> {
        match self {
            Quality::Flac => "flac"@,
            Quality::MP3High | Quality::MP3Mid => "mp3"@,
        }
    }

    /// The name of the tier in requests to the service.
    pub open spec fn wire_text(self) -> Seq<char> {
        match self {
            Quality::Flac => "flac"@,
            Quality::MP3High => "high"@,
            Quality::MP3Mid => "mid"@,
        }
    }

    /// The file extension of audio of this tier: `flac` for lossless audio,
    /// `mp3` for both MP3 tiers.
    pub fn extension(self) -> (ext: String)
        ensures
            ext@ == self.extension_text(),
    {
        let string = match self {
            Quality::Flac => "flac",
            Quality::MP3High | Quality::MP3Mid => "mp3",
        };
        String::from_str(string)
    }

    /// The name under which the service knows this tier: `flac`, `high` or
    /// `mid`. It differs from the file extension.
    pub fn wire_name(self) -> (name: String)
        ensures
            name@ == self.wire_text(),
    {
        let string = match self {
            Quality::Flac => "flac",
            Quality::MP3High => "high",
            Quality::MP3Mid => "mid",
        };
        String::from_str(string)
    }
}

/// The tier that is asked of the service when `requested` was chosen and the
/// track's lossless flag is `has_flac`.
pub open spec fn effective_quality(requested: Quality, has_flac: bool) -> Quality {
    match requested {
        Quality::Flac => if has_flac { Quality::Flac } else { Quality::MP3High },
        Quality::MP3High => Quality::MP3High,
        Quality::MP3Mid => Quality::MP3Mid,
    }
}

/// Picks the tier to download for one track. A lossless request falls back to
/// 320 kbps when the track has no lossless stream; an MP3 request is honoured
/// as it stands and is never upgraded.
pub fn negotiate(requested: Quality, has_flac: bool) -> (effective: Quality)
    ensures
        effective == effective_quality(requested, has_flac),
{
    match requested {
        Quality::Flac => if has_flac { Quality::Flac } else { Quality::MP3High },
        Quality::MP3High => Quality::MP3High,
        Quality::MP3Mid => Quality::MP3Mid,
    }
}

/// Whether the negotiated tier is another than the one asked for, which is
/// told to the operator and changes nothing else.
pub fn fell_back(requested: Quality, effective: Quality) -> (b: bool)
    ensures
        b == (effective != requested),
{
    match (requested, effective) {
        (Quality::Flac, Quality::Flac) => false,
        (Quality::MP3High, Quality::MP3High) => false,
        (Quality::MP3Mid, Quality::MP3Mid) => false,
        _ => true,
    }
}

/// The whole of the negotiation, case by case.
pub proof fn lemma_negotiation_table()
    ensures
        effective_quality(Quality::Flac, true) == Quality::Flac,
        effective_quality(Quality::Flac, false) == Quality::MP3High,
        effective_quality(Quality::MP3High, true) == Quality::MP3High,
        effective_quality(Quality::MP3High, false) == Quality::MP3High,
        effective_quality(Quality::MP3Mid, true) == Quality::MP3Mid,
        effective_quality(Quality::MP3Mid, false) == Quality::MP3Mid,
{
}

/// An MP3 request is never answered with another tier, whatever the track
/// offers: lossless audio is no substitute for it.
pub proof fn lemma_no_upgrade(requested: Quality, has_flac: bool)
    requires
        requested != Quality::Flac,
    ensures
        effective_quality(requested, has_flac) == requested,
{
}

/// The negotiated tier is lossless only where lossless audio was asked for
/// and the track has it.
pub proof fn lemma_lossless_only_on_request(requested: Quality, has_flac: bool)
    ensures
        effective_quality(requested, has_flac) == Quality::Flac <==> (requested == Quality::Flac
            && has_flac),
{
}

} // verus!
