use zvuk_dl::quality::fell_back;
use zvuk_dl::quality::negotiate;
use zvuk_dl::Quality;

#[test]
fn negotiation_follows_the_table() {
    assert_eq!(negotiate(Quality::Flac, true), Quality::Flac);
    assert_eq!(negotiate(Quality::Flac, false), Quality::MP3High);
    assert_eq!(negotiate(Quality::MP3High, true), Quality::MP3High);
    assert_eq!(negotiate(Quality::MP3High, false), Quality::MP3High);
    assert_eq!(negotiate(Quality::MP3Mid, true), Quality::MP3Mid);
    assert_eq!(negotiate(Quality::MP3Mid, false), Quality::MP3Mid);
}

#[test]
fn extensions_of_the_tiers() {
    assert_eq!(Quality::Flac.extension(), "flac");
    assert_eq!(Quality::MP3High.extension(), "mp3");
    assert_eq!(Quality::MP3Mid.extension(), "mp3");
}

#[test]
fn wire_names_of_the_tiers() {
    assert_eq!(Quality::Flac.wire_name(), "flac");
    assert_eq!(Quality::MP3High.wire_name(), "high");
    assert_eq!(Quality::MP3Mid.wire_name(), "mid");
}

#[test]
fn fallback_is_told_apart_from_a_direct_hit() {
    assert!(!fell_back(Quality::Flac, negotiate(Quality::Flac, true)));
    assert!(fell_back(Quality::Flac, negotiate(Quality::Flac, false)));
    assert!(!fell_back(Quality::MP3High, negotiate(Quality::MP3High, true)));
    assert!(!fell_back(Quality::MP3Mid, negotiate(Quality::MP3Mid, false)));
    assert!(fell_back(Quality::MP3Mid, Quality::MP3High));
}
