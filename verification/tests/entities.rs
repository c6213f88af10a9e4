use zvuk_dl::entities::BookChapter;
use zvuk_dl::entities::ConversionError;
use zvuk_dl::entities::Lyrics;
use zvuk_dl::entities::LyricsKind;
use zvuk_dl::entities::ReleaseInfo;
use zvuk_dl::entities::TrackInfo;
use zvuk_dl::models::ZvukBook;
use zvuk_dl::models::ZvukBookAuthor;
use zvuk_dl::models::ZvukGQLChapter;
use zvuk_dl::models::ZvukGQLImage;
use zvuk_dl::models::ZvukImage;
use zvuk_dl::models::ZvukLyrics;
use zvuk_dl::models::ZvukRelease;
use zvuk_dl::models::ZvukTrack;

fn wire_release(track_ids: Vec<i64>) -> ZvukRelease {
    ZvukRelease {
        credits: String::from("Some artist"),
        date: 20240115,
        label_id: 7,
        title: String::from("Some release title"),
        track_ids,
    }
}

fn wire_track(position: i64) -> ZvukTrack {
    ZvukTrack {
        credits: String::from("Some artist"),
        genres: vec![String::from("rock"), String::from("indie")],
        has_flac: true,
        id: 128672726,
        image: ZvukImage { src: String::from("https://cdn/pic?id=5&size={size}&ext=jpg") },
        lyrics: Some(true),
        position,
        release_id: 29970563,
        release_title: String::from("Some release title"),
        title: String::from("Some track title"),
    }
}

fn wire_chapter(position: i64, authors: &[&str]) -> ZvukGQLChapter {
    ZvukGQLChapter {
        id: String::from("88"),
        title: String::from("Some chapter title"),
        image: ZvukGQLImage { src: String::from("https://cdn/book.jpg") },
        book: ZvukBook { title: String::from("Some book title") },
        book_authors: authors.iter().map(|a| ZvukBookAuthor { rname: a.to_string() }).collect(),
        position,
    }
}

#[test]
fn release_from_the_wire() {
    let release = ReleaseInfo::try_from(wire_release(vec![1, 22, -3])).unwrap();
    assert_eq!(
        release,
        ReleaseInfo {
            track_ids: vec![String::from("1"), String::from("22"), String::from("-3")],
            track_count: 3,
            label: String::from("7"),
            date: String::from("20240115"),
            album: String::from("Some release title"),
            author: String::from("Some artist"),
        }
    );
}

#[test]
fn release_counts_the_tracks_it_lists() {
    for n in [0_usize, 1, 2, 17] {
        let ids: Vec<i64> = (0..n as i64).collect();
        let release = ReleaseInfo::try_from(wire_release(ids)).unwrap();
        assert_eq!(release.track_count as usize, n);
        assert_eq!(release.track_ids.len(), n);
    }
}

#[test]
fn track_from_the_wire() {
    let track = TrackInfo::try_from(wire_track(3)).unwrap();
    assert_eq!(
        track,
        TrackInfo {
            author: String::from("Some artist"),
            name: String::from("Some track title"),
            album: String::from("Some release title"),
            release_id: String::from("29970563"),
            track_id: String::from("128672726"),
            genre: String::from("rock, indie"),
            number: 3,
            image: String::from("https://cdn/pic?id=5"),
            lyrics: true,
            has_flac: true,
        }
    );
}

#[test]
fn track_without_a_lyrics_flag_has_no_lyrics() {
    let mut wire = wire_track(1);
    wire.lyrics = None;
    assert!(!TrackInfo::try_from(wire).unwrap().lyrics);
    let mut wire = wire_track(1);
    wire.lyrics = Some(false);
    assert!(!TrackInfo::try_from(wire).unwrap().lyrics);
}

#[test]
fn track_genres_and_cover_edge_cases() {
    let mut wire = wire_track(1);
    wire.genres = Vec::new();
    wire.image.src = String::from("&size={size}&ext=jpgX&size={size}&ext=jpg");
    wire.has_flac = false;
    let track = TrackInfo::try_from(wire).unwrap();
    assert_eq!(track.genre, "");
    assert_eq!(track.image, "X");
    assert!(!track.has_flac);
}

#[test]
fn track_position_must_fit() {
    assert_eq!(TrackInfo::try_from(wire_track(-1)), Err(ConversionError::PositionOutOfRange));
    assert_eq!(
        TrackInfo::try_from(wire_track(u32::MAX as i64 + 1)),
        Err(ConversionError::PositionOutOfRange)
    );
    assert_eq!(TrackInfo::try_from(wire_track(i64::MIN)), Err(ConversionError::PositionOutOfRange));
    assert_eq!(TrackInfo::try_from(wire_track(0)).unwrap().number, 0);
    assert_eq!(TrackInfo::try_from(wire_track(u32::MAX as i64)).unwrap().number, u32::MAX);
}

#[test]
fn lyrics_from_the_wire() {
    let lyrics = Lyrics::try_from(ZvukLyrics {
        lyrics: String::from("mocked lyrics"),
        type_: String::from("lyrics"),
    })
    .unwrap();
    assert_eq!(lyrics, Lyrics { kind: LyricsKind::Lyrics, text: String::from("mocked lyrics") });
    let subtitle = Lyrics::try_from(ZvukLyrics {
        lyrics: String::from("[00:01] la"),
        type_: String::from("subtitle"),
    })
    .unwrap();
    assert_eq!(subtitle.kind, LyricsKind::Subtitle);
    for other in ["", "Subtitle", "subtitles", "anything"] {
        let lyrics =
            Lyrics::try_from(ZvukLyrics { lyrics: String::new(), type_: String::from(other) })
                .unwrap();
        assert_eq!(lyrics, Lyrics { kind: LyricsKind::Lyrics, text: String::new() });
    }
}

#[test]
fn chapter_from_the_wire() {
    let chapter = BookChapter::try_from(wire_chapter(1, &["Rname", "Other"])).unwrap();
    assert_eq!(
        chapter,
        BookChapter {
            author: String::from("Rname, Other"),
            book_title: String::from("Some book title"),
            title: String::from("Some chapter title"),
            image: String::from("https://cdn/book.jpg"),
            number: 1,
        }
    );
    assert_eq!(BookChapter::try_from(wire_chapter(2, &[])).unwrap().author, "");
    assert_eq!(BookChapter::try_from(wire_chapter(2, &["Solo"])).unwrap().author, "Solo");
}

#[test]
fn chapter_position_must_fit() {
    assert_eq!(
        BookChapter::try_from(wire_chapter(-7, &["Rname"])),
        Err(ConversionError::PositionOutOfRange)
    );
    assert_eq!(
        BookChapter::try_from(wire_chapter(4294967296, &["Rname"])),
        Err(ConversionError::PositionOutOfRange)
    );
}
