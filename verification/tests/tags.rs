use zvuk_dl::entities::BookChapter;
use zvuk_dl::entities::Lyrics;
use zvuk_dl::entities::LyricsKind;
use zvuk_dl::entities::ReleaseInfo;
use zvuk_dl::entities::TrackInfo;
use zvuk_dl::tags::chapter_tags;
use zvuk_dl::tags::release_date;
use zvuk_dl::tags::tag_date;
use zvuk_dl::tags::tag_format;
use zvuk_dl::tags::write_tags;
use zvuk_dl::tags::write_tags_with;
use zvuk_dl::tags::CoverArt;
use zvuk_dl::tags::ExtraTags;
use zvuk_dl::tags::LyricsFrame;
use zvuk_dl::tags::TagDate;
use zvuk_dl::tags::TagError;
use zvuk_dl::tags::TagFormat;
use zvuk_dl::tags::TagSet;
use zvuk_dl::Quality;

fn release(date: &str, track_count: u32) -> ReleaseInfo {
    ReleaseInfo {
        track_ids: vec![String::from("1")],
        track_count,
        label: String::from("Some label"),
        date: String::from(date),
        album: String::from("Some release title"),
        author: String::from("Some artist"),
    }
}

fn track(number: u32) -> TrackInfo {
    TrackInfo {
        author: String::from("Some track artist"),
        name: String::from("Some track title"),
        album: String::from("Some album"),
        release_id: String::from("99"),
        track_id: String::from("1"),
        genre: String::from("rock, indie"),
        number,
        image: String::new(),
        lyrics: true,
        has_flac: true,
    }
}

fn pair(key: &str, value: &str) -> (String, String) {
    (String::from(key), String::from(value))
}

fn jpeg(data: &[u8]) -> Option<CoverArt> {
    Some(CoverArt { mime_type: String::from("image/jpeg"), data: data.to_vec() })
}

fn lyrics(text: &str) -> Lyrics {
    Lyrics { kind: LyricsKind::Lyrics, text: String::from(text) }
}

#[test]
fn containers_of_the_tiers() {
    assert_eq!(tag_format(Quality::Flac), TagFormat::Flac);
    assert_eq!(tag_format(Quality::MP3High), TagFormat::Id3v2);
    assert_eq!(tag_format(Quality::MP3Mid), TagFormat::Id3v2);
}

#[test]
fn a_release_date_is_read_as_year_month_day() {
    assert_eq!(
        release_date("20240115"),
        Some(TagDate { year: 2024, month: Some(1), day: Some(15) })
    );
    assert_eq!(
        release_date("19991231"),
        Some(TagDate { year: 1999, month: Some(12), day: Some(31) })
    );
    assert_eq!(
        release_date("20240229"),
        Some(TagDate { year: 2024, month: Some(2), day: Some(29) })
    );
}

#[test]
fn an_unreadable_release_date_gives_no_date() {
    for date in ["", "1", "0", "2024", "202401", "20241301", "20240230", "20230229", "2024-01-15", "abcdefgh", "20240115x"] {
        assert_eq!(release_date(date), None, "{}", date);
    }
}

#[test]
fn month_and_day_that_do_not_fit_are_left_out() {
    assert_eq!(tag_date(None), None);
    assert_eq!(
        tag_date(Some((2024, 1, 15))),
        Some(TagDate { year: 2024, month: Some(1), day: Some(15) })
    );
    assert_eq!(
        tag_date(Some((-44, 255, 256))),
        Some(TagDate { year: -44, month: Some(255), day: None })
    );
    assert_eq!(
        tag_date(Some((1, u32::MAX, 0))),
        Some(TagDate { year: 1, month: None, day: Some(0) })
    );
}

#[test]
fn tags_of_a_lossless_track() {
    let tags = write_tags(
        &track(1),
        &release("20240115", 12),
        Quality::Flac,
        Some(vec![0xff, 0xd8, 0xff]),
        Some(&lyrics("mocked lyrics")),
    );
    assert_eq!(
        tags,
        Ok(TagSet {
            format: TagFormat::Flac,
            artist: String::from("Some track artist"),
            title: String::from("Some track title"),
            album_title: String::from("Some release title"),
            track_number: 1,
            total_tracks: Some(12),
            genre: Some(String::from("rock, indie")),
            date: Some(TagDate { year: 2024, month: Some(1), day: Some(15) }),
            year: Some(2024),
            cover: jpeg(&[0xff, 0xd8, 0xff]),
            extra: ExtraTags::Vorbis {
                comments: vec![
                    pair("COPYRIGHT", "Some label"),
                    pair("RELEASE_ID", "99"),
                    pair("TRACK_ID", "1"),
                    pair("LYRICS", "mocked lyrics"),
                ],
            },
        })
    );
}

#[test]
fn tags_of_an_mp3_track() {
    for quality in [Quality::MP3High, Quality::MP3Mid] {
        let tags = write_tags(&track(7), &release("1", 9), quality, None, None).unwrap();
        assert_eq!(
            tags,
            TagSet {
                format: TagFormat::Id3v2,
                artist: String::from("Some track artist"),
                title: String::from("Some track title"),
                album_title: String::from("Some release title"),
                track_number: 7,
                total_tracks: Some(9),
                genre: Some(String::from("rock, indie")),
                date: None,
                year: None,
                cover: None,
                extra: ExtraTags::Id3 {
                    text_frames: vec![pair("TCOP", "Some label")],
                    lyrics: None,
                },
            }
        );
    }
    let with_lyrics =
        write_tags(&track(7), &release("1", 9), Quality::MP3High, None, Some(&lyrics("la la")))
            .unwrap();
    assert_eq!(
        with_lyrics.extra,
        ExtraTags::Id3 {
            text_frames: vec![pair("TCOP", "Some label")],
            lyrics: Some(LyricsFrame {
                lang: String::new(),
                description: String::new(),
                text: String::from("la la"),
            }),
        }
    );
}

#[test]
fn empty_lyrics_are_not_embedded() {
    let flac =
        write_tags(&track(1), &release("20240115", 1), Quality::Flac, None, Some(&lyrics("")))
            .unwrap();
    assert_eq!(
        flac.extra,
        ExtraTags::Vorbis {
            comments: vec![
                pair("COPYRIGHT", "Some label"),
                pair("RELEASE_ID", "99"),
                pair("TRACK_ID", "1"),
            ],
        }
    );
    let mp3 =
        write_tags(&track(1), &release("20240115", 1), Quality::MP3Mid, None, Some(&lyrics("")))
            .unwrap();
    assert_eq!(
        mp3.extra,
        ExtraTags::Id3 { text_frames: vec![pair("TCOP", "Some label")], lyrics: None }
    );
}

#[test]
fn numbers_above_what_a_tag_holds_are_refused() {
    assert_eq!(
        write_tags(&track(65536), &release("20240115", 1), Quality::Flac, None, None),
        Err(TagError::TrackNumberTooLarge)
    );
    assert_eq!(
        write_tags(&track(1), &release("20240115", 65536), Quality::MP3High, None, None),
        Err(TagError::TrackCountTooLarge)
    );
    assert_eq!(
        write_tags(&track(70000), &release("20240115", 70000), Quality::MP3High, None, None),
        Err(TagError::TrackNumberTooLarge)
    );
    let edge = write_tags(&track(65535), &release("20240115", 65535), Quality::Flac, None, None)
        .unwrap();
    assert_eq!(edge.track_number, 65535);
    assert_eq!(edge.total_tracks, Some(65535));
}

#[test]
fn the_date_is_taken_as_given() {
    let date = Some(TagDate { year: 1980, month: None, day: Some(3) });
    let tags =
        write_tags_with(&track(1), &release("garbage", 1), Quality::Flac, date, None, None)
            .unwrap();
    assert_eq!(tags.date, date);
    assert_eq!(tags.year, Some(1980));
    let none =
        write_tags_with(&track(1), &release("20240115", 1), Quality::Flac, None, None, None)
            .unwrap();
    assert_eq!(none.date, None);
    assert_eq!(none.year, None);
}

#[test]
fn tags_of_a_chapter() {
    let chapter = BookChapter {
        author: String::from("Some book author"),
        book_title: String::from("Some book title"),
        title: String::from("Some chapter title"),
        image: String::new(),
        number: 3,
    };
    assert_eq!(
        chapter_tags(&chapter, Some(vec![1, 2, 3])),
        Ok(TagSet {
            format: TagFormat::Id3v2,
            artist: String::from("Some book author"),
            title: String::from("Some chapter title"),
            album_title: String::from("Some book title"),
            track_number: 3,
            total_tracks: None,
            genre: None,
            date: None,
            year: None,
            cover: jpeg(&[1, 2, 3]),
            extra: ExtraTags::Plain,
        })
    );
    let far = BookChapter { number: 65536, ..chapter };
    assert_eq!(chapter_tags(&far, None), Err(TagError::TrackNumberTooLarge));
}
