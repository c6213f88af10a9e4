use zvuk_dl::entities::BookChapter;
use zvuk_dl::entities::ConversionError;
use zvuk_dl::entities::ReleaseInfo;
use zvuk_dl::entities::TrackInfo;
use zvuk_dl::models::ZvukBook;
use zvuk_dl::models::ZvukBookAuthor;
use zvuk_dl::models::ZvukGQLBook;
use zvuk_dl::models::ZvukGQLChapter;
use zvuk_dl::models::ZvukGQLImage;
use zvuk_dl::models::ZvukGQLMediaContent;
use zvuk_dl::models::ZvukGQLStream;
use zvuk_dl::models::ZvukImage;
use zvuk_dl::models::ZvukLabel;
use zvuk_dl::models::ZvukRelease;
use zvuk_dl::models::ZvukTrack;
use zvuk_dl::resolver::album_track_ids;
use zvuk_dl::resolver::chapters_from;
use zvuk_dl::resolver::check_counts;
use zvuk_dl::resolver::ids_query;
use zvuk_dl::resolver::label_ids;
use zvuk_dl::resolver::merge_labels;
use zvuk_dl::resolver::release_ids_of;
use zvuk_dl::resolver::releases_from;
use zvuk_dl::resolver::stream_links;
use zvuk_dl::resolver::tracks_from;
use zvuk_dl::resolver::BatchError;
use zvuk_dl::table::find_row;

const MOCK_TRACK_ID: &str = "1";
const MOCK_RELEASE_ID: &str = "99";
const MOCK_BOOK_ID: &str = "00";
const MOCK_CHAPTER_ID: &str = "88";
const MOCK_AUDIO_URL: &str = "http://127.0.0.1:5000/file.flac";
const MOCK_COVER_URL: &str = "http://127.0.0.1:5000/file.jpg";

fn strings(items: &[&str]) -> Vec<String> {
    items.iter().map(|s| s.to_string()).collect()
}

fn mock_track() -> ZvukTrack {
    ZvukTrack {
        credits: String::from("Some artist"),
        genres: Vec::new(),
        has_flac: true,
        id: MOCK_TRACK_ID.parse::<i64>().unwrap(),
        image: ZvukImage { src: String::from(MOCK_COVER_URL) },
        lyrics: Some(true),
        position: 1,
        release_id: MOCK_RELEASE_ID.parse::<i64>().unwrap(),
        release_title: String::from("Some release title"),
        title: String::from("Some track title"),
    }
}

fn mock_release() -> ZvukRelease {
    ZvukRelease {
        credits: String::from("Some artist"),
        date: 1,
        label_id: 1,
        title: String::from("Some release title"),
        track_ids: vec![MOCK_TRACK_ID.parse::<i64>().unwrap()],
    }
}

fn mock_chapter(id: &str, title: &str, position: i64) -> ZvukGQLChapter {
    ZvukGQLChapter {
        id: String::from(id),
        title: String::from(title),
        image: ZvukGQLImage { src: String::from(MOCK_COVER_URL) },
        book: ZvukBook { title: String::from("Some book title") },
        book_authors: vec![ZvukBookAuthor { rname: String::from("Rname") }],
        position,
    }
}

fn mock_books() -> Vec<ZvukGQLBook> {
    vec![ZvukGQLBook {
        title: String::from("Some book title"),
        chapters: vec![mock_chapter(MOCK_CHAPTER_ID, "Some chapter title", 1)],
    }]
}

fn release(label: &str, track_ids: &[&str]) -> ReleaseInfo {
    ReleaseInfo {
        track_ids: strings(track_ids),
        track_count: track_ids.len() as u32,
        label: String::from(label),
        date: String::from("20240115"),
        album: String::from("Some album"),
        author: String::from("Some artist"),
    }
}

fn track(release_id: &str) -> TrackInfo {
    TrackInfo {
        author: String::from("Some artist"),
        name: String::from("Some title"),
        album: String::from("Some album"),
        release_id: String::from(release_id),
        track_id: String::from("1"),
        genre: String::from("Some genre"),
        number: 1,
        image: String::new(),
        lyrics: false,
        has_flac: true,
    }
}

#[test]
fn get_release_info() {
    let result =
        releases_from(vec![(String::from(MOCK_RELEASE_ID), mock_release())]).unwrap();

    let at = find_row(&result, MOCK_RELEASE_ID).unwrap();
    assert_eq!(result[at].1.author, "Some artist");
    assert_eq!(result[at].1.track_ids, &[MOCK_TRACK_ID]);
}

#[test]
fn get_track_metadata() {
    let result = tracks_from(vec![(String::from(MOCK_TRACK_ID), mock_track())]).unwrap();

    let at = find_row(&result, MOCK_TRACK_ID).unwrap();
    assert_eq!(result[at].1.author, "Some artist");
    assert_eq!(result[at].1.track_id, MOCK_TRACK_ID);
}

#[test]
fn get_books_metadata() {
    let _ = MOCK_BOOK_ID;
    let result = chapters_from(mock_books()).unwrap();

    let at = find_row(&result, MOCK_CHAPTER_ID).unwrap();
    assert_eq!(result[at].1.title, "Some chapter title");
}

#[test]
fn get_chapter_links() {
    let result = stream_links(vec![ZvukGQLMediaContent {
        stream: ZvukGQLStream { mid: String::from(MOCK_AUDIO_URL) },
    }]);

    assert_eq!(result[0], MOCK_AUDIO_URL);
}

#[test]
fn identifiers_are_joined_by_commas() {
    assert_eq!(ids_query(&[]), "");
    assert_eq!(ids_query(&strings(&["99"])), "99");
    assert_eq!(ids_query(&strings(&["1", "2", "3"])), "1,2,3");
}

#[test]
fn tracks_keep_keys_and_order() {
    let mut second = mock_track();
    second.id = 2;
    second.position = 2;
    let table = tracks_from(vec![
        (String::from("b"), second),
        (String::from("a"), mock_track()),
    ])
    .unwrap();
    assert_eq!(table.len(), 2);
    assert_eq!(table[0].0, "b");
    assert_eq!(table[0].1.track_id, "2");
    assert_eq!(table[1].0, "a");
    assert_eq!(table[1].1.track_id, "1");
    assert_eq!(tracks_from(Vec::new()), Ok(Vec::new()));
}

#[test]
fn one_bad_track_fails_the_batch() {
    let mut bad = mock_track();
    bad.position = -1;
    assert_eq!(
        tracks_from(vec![(String::from("1"), mock_track()), (String::from("2"), bad)]),
        Err(ConversionError::PositionOutOfRange)
    );
}

#[test]
fn releases_come_with_label_identifiers() {
    let mut other = mock_release();
    other.label_id = 42;
    other.track_ids = vec![5, 6];
    let table = releases_from(vec![
        (String::from("99"), mock_release()),
        (String::from("100"), other),
    ])
    .unwrap();
    assert_eq!(table[0].1.label, "1");
    assert_eq!(table[0].1.track_count, 1);
    assert_eq!(table[1].1.label, "42");
    assert_eq!(table[1].1.track_count, 2);
    assert_eq!(table[1].1.date, "1");
}

#[test]
fn each_label_is_asked_for_once() {
    let releases = vec![
        (String::from("a"), release("7", &[])),
        (String::from("b"), release("3", &[])),
        (String::from("c"), release("7", &[])),
        (String::from("d"), release("3", &[])),
        (String::from("e"), release("1", &[])),
    ];
    assert_eq!(label_ids(&releases), strings(&["7", "3", "1"]));
    assert_eq!(label_ids(&Vec::new()), Vec::<String>::new());
}

#[test]
fn label_titles_are_merged_in() {
    let releases = vec![
        (String::from("a"), release("7", &["1"])),
        (String::from("b"), release("3", &["2", "3"])),
    ];
    let labels = vec![
        (String::from("3"), ZvukLabel { title: String::from("Three Records") }),
        (String::from("7"), ZvukLabel { title: String::from("Seven Music") }),
    ];
    let merged = merge_labels(releases, &labels).unwrap();
    assert_eq!(merged.len(), 2);
    assert_eq!(merged[0].0, "a");
    assert_eq!(merged[0].1, release("Seven Music", &["1"]));
    assert_eq!(merged[1].0, "b");
    assert_eq!(merged[1].1, release("Three Records", &["2", "3"]));
}

#[test]
fn a_missing_label_fails_the_batch() {
    let releases = vec![
        (String::from("a"), release("7", &["1"])),
        (String::from("b"), release("3", &["2"])),
    ];
    let labels = vec![(String::from("7"), ZvukLabel { title: String::from("Seven Music") })];
    assert_eq!(merge_labels(releases, &labels), Err(BatchError::MissingLabel));
    assert_eq!(merge_labels(Vec::new(), &labels), Ok(Vec::new()));
}

#[test]
fn an_album_is_all_tracks_of_its_releases() {
    let releases = vec![
        (String::from("a"), release("7", &["1", "2"])),
        (String::from("b"), release("3", &[])),
        (String::from("c"), release("3", &["3"])),
    ];
    assert_eq!(album_track_ids(&releases), strings(&["1", "2", "3"]));
}

#[test]
fn releases_of_tracks_are_asked_for_once() {
    let tracks = vec![
        (String::from("1"), track("99")),
        (String::from("2"), track("100")),
        (String::from("3"), track("99")),
    ];
    assert_eq!(release_ids_of(&tracks), strings(&["99", "100"]));
}

#[test]
fn counts_must_agree() {
    assert_eq!(check_counts(3, 3), Ok(()));
    assert_eq!(check_counts(0, 0), Ok(()));
    assert_eq!(check_counts(3, 2), Err(BatchError::CountMismatch { metadata: 3, links: 2 }));
    assert_eq!(check_counts(1, 2), Err(BatchError::CountMismatch { metadata: 1, links: 2 }));
}

#[test]
fn chapters_of_all_books_under_their_identifiers() {
    let books = vec![
        ZvukGQLBook {
            title: String::from("One"),
            chapters: vec![mock_chapter("1", "first", 1), mock_chapter("2", "second", 2)],
        },
        ZvukGQLBook { title: String::from("Empty"), chapters: Vec::new() },
        ZvukGQLBook {
            title: String::from("Two"),
            chapters: vec![mock_chapter("1", "first again", 7), mock_chapter("3", "third", 3)],
        },
    ];
    let table = chapters_from(books).unwrap();
    let keys: Vec<&str> = table.iter().map(|row| row.0.as_str()).collect();
    assert_eq!(keys, vec!["1", "2", "3"]);
    assert_eq!(table[0].1.title, "first again");
    assert_eq!(table[0].1.number, 7);
    assert_eq!(table[1].1.title, "second");
    assert_eq!(
        table[2].1,
        BookChapter {
            author: String::from("Rname"),
            book_title: String::from("Some book title"),
            title: String::from("third"),
            image: String::from(MOCK_COVER_URL),
            number: 3,
        }
    );
}

#[test]
fn one_bad_chapter_fails_the_batch() {
    let books = vec![ZvukGQLBook {
        title: String::from("One"),
        chapters: vec![mock_chapter("1", "first", 1), mock_chapter("2", "second", -2)],
    }];
    assert_eq!(chapters_from(books), Err(ConversionError::PositionOutOfRange));
}

#[test]
fn the_first_row_under_a_key_counts() {
    let table = vec![
        (String::from("a"), 1_u8),
        (String::from("b"), 2),
        (String::from("a"), 3),
    ];
    assert_eq!(find_row(&table, "a"), Some(0));
    assert_eq!(find_row(&table, "b"), Some(1));
    assert_eq!(find_row(&table, "c"), None);
    assert_eq!(find_row(&Vec::<(String, u8)>::new(), "a"), None);
}
