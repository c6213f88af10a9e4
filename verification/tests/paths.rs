use zvuk_dl::entities::BookChapter;
use zvuk_dl::entities::ReleaseInfo;
use zvuk_dl::entities::TrackInfo;
use zvuk_dl::paths::chapter_directory_name;
use zvuk_dl::paths::chapter_file_name;
use zvuk_dl::paths::release_directory_name;
use zvuk_dl::paths::sanitize_path;
use zvuk_dl::paths::sanitize_with;
use zvuk_dl::paths::track_file_name;
use zvuk_dl::paths::PathProfile;
use zvuk_dl::Quality;

fn release(author: &str, album: &str, date: &str) -> ReleaseInfo {
    ReleaseInfo {
        track_ids: vec![String::from("1")],
        track_count: 1,
        label: String::from("Some label"),
        date: String::from(date),
        album: String::from(album),
        author: String::from(author),
    }
}

fn track(number: u32, name: &str) -> TrackInfo {
    TrackInfo {
        author: String::from("Some artist"),
        name: String::from(name),
        album: String::from("Some album"),
        release_id: String::from("99"),
        track_id: String::from("1"),
        genre: String::from("Some genre"),
        number,
        image: String::new(),
        lyrics: false,
        has_flac: true,
    }
}

#[test]
fn slashes_become_underscores() {
    assert_eq!(sanitize_path("AC/DC"), "AC_DC");
    assert_eq!(sanitize_path("a/b/c"), "a_b_c");
    assert_eq!(sanitize_path("/"), "_");
    assert_eq!(sanitize_path(""), "");
    assert_eq!(sanitize_path("no slash: <>\"\\|?*"), "no slash: <>\"\\|?*");
    assert_eq!(sanitize_path("a/b"), "a/b".replace(['/'], "_"));
}

#[test]
fn the_other_profile_replaces_more() {
    let name = "a<b>c:d\"e/f\\g|h?i*j";
    assert_eq!(sanitize_with(PathProfile::Windows, name), "a_b_c_d_e_f_g_h_i_j");
    assert_eq!(
        sanitize_with(PathProfile::Windows, name),
        name.replace(['<', '>', ':', '"', '/', '\\', '|', '?', '*'], "_")
    );
    assert_eq!(sanitize_with(PathProfile::Unix, name), "a<b>c:d\"e_f\\g|h?i*j");
}

#[test]
fn sanitizing_twice_changes_nothing_more() {
    for name in ["AC/DC", "a<b>c", "plain", "//"] {
        for profile in [PathProfile::Unix, PathProfile::Windows] {
            let once = sanitize_with(profile, name);
            assert_eq!(sanitize_with(profile, &once), once);
            assert_eq!(once.chars().count(), name.chars().count());
        }
    }
}

#[test]
fn directory_of_a_release() {
    assert_eq!(
        release_directory_name(PathProfile::Unix, &release("Some artist", "Some release title", "20240115")),
        "Some artist - Some release title (2024)"
    );
    assert_eq!(
        release_directory_name(PathProfile::Unix, &release("Some artist", "Some release title", "1")),
        "Some artist - Some release title (1)"
    );
    assert_eq!(
        release_directory_name(PathProfile::Unix, &release("AC/DC", "Back in Black", "19800725")),
        "AC_DC - Back in Black (1980)"
    );
    assert_eq!(
        release_directory_name(PathProfile::Windows, &release("Who?", "What: a story", "19991231")),
        "Who_ - What_ a story (1999)"
    );
}

#[test]
fn file_of_a_track() {
    assert_eq!(
        track_file_name(PathProfile::Unix, &track(1, "Some track title"), Quality::Flac),
        "01 - Some track title.flac"
    );
    assert_eq!(
        track_file_name(PathProfile::Unix, &track(12, "Either/Or"), Quality::MP3High),
        "12 - Either_Or.mp3"
    );
    assert_eq!(
        track_file_name(PathProfile::Unix, &track(100, "Long"), Quality::MP3Mid),
        "100 - Long.mp3"
    );
}

#[test]
fn directory_and_file_of_a_chapter() {
    let chapter = BookChapter {
        author: String::from("Some book author, Another"),
        book_title: String::from("Some book/title"),
        title: String::from("Some chapter title"),
        image: String::new(),
        number: 1,
    };
    assert_eq!(
        chapter_directory_name(PathProfile::Unix, &chapter),
        "Some book author, Another - Some book_title"
    );
    assert_eq!(chapter_file_name(PathProfile::Unix, &chapter), "01 - Some chapter title.mp3");
}
