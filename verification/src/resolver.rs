//! Metadata resolution: what is asked of the catalog, and what its answers
//! become. A batch is all or nothing: one record that cannot be converted
//! fails the whole answer.

use vstd::prelude::*;
use vstd::string::*;

use crate::entities::chapter_of;
use crate::entities::position_in_range;
use crate::entities::release_of;
use crate::entities::track_of;
use crate::entities::BookChapter;
use crate::entities::ChapterView;
use crate::entities::ConversionError;
use crate::entities::ReleaseInfo;
use crate::entities::ReleaseView;
use crate::entities::TrackInfo;
use crate::entities::TrackView;
use crate::models::ZvukGQLBook;
use crate::models::ZvukGQLChapter;
use crate::models::ZvukGQLMediaContent;
use crate::models::ZvukLabel;
use crate::models::ZvukRelease;
use crate::models::ZvukTrack;
use crate::table::find_row;
use crate::table::index_of;
use crate::table::keys;
use crate::table::rows;
use crate::text::join;
use crate::text::join_strings;
use crate::text::views;

verus! {

/// The separator of a batched identifier list.
pub open spec fn id_separator() -> Seq<char> {
    ","@
}

/// The value of the `ids` parameter for a batch: the identifiers joined by
/// commas.
pub fn ids_query(ids: &[String]) -> (query: String)
    ensures
        query@ == join(views(ids@), id_separator()),
{
    join_strings(ids, ",")
}

/// The rows that the tracks answer `answer` stands for.
pub open spec fn tracks_of(answer: Seq<(String, ZvukTrack)>) -> Seq<(Seq<char>, TrackView)> {
    answer.map_values(|row: (String, ZvukTrack)| (row.0@, track_of(row.1)))
}

/// Whether every track of `answer` can be converted.
pub open spec fn tracks_convertible(answer: Seq<(String, ZvukTrack)>) -> bool {
    forall|i: int| 0 <= i < answer.len() ==> position_in_range((#[trigger] answer[i]).1.position)
}

/// Turns the tracks of one answer into a table of tracks under the same keys
/// and in the same order. Fails where one of them cannot be converted.
pub fn tracks_from(answer: Vec<(String, ZvukTrack)>) -> (r: Result<
    Vec<(String, TrackInfo)>,
    ConversionError,
>)
    ensures
        r is Ok <==> tracks_convertible(answer@),
        r matches Ok(table) ==> rows(table@) == tracks_of(answer@),
        r matches Err(e) ==> e == ConversionError::PositionOutOfRange,
{
    let mut table: Vec<(String, TrackInfo)> = Vec::new();
    for row in it: answer
        invariant
            it.seq() == answer@,
            rows(table@) == tracks_of(answer@).take(it.index() as int),
            forall|i: int|
                0 <= i < it.index() ==> position_in_range((#[trigger] answer@[i]).1.position),
    {
        let ghost seen = rows(table@);
        let (key, value) = row;
        match TrackInfo::try_from(value) {
            Ok(track) => {
                proof {
                    assert(rows(table@.push((key, track))) =~= seen.push((key@, track@)));
                    assert(tracks_of(answer@).take(it.index() + 1) =~= tracks_of(answer@).take(
                        it.index() as int,
                    ).push((key@, track_of(value))));
                }
                table.push((key, track));
            },
            Err(e) => {
                return Err(e);
            },
        }
    }
    assert(tracks_of(answer@).take(answer@.len() as int) =~= tracks_of(answer@));
    Ok(table)
}

/// The rows that the releases answer `answer` stands for.
pub open spec fn releases_of(answer: Seq<(String, ZvukRelease)>) -> Seq<(Seq<char>, ReleaseView)> {
    answer.map_values(|row: (String, ZvukRelease)| (row.0@, release_of(row.1)))
}

/// Whether every release of `answer` can be converted.
pub open spec fn releases_convertible(answer: Seq<(String, ZvukRelease)>) -> bool {
    forall|i: int| 0 <= i < answer.len() ==> (#[trigger] answer[i]).1.track_ids@.len() <= u32::MAX
}

/// Whether every release of `table` counts as many tracks as it lists.
pub open spec fn releases_wf(table: Seq<(String, ReleaseInfo)>) -> bool {
    forall|i: int| 0 <= i < table.len() ==> (#[trigger] table[i]).1.wf()
}

/// Turns the releases of one answer into a table of releases under the same
/// keys and in the same order, each with its label's identifier in place of
/// the label. Fails where one of them cannot be converted.
pub fn releases_from(answer: Vec<(String, ZvukRelease)>) -> (r: Result<
    Vec<(String, ReleaseInfo)>,
    ConversionError,
>)
    ensures
        r is Ok <==> releases_convertible(answer@),
        r matches Ok(table) ==> rows(table@) == releases_of(answer@) && releases_wf(table@),
        r matches Err(e) ==> e == ConversionError::TrackCountOverflow,
{
    let mut table: Vec<(String, ReleaseInfo)> = Vec::new();
    for row in it: answer
        invariant
            it.seq() == answer@,
            rows(table@) == releases_of(answer@).take(it.index() as int),
            releases_wf(table@),
            forall|i: int|
                0 <= i < it.index() ==> (#[trigger] answer@[i]).1.track_ids@.len() <= u32::MAX,
    {
        let ghost seen = rows(table@);
        let (key, value) = row;
        match ReleaseInfo::try_from(value) {
            Ok(release) => {
                proof {
                    assert(rows(table@.push((key, release))) =~= seen.push((key@, release@)));
                    assert(releases_of(answer@).take(it.index() + 1) =~= releases_of(
                        answer@,
                    ).take(it.index() as int).push((key@, release_of(value))));
                }
                table.push((key, release));
            },
            Err(e) => {
                return Err(e);
            },
        }
    }
    assert(releases_of(answer@).take(answer@.len() as int) =~= releases_of(answer@));
    Ok(table)
}

/// The items of `items` without repetition, each at its first occurrence.
pub open spec fn dedup(items: Seq<Seq<char>>) -> Seq<Seq<char>>
    decreases items.len(),
{
    if items.len() == 0 {
        Seq::empty()
    } else {
        let before = dedup(items.drop_last());
        if before.contains(items.last()) {
            before
        } else {
            before.push(items.last())
        }
    }
}

/// Whether `item` is among `items`.
fn holds(items: &Vec<String>, item: &String) -> (b: bool)
    ensures
        b == views(items@).contains(item@),
{
    let mut i: usize = 0;
    while i < items.len()
        invariant
            i <= items.len(),
            forall|j: int| 0 <= j < i ==> views(items@)[j] != item@,
        decreases items.len() - i,
    {
        if items[i] == *item {
            assert(views(items@)[i as int] == item@);
            return true;
        }
        i = i + 1;
    }
    false
}

/// Adds `item` to `items` unless it is there already.
fn add_once(items: &mut Vec<String>, item: String, Ghost(seen): Ghost<Seq<Seq<char>>>)
    requires
        views(old(items)@) == dedup(seen),
    ensures
        views(final(items)@) == dedup(seen.push(item@)),
{
    assert(seen.push(item@).drop_last() =~= seen);
    if !holds(items, &item) {
        assert(views(items@.push(item)) =~= views(items@).push(item@));
        items.push(item);
    }
}

/// The label identifiers of `releases`, in order.
pub open spec fn labels_of(releases: Seq<(Seq<char>, ReleaseView)>) -> Seq<Seq<char>> {
    releases.map_values(|row: (Seq<char>, ReleaseView)| row.1.label)
}

/// The identifiers of the labels that `releases` refer to, each once, in the
/// order in which they first occur.
pub fn label_ids(releases: &Vec<(String, ReleaseInfo)>) -> (ids: Vec<String>)
    ensures
        views(ids@) == dedup(labels_of(rows(releases@))),
{
    let mut ids: Vec<String> = Vec::new();
    let mut i: usize = 0;
    while i < releases.len()
        invariant
            i <= releases.len(),
            views(ids@) == dedup(labels_of(rows(releases@)).take(i as int)),
        decreases releases.len() - i,
    {
        let label = releases[i].1.label.clone();
        proof {
            assert(labels_of(rows(releases@)).take(i + 1) =~= labels_of(rows(releases@)).take(
                i as int,
            ).push(label@));
        }
        add_once(&mut ids, label, Ghost(labels_of(rows(releases@)).take(i as int)));
        i = i + 1;
    }
    assert(labels_of(rows(releases@)).take(releases.len() as int) =~= labels_of(rows(releases@)));
    ids
}

/// The release identifiers of `tracks`, in order.
pub open spec fn release_refs(tracks: Seq<(Seq<char>, TrackView)>) -> Seq<Seq<char>> {
    tracks.map_values(|row: (Seq<char>, TrackView)| row.1.release_id)
}

/// The identifiers of the releases that `tracks` belong to, each once, in the
/// order in which they first occur.
pub fn release_ids_of(tracks: &Vec<(String, TrackInfo)>) -> (ids: Vec<String>)
    ensures
        views(ids@) == dedup(release_refs(rows(tracks@))),
{
    let mut ids: Vec<String> = Vec::new();
    let mut i: usize = 0;
    while i < tracks.len()
        invariant
            i <= tracks.len(),
            views(ids@) == dedup(release_refs(rows(tracks@)).take(i as int)),
        decreases tracks.len() - i,
    {
        let id = tracks[i].1.release_id.clone();
        proof {
            assert(release_refs(rows(tracks@)).take(i + 1) =~= release_refs(rows(tracks@)).take(
                i as int,
            ).push(id@));
        }
        add_once(&mut ids, id, Ghost(release_refs(rows(tracks@)).take(i as int)));
        i = i + 1;
    }
    assert(release_refs(rows(tracks@)).take(tracks.len() as int) =~= release_refs(rows(tracks@)));
    ids
}

/// The track identifiers of all of `releases`, release after release.
pub open spec fn track_ids_of(releases: Seq<(Seq<char>, ReleaseView)>) -> Seq<Seq<char>>
    decreases releases.len(),
{
    if releases.len() == 0 {
        Seq::empty()
    } else {
        track_ids_of(releases.drop_last()) + releases.last().1.track_ids
    }
}

/// The identifiers of every track of `releases`: an album download is the
/// download of all tracks of its releases.
pub fn album_track_ids(releases: &Vec<(String, ReleaseInfo)>) -> (ids: Vec<String>)
    ensures
        views(ids@) == track_ids_of(rows(releases@)),
{
    let mut ids: Vec<String> = Vec::new();
    let mut i: usize = 0;
    while i < releases.len()
        invariant
            i <= releases.len(),
            views(ids@) == track_ids_of(rows(releases@).take(i as int)),
        decreases releases.len() - i,
    {
        let ghost before = views(ids@);
        let release = &releases[i].1;
        let mut j: usize = 0;
        while j < release.track_ids.len()
            invariant
                j <= release.track_ids.len(),
                views(ids@) == before + views(release.track_ids@).take(j as int),
            decreases release.track_ids.len() - j,
        {
            let id = release.track_ids[j].clone();
            proof {
                assert(views(ids@.push(id)) =~= views(ids@).push(id@));
                assert(views(release.track_ids@).take(j + 1) =~= views(release.track_ids@).take(
                    j as int,
                ).push(id@));
            }
            ids.push(id);
            j = j + 1;
        }
        proof {
            assert(views(release.track_ids@).take(release.track_ids.len() as int) =~= views(
                release.track_ids@,
            ));
            assert(rows(releases@).take(i + 1).drop_last() =~= rows(releases@).take(i as int));
        }
        i = i + 1;
    }
    assert(rows(releases@).take(releases.len() as int) =~= rows(releases@));
    ids
}

/// Why a batch was given up as a whole.
#[derive(Clone, Copy, Debug, PartialEq, Eq, Structural)]
pub enum BatchError {
    /// The request to an endpoint failed, or its answer could not be decoded.
    Transport(Endpoint),
    /// A record of an answer could not be converted.
    Conversion(Endpoint, ConversionError),
    /// A release refers to a label that the labels answer does not hold.
    MissingLabel,
    /// The books answer holds no books.
    NoBookInfo,
    /// The streams answer holds no media contents.
    NoMediaContents,
    /// Download links were resolved for another number of items than there
    /// is metadata for.
    CountMismatch { metadata: usize, links: usize },
    /// A track has metadata and no download link.
    NoLink,
    /// An answer does not fit the request that was made.
    UnexpectedAnswer,
}

/// The endpoints of the catalog.
#[derive(Clone, Copy, Debug, PartialEq, Eq, Structural)]
pub enum Endpoint {
    Releases,
    Labels,
    Tracks,
    Links,
    Lyrics,
    Books,
    Streams,
}

/// The keys and titles of the labels answer `labels`.
pub open spec fn label_titles(labels: Seq<(String, ZvukLabel)>) -> Seq<(Seq<char>, Seq<char>)> {
    labels.map_values(|row: (String, ZvukLabel)| (row.0@, row.1.title@))
}

/// The release `release` with `label` for its label.
pub open spec fn with_label(release: ReleaseView, label: Seq<char>) -> ReleaseView {
    ReleaseView {
        track_ids: release.track_ids,
        track_count: release.track_count,
        label,
        date: release.date,
        album: release.album,
        author: release.author,
    }
}

/// Whether `labels` holds the label of every release of `releases`.
pub open spec fn labels_known(
    releases: Seq<(Seq<char>, ReleaseView)>,
    labels: Seq<Seq<char>>,
) -> bool {
    forall|i: int|
        0 <= i < releases.len() ==> index_of(labels, (#[trigger] releases[i]).1.label) is Some
}

/// The row `row` with the title of its label, looked up in `labels`, in place
/// of the label's identifier.
pub open spec fn labelled(row: (Seq<char>, ReleaseView), labels: Seq<(Seq<char>, Seq<char>)>) -> (
    Seq<char>,
    ReleaseView,
) {
    match index_of(crate::table::row_keys(labels), row.1.label) {
        Some(i) => (row.0, with_label(row.1, labels[i].1)),
        None => row,
    }
}

/// The releases `releases` with the titles of their labels filled in.
pub open spec fn merged(
    releases: Seq<(Seq<char>, ReleaseView)>,
    labels: Seq<(Seq<char>, Seq<char>)>,
) -> Seq<(Seq<char>, ReleaseView)> {
    releases.map_values(|row: (Seq<char>, ReleaseView)| labelled(row, labels))
}

/// Fills the label titles of the labels answer into the releases, which hold
/// the labels' identifiers until then. Fails, and leaves no release usable,
/// where the answer lacks the label of one of them.
pub fn merge_labels(releases: Vec<(String, ReleaseInfo)>, labels: &Vec<(String, ZvukLabel)>) -> (r:
    Result<Vec<(String, ReleaseInfo)>, BatchError>)
    ensures
        r is Ok <==> labels_known(rows(releases@), keys(labels@)),
        r matches Ok(table) ==> rows(table@) == merged(rows(releases@), label_titles(labels@)) && (
        releases_wf(releases@) ==> releases_wf(table@)),
        r matches Err(e) ==> e == BatchError::MissingLabel,
{
    let mut table: Vec<(String, ReleaseInfo)> = Vec::new();
    let ghost titles = label_titles(labels@);
    proof {
        assert(crate::table::row_keys(titles) =~= keys(labels@));
    }
    for row in it: releases
        invariant
            it.seq() == releases@,
            titles == label_titles(labels@),
            crate::table::row_keys(titles) == keys(labels@),
            releases_wf(releases@) ==> releases_wf(table@),
            rows(table@) == merged(rows(releases@), titles).take(it.index() as int),
            forall|i: int|
                0 <= i < it.index() ==> index_of(
                    keys(labels@),
                    (#[trigger] rows(releases@)[i]).1.label,
                ) is Some,
    {
        let ghost seen = rows(table@);
        let ghost at = it.index() as int;
        let (key, release) = row;
        assert(rows(releases@)[at] == (key@, release@));
        assert(releases_wf(releases@) ==> releases@[at].1.wf());
        match find_row(labels, release.label.as_str()) {
            Some(i) => {
                let named = ReleaseInfo {
                    track_ids: release.track_ids,
                    track_count: release.track_count,
                    label: labels[i].1.title.clone(),
                    date: release.date,
                    album: release.album,
                    author: release.author,
                };
                proof {
                    assert(titles[i as int].1 == labels@[i as int].1.title@);
                    assert(named@ == with_label(release@, titles[i as int].1));
                    assert(rows(table@.push((key, named))) =~= seen.push((key@, named@)));
                    assert(merged(rows(releases@), titles).take(at + 1) =~= merged(
                        rows(releases@),
                        titles,
                    ).take(at).push(labelled((key@, release@), titles)));
                }
                table.push((key, named));
            },
            None => {
                return Err(BatchError::MissingLabel);
            },
        }
    }
    assert(merged(rows(releases@), titles).take(releases@.len() as int) =~= merged(
        rows(releases@),
        titles,
    ));
    Ok(table)
}

/// Holds the number of resolved links against the number of items that
/// there is metadata for: a batch in which an item has silently gone is given
/// up as a whole.
pub fn check_counts(metadata: usize, links: usize) -> (r: Result<(), BatchError>)
    ensures
        r is Ok <==> metadata == links,
        r matches Err(e) ==> e == (BatchError::CountMismatch { metadata, links }),
{
    if metadata != links {
        Err(BatchError::CountMismatch { metadata, links })
    } else {
        Ok(())
    }
}

/// The chapters of all of `books`, book after book.
pub open spec fn chapters_in(books: Seq<ZvukGQLBook>) -> Seq<ZvukGQLChapter>
    decreases books.len(),
{
    if books.len() == 0 {
        Seq::empty()
    } else {
        chapters_in(books.drop_last()) + books.last().chapters@
    }
}

/// The table `table` with `value` under `key`: in place of the row that is
/// under `key` already, or else as a new last row.
pub open spec fn upsert(table: Seq<(Seq<char>, ChapterView)>, key: Seq<char>, value: ChapterView)
    -> Seq<(Seq<char>, ChapterView)> {
    match index_of(crate::table::row_keys(table), key) {
        Some(i) => table.update(i, (key, value)),
        None => table.push((key, value)),
    }
}

/// The table of the chapters `chapters`, each under its identifier; of two
/// chapters with one identifier the later one stays.
pub open spec fn chapter_table(chapters: Seq<ZvukGQLChapter>) -> Seq<(Seq<char>, ChapterView)>
    decreases chapters.len(),
{
    if chapters.len() == 0 {
        Seq::empty()
    } else {
        upsert(
            chapter_table(chapters.drop_last()),
            chapters.last().id@,
            chapter_of(chapters.last()),
        )
    }
}

/// Whether every chapter of `chapters` can be converted.
pub open spec fn chapters_convertible(chapters: Seq<ZvukGQLChapter>) -> bool {
    forall|i: int| 0 <= i < chapters.len() ==> position_in_range((#[trigger] chapters[i]).position)
}

/// Turns the books of one answer into a table of their chapters, each under
/// its identifier. Fails where one chapter cannot be converted.
pub fn chapters_from(books: Vec<ZvukGQLBook>) -> (r: Result<
    Vec<(String, BookChapter)>,
    ConversionError,
>)
    ensures
        r is Ok <==> chapters_convertible(chapters_in(books@)),
        r matches Ok(table) ==> rows(table@) == chapter_table(chapters_in(books@)),
        r matches Err(e) ==> e == ConversionError::PositionOutOfRange,
{
    let mut table: Vec<(String, BookChapter)> = Vec::new();
    for book in outer: books
        invariant
            outer.seq() == books@,
            rows(table@) == chapter_table(chapters_in(books@.take(outer.index() as int))),
            chapters_convertible(chapters_in(books@.take(outer.index() as int))),
    {
        let ghost done = chapters_in(books@.take(outer.index() as int));
        let ghost all = book.chapters@;
        proof {
            assert(books@.take(outer.index() + 1).drop_last() =~= books@.take(
                outer.index() as int,
            ));
            assert(done + all.take(0) =~= done);
        }
        for chapter in inner: book.chapters
            invariant
                inner.seq() == all,
                rows(table@) == chapter_table(done + all.take(inner.index() as int)),
                chapters_convertible(done + all.take(inner.index() as int)),
                chapters_in(books@.take(outer.index() + 1)) == done + all,
                0 <= outer.index() < books@.len(),
        {
            let ghost seen = rows(table@);
            let ghost now = done + all.take(inner.index() as int);
            let ghost next = done + all.take(inner.index() + 1);
            proof {
                assert(next.drop_last() =~= now);
                assert(next.last() == chapter);
            }
            let key = chapter.id.clone();
            match BookChapter::try_from(chapter) {
                Ok(converted) => {
                    proof {
                        crate::table::lemma_row_keys(table@);
                        assert forall|i: int| 0 <= i < next.len() implies position_in_range(
                            (#[trigger] next[i]).position,
                        ) by {
                            if i < now.len() {
                                assert(next[i] == now[i]);
                            }
                        }
                    }
                    match find_row(&table, key.as_str()) {
                        Some(i) => {
                            proof {
                                assert(rows(table@.update(i as int, (key, converted)))
                                    =~= seen.update(i as int, (key@, converted@)));
                            }
                            table.set(i, (key, converted));
                        },
                        None => {
                            proof {
                                assert(rows(table@.push((key, converted))) =~= seen.push(
                                    (key@, converted@),
                                ));
                            }
                            table.push((key, converted));
                        },
                    }
                },
                Err(e) => {
                    proof {
                        lemma_chapters_in_prefix(books@, outer.index() + 1);
                        let whole = chapters_in(books@);
                        let at = next.len() - 1;
                        assert(whole[at] == next[at]);
                    }
                    return Err(e);
                },
            }
        }
        proof {
            assert(all.take(all.len() as int) =~= all);
        }
    }
    assert(books@.take(books@.len() as int) =~= books@);
    Ok(table)
}

/// The chapters of the first `n` books are the first chapters of all books.
proof fn lemma_chapters_in_prefix(books: Seq<ZvukGQLBook>, n: int)
    requires
        0 <= n <= books.len(),
    ensures
        chapters_in(books.take(n)).len() <= chapters_in(books).len(),
        forall|i: int|
            0 <= i < chapters_in(books.take(n)).len() ==> chapters_in(books)[i] == chapters_in(
                books.take(n),
            )[i],
    decreases books.len() - n,
{
    if n == books.len() {
        assert(books.take(n) =~= books);
    } else {
        lemma_chapters_in_prefix(books, n + 1);
        assert(books.take(n + 1).drop_last() =~= books.take(n));
    }
}

/// The stream URLs of `contents`, in order.
pub open spec fn streams_of(contents: Seq<ZvukGQLMediaContent>) -> Seq<Seq<char>> {
    contents.map_values(|c: ZvukGQLMediaContent| c.stream.mid@)
}

/// The download links of an audiobook streams answer, in its order.
pub fn stream_links(contents: Vec<ZvukGQLMediaContent>) -> (links: Vec<String>)
    ensures
        views(links@) == streams_of(contents@),
{
    let mut links: Vec<String> = Vec::new();
    for content in it: contents
        invariant
            it.seq() == contents@,
            views(links@) == streams_of(contents@).take(it.index() as int),
    {
        proof {
            assert(views(links@.push(content.stream.mid)) =~= views(links@).push(
                content.stream.mid@,
            ));
            assert(streams_of(contents@).take(it.index() + 1) =~= streams_of(contents@).take(
                it.index() as int,
            ).push(content.stream.mid@));
        }
        links.push(content.stream.mid);
    }
    assert(streams_of(contents@).take(contents@.len() as int) =~= streams_of(contents@));
    links
}

/// Whether a release counts as many tracks as it lists.
pub open spec fn counts_its_tracks(release: ReleaseView) -> bool {
    release.track_count == release.track_ids.len()
}

/// Every release that is made from an answer counts the tracks it lists,
/// and filling in the labels leaves that so.
pub proof fn lemma_releases_count_their_tracks(
    answer: Seq<(String, ZvukRelease)>,
    labels: Seq<(Seq<char>, Seq<char>)>,
)
    ensures
        forall|i: int|
            0 <= i < answer.len() ==> counts_its_tracks((#[trigger] releases_of(answer)[i]).1),
        forall|i: int|
            0 <= i < answer.len() ==> counts_its_tracks(
                (#[trigger] merged(releases_of(answer), labels)[i]).1,
            ),
{
}

/// The identifiers that `dedup` keeps are the ones that occur, and none is
/// kept twice.
pub proof fn lemma_dedup(items: Seq<Seq<char>>)
    ensures
        forall|item: Seq<char>| dedup(items).contains(item) <==> items.contains(item),
        forall|i: int, j: int| 0 <= i < j < dedup(items).len() ==> dedup(items)[i] != dedup(items)[j],
    decreases items.len(),
{
    if items.len() > 0 {
        let before = dedup(items.drop_last());
        lemma_dedup(items.drop_last());
        assert forall|item: Seq<char>| dedup(items).contains(item) <==> items.contains(item) by {
            if items.contains(item) {
                let k = choose|k: int| 0 <= k < items.len() && items[k] == item;
                if k < items.len() - 1 {
                    assert(items.drop_last()[k] == item);
                    assert(items.drop_last().contains(item));
                    assert(before.contains(item));
                    let m = choose|m: int| 0 <= m < before.len() && before[m] == item;
                    assert(dedup(items)[m] == item);
                } else {
                    if before.contains(item) {
                    } else {
                        assert(dedup(items)[before.len() as int] == item);
                    }
                }
            }
            if dedup(items).contains(item) {
                let m = choose|m: int| 0 <= m < dedup(items).len() && dedup(items)[m] == item;
                if m < before.len() {
                    assert(before[m] == item);
                    assert(before.contains(item));
                    assert(items.drop_last().contains(item));
                    let k = choose|k: int|
                        0 <= k < items.drop_last().len() && items.drop_last()[k] == item;
                    assert(items[k] == item);
                } else {
                    assert(items[items.len() - 1] == item);
                }
            }
        }
        assert forall|i: int, j: int| 0 <= i < j < dedup(items).len() implies dedup(items)[i]
            != dedup(items)[j] by {
            if j == before.len() {
                assert(before[i] == dedup(items)[i]);
                assert(before.contains(before[i]));
            }
        }
    }
}

} // verus!
