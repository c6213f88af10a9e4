//! What holds of every run: of the link count, of the tier of each track,
//! and of failures that stay with their track.

use vstd::prelude::*;
use vstd::string::*;

use crate::client::ClientView;
use crate::job::model::job_step;
use crate::job::ItemView;
use crate::job::JobNextView;
use crate::models::ZvukGQLMediaContent;
use crate::protocol::NextView;
use crate::protocol::NoticeView;
use crate::protocol::RequestView;
use crate::protocol::Response;
use crate::quality::effective_quality;
use crate::resolver::label_titles;
use crate::resolver::labels_known;
use crate::resolver::merged;
use crate::resolver::tracks_convertible;
use crate::resolver::tracks_of;
use crate::resolver::BatchError;
use crate::session::model::advance;
use crate::session::model::after_links;
use crate::session::model::fresh_job;
use crate::session::model::next_job;
use crate::session::model::next_link;
use crate::session::model::no_release_notice;
use crate::session::model::outcome_notices;
use crate::session::model::pause_request;
use crate::session::model::start;
use crate::session::model::track_item;
use crate::session::SessionView;
use crate::session::Stage;
use crate::table::index_of;
use crate::table::keys;
use crate::table::lemma_index_of;
use crate::table::row_keys;

verus! {

/// A batch of tracks with fewer links than tracks is given up as a whole,
/// with the two counts in the error: no track of it is taken up.
pub proof fn lemma_missing_link_gives_up_batch(s: SessionView, notices: Seq<NoticeView>)
    requires
        s.links.len() < s.tracks.len() <= usize::MAX,
    ensures
        after_links(s, notices).1.next == NextView::Finished(
            Err(
                BatchError::CountMismatch {
                    metadata: s.tracks.len() as usize,
                    links: s.links.len() as usize,
                },
            ),
        ),
        after_links(s, notices).0.stage == Stage::Over,
{
}

/// A link request that fails leaves the track without a link, and the run
/// goes on to the pause and the next track; the count of links then falls
/// short of the count of tracks.
pub proof fn lemma_failed_link_is_missing(s: SessionView)
    requires
        s.stage == Stage::Link,
        s.cursor < s.tracks.len(),
    ensures
        advance(s, Response::Failed).0.links == s.links,
        advance(s, Response::Failed).0.stage == Stage::LinkPause,
        advance(s, Response::Failed).1.next == NextView::Ask(pause_request(s.client)),
{
}

/// A batch of chapters with another number of streams than chapters is
/// given up as a whole.
pub proof fn lemma_missing_stream_gives_up_batch(
    s: SessionView,
    contents: Vec<ZvukGQLMediaContent>,
)
    requires
        s.stage == Stage::Streams,
        contents@.len() != s.chapters.len(),
        s.chapters.len() <= usize::MAX,
    ensures
        advance(s, Response::Streams(Some(contents))).1.next == NextView::Finished(
            Err(
                BatchError::CountMismatch {
                    metadata: s.chapters.len() as usize,
                    links: contents@.len() as usize,
                },
            ),
        ),
{
}

/// Every link request is for the tier that is negotiated for its own track:
/// a lossless request asks for lossless audio exactly for the tracks that
/// have it, and an MP3 request asks for that MP3 tier for every track.
pub proof fn lemma_link_request_is_negotiated(s: SessionView, notices: Seq<NoticeView>)
    requires
        s.cursor < s.tracks.len(),
    ensures
        next_link(s, notices).1.next == NextView::Ask(
            RequestView::Link {
                url: s.client.zvuk_download_url,
                quality: effective_quality(
                    s.client.quality,
                    s.tracks[s.cursor as int].1.has_flac,
                ).wire_text(),
                id: s.tracks[s.cursor as int].0,
            },
        ),
{
}

/// The failure of the work on one track does not end the run: the next
/// track is taken up, or the next batch after the last track.
pub proof fn lemma_item_failure_is_isolated(s: SessionView, response: Response)
    requires
        s.stage == Stage::TrackJob,
        s.cursor < s.tracks.len(),
        s.link_at < s.links.len(),
        s.release_at < s.releases.len(),
        job_step(
            s.client,
            track_item(s),
            s.links[s.link_at as int].1.0,
            s.job,
            response,
        ).1.next is Over,
    ensures
        advance(s, response) == next_job(
            SessionView {
                job: job_step(
                    s.client,
                    track_item(s),
                    s.links[s.link_at as int].1.0,
                    s.job,
                    response,
                ).0,
                cursor: s.cursor + 1,
                ..s
            },
            job_step(
                s.client,
                track_item(s),
                s.links[s.link_at as int].1.0,
                s.job,
                response,
            ).1.notices + outcome_notices(
                s.tracks[s.cursor as int].0,
                job_step(
                    s.client,
                    track_item(s),
                    s.links[s.link_at as int].1.0,
                    s.job,
                    response,
                ).1.next->Over_0,
            ),
        ),
{
}

/// Once the run is over it stays over: nothing more is asked.
pub proof fn lemma_over_is_final(s: SessionView, response: Response)
    requires
        s.stage == Stage::Over,
    ensures
        advance(s, response).0.stage == Stage::Over,
        advance(s, response).1.next is Finished,
{
}

/// Whether the first `n` tracks have their links: there are `n` links, the
/// link at each position is under the key of the track at that position, and
/// it is for the tier that is negotiated for that track.
pub open spec fn links_cover(s: SessionView, n: nat) -> bool {
    &&& s.links.len() == n
    &&& n <= s.tracks.len()
    &&& forall|i: int|
        0 <= i < n ==> (#[trigger] s.links[i]).0 == s.tracks[i].0 && s.links[i].1.1
            == effective_quality(s.client.quality, s.tracks[i].1.has_flac)
}

/// What holds of the links in every state that a run reaches. While links
/// are resolved there are at most as many links as tracks were asked about,
/// and if there are as many, they cover those tracks. Once the count was
/// held against the tracks, the links cover all tracks.
pub open spec fn links_follow_tracks(s: SessionView) -> bool {
    match s.stage {
        Stage::Link => s.cursor < s.tracks.len() && s.links.len() <= s.cursor && (s.links.len()
            == s.cursor ==> links_cover(s, s.cursor)),
        Stage::LinkPause => s.cursor < s.tracks.len() && s.links.len() <= s.cursor + 1 && (
        s.links.len() == s.cursor + 1 ==> links_cover(s, s.cursor + 1)),
        Stage::TrackReleases | Stage::TrackLabels | Stage::TrackJob => links_cover(
            s,
            s.tracks.len(),
        ),
        _ => true,
    }
}

/// A run begins in a state in which the links follow the tracks.
pub proof fn lemma_links_follow_tracks_at_start(
    client: ClientView,
    release_ids: Seq<Seq<char>>,
    track_ids: Seq<Seq<char>>,
    book_ids: Seq<Seq<char>>,
    notices: Seq<NoticeView>,
)
    ensures
        links_follow_tracks(start(client, release_ids, track_ids, book_ids, notices).0),
{
}

/// Every step keeps the links following the tracks.
pub proof fn lemma_links_follow_tracks_is_kept(s: SessionView, response: Response)
    requires
        links_follow_tracks(s),
    ensures
        links_follow_tracks(advance(s, response).0),
{
    let after = advance(s, response).0;
    match s.stage {
        Stage::Link => {
            match response {
                Response::Link(answer) => {
                    if s.links.len() == s.cursor {
                        assert(links_cover(after, s.cursor + 1)) by {
                            assert forall|i: int| 0 <= i < s.cursor + 1 implies (
                            #[trigger] after.links[i]).0 == after.tracks[i].0 && after.links[i].1.1
                                == effective_quality(
                                after.client.quality,
                                after.tracks[i].1.has_flac,
                            ) by {
                                if i < s.cursor {
                                    assert(after.links[i] == s.links[i]);
                                }
                            }
                        }
                    }
                },
                _ => {},
            }
        },
        Stage::LinkPause => {
            match response {
                Response::Done => {
                    let moved = SessionView { cursor: s.cursor + 1, ..s };
                    if s.links.len() == s.cursor + 1 {
                        assert(links_cover(moved, moved.cursor));
                    }
                    lemma_after_links_keeps(moved, Seq::empty());
                },
                _ => {},
            }
        },
        Stage::Tracks => {
            match response {
                Response::Tracks(answer) => {
                    if tracks_convertible(answer@) {
                        let fresh = SessionView {
                            tracks: tracks_of(answer@),
                            links: Seq::empty(),
                            cursor: 0,
                            ..s
                        };
                        assert(links_cover(fresh, 0));
                        lemma_after_links_keeps(fresh, Seq::empty());
                    }
                },
                _ => {},
            }
        },
        Stage::TrackReleases => {},
        Stage::TrackLabels => {
            match response {
                Response::Labels(answer) => {
                    if labels_known(s.releases, keys(answer@)) {
                        let with = SessionView {
                            releases: merged(s.releases, label_titles(answer@)),
                            cursor: 0,
                            ..s
                        };
                        assert(links_cover(with, with.tracks.len()));
                        lemma_next_job_keeps(with, Seq::empty());
                    }
                },
                _ => {},
            }
        },
        Stage::TrackJob => {
            if s.cursor < s.tracks.len() && s.link_at < s.links.len() && s.release_at
                < s.releases.len() {
                let (job, turn) = job_step(
                    s.client,
                    track_item(s),
                    s.links[s.link_at as int].1.0,
                    s.job,
                    response,
                );
                match turn.next {
                    JobNextView::Ask(_) => {
                        assert(links_cover(SessionView { job, ..s }, s.tracks.len()));
                    },
                    JobNextView::Over(result) => {
                        let moved = SessionView { job, cursor: s.cursor + 1, ..s };
                        assert(links_cover(moved, moved.tracks.len()));
                        lemma_next_job_keeps(
                            moved,
                            turn.notices + outcome_notices(s.tracks[s.cursor as int].0, result),
                        );
                    },
                }
            }
        },
        _ => {},
    }
}

/// Taking up the next track keeps the links covering all tracks.
proof fn lemma_next_job_keeps(s: SessionView, notices: Seq<NoticeView>)
    requires
        links_cover(s, s.tracks.len()),
    ensures
        links_follow_tracks(next_job(s, notices).0),
    decreases s.tracks.len() - s.cursor,
{
    if s.cursor < s.tracks.len() {
        let (key, track) = s.tracks[s.cursor as int];
        match index_of(row_keys(s.links), key) {
            None => {},
            Some(link_at) => match index_of(row_keys(s.releases), track.release_id) {
                None => {
                    let moved = SessionView { cursor: s.cursor + 1, ..s };
                    assert(links_cover(moved, moved.tracks.len()));
                    lemma_next_job_keeps(moved, notices.push(no_release_notice(key)));
                },
                Some(release_at) => {
                    let at = SessionView {
                        link_at: link_at as nat,
                        release_at: release_at as nat,
                        job: fresh_job(),
                        ..s
                    };
                    assert(links_cover(at, at.tracks.len()));
                },
            },
        }
    }
}

/// What follows the links keeps the links following the tracks.
proof fn lemma_after_links_keeps(s: SessionView, notices: Seq<NoticeView>)
    requires
        s.links.len() <= s.cursor <= s.tracks.len(),
        s.links.len() == s.cursor ==> links_cover(s, s.cursor),
    ensures
        links_follow_tracks(next_link(s, notices).0),
{
    if s.cursor < s.tracks.len() {
    } else if s.tracks.len() != s.links.len() {
    } else if s.releases.len() == 0 {
        assert(links_cover(s, s.tracks.len()));
    } else {
        let from = SessionView { cursor: 0, ..s };
        assert(links_cover(from, from.tracks.len()));
        lemma_next_job_keeps(from, notices);
    }
}

/// Where the links cover all tracks, every track finds its link: a batch
/// that passed the count has a link under the key of each of its tracks, and
/// it is never given up for want of a link.
pub proof fn lemma_covered_tracks_find_their_links(s: SessionView, notices: Seq<NoticeView>)
    requires
        links_cover(s, s.tracks.len()),
    ensures
        next_job(s, notices).1.next != NextView::Finished(Err(BatchError::NoLink)),
        forall|i: int|
            0 <= i < s.tracks.len() ==> index_of(
                row_keys(s.links),
                (#[trigger] s.tracks[i]).0,
            ) is Some,
    decreases s.tracks.len() - s.cursor,
{
    assert forall|i: int| 0 <= i < s.tracks.len() implies index_of(
        row_keys(s.links),
        (#[trigger] s.tracks[i]).0,
    ) is Some by {
        assert(row_keys(s.links)[i] == s.links[i].0);
    }
    if s.cursor < s.tracks.len() {
        let (key, track) = s.tracks[s.cursor as int];
        assert(index_of(row_keys(s.links), key) is Some);
        if index_of(row_keys(s.releases), track.release_id) is None {
            let moved = SessionView { cursor: s.cursor + 1, ..s };
            assert(links_cover(moved, moved.tracks.len()));
            lemma_covered_tracks_find_their_links(moved, notices.push(no_release_notice(key)));
        }
    }
}

/// A track whose release was not resolved is told and passed over; the run
/// goes on with the track after it.
pub proof fn lemma_missing_release_is_isolated(s: SessionView, notices: Seq<NoticeView>)
    requires
        s.cursor < s.tracks.len(),
        index_of(row_keys(s.links), s.tracks[s.cursor as int].0) is Some,
        index_of(row_keys(s.releases), s.tracks[s.cursor as int].1.release_id) is None,
    ensures
        next_job(s, notices) == next_job(
            SessionView { cursor: s.cursor + 1, ..s },
            notices.push(no_release_notice(s.tracks[s.cursor as int].0)),
        ),
{
}

/// Where the links cover all tracks and no two tracks share a key, the work
/// on a track uses the link that was resolved for this very track, at the
/// tier that is negotiated for it.
pub proof fn lemma_track_is_fetched_at_its_tier(s: SessionView, notices: Seq<NoticeView>)
    requires
        links_cover(s, s.tracks.len()),
        s.cursor < s.tracks.len(),
        forall|i: int, j: int|
            0 <= i < j < s.tracks.len() ==> (#[trigger] s.tracks[i]).0 != (#[trigger] s.tracks[j]).0,
        index_of(row_keys(s.releases), s.tracks[s.cursor as int].1.release_id) is Some,
    ensures
        next_job(s, notices).0.stage == Stage::TrackJob,
        next_job(s, notices).0.link_at == s.cursor,
        track_item(next_job(s, notices).0) matches ItemView::Track { track, release, quality }
            && track == s.tracks[s.cursor as int].1 && quality == effective_quality(
            s.client.quality,
            track.has_flac,
        ),
{
    let key = s.tracks[s.cursor as int].0;
    let keys = row_keys(s.links);
    assert(keys[s.cursor as int] == s.links[s.cursor as int].0);
    lemma_index_of(keys, key);
    let found = index_of(keys, key)->Some_0;
    assert(keys[found] == s.links[found].0);
    if found < s.cursor {
        assert(s.tracks[found].0 == s.tracks[s.cursor as int].0);
    }
}

} // verus!
