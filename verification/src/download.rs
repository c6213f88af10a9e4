//! The entrance: which of the given URLs are releases, tracks or audiobooks
//! of the catalog, and the first step of the run for them.

use vstd::prelude::*;
use vstd::string::*;

use crate::client::build_of;
use crate::client::Client;
use crate::client::BuildError;
use crate::client::ClientView;
use crate::config::Config;
use crate::protocol::notice_views;
use crate::protocol::NextView;
use crate::protocol::Notice;
use crate::protocol::NoticeView;
use crate::protocol::Turn;
use crate::session::model::start;
use crate::session::Session;
use crate::text::has_prefix;
use crate::text::strip_prefix;
use crate::text::views;

verus! {

/// What the URL of a release begins with.
pub const ZVUK_RELEASE_PREFIX: &'static str = "https://zvuk.com/release/";

/// What the URL of a track begins with.
pub const ZVUK_TRACKS_PREFIX: &'static str = "https://zvuk.com/track/";

/// What the URL of an audiobook begins with.
pub const ZVUK_ABOOK_PREFIX: &'static str = "https://zvuk.com/abook/";

/// What a URL points at.
#[derive(Clone, Copy, Debug, PartialEq, Eq, Structural)]
pub enum UrlKind {
    Release,
    Book,
    Track,
    /// Nothing of the catalog.
    Other,
}

/// What URLs of `kind` begin with; nothing marks the other URLs.
pub open spec fn prefix_of_kind(kind: UrlKind) -> Seq<char> {
    match kind {
        UrlKind::Release => "https://zvuk.com/release/"@,
        UrlKind::Book => "https://zvuk.com/abook/"@,
        UrlKind::Track => "https://zvuk.com/track/"@,
        UrlKind::Other => Seq::empty(),
    }
}

/// What `url` points at, going by what it begins with.
pub open spec fn url_kind(url: Seq<char>) -> UrlKind {
    if has_prefix(url, prefix_of_kind(UrlKind::Release)) {
        UrlKind::Release
    } else if has_prefix(url, prefix_of_kind(UrlKind::Book)) {
        UrlKind::Book
    } else if has_prefix(url, prefix_of_kind(UrlKind::Track)) {
        UrlKind::Track
    } else {
        UrlKind::Other
    }
}

/// The identifier in `url`: what follows the prefix of its kind.
pub open spec fn url_id(url: Seq<char>) -> Seq<char> {
    url.skip(prefix_of_kind(url_kind(url)).len() as int)
}

/// The identifiers of the URLs of `kind` among `urls`, in order.
pub open spec fn ids_of(urls: Seq<Seq<char>>, kind: UrlKind) -> Seq<Seq<char>>
    decreases urls.len(),
{
    if urls.len() == 0 {
        Seq::empty()
    } else if url_kind(urls.last()) == kind {
        ids_of(urls.drop_last(), kind).push(url_id(urls.last()))
    } else {
        ids_of(urls.drop_last(), kind)
    }
}

/// The notices for the URLs among `urls` that are none of the catalog's, in
/// order.
pub open spec fn skipped(urls: Seq<Seq<char>>) -> Seq<NoticeView>
    decreases urls.len(),
{
    if urls.len() == 0 {
        Seq::empty()
    } else if url_kind(urls.last()) == UrlKind::Other {
        skipped(urls.drop_last()).push(NoticeView::SkippedUrl { url: urls.last() })
    } else {
        skipped(urls.drop_last())
    }
}

/// The identifiers that a list of URLs asks for, by kind, and the notices
/// for the URLs that were passed over.
#[derive(Debug, PartialEq, Eq)]
pub struct Targets {
    pub release_ids: Vec<String>,
    pub track_ids: Vec<String>,
    pub book_ids: Vec<String>,
    pub skipped: Vec<Notice>,
}

/// Sorts `urls` into releases, tracks and audiobooks by what they begin with
/// and cuts the identifier out of each. A URL that begins with none of the
/// three prefixes goes into no list; it is told in a notice.
pub fn classify(urls: &[String]) -> (targets: Targets)
    ensures
        views(targets.release_ids@) == ids_of(views(urls@), UrlKind::Release),
        views(targets.track_ids@) == ids_of(views(urls@), UrlKind::Track),
        views(targets.book_ids@) == ids_of(views(urls@), UrlKind::Book),
        notice_views(targets.skipped@) == skipped(views(urls@)),
{
    let mut release_ids: Vec<String> = Vec::new();
    let mut track_ids: Vec<String> = Vec::new();
    let mut book_ids: Vec<String> = Vec::new();
    let mut passed: Vec<Notice> = Vec::new();
    let mut i: usize = 0;
    proof {
        assert(views(release_ids@) =~= Seq::empty());
        assert(views(track_ids@) =~= Seq::empty());
        assert(views(book_ids@) =~= Seq::empty());
        assert(notice_views(passed@) =~= Seq::empty());
    }
    while i < urls.len()
        invariant
            i <= urls.len(),
            views(release_ids@) == ids_of(views(urls@).take(i as int), UrlKind::Release),
            views(track_ids@) == ids_of(views(urls@).take(i as int), UrlKind::Track),
            views(book_ids@) == ids_of(views(urls@).take(i as int), UrlKind::Book),
            notice_views(passed@) == skipped(views(urls@).take(i as int)),
        decreases urls.len() - i,
    {
        let url = urls[i].as_str();
        proof {
            let next = views(urls@).take(i + 1);
            assert(next.drop_last() =~= views(urls@).take(i as int));
            assert(next.last() == url@);
        }
        match strip_prefix(url, "https://zvuk.com/release/") {
            Some(id) => {
                assert(views(release_ids@.push(id)) =~= views(release_ids@).push(id@));
                release_ids.push(id);
            },
            None => match strip_prefix(url, "https://zvuk.com/abook/") {
                Some(id) => {
                    assert(views(book_ids@.push(id)) =~= views(book_ids@).push(id@));
                    book_ids.push(id);
                },
                None => match strip_prefix(url, "https://zvuk.com/track/") {
                    Some(id) => {
                        assert(views(track_ids@.push(id)) =~= views(track_ids@).push(id@));
                        track_ids.push(id);
                    },
                    None => {
                        let notice = Notice::SkippedUrl { url: urls[i].clone() };
                        assert(notice_views(passed@.push(notice)) =~= notice_views(passed@).push(
                            notice@,
                        ));
                        passed.push(notice);
                    },
                },
            },
        }
        i = i + 1;
    }
    assert(views(urls@).take(urls.len() as int) =~= views(urls@));
    Targets { release_ids, track_ids, book_ids, skipped: passed }
}

/// What `download` gives for `config`: no session where no client can be
/// made, else the first step of the run for the URLs of `config`.
pub open spec fn download_of(config: Config) -> Result<(crate::session::SessionView, crate::protocol::TurnView), BuildError> {
    match build_of(config) {
        Err(e) => Err(e),
        Ok(client) => Ok(
            start(
                client,
                ids_of(views(config.urls@), UrlKind::Release),
                ids_of(views(config.urls@), UrlKind::Track),
                ids_of(views(config.urls@), UrlKind::Book),
                skipped(views(config.urls@)),
            ),
        ),
    }
}

/// The view of a result of `download`.
pub open spec fn download_view(r: Result<(Session, Turn), BuildError>) -> Result<
    (crate::session::SessionView, crate::protocol::TurnView),
    BuildError,
> {
    match r {
        Ok((session, turn)) => Ok((session@, turn@)),
        Err(e) => Err(e),
    }
}

/// Begins a run: sorts the URLs of `config`, makes the client, and takes the
/// first step. The releases are downloaded first, with all their tracks,
/// then the tracks that were asked for one by one, then the audiobooks. The
/// URLs that were passed over are told with the first turn. Where the URLs
/// ask for nothing, the run is over at once and nothing is asked.
pub fn download(config: &Config) -> (r: Result<(Session, Turn), BuildError>)
    ensures
        download_view(r) == download_of(*config),
{
    let targets = classify(config.urls.as_slice());
    let client = match Client::build(config) {
        Ok(client) => client,
        Err(e) => {
            return Err(e);
        },
    };
    Ok(Session::begin(client, targets))
}

/// A URL that is none of the catalog's adds to no list of identifiers.
pub proof fn lemma_unrecognized_url_adds_nothing(urls: Seq<Seq<char>>, url: Seq<char>)
    requires
        url_kind(url) == UrlKind::Other,
    ensures
        ids_of(urls.push(url), UrlKind::Release) == ids_of(urls, UrlKind::Release),
        ids_of(urls.push(url), UrlKind::Track) == ids_of(urls, UrlKind::Track),
        ids_of(urls.push(url), UrlKind::Book) == ids_of(urls, UrlKind::Book),
        skipped(urls.push(url)) == skipped(urls).push(NoticeView::SkippedUrl { url }),
{
    assert(urls.push(url).drop_last() =~= urls);
}

/// URLs of which none is the catalog's give no identifier and one notice
/// each.
pub proof fn lemma_only_unrecognized(urls: Seq<Seq<char>>)
    requires
        forall|i: int| 0 <= i < urls.len() ==> url_kind(#[trigger] urls[i]) == UrlKind::Other,
    ensures
        ids_of(urls, UrlKind::Release).len() == 0,
        ids_of(urls, UrlKind::Track).len() == 0,
        ids_of(urls, UrlKind::Book).len() == 0,
        skipped(urls).len() == urls.len(),
        forall|i: int|
            0 <= i < urls.len() ==> #[trigger] skipped(urls)[i] == (NoticeView::SkippedUrl {
                url: urls[i],
            }),
    decreases urls.len(),
{
    if urls.len() > 0 {
        lemma_only_unrecognized(urls.drop_last());
        assert(url_kind(urls.last()) == UrlKind::Other);
    }
}

/// A run for URLs of which none is the catalog's asks nothing and ends well
/// at once, whatever the client.
pub proof fn lemma_unrecognized_urls_ask_nothing(client: ClientView, urls: Seq<Seq<char>>)
    requires
        forall|i: int| 0 <= i < urls.len() ==> url_kind(#[trigger] urls[i]) == UrlKind::Other,
    ensures
        start(
            client,
            ids_of(urls, UrlKind::Release),
            ids_of(urls, UrlKind::Track),
            ids_of(urls, UrlKind::Book),
            skipped(urls),
        ).1.next == NextView::Finished(Ok(())),
{
    lemma_only_unrecognized(urls);
}

/// A run whose URLs are none of the catalog's ends well with its first turn,
/// without a request, wherever a client can be made from the settings: each
/// URL is told in a notice and nothing else happens.
pub proof fn lemma_unrecognized_urls_complete(config: Config)
    requires
        forall|i: int|
            0 <= i < config.urls@.len() ==> url_kind(#[trigger] views(config.urls@)[i])
                == UrlKind::Other,
        build_of(config) is Ok,
    ensures
        download_of(config) is Ok,
        download_of(config)->Ok_0.1.next == NextView::Finished(Ok(())),
        download_of(config)->Ok_0.1.notices == skipped(views(config.urls@)),
        download_of(config)->Ok_0.1.notices.len() == config.urls@.len(),
{
    lemma_only_unrecognized(views(config.urls@));
}

} // verus!
