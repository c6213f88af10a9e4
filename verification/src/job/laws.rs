//! What holds of the work on an item whatever the item and the settings.

use vstd::prelude::*;
use vstd::string::*;

use crate::tags::TagStart;
use crate::client::ClientView;
use crate::cover::resize_words;
use crate::cover::CommandLineView;
use crate::entities::LyricsView;
use crate::job::model::audio_path;
use crate::job::model::item_format;
use crate::job::model::item_tags;
use crate::job::model::cover_path;
use crate::job::model::job_step;
use crate::job::model::job_trace;
use crate::job::model::on_network;
use crate::job::ItemView;
use crate::job::JobNextView;
use crate::job::JobView;
use crate::job::Outcome;
use crate::job::Phase;
use crate::protocol::JobError;
use crate::protocol::RequestView;
use crate::protocol::Response;
use crate::text::words;

verus! {

/// A second run over an item whose cover and audio file are there, with
/// covers not resized: the directory is made, which changes nothing, the two
/// files are looked for, and the work ends as skipped. Nothing goes to the
/// network and no file is changed.
pub proof fn lemma_rerun_is_idle(client: ClientView, item: ItemView, audio_url: Seq<char>)
    requires
        !client.resize_cover,
    ensures
        job_trace(
            client,
            item,
            audio_url,
            JobView { phase: Phase::CreatingDirectory, cover: None, start: TagStart::Empty },
            seq![Response::Done, Response::Flag(true), Response::Flag(true)],
        ) == (
            seq![
                RequestView::Probe { file: cover_path(client.path_profile, item) },
                RequestView::Exists { file: audio_path(client.path_profile, item) },
            ],
            Some(Ok::<Outcome, JobError>(Outcome::Skipped)),
        ),
{
    let start = JobView { phase: Phase::CreatingDirectory, cover: None, start: TagStart::Empty };
    let answers = seq![Response::Done, Response::Flag(true), Response::Flag(true)];
    let first = job_step(client, item, audio_url, start, answers[0]);
    let second = job_step(client, item, audio_url, first.0, answers[1]);
    let third = job_step(client, item, audio_url, second.0, answers[2]);
    assert(answers.skip(1)[0] == answers[1]);
    assert(answers.skip(1).skip(1)[0] == answers[2]);
    assert(answers.skip(1).skip(1).len() == 1);
    reveal_with_fuel(job_trace, 4);
    let tail = job_trace(client, item, audio_url, second.0, answers.skip(1).skip(1));
    assert(tail == (Seq::<RequestView>::empty(), Some(Ok::<Outcome, JobError>(Outcome::Skipped))));
    let middle = job_trace(client, item, audio_url, first.0, answers.skip(1));
    assert(middle.0 =~= seq![RequestView::Exists { file: audio_path(client.path_profile, item) }]);
    let whole = job_trace(client, item, audio_url, start, answers);
    assert(whole.0 =~= seq![
        RequestView::Probe { file: cover_path(client.path_profile, item) },
        RequestView::Exists { file: audio_path(client.path_profile, item) },
    ]);
}

/// The same where covers are resized and the cover is not above the limit:
/// its size is asked and nothing else is added.
pub proof fn lemma_rerun_is_idle_with_small_cover(
    client: ClientView,
    item: ItemView,
    audio_url: Seq<char>,
    size: u64,
)
    requires
        client.resize_cover,
        size <= client.resize_cover_limit,
    ensures
        job_trace(
            client,
            item,
            audio_url,
            JobView { phase: Phase::CreatingDirectory, cover: None, start: TagStart::Empty },
            seq![Response::Done, Response::Flag(true), Response::Size(size), Response::Flag(true)],
        ) == (
            seq![
                RequestView::Probe { file: cover_path(client.path_profile, item) },
                RequestView::FileSize { file: cover_path(client.path_profile, item) },
                RequestView::Exists { file: audio_path(client.path_profile, item) },
            ],
            Some(Ok::<Outcome, JobError>(Outcome::Skipped)),
        ),
{
    let start = JobView { phase: Phase::CreatingDirectory, cover: None, start: TagStart::Empty };
    let answers = seq![
        Response::Done,
        Response::Flag(true),
        Response::Size(size),
        Response::Flag(true),
    ];
    let a1 = answers.skip(1);
    let a2 = a1.skip(1);
    let a3 = a2.skip(1);
    assert(a1[0] == answers[1]);
    assert(a2[0] == answers[2]);
    assert(a3[0] == answers[3]);
    assert(a3.len() == 1);
    let first = job_step(client, item, audio_url, start, answers[0]);
    let second = job_step(client, item, audio_url, first.0, answers[1]);
    let third = job_step(client, item, audio_url, second.0, answers[2]);
    reveal_with_fuel(job_trace, 5);
    let t3 = job_trace(client, item, audio_url, third.0, a3);
    assert(t3 == (Seq::<RequestView>::empty(), Some(Ok::<Outcome, JobError>(Outcome::Skipped))));
    let t2 = job_trace(client, item, audio_url, second.0, a2);
    assert(t2.0 =~= seq![RequestView::Exists { file: audio_path(client.path_profile, item) }]);
    let t1 = job_trace(client, item, audio_url, first.0, a1);
    assert(t1.0 =~= seq![
        RequestView::FileSize { file: cover_path(client.path_profile, item) },
        RequestView::Exists { file: audio_path(client.path_profile, item) },
    ]);
    let whole = job_trace(client, item, audio_url, start, answers);
    assert(whole.0 =~= seq![
        RequestView::Probe { file: cover_path(client.path_profile, item) },
        RequestView::FileSize { file: cover_path(client.path_profile, item) },
        RequestView::Exists { file: audio_path(client.path_profile, item) },
    ]);
}

/// The same where the cover is above the limit: it is resized again, and
/// still nothing goes to the network and the audio file is left alone.
pub proof fn lemma_rerun_resizes_a_large_cover(
    client: ClientView,
    item: ItemView,
    audio_url: Seq<char>,
    size: u64,
    path: String,
)
    requires
        client.resize_cover,
        size > client.resize_cover_limit,
        words(client.resize_command).len() > 0,
    ensures
        job_trace(
            client,
            item,
            audio_url,
            JobView { phase: Phase::CreatingDirectory, cover: None, start: TagStart::Empty },
            seq![
                Response::Done,
                Response::Flag(true),
                Response::Size(size),
                Response::Text(Some(path)),
                Response::Flag(true),
                Response::Flag(true),
            ],
        ) == (
            seq![
                RequestView::Probe { file: cover_path(client.path_profile, item) },
                RequestView::FileSize { file: cover_path(client.path_profile, item) },
                RequestView::PathText { file: cover_path(client.path_profile, item) },
                RequestView::Run {
                    command: CommandLineView {
                        program: resize_words(client.resize_command, path@)[0],
                        arguments: resize_words(client.resize_command, path@).skip(1),
                    },
                },
                RequestView::Exists { file: audio_path(client.path_profile, item) },
            ],
            Some(Ok::<Outcome, JobError>(Outcome::Skipped)),
        ),
{
    let start = JobView { phase: Phase::CreatingDirectory, cover: None, start: TagStart::Empty };
    let answers = seq![
        Response::Done,
        Response::Flag(true),
        Response::Size(size),
        Response::Text(Some(path)),
        Response::Flag(true),
        Response::Flag(true),
    ];
    let a1 = answers.skip(1);
    let a2 = a1.skip(1);
    let a3 = a2.skip(1);
    let a4 = a3.skip(1);
    let a5 = a4.skip(1);
    assert(a1[0] == answers[1]);
    assert(a2[0] == answers[2]);
    assert(a3[0] == answers[3]);
    assert(a4[0] == answers[4]);
    assert(a5[0] == answers[5]);
    assert(a5.len() == 1);
    let s1 = job_step(client, item, audio_url, start, answers[0]);
    let s2 = job_step(client, item, audio_url, s1.0, answers[1]);
    let s3 = job_step(client, item, audio_url, s2.0, answers[2]);
    let s4 = job_step(client, item, audio_url, s3.0, answers[3]);
    let s5 = job_step(client, item, audio_url, s4.0, answers[4]);
    reveal_with_fuel(job_trace, 7);
    let t5 = job_trace(client, item, audio_url, s5.0, a5);
    assert(t5 == (Seq::<RequestView>::empty(), Some(Ok::<Outcome, JobError>(Outcome::Skipped))));
    let t4 = job_trace(client, item, audio_url, s4.0, a4);
    assert(t4.0 =~= seq![RequestView::Exists { file: audio_path(client.path_profile, item) }]);
    let t3 = job_trace(client, item, audio_url, s3.0, a3);
    assert(t3.0 =~= seq![s4.1.next->Ask_0] + t4.0);
    let t2 = job_trace(client, item, audio_url, s2.0, a2);
    assert(t2.0 =~= seq![s3.1.next->Ask_0] + t3.0);
    let t1 = job_trace(client, item, audio_url, s1.0, a1);
    assert(t1.0 =~= seq![s2.1.next->Ask_0] + t2.0);
    let whole = job_trace(client, item, audio_url, start, answers);
    assert(whole.0 =~= seq![
        RequestView::Probe { file: cover_path(client.path_profile, item) },
        RequestView::FileSize { file: cover_path(client.path_profile, item) },
        RequestView::PathText { file: cover_path(client.path_profile, item) },
        RequestView::Run {
            command: CommandLineView {
                program: resize_words(client.resize_command, path@)[0],
                arguments: resize_words(client.resize_command, path@).skip(1),
            },
        },
        RequestView::Exists { file: audio_path(client.path_profile, item) },
    ]);
}

/// A cover that is there is never downloaded, and an audio file that is
/// there ends the work: whatever the state before, the step on "it is there"
/// asks for no download.
pub proof fn lemma_present_files_are_kept(
    client: ClientView,
    item: ItemView,
    audio_url: Seq<char>,
    cover: Option<Seq<u8>>,
)
    ensures
        !(job_step(
            client,
            item,
            audio_url,
            JobView { phase: Phase::ProbingCover, cover, start: TagStart::Empty },
            Response::Flag(true),
        ).1.next matches JobNextView::Ask(request) && on_network(request)),
        job_step(
            client,
            item,
            audio_url,
            JobView { phase: Phase::ProbingAudio, cover, start: TagStart::Empty },
            Response::Flag(true),
        ).1.next == JobNextView::Over(Ok(Outcome::Skipped)),
{
}

/// The end of the work on an item is final: from there on nothing more is
/// asked, whatever the answer.
pub proof fn lemma_over_stays_over(
    client: ClientView,
    item: ItemView,
    audio_url: Seq<char>,
    cover: Option<Seq<u8>>,
    response: Response,
)
    ensures
        job_step(client, item, audio_url, JobView { phase: Phase::Over, cover, start: TagStart::Empty }, response).0.phase
            == Phase::Over,
        job_step(client, item, audio_url, JobView { phase: Phase::Over, cover, start: TagStart::Empty }, response).1.next
            is Over,
{
}

/// That no tags can be read from a file is no failure: the work goes on as
/// it does when tags were read, and only what the fields are set on
/// differs. A failed look for tags counts as tags that could not be read.
pub proof fn lemma_unreadable_tags_are_no_failure(
    client: ClientView,
    item: ItemView,
    audio_url: Seq<char>,
    job: JobView,
)
    requires
        job.phase == Phase::LoadingTags,
    ensures
        job_step(client, item, audio_url, job, Response::Failed) == job_step(
            client,
            item,
            audio_url,
            job,
            Response::Flag(false),
        ),
        job_step(client, item, audio_url, job, Response::Flag(false)).1.next is Over <==> job_step(
            client,
            item,
            audio_url,
            job,
            Response::Flag(true),
        ).1.next is Over,
        job_step(client, item, audio_url, job, Response::Flag(false)).0.phase == job_step(
            client,
            item,
            audio_url,
            job,
            Response::Flag(true),
        ).0.phase,
{
}

/// The tags of an item are for the container that was looked for in its
/// file: Vorbis comments in a lossless file, ID3v2 frames in an MP3 file and
/// in every chapter.
pub proof fn lemma_tags_are_for_the_container(
    item: ItemView,
    cover: Option<Seq<u8>>,
    lyrics: Option<LyricsView>,
)
    ensures
        item_tags(item, cover, lyrics) matches Ok(tags) ==> tags.format == item_format(item),
{
}

} // verus!
