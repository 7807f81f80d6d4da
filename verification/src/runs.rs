//! Whole runs: what an operation comes to when it is told one input after
//! the other, and what it has carried out by then.
//!
//! Nothing here is executed. These are statements about the operations,
//! proved from their definitions.

use vstd::prelude::*;

use crate::args::{download_arguments, watch_address};
use crate::batch::{
    batch_begin,
    batch_next,
    batch_over,
    enter_item,
    item_failure,
    BatchModel,
    PhaseModel,
};
use crate::download::{download_next, missing_file_message, DownloadModel};
use crate::error::ErrorModel;
use crate::event::{EffectModel, EventModel, InputModel, RequestModel};
use crate::format::{format_named, MediaFormat};
use crate::lister::{lister_begin, lister_close, lister_next, ListerModel};
use crate::path::output_path;
use crate::probe::{launch_turn, probe_report, reports};
use crate::text::trimmed;

verus! {

/// The events as inputs, each handed over as it is.
pub open spec fn as_inputs(events: Seq<EventModel>) -> Seq<InputModel> {
    events.map_values(|event: EventModel| InputModel::Event(event))
}

/// Whether none of the events is a line on standard output.
pub open spec fn silent(events: Seq<EventModel>) -> bool {
    forall|i: int| 0 <= i < events.len() ==> !(#[trigger] events[i] is StdoutLine)
}

/// Whether each of the events is a line of output, on either stream.
pub open spec fn only_lines(events: Seq<EventModel>) -> bool {
    forall|i: int| 0 <= i < events.len() ==> !(#[trigger] events[i] is Terminated)
}

/// The text of a line of output.
pub open spec fn line_text(event: EventModel) -> Seq<char> {
    match event {
        EventModel::StdoutLine(text) => text,
        EventModel::StderrLine(text) => text,
        EventModel::Terminated(_) => Seq::empty(),
    }
}

/// The effects that report each line of output as it is, in order.
pub open spec fn line_reports(lines: Seq<EventModel>) -> Seq<EffectModel> {
    lines.map_values(|event: EventModel| EffectModel::Report(line_text(event)))
}

/// The effects that report what a silent probe says: its lines on standard
/// error, in order.
pub open spec fn probe_reports(events: Seq<EventModel>) -> Seq<EffectModel>
    decreases events.len(),
{
    if events.len() == 0 {
        Seq::empty()
    } else {
        reports(probe_report(InputModel::Event(events.first()))) + probe_reports(
            events.drop_first(),
        )
    }
}

/// The state of a download after these inputs, and the effects of all its
/// turns, in order.
pub open spec fn download_run(state: DownloadModel, inputs: Seq<InputModel>) -> (
    DownloadModel,
    Seq<EffectModel>,
)
    decreases inputs.len(),
{
    if inputs.len() == 0 {
        (state, Seq::empty())
    } else {
        let step = download_next(state, inputs.first());
        let rest = download_run(step.0, inputs.drop_first());
        (rest.0, step.1.effects + rest.1)
    }
}

/// The state of a batch after these inputs, and the effects of all its
/// turns, in order.
pub open spec fn batch_run(state: BatchModel, inputs: Seq<InputModel>) -> (
    BatchModel,
    Seq<EffectModel>,
)
    decreases inputs.len(),
{
    if inputs.len() == 0 {
        (state, Seq::empty())
    } else {
        let step = batch_next(state, inputs.first());
        let rest = batch_run(step.0, inputs.drop_first());
        (rest.0, step.1.effects + rest.1)
    }
}

/// A run over two sequences of inputs, one after the other, is the run over
/// the first followed by the run over the second.
pub proof fn lemma_download_run_in_two(
    state: DownloadModel,
    first: Seq<InputModel>,
    second: Seq<InputModel>,
)
    ensures
        download_run(state, first + second) == ({
            let middle = download_run(state, first);
            let end = download_run(middle.0, second);
            (end.0, middle.1 + end.1)
        }),
    decreases first.len(),
{
    let middle = download_run(state, first);
    let end = download_run(middle.0, second);
    if first.len() == 0 {
        assert(first + second =~= second);
        assert(middle.1 + end.1 =~= end.1);
    } else {
        let step = download_next(state, first.first());
        assert((first + second).first() == first.first());
        assert((first + second).drop_first() =~= first.drop_first() + second);
        lemma_download_run_in_two(step.0, first.drop_first(), second);
        let inner = download_run(step.0, first.drop_first());
        assert(step.1.effects + (inner.1 + end.1) =~= (step.1.effects + inner.1) + end.1);
    }
}

/// A run over two sequences of inputs, one after the other, is the run over
/// the first followed by the run over the second.
pub proof fn lemma_batch_run_in_two(
    state: BatchModel,
    first: Seq<InputModel>,
    second: Seq<InputModel>,
)
    ensures
        batch_run(state, first + second) == ({
            let middle = batch_run(state, first);
            let end = batch_run(middle.0, second);
            (end.0, middle.1 + end.1)
        }),
    decreases first.len(),
{
    let middle = batch_run(state, first);
    let end = batch_run(middle.0, second);
    if first.len() == 0 {
        assert(first + second =~= second);
        assert(middle.1 + end.1 =~= end.1);
    } else {
        let step = batch_next(state, first.first());
        assert((first + second).first() == first.first());
        assert((first + second).drop_first() =~= first.drop_first() + second);
        lemma_batch_run_in_two(step.0, first.drop_first(), second);
        let inner = batch_run(step.0, first.drop_first());
        assert(step.1.effects + (inner.1 + end.1) =~= (step.1.effects + inner.1) + end.1);
    }
}

/// While the probe of a download says nothing on standard output, the
/// download keeps waiting for the title, and reports what stands on
/// standard error.
pub proof fn lemma_silent_probe_keeps_waiting(
    directory: Seq<char>,
    url: Seq<char>,
    format: MediaFormat,
    events: Seq<EventModel>,
)
    requires
        silent(events),
    ensures
        download_run(DownloadModel::TitleProbing { directory, url, format }, as_inputs(events))
            == (DownloadModel::TitleProbing { directory, url, format }, probe_reports(events)),
    decreases events.len(),
{
    let state = DownloadModel::TitleProbing { directory, url, format };
    if events.len() > 0 {
        let rest = events.drop_first();
        assert(!(events[0] is StdoutLine));
        assert(as_inputs(events).first() == InputModel::Event(events.first()));
        assert(as_inputs(events).drop_first() =~= as_inputs(rest));
        assert forall|i: int| 0 <= i < rest.len() implies !(#[trigger] rest[i] is StdoutLine) by {
            assert(rest[i] == events[i + 1]);
        }
        lemma_silent_probe_keeps_waiting(directory, url, format, rest);
    }
}

/// Whatever a probe says on standard error first, and whether or not it has
/// ended, its first line on standard output settles the title: the path of
/// the download is made of that line, trimmed, and the download is asked
/// for.
pub proof fn lemma_first_stdout_line_resolves_the_path(
    directory: Seq<char>,
    url: Seq<char>,
    format: MediaFormat,
    before: Seq<EventModel>,
    line: Seq<char>,
)
    requires
        silent(before),
    ensures
        ({
            let probing = DownloadModel::TitleProbing { directory, url, format };
            let inputs = as_inputs(before).push(InputModel::Event(EventModel::StdoutLine(line)));
            let path = output_path(directory, trimmed(line), format);
            &&& download_run(probing, inputs).0 == DownloadModel::PathResolved { path }
            &&& download_next(
                download_run(probing, as_inputs(before)).0,
                InputModel::Event(EventModel::StdoutLine(line)),
            ).1.request == RequestModel::Spawn(download_arguments(format, path, url))
        }),
{
    let probing = DownloadModel::TitleProbing { directory, url, format };
    let last = seq![InputModel::Event(EventModel::StdoutLine(line))];
    lemma_silent_probe_keeps_waiting(directory, url, format, before);
    lemma_download_run_in_two(probing, as_inputs(before), last);
    assert(as_inputs(before).push(InputModel::Event(EventModel::StdoutLine(line)))
        =~= as_inputs(before) + last);
    assert(last.first() == InputModel::Event(EventModel::StdoutLine(line)));
    assert(last.drop_first() =~= Seq::<InputModel>::empty());
    let step = download_next(probing, last.first());
    assert(download_run(step.0, last.drop_first()).0 == step.0);
    assert(download_run(probing, last).0 == step.0);
}

/// A probe that ends without a line on standard output settles the empty
/// title.
pub proof fn lemma_silent_probe_resolves_the_empty_title(
    directory: Seq<char>,
    url: Seq<char>,
    format: MediaFormat,
    events: Seq<EventModel>,
)
    requires
        silent(events),
    ensures
        download_run(
            DownloadModel::TitleProbing { directory, url, format },
            as_inputs(events).push(InputModel::Closed),
        ).0 == (DownloadModel::PathResolved {
            path: output_path(directory, Seq::empty(), format),
        }),
{
    let probing = DownloadModel::TitleProbing { directory, url, format };
    let last = seq![InputModel::Closed];
    lemma_silent_probe_keeps_waiting(directory, url, format, events);
    lemma_download_run_in_two(probing, as_inputs(events), last);
    assert(as_inputs(events).push(InputModel::Closed) =~= as_inputs(events) + last);
    assert(last.first() == InputModel::Closed);
    assert(last.drop_first() =~= Seq::<InputModel>::empty());
    let step = download_next(probing, last.first());
    assert(download_run(step.0, last.drop_first()).0 == step.0);
    assert(download_run(probing, last).0 == step.0);
}

/// While a download runs, each line of its output is reported as it is and
/// in its order, and nothing else happens.
pub proof fn lemma_output_is_relayed_in_order(path: Seq<char>, lines: Seq<EventModel>)
    requires
        only_lines(lines),
    ensures
        download_run(DownloadModel::Downloading { path }, as_inputs(lines)) == (
            DownloadModel::Downloading { path },
            line_reports(lines),
        ),
    decreases lines.len(),
{
    if lines.len() > 0 {
        let rest = lines.drop_first();
        assert(!(lines[0] is Terminated));
        assert(as_inputs(lines).first() == InputModel::Event(lines.first()));
        assert(as_inputs(lines).drop_first() =~= as_inputs(rest));
        assert forall|i: int| 0 <= i < rest.len() implies !(#[trigger] rest[i] is Terminated) by {
            assert(rest[i] == lines[i + 1]);
        }
        lemma_output_is_relayed_in_order(path, rest);
        assert(line_reports(lines) =~= seq![EffectModel::Report(line_text(lines[0]))]
            + line_reports(rest));
    } else {
        assert(line_reports(lines) =~= Seq::<EffectModel>::empty());
    }
}

/// What happens to one download, alone or as an item of a batch, as its
/// runner tells it: the probe runs and prints the title line, the download
/// runs and prints its lines, ends with an exit code, the file is asked
/// about where the code is 0, and the stream closes.
pub struct ItemStory {
    pub title_line: Seq<char>,
    pub lines: Seq<EventModel>,
    pub code: Option<i32>,
    pub found: bool,
}

/// Whether the download of the story succeeds with its file: it ended with
/// exit code 0 and the file was found.
pub open spec fn story_succeeds(story: ItemStory) -> bool {
    story.code == Some(0i32) && story.found
}

/// The inputs that tell the story.
pub open spec fn story_inputs(story: ItemStory) -> Seq<InputModel> {
    seq![
        InputModel::Spawned,
        InputModel::Event(EventModel::StdoutLine(story.title_line)),
        InputModel::Spawned,
    ] + as_inputs(story.lines) + if story.code == Some(0i32) {
        seq![
            InputModel::Event(EventModel::Terminated(story.code)),
            InputModel::FileFound(story.found),
            InputModel::Closed,
        ]
    } else {
        seq![InputModel::Event(EventModel::Terminated(story.code)), InputModel::Closed]
    }
}

/// The inputs that tell these stories, one after the other.
pub open spec fn stories_inputs(stories: Seq<ItemStory>) -> Seq<InputModel>
    decreases stories.len(),
{
    if stories.len() == 0 {
        Seq::empty()
    } else {
        story_inputs(stories.first()) + stories_inputs(stories.drop_first())
    }
}

/// The paths of the stories that succeed, in their order.
pub open spec fn kept_paths(directory: Seq<char>, format: MediaFormat, stories: Seq<ItemStory>) -> Seq<
    Seq<char>,
>
    decreases stories.len(),
{
    if stories.len() == 0 {
        Seq::empty()
    } else {
        let rest = kept_paths(directory, format, stories.drop_first());
        if story_succeeds(stories.first()) {
            seq![output_path(directory, trimmed(stories.first().title_line), format)] + rest
        } else {
            rest
        }
    }
}

/// The effects of the item in work while its story is told, up to the
/// moment when the batch goes on: the title, the end of the probe, the path
/// and the arguments are reported, then each line of output as it is, and
/// the file is touched if the item succeeds, or its failure reported if it
/// does not.
pub open spec fn story_effects(state: BatchModel, story: ItemStory) -> Seq<EffectModel> {
    let id = state.ids[state.index as int];
    let title = trimmed(story.title_line);
    let path = output_path(state.directory, title, state.format);
    launch_turn(
        Some("Titre récupéré: "@ + title),
        state.directory,
        watch_address(id),
        state.format,
        title,
    ).effects + line_reports(story.lines) + if story_succeeds(story) {
        seq![EffectModel::Touch(path)]
    } else {
        seq![EffectModel::Report(item_failure(id))]
    }
}

/// How a download ends whose story is this: with the path where the tool
/// ended with exit code 0 and the file was found, with the message that
/// stands for the path where the file was not found, and as failed where the
/// tool ended otherwise.
pub open spec fn story_outcome(path: Seq<char>, story: ItemStory) -> DownloadModel {
    if story.code == Some(0i32) {
        DownloadModel::Succeeded(
            if story.found {
                path
            } else {
                missing_file_message()
            },
        )
    } else {
        DownloadModel::Failed(ErrorModel::DownloadFailed)
    }
}

/// One download, from its probe to its end. The path is made of the title
/// line before the download starts; every line of output is reported as it
/// is and in its order; and the end is what the exit code and the file's
/// presence make it. The file is touched exactly where the path is
/// returned.
pub proof fn lemma_story_of_a_download(
    directory: Seq<char>,
    url: Seq<char>,
    format: MediaFormat,
    story: ItemStory,
)
    requires
        only_lines(story.lines),
    ensures
        ({
            let title = trimmed(story.title_line);
            let path = output_path(directory, title, format);
            download_run(
                DownloadModel::TitleProbing { directory, url, format },
                story_inputs(story),
            ) == (
                story_outcome(path, story),
                launch_turn(Some("Titre récupéré: "@ + title), directory, url, format, title).effects
                    + line_reports(story.lines) + if story_succeeds(story) {
                    seq![EffectModel::Touch(path)]
                } else {
                    Seq::empty()
                },
            )
        }),
{
    let probing = DownloadModel::TitleProbing { directory, url, format };
    let title = trimmed(story.title_line);
    let path = output_path(directory, title, format);
    let launched = launch_turn(Some("Titre récupéré: "@ + title), directory, url, format, title);
    let resolved = DownloadModel::PathResolved { path };
    let running = DownloadModel::Downloading { path };
    let head = seq![
        InputModel::Spawned,
        InputModel::Event(EventModel::StdoutLine(story.title_line)),
        InputModel::Spawned,
    ];
    let tail = if story.code == Some(0i32) {
        seq![
            InputModel::Event(EventModel::Terminated(story.code)),
            InputModel::FileFound(story.found),
            InputModel::Closed,
        ]
    } else {
        seq![InputModel::Event(EventModel::Terminated(story.code)), InputModel::Closed]
    };
    let nothing = Seq::<EffectModel>::empty();
    assert(download_run(probing, head) == (running, launched.effects)) by {
        let h1 = head.drop_first();
        let h2 = h1.drop_first();
        assert(h1.first() == head[1]);
        assert(h2.first() == head[2]);
        assert(h2.drop_first() =~= Seq::<InputModel>::empty());
        let s1 = download_next(probing, head[0]);
        assert(s1.0 == probing && s1.1.effects =~= nothing);
        let s2 = download_next(probing, head[1]);
        assert(s2.0 == resolved && s2.1.effects == launched.effects);
        let s3 = download_next(resolved, head[2]);
        assert(s3.0 == running && s3.1.effects =~= nothing);
        assert(download_run(running, h2.drop_first()) == (running, nothing));
        assert(download_run(resolved, h2).1 =~= nothing);
        assert(download_run(probing, h1).1 =~= launched.effects);
        assert(download_run(probing, head).1 =~= launched.effects);
    }
    lemma_output_is_relayed_in_order(path, story.lines);
    let closing = if story_succeeds(story) {
        seq![EffectModel::Touch(path)]
    } else {
        nothing
    };
    let end = story_outcome(path, story);
    assert(download_run(running, tail) == (end, closing)) by {
        let t1 = tail.drop_first();
        assert(t1.first() == tail[1]);
        let s1 = download_next(running, tail[0]);
        assert(s1.1.effects =~= nothing);
        if story.code == Some(0i32) {
            let t2 = t1.drop_first();
            assert(t2.first() == tail[2]);
            assert(t2.drop_first() =~= Seq::<InputModel>::empty());
            let s2 = download_next(s1.0, tail[1]);
            assert(s2.0 == end);
            assert(s2.1.effects =~= closing);
            let s3 = download_next(end, tail[2]);
            assert(s3.0 == end && s3.1.effects =~= nothing);
            assert(download_run(end, t2.drop_first()) == (end, nothing));
            assert(download_run(end, t2).1 =~= nothing);
            assert(download_run(s1.0, t1).1 =~= closing);
            assert(download_run(running, tail).1 =~= closing);
        } else {
            assert(t1.drop_first() =~= Seq::<InputModel>::empty());
            assert(s1.0 == end);
            let s2 = download_next(end, tail[1]);
            assert(s2.0 == end && s2.1.effects =~= nothing);
            assert(download_run(end, t1.drop_first()) == (end, nothing));
            assert(download_run(end, t1).1 =~= nothing);
            assert(download_run(running, tail).1 =~= closing);
        }
    }
    let middle = as_inputs(story.lines);
    assert(story_inputs(story) == head + middle + tail);
    lemma_download_run_in_two(probing, head, middle);
    lemma_download_run_in_two(probing, head + middle, tail);
}

/// While the download of an item runs, each line of its output is reported
/// as it is and in its order, and nothing else happens.
pub proof fn lemma_item_output_is_relayed_in_order(
    state: BatchModel,
    path: Seq<char>,
    kept: bool,
    lines: Seq<EventModel>,
)
    requires
        !batch_over(state),
        state.phase == (PhaseModel::Downloading { path, kept }),
        only_lines(lines),
    ensures
        batch_run(state, as_inputs(lines)) == (state, line_reports(lines)),
    decreases lines.len(),
{
    if lines.len() > 0 {
        let rest = lines.drop_first();
        assert(!(lines[0] is Terminated));
        assert(as_inputs(lines).first() == InputModel::Event(lines.first()));
        assert(as_inputs(lines).drop_first() =~= as_inputs(rest));
        assert forall|i: int| 0 <= i < rest.len() implies !(#[trigger] rest[i] is Terminated) by {
            assert(rest[i] == lines[i + 1]);
        }
        let step = batch_next(state, as_inputs(lines).first());
        assert(step.0 == state);
        lemma_item_output_is_relayed_in_order(state, path, kept, rest);
        assert(line_reports(lines) =~= seq![EffectModel::Report(line_text(lines[0]))]
            + line_reports(rest));
    } else {
        assert(line_reports(lines) =~= Seq::<EffectModel>::empty());
    }
}

/// One item, from its probe to the moment when the batch goes on. If the
/// download ends with exit code 0 and the file is found, the item's path is
/// taken down behind the others; if not, nothing is taken down and the
/// failure is reported, once. Either way the batch goes on to the next item,
/// or ends where this was the last.
pub proof fn lemma_story_of_one_item(state: BatchModel, story: ItemStory)
    requires
        state.index < state.ids.len(),
        state.phase is TitleProbing,
        only_lines(story.lines),
    ensures
        ({
            let path = output_path(state.directory, trimmed(story.title_line), state.format);
            let taken = if story_succeeds(story) {
                state.downloaded.push(path)
            } else {
                state.downloaded
            };
            let onwards = enter_item(
                BatchModel { downloaded: taken, ..state },
                state.index + 1,
                Seq::empty(),
            );
            batch_run(state, story_inputs(story)) == (
                onwards.0,
                story_effects(state, story) + onwards.1.effects,
            )
        }),
{
    let id = state.ids[state.index as int];
    let title = trimmed(story.title_line);
    let path = output_path(state.directory, title, state.format);
    let head = seq![
        InputModel::Spawned,
        InputModel::Event(EventModel::StdoutLine(story.title_line)),
        InputModel::Spawned,
    ];
    let tail = if story.code == Some(0i32) {
        seq![
            InputModel::Event(EventModel::Terminated(story.code)),
            InputModel::FileFound(story.found),
            InputModel::Closed,
        ]
    } else {
        seq![InputModel::Event(EventModel::Terminated(story.code)), InputModel::Closed]
    };
    let launched = launch_turn(
        Some("Titre récupéré: "@ + title),
        state.directory,
        watch_address(id),
        state.format,
        title,
    );
    // The probe and the start of the download.
    let resolved = BatchModel { phase: PhaseModel::PathResolved { path }, ..state };
    let running = BatchModel { phase: PhaseModel::Downloading { path, kept: false }, ..state };
    assert(batch_run(state, head) == (running, launched.effects)) by {
        let s1 = batch_next(state, head[0]);
        assert(s1.0 == state && s1.1.effects =~= Seq::<EffectModel>::empty());
        let h1 = head.drop_first();
        assert(h1.first() == head[1]);
        let s2 = batch_next(state, head[1]);
        assert(s2.0 == resolved && s2.1.effects == launched.effects);
        let h2 = h1.drop_first();
        assert(h2.first() == head[2]);
        let s3 = batch_next(resolved, head[2]);
        assert(s3.0 == running && s3.1.effects =~= Seq::<EffectModel>::empty());
        assert(h2.drop_first() =~= Seq::<InputModel>::empty());
        assert(batch_run(running, h2.drop_first()) == (running, Seq::<EffectModel>::empty()));
        assert(batch_run(resolved, h2).1 =~= Seq::<EffectModel>::empty());
        assert(batch_run(state, h1).1 =~= launched.effects);
        assert(batch_run(state, head).1 =~= launched.effects);
    }
    // The lines of the download.
    lemma_item_output_is_relayed_in_order(running, path, false, story.lines);
    // Its end.
    let taken = if story_succeeds(story) {
        state.downloaded.push(path)
    } else {
        state.downloaded
    };
    let onwards = enter_item(
        BatchModel { downloaded: taken, ..state },
        state.index + 1,
        Seq::empty(),
    );
    let closing = if story_succeeds(story) {
        seq![EffectModel::Touch(path)]
    } else {
        seq![EffectModel::Report(item_failure(id))]
    };
    assert(batch_run(running, tail) == (onwards.0, closing + onwards.1.effects)) by {
        if story.code == Some(0i32) {
            let asking = BatchModel { phase: PhaseModel::Finishing { path }, ..state };
            let t1 = tail.drop_first();
            let t2 = t1.drop_first();
            assert(t1.first() == tail[1]);
            assert(t2.first() == tail[2]);
            assert(t2.drop_first() =~= Seq::<InputModel>::empty());
            let s1 = batch_next(running, tail[0]);
            assert(s1.0 == asking && s1.1.effects =~= Seq::<EffectModel>::empty());
            let s2 = batch_next(asking, tail[1]);
            let answered = BatchModel {
                phase: PhaseModel::Downloading { path, kept: story.found },
                downloaded: taken,
                ..state
            };
            assert(s2.0 == answered);
            let s3 = batch_next(answered, tail[2]);
            if story.found {
                assert(s2.1.effects =~= closing);
                assert(s3 == enter_item(answered, state.index + 1, Seq::empty()));
                assert(s3.0 == onwards.0);
                assert(s3.1.effects =~= onwards.1.effects);
            } else {
                assert(s2.1.effects =~= Seq::<EffectModel>::empty());
                assert(s3 == enter_item(
                    answered,
                    state.index + 1,
                    seq![EffectModel::Report(item_failure(id))],
                ));
                assert(s3.0 == onwards.0);
                assert(s3.1.effects =~= closing + onwards.1.effects);
            }
            assert(batch_run(s3.0, t2.drop_first()).1 =~= Seq::<EffectModel>::empty());
            assert(batch_run(answered, t2).1 =~= s3.1.effects);
            assert(batch_run(asking, t1).1 =~= s2.1.effects + s3.1.effects);
            assert(batch_run(running, tail).1 =~= s2.1.effects + s3.1.effects);
        } else {
            let t1 = tail.drop_first();
            assert(t1.first() == tail[1]);
            assert(t1.drop_first() =~= Seq::<InputModel>::empty());
            let s1 = batch_next(running, tail[0]);
            assert(s1.0 == running && s1.1.effects =~= Seq::<EffectModel>::empty());
            let s2 = batch_next(running, tail[1]);
            assert(s2 == enter_item(
                running,
                state.index + 1,
                seq![EffectModel::Report(item_failure(id))],
            ));
            assert(s2.0 == onwards.0);
            assert(s2.1.effects =~= closing + onwards.1.effects);
            assert(batch_run(s2.0, t1.drop_first()).1 =~= Seq::<EffectModel>::empty());
            assert(batch_run(running, t1).1 =~= s2.1.effects);
            assert(batch_run(running, tail).1 =~= s2.1.effects);
        }
    }
    // All of it, one part after the other.
    let middle = as_inputs(story.lines);
    assert(story_inputs(story) == head + middle + tail);
    lemma_batch_run_in_two(state, head, middle);
    lemma_batch_run_in_two(state, head + middle, tail);
    assert(story_effects(state, story) + onwards.1.effects =~= (launched.effects + line_reports(
        story.lines,
    )) + (closing + onwards.1.effects));
}

/// A whole batch, one story for each item that is left. The batch ends, and
/// what it has taken down is what it had, followed by the paths of the items
/// that succeeded, in their order. Items that fail change nothing of that.
pub proof fn lemma_stories_of_the_items_left(state: BatchModel, stories: Seq<ItemStory>)
    requires
        state.index + stories.len() == state.ids.len(),
        stories.len() > 0 ==> state.phase is TitleProbing,
        stories.len() == 0 ==> state.phase is Finished,
        forall|i: int| 0 <= i < stories.len() ==> only_lines(#[trigger] stories[i].lines),
    ensures
        ({
            let end = batch_run(state, stories_inputs(stories)).0;
            &&& batch_over(end)
            &&& end.phase is Finished
            &&& end.ids == state.ids
            &&& end.downloaded == state.downloaded + kept_paths(
                state.directory,
                state.format,
                stories,
            )
        }),
    decreases stories.len(),
{
    if stories.len() == 0 {
        assert(state.downloaded + Seq::<Seq<char>>::empty() =~= state.downloaded);
    } else {
        let story = stories.first();
        let rest = stories.drop_first();
        assert(only_lines(stories[0].lines));
        lemma_story_of_one_item(state, story);
        let after = batch_run(state, story_inputs(story)).0;
        lemma_batch_run_in_two(state, story_inputs(story), stories_inputs(rest));
        assert forall|i: int| 0 <= i < rest.len() implies only_lines(#[trigger] rest[i].lines) by {
            assert(rest[i] == stories[i + 1]);
        }
        lemma_stories_of_the_items_left(after, rest);
        let path = output_path(state.directory, trimmed(story.title_line), state.format);
        if story_succeeds(story) {
            assert(after.downloaded + kept_paths(state.directory, state.format, rest)
                =~= state.downloaded + (seq![path] + kept_paths(
                state.directory,
                state.format,
                rest,
            )));
        }
    }
}

/// A batch from its beginning, one story for each of its items: it ends with
/// exactly the paths of the items that succeeded, in the order of the ids,
/// however many of the others failed.
pub proof fn lemma_batch_returns_what_succeeded(
    directory: Seq<char>,
    ids: Seq<Seq<char>>,
    format_name: Seq<char>,
    stories: Seq<ItemStory>,
)
    requires
        format_named(format_name) is Some,
        stories.len() == ids.len(),
        forall|i: int| 0 <= i < stories.len() ==> only_lines(#[trigger] stories[i].lines),
    ensures
        batch_begin(Some(directory), ids, format_name) is Ok,
        ({
            let begun = batch_begin(Some(directory), ids, format_name)->Ok_0.0;
            let end = batch_run(begun, stories_inputs(stories)).0;
            &&& batch_over(end)
            &&& end.downloaded == kept_paths(directory, format_named(format_name)->Some_0, stories)
            &&& end.downloaded.len() <= ids.len()
        }),
{
    let begun = batch_begin(Some(directory), ids, format_name)->Ok_0.0;
    lemma_stories_of_the_items_left(begun, stories);
    let format = format_named(format_name)->Some_0;
    assert(begun.downloaded + kept_paths(directory, format, stories) =~= kept_paths(
        directory,
        format,
        stories,
    ));
    lemma_kept_paths_are_no_more_than_stories(directory, format, stories);
}

/// No more paths are kept than there are stories.
pub proof fn lemma_kept_paths_are_no_more_than_stories(
    directory: Seq<char>,
    format: MediaFormat,
    stories: Seq<ItemStory>,
)
    ensures
        kept_paths(directory, format, stories).len() <= stories.len(),
    decreases stories.len(),
{
    if stories.len() > 0 {
        lemma_kept_paths_are_no_more_than_stories(directory, format, stories.drop_first());
    }
}

/// The state of a listing after these inputs, and the effects of all its
/// turns, in order.
pub open spec fn lister_run(state: ListerModel, inputs: Seq<InputModel>) -> (
    ListerModel,
    Seq<EffectModel>,
)
    decreases inputs.len(),
{
    if inputs.len() == 0 {
        (state, Seq::empty())
    } else {
        let step = lister_next(state, inputs.first());
        let rest = lister_run(step.0, inputs.drop_first());
        (rest.0, step.1.effects + rest.1)
    }
}

/// Whether the events tell of no other end than one with exit code 0.
pub open spec fn ends_well(events: Seq<EventModel>) -> bool {
    forall|i: int|
        0 <= i < events.len() && #[trigger] events[i] is Terminated ==> events[i]
            == EventModel::Terminated(Some(0i32))
}

/// What a listing collects of these events: the lines on standard output, in
/// their order, a line feed behind each.
pub open spec fn collected_output(events: Seq<EventModel>) -> Seq<char>
    decreases events.len(),
{
    if events.len() == 0 {
        Seq::empty()
    } else {
        let rest = collected_output(events.drop_first());
        match events.first() {
            EventModel::StdoutLine(text) => text.push('\n') + rest,
            _ => rest,
        }
    }
}

/// A run over two sequences of inputs, one after the other, is the run over
/// the first followed by the run over the second.
pub proof fn lemma_lister_run_in_two(
    state: ListerModel,
    first: Seq<InputModel>,
    second: Seq<InputModel>,
)
    ensures
        lister_run(state, first + second) == ({
            let middle = lister_run(state, first);
            let end = lister_run(middle.0, second);
            (end.0, middle.1 + end.1)
        }),
    decreases first.len(),
{
    let middle = lister_run(state, first);
    let end = lister_run(middle.0, second);
    if first.len() == 0 {
        assert(first + second =~= second);
        assert(middle.1 + end.1 =~= end.1);
    } else {
        let step = lister_next(state, first.first());
        assert((first + second).first() == first.first());
        assert((first + second).drop_first() =~= first.drop_first() + second);
        lemma_lister_run_in_two(step.0, first.drop_first(), second);
        let inner = lister_run(step.0, first.drop_first());
        assert(step.1.effects + (inner.1 + end.1) =~= (step.1.effects + inner.1) + end.1);
    }
}

/// While the tool runs and does not end badly, a listing collects what
/// stands on standard output, and nothing else: lines on standard error and
/// an end with exit code 0 leave the collected text as it is.
pub proof fn lemma_listing_collects_standard_output(output: Seq<char>, events: Seq<EventModel>)
    requires
        ends_well(events),
    ensures
        lister_run(ListerModel::Collecting { output }, as_inputs(events)).0
            == (ListerModel::Collecting { output: output + collected_output(events) }),
    decreases events.len(),
{
    if events.len() == 0 {
        assert(output + collected_output(events) =~= output);
    } else {
        let rest = events.drop_first();
        assert(as_inputs(events).first() == InputModel::Event(events.first()));
        assert(as_inputs(events).drop_first() =~= as_inputs(rest));
        assert forall|i: int| 0 <= i < rest.len() && #[trigger] rest[i] is Terminated implies rest[i]
            == EventModel::Terminated(Some(0i32)) by {
            assert(rest[i] == events[i + 1]);
        }
        if events[0] is Terminated {
            assert(events[0] == EventModel::Terminated(Some(0i32)));
        }
        let step = lister_next(ListerModel::Collecting { output }, as_inputs(events).first());
        match events.first() {
            EventModel::StdoutLine(text) => {
                let grown = (output + text).push('\n');
                assert(step.0 == ListerModel::Collecting { output: grown });
                lemma_listing_collects_standard_output(grown, rest);
                assert(grown + collected_output(rest) =~= output + collected_output(events));
            },
            _ => {
                assert(step.0 == ListerModel::Collecting { output });
                lemma_listing_collects_standard_output(output, rest);
            },
        }
    }
}

/// A whole listing whose tool runs and does not end badly: when the stream
/// closes, the listing is what the collected standard output reads as.
pub proof fn lemma_listing_reads_what_it_collected(url: Seq<char>, events: Seq<EventModel>)
    requires
        ends_well(events),
    ensures
        lister_run(
            lister_begin(url).0,
            seq![InputModel::Spawned] + as_inputs(events) + seq![InputModel::Closed],
        ).0 == lister_close(collected_output(events)).0,
{
    let begun = lister_begin(url).0;
    let head = seq![InputModel::Spawned];
    let tail = seq![InputModel::Closed];
    lemma_lister_run_in_two(begun, head + as_inputs(events), tail);
    lemma_lister_run_in_two(begun, head, as_inputs(events));
    assert(head.first() == InputModel::Spawned);
    assert(head.drop_first() =~= Seq::<InputModel>::empty());
    assert(lister_run(begun, head).0 == begun) by {
        let step = lister_next(begun, head.first());
        assert(step.0 == begun);
        assert(lister_run(step.0, head.drop_first()).0 == step.0);
    }
    lemma_listing_collects_standard_output(Seq::empty(), events);
    let collecting = ListerModel::Collecting { output: collected_output(events) };
    assert(Seq::<char>::empty() + collected_output(events) =~= collected_output(events));
    assert(tail.first() == InputModel::Closed);
    assert(tail.drop_first() =~= Seq::<InputModel>::empty());
    assert(lister_run(collecting, tail).0 == lister_close(collected_output(events)).0) by {
        let step = lister_next(collecting, tail.first());
        assert(lister_run(step.0, tail.drop_first()).0 == step.0);
    }
}

} // verus!
