//! A batch of downloads, one item after the other.
//!
//! Each item is probed, resolved and downloaded as a single download is.
//! An item that fails is reported and passed over; the batch goes on with
//! the next one and ends with the paths of the items that succeeded. Items
//! are never worked on side by side: the lines of one item's process are
//! that item's, and the tool is not started twice against one host.

use vstd::prelude::*;
use vstd::string::*;

use crate::args::{title_probe_args, title_probe_arguments, watch_address, watch_url};
use crate::error::{ErrorModel, OrchestratorError};
use crate::event::{
    effect_views,
    push_effect,
    quiet,
    reporting,
    Effect,
    EffectModel,
    EventModel,
    Input,
    InputModel,
    ProcessEvent,
    Request,
    RequestModel,
    Turn,
    TurnModel,
};
use crate::format::{format_named, MediaFormat};
use crate::path::output_path;
use crate::probe::{launch, launch_turn, probe_report, react, reports, settled_title};
use crate::text::{decimal, optional_text, push_decimal, views};

verus! {

/// Where the item in work stands.
#[derive(Debug, PartialEq, Eq)]
pub enum ItemPhase {
    /// The probe has been asked for, or runs; the title is awaited.
    TitleProbing,
    /// The path is fixed and the download has been asked for.
    PathResolved { path: String },
    /// The download runs. `kept` tells whether its file has been found and
    /// its path taken down already.
    Downloading { path: String, kept: bool },
    /// The download has ended with exit code 0; whether the file is there
    /// has been asked.
    Finishing { path: String },
    /// No item is in work: the batch is over.
    Finished,
}

/// An [`ItemPhase`] with its texts as sequences of characters.
pub enum PhaseModel {
    TitleProbing,
    PathResolved { path: Seq<char> },
    Downloading { path: Seq<char>, kept: bool },
    Finishing { path: Seq<char> },
    Finished,
}

impl View for ItemPhase {
    type V = PhaseModel;

    open spec fn view(&self) -> PhaseModel {
        match self {
            ItemPhase::TitleProbing => PhaseModel::TitleProbing,
            ItemPhase::PathResolved { path } => PhaseModel::PathResolved { path: path@ },
            ItemPhase::Downloading { path, kept } => PhaseModel::Downloading {
                path: path@,
                kept: *kept,
            },
            ItemPhase::Finishing { path } => PhaseModel::Finishing { path: path@ },
            ItemPhase::Finished => PhaseModel::Finished,
        }
    }
}

/// Where a batch stands.
#[derive(Debug, PartialEq, Eq)]
pub struct Batch {
    pub directory: String,
    /// The ids of the items, in the order in which they are worked on.
    pub ids: Vec<String>,
    pub format: MediaFormat,
    /// The item in work; the number of items once the batch is over.
    pub index: usize,
    pub phase: ItemPhase,
    /// The paths of the items that succeeded so far, in their order.
    pub downloaded: Vec<String>,
}

/// A [`Batch`] with its texts as sequences of characters.
pub struct BatchModel {
    pub directory: Seq<char>,
    pub ids: Seq<Seq<char>>,
    pub format: MediaFormat,
    pub index: nat,
    pub phase: PhaseModel,
    pub downloaded: Seq<Seq<char>>,
}

impl View for Batch {
    type V = BatchModel;

    open spec fn view(&self) -> BatchModel {
        BatchModel {
            directory: self.directory@,
            ids: views(self.ids@),
            format: self.format,
            index: self.index as nat,
            phase: self.phase@,
            downloaded: views(self.downloaded@),
        }
    }
}

/// The line that announces an item: its position, counted from one, the
/// number of items, and its id.
pub open spec fn item_announcement(position: nat, total: nat, id: Seq<char>) -> Seq<char> {
    "Téléchargement de la vidéo "@ + decimal(position) + "/"@ + decimal(total) + " (ID: "@ + id
        + ")"@
}

/// The line that tells of an item that failed.
pub open spec fn item_failure(id: Seq<char>) -> Seq<char> {
    "Échec du téléchargement de la vidéo "@ + id
}

/// The line that closes a batch: how many of how many items succeeded.
pub open spec fn batch_summary(succeeded: nat, total: nat) -> Seq<char> {
    "Téléchargement terminé. "@ + decimal(succeeded) + " fichiers téléchargés sur "@ + decimal(
        total,
    )
}

/// Whether the batch is over.
pub open spec fn batch_over(state: BatchModel) -> bool {
    state.index >= state.ids.len() || state.phase is Finished
}

/// The batch as it goes on to the item at `index`, after the effects
/// `before`: that item is announced and its probe asked for, or, where there
/// is no such item, the batch is summed up and over.
pub open spec fn enter_item(state: BatchModel, index: nat, before: Seq<EffectModel>) -> (
    BatchModel,
    TurnModel,
) {
    if index < state.ids.len() {
        (
            BatchModel { index, phase: PhaseModel::TitleProbing, ..state },
            TurnModel {
                effects: before.push(
                    EffectModel::Report(
                        item_announcement(index + 1, state.ids.len(), state.ids[index as int]),
                    ),
                ),
                request: RequestModel::Spawn(
                    title_probe_arguments(watch_address(state.ids[index as int])),
                ),
            },
        )
    } else {
        (
            BatchModel { index: state.ids.len(), phase: PhaseModel::Finished, ..state },
            TurnModel {
                effects: before.push(
                    EffectModel::Report(
                        batch_summary(state.downloaded.len(), state.ids.len()),
                    ),
                ),
                request: RequestModel::Finish,
            },
        )
    }
}

/// How a batch begins. Without a downloads directory, or for a format that
/// is not supported, it does not begin at all. Otherwise the first item is
/// entered; a batch of no items is over at once.
pub open spec fn batch_begin(
    directory: Option<Seq<char>>,
    ids: Seq<Seq<char>>,
    format_name: Seq<char>,
) -> Result<(BatchModel, TurnModel), ErrorModel> {
    match directory {
        None => Err(ErrorModel::DownloadsDirectoryUnavailable),
        Some(directory) => match format_named(format_name) {
            None => Err(ErrorModel::UnsupportedFormat),
            Some(format) => Ok(
                enter_item(
                    BatchModel {
                        directory,
                        ids,
                        format,
                        index: 0,
                        phase: PhaseModel::Finished,
                        downloaded: Seq::empty(),
                    },
                    0,
                    Seq::empty(),
                ),
            ),
        },
    }
}

/// The item in work is given up: the reason, where there is one, and the
/// failure are reported, and the batch goes on to the next item.
pub open spec fn give_up_item(state: BatchModel, reason: Option<Seq<char>>) -> (
    BatchModel,
    TurnModel,
) {
    enter_item(
        state,
        state.index + 1,
        reports(reason).push(EffectModel::Report(item_failure(state.ids[state.index as int]))),
    )
}

/// What the download of the item in work makes of an input. Every line of
/// output is reported as it is. Exit code 0 leads to the question for the
/// file. When the process has no more to say, the item has succeeded if its
/// file was found, and has failed otherwise; either way the next item
/// follows.
pub open spec fn item_while_downloading(
    state: BatchModel,
    path: Seq<char>,
    kept: bool,
    input: InputModel,
) -> (BatchModel, TurnModel) {
    let running = BatchModel { phase: PhaseModel::Downloading { path, kept }, ..state };
    match input {
        InputModel::Event(EventModel::StdoutLine(text)) => (
            running,
            reporting(text, RequestModel::Next),
        ),
        InputModel::Event(EventModel::StderrLine(text)) => (
            running,
            reporting(text, RequestModel::Next),
        ),
        InputModel::Event(EventModel::Terminated(code)) => if code == Some(0i32) && !kept {
            (
                BatchModel { phase: PhaseModel::Finishing { path }, ..state },
                quiet(RequestModel::FindFile(path)),
            )
        } else {
            (running, quiet(RequestModel::Next))
        },
        InputModel::Closed => if kept {
            enter_item(state, state.index + 1, Seq::empty())
        } else {
            give_up_item(state, None)
        },
        _ => (running, quiet(RequestModel::Next)),
    }
}

/// The state after an input, and the turn that answers it.
pub open spec fn batch_next(state: BatchModel, input: InputModel) -> (BatchModel, TurnModel) {
    if batch_over(state) {
        (state, quiet(RequestModel::Finish))
    } else {
        let id = state.ids[state.index as int];
        match state.phase {
            PhaseModel::TitleProbing => match input {
                InputModel::SpawnFailed(reason) => give_up_item(state, Some(reason)),
                _ => match settled_title(input) {
                    Some(title) => (
                        BatchModel {
                            phase: PhaseModel::PathResolved {
                                path: output_path(state.directory, title, state.format),
                            },
                            ..state
                        },
                        launch_turn(
                            probe_report(input),
                            state.directory,
                            watch_address(id),
                            state.format,
                            title,
                        ),
                    ),
                    None => (
                        state,
                        TurnModel {
                            effects: reports(probe_report(input)),
                            request: RequestModel::Next,
                        },
                    ),
                },
            },
            PhaseModel::PathResolved { path } => match input {
                InputModel::SpawnFailed(reason) => give_up_item(state, Some(reason)),
                _ => item_while_downloading(state, path, false, input),
            },
            PhaseModel::Downloading { path, kept } => item_while_downloading(
                state,
                path,
                kept,
                input,
            ),
            PhaseModel::Finishing { path } => match input {
                InputModel::FileFound(found) => if found {
                    (
                        BatchModel {
                            phase: PhaseModel::Downloading { path, kept: true },
                            downloaded: state.downloaded.push(path),
                            ..state
                        },
                        TurnModel {
                            effects: seq![EffectModel::Touch(path)],
                            request: RequestModel::Next,
                        },
                    )
                } else {
                    (
                        BatchModel {
                            phase: PhaseModel::Downloading { path, kept: false },
                            ..state
                        },
                        quiet(RequestModel::Next),
                    )
                },
                _ => (state, quiet(RequestModel::FindFile(path))),
            },
            PhaseModel::Finished => (state, quiet(RequestModel::Finish)),
        }
    }
}

/// What holds of every batch that began and went on by inputs: the item in
/// work is one of the items, or the batch is over; and no more paths are
/// taken down than items were entered.
pub open spec fn batch_valid(state: BatchModel) -> bool {
    &&& state.index <= state.ids.len()
    &&& (state.phase is Finished <==> state.index == state.ids.len())
    &&& state.downloaded.len() <= state.index + if state.phase matches PhaseModel::Downloading {
        kept: true,
        ..
    } {
        1nat
    } else {
        0nat
    }
}

/// Appends the decimal form of a count to a line.
fn push_count(line: &mut String, count: usize)
    ensures
        final(line)@ == old(line)@ + decimal(count as nat),
{
    push_decimal(line, count as u64);
}

/// Goes on to the item at `index`, after the effects `before`.
fn enter(state: Batch, index: usize, before: Vec<Effect>) -> (next: (Batch, Turn))
    ensures
        (next.0@, next.1@) == enter_item(state@, index as nat, effect_views(before@)),
{
    let Batch { directory, ids, format, index: _, phase: _, downloaded } = state;
    let mut effects = before;
    if index < ids.len() {
        let mut line = String::from_str("Téléchargement de la vidéo ");
        push_count(&mut line, index + 1);
        line.append("/");
        push_count(&mut line, ids.len());
        line.append(" (ID: ");
        line.append(ids[index].as_str());
        line.append(")");
        proof {
            assert(line@ =~= item_announcement(
                (index + 1) as nat,
                ids@.len(),
                views(ids@)[index as int],
            ));
        }
        push_effect(&mut effects, Effect::Report(line));
        let url = watch_url(ids[index].as_str());
        let arguments = title_probe_args(url.as_str());
        (
            Batch { directory, ids, format, index, phase: ItemPhase::TitleProbing, downloaded },
            Turn { effects, request: Request::Spawn(arguments) },
        )
    } else {
        let mut line = String::from_str("Téléchargement terminé. ");
        push_count(&mut line, downloaded.len());
        line.append(" fichiers téléchargés sur ");
        push_count(&mut line, ids.len());
        proof {
            assert(line@ =~= batch_summary(downloaded@.len(), ids@.len()));
        }
        push_effect(&mut effects, Effect::Report(line));
        let index = ids.len();
        (
            Batch { directory, ids, format, index, phase: ItemPhase::Finished, downloaded },
            Turn { effects, request: Request::Finish },
        )
    }
}

impl Batch {
    /// Begins a batch of downloads of the videos with these ids, in the
    /// format named `format_name`, into `directory`, the downloads directory
    /// if the platform has one.
    pub fn begin(directory: Option<String>, ids: Vec<String>, format_name: &str) -> (begun:
        Result<(Batch, Turn), OrchestratorError>)
        ensures
            match begun {
                Ok(pair) => batch_begin(optional_text(directory), views(ids@), format_name@)
                    == Ok::<(BatchModel, TurnModel), ErrorModel>((pair.0@, pair.1@)),
                Err(error) => batch_begin(optional_text(directory), views(ids@), format_name@)
                    == Err::<(BatchModel, TurnModel), ErrorModel>(error@),
            },
    {
        match directory {
            None => Err(OrchestratorError::DownloadsDirectoryUnavailable),
            Some(directory) => match MediaFormat::parse(format_name) {
                Err(error) => Err(error),
                Ok(format) => {
                    let before: Vec<Effect> = Vec::new();
                    let state = Batch {
                        directory,
                        ids,
                        format,
                        index: 0,
                        phase: ItemPhase::Finished,
                        downloaded: Vec::new(),
                    };
                    proof {
                        assert(effect_views(before@) =~= Seq::<EffectModel>::empty());
                        assert(views(state.downloaded@) =~= Seq::<Seq<char>>::empty());
                    }
                    Ok(enter(state, 0, before))
                },
            },
        }
    }

    /// Gives the item in work up and goes on to the next one.
    fn give_up(self, reason: Option<String>) -> (next: (Batch, Turn))
        requires
            self.index < self.ids.len(),
        ensures
            (next.0@, next.1@) == give_up_item(self@, optional_text(reason)),
    {
        let mut before: Vec<Effect> = Vec::new();
        assert(effect_views(before@) =~= Seq::<EffectModel>::empty());
        match reason {
            Some(text) => {
                push_effect(&mut before, Effect::Report(text));
            },
            None => {},
        }
        assert(effect_views(before@) =~= reports(optional_text(reason)));
        let failure = crate::text::joined(
            "Échec du téléchargement de la vidéo ",
            self.ids[self.index].as_str(),
        );
        push_effect(&mut before, Effect::Report(failure));
        let following = self.index + 1;
        enter(self, following, before)
    }

    /// What the download of the item in work makes of an input.
    fn advance_downloading(self, path: String, kept: bool, input: Input) -> (next: (Batch, Turn))
        requires
            self.index < self.ids.len(),
        ensures
            (next.0@, next.1@) == item_while_downloading(self@, path@, kept, input@),
    {
        match input {
            Input::Event(ProcessEvent::StdoutLine(text)) => (
                Batch { phase: ItemPhase::Downloading { path, kept }, ..self },
                Turn::reporting(text, Request::Next),
            ),
            Input::Event(ProcessEvent::StderrLine(text)) => (
                Batch { phase: ItemPhase::Downloading { path, kept }, ..self },
                Turn::reporting(text, Request::Next),
            ),
            Input::Event(ProcessEvent::Terminated(code)) => {
                let clean = match code {
                    Some(value) => value == 0,
                    None => false,
                };
                if clean && !kept {
                    let asked = path.clone();
                    (
                        Batch { phase: ItemPhase::Finishing { path }, ..self },
                        Turn::quiet(Request::FindFile(asked)),
                    )
                } else {
                    (
                        Batch { phase: ItemPhase::Downloading { path, kept }, ..self },
                        Turn::quiet(Request::Next),
                    )
                }
            },
            Input::Closed => if kept {
                let before: Vec<Effect> = Vec::new();
                assert(effect_views(before@) =~= Seq::<EffectModel>::empty());
                let following = self.index + 1;
                enter(self, following, before)
            } else {
                self.give_up(None)
            },
            _ => (
                Batch { phase: ItemPhase::Downloading { path, kept }, ..self },
                Turn::quiet(Request::Next),
            ),
        }
    }

    /// What the probe of the item in work makes of an input.
    fn advance_probing(self, input: Input) -> (next: (Batch, Turn))
        requires
            self.index < self.ids.len(),
            self.phase is TitleProbing,
        ensures
            (next.0@, next.1@) == batch_next(self@, input@),
    {
        match input {
            Input::SpawnFailed(reason) => self.give_up(Some(reason)),
            _ => {
                let reaction = react(&input);
                match reaction.title {
                    Some(title) => {
                        let url = watch_url(self.ids[self.index].as_str());
                        let launched = launch(
                            reaction.report,
                            self.directory.as_str(),
                            url.as_str(),
                            self.format,
                            title.as_str(),
                        );
                        (
                            Batch { phase: ItemPhase::PathResolved { path: launched.0 }, ..self },
                            launched.1,
                        )
                    },
                    None => {
                        let mut effects: Vec<Effect> = Vec::new();
                        assert(effect_views(effects@) =~= Seq::<EffectModel>::empty());
                        match reaction.report {
                            Some(line) => {
                                push_effect(&mut effects, Effect::Report(line));
                            },
                            None => {},
                        }
                        assert(effect_views(effects@) =~= reports(probe_report(input@)));
                        (self, Turn { effects, request: Request::Next })
                    },
                }
            },
        }
    }

    /// What the item in work makes of the answer to the question for its
    /// file.
    fn advance_finishing(self, path: String, input: Input) -> (next: (Batch, Turn))
        requires
            self.index < self.ids.len(),
            self.phase@ == (PhaseModel::Finishing { path: path@ }),
        ensures
            (next.0@, next.1@) == batch_next(self@, input@),
    {
        match input {
            Input::FileFound(found) => if found {
                let mut effects: Vec<Effect> = Vec::new();
                effects.push(Effect::Touch(path.clone()));
                assert(effect_views(effects@) =~= seq![EffectModel::Touch(path@)]);
                let Batch { directory, ids, format, index, phase: _, downloaded } = self;
                let mut downloaded = downloaded;
                let ghost before = downloaded@;
                downloaded.push(path.clone());
                assert(views(downloaded@) =~= views(before).push(path@));
                (
                    Batch {
                        directory,
                        ids,
                        format,
                        index,
                        phase: ItemPhase::Downloading { path, kept: true },
                        downloaded,
                    },
                    Turn { effects, request: Request::Next },
                )
            } else {
                (
                    Batch { phase: ItemPhase::Downloading { path, kept: false }, ..self },
                    Turn::quiet(Request::Next),
                )
            },
            _ => (self, Turn::quiet(Request::FindFile(path))),
        }
    }

    /// Takes one input and answers it.
    pub fn advance(self, input: Input) -> (next: (Batch, Turn))
        ensures
            (next.0@, next.1@) == batch_next(self@, input@),
    {
        if self.index >= self.ids.len() {
            return (self, Turn::quiet(Request::Finish));
        }
        match &self.phase {
            ItemPhase::TitleProbing => self.advance_probing(input),
            ItemPhase::PathResolved { path } => {
                let path = path.clone();
                match input {
                    Input::SpawnFailed(reason) => self.give_up(Some(reason)),
                    _ => self.advance_downloading(path, false, input),
                }
            },
            ItemPhase::Downloading { path, kept } => {
                let path = path.clone();
                let kept = *kept;
                self.advance_downloading(path, kept, input)
            },
            ItemPhase::Finishing { path } => {
                let path = path.clone();
                self.advance_finishing(path, input)
            },
            ItemPhase::Finished => (self, Turn::quiet(Request::Finish)),
        }
    }

    /// Whether the batch is over.
    pub fn is_over(&self) -> (over: bool)
        ensures
            over == batch_over(self@),
    {
        if self.index >= self.ids.len() {
            return true;
        }
        match &self.phase {
            ItemPhase::Finished => true,
            _ => false,
        }
    }

    /// The paths of the items that succeeded, in their order.
    pub fn into_downloaded(self) -> (paths: Vec<String>)
        ensures
            views(paths@) == self@.downloaded,
    {
        self.downloaded
    }
}

/// A batch that begins is valid.
pub proof fn lemma_begin_is_valid(
    directory: Option<Seq<char>>,
    ids: Seq<Seq<char>>,
    format_name: Seq<char>,
)
    requires
        batch_begin(directory, ids, format_name) is Ok,
    ensures
        batch_valid(batch_begin(directory, ids, format_name)->Ok_0.0),
        batch_begin(directory, ids, format_name)->Ok_0.0.ids == ids,
{
}

/// Whatever a valid batch is told, it stays valid; its items, its directory
/// and its format stay what they are; what it has taken down stays in
/// place, with at most one path added behind it; and it never goes back to
/// an earlier item.
pub proof fn lemma_next_keeps_valid(state: BatchModel, input: InputModel)
    requires
        batch_valid(state),
    ensures
        ({
            let next = batch_next(state, input).0;
            &&& batch_valid(next)
            &&& next.ids == state.ids
            &&& next.directory == state.directory
            &&& next.format == state.format
            &&& next.index >= state.index
            &&& (next.downloaded == state.downloaded || exists|path: Seq<char>|
                next.downloaded == state.downloaded.push(path))
        }),
{
    let next = batch_next(state, input).0;
    if let PhaseModel::Finishing { path } = state.phase {
        if input == InputModel::FileFound(true) && !batch_over(state) {
            assert(next.downloaded == state.downloaded.push(path));
        }
    }
}

/// A valid batch never holds more paths than it has items: its result is as
/// long as the list of ids at most.
pub proof fn lemma_result_is_no_longer_than_ids(state: BatchModel)
    requires
        batch_valid(state),
    ensures
        state.downloaded.len() <= state.ids.len(),
{
}

/// Once a batch is over it asks for nothing more, whatever it is told.
pub proof fn lemma_over_batch_stays_over(state: BatchModel, input: InputModel)
    requires
        batch_over(state),
    ensures
        batch_next(state, input) == (state, quiet(RequestModel::Finish)),
{
}

} // verus!
