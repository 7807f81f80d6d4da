//! The listing of a playlist as an operation: the tool is run in its
//! listing mode, what it prints is collected, and when it has no more to say
//! the collected text is read.

use vstd::prelude::*;
use vstd::string::*;

use crate::args::{listing_args, listing_arguments};
use crate::error::{ErrorModel, OrchestratorError};
use crate::event::{
    effect_views,
    push_effect,
    quiet,
    reporting,
    Effect,
    EffectModel,
    EventModel,
    Input,
    InputModel,
    ProcessEvent,
    Request,
    RequestModel,
    Turn,
    TurnModel,
};
use crate::playlist::{
    listing_of,
    parse_listing,
    readings_of,
    video_views,
    Listing,
    PlaylistVideo,
    VideoModel,
};
use crate::text::{debug_list, debug_listing, joined, lines_of, views};

verus! {

/// Where a listing stands.
#[derive(Debug, PartialEq, Eq)]
pub enum Lister {
    /// The tool has been asked for, or runs; `output` is what it has printed
    /// on standard output so far, a line feed behind each line.
    Collecting { output: String },
    /// Over, well: the summaries, in the order of their records.
    Listed(Vec<PlaylistVideo>),
    /// Over, badly.
    Failed(OrchestratorError),
}

/// A [`Lister`] with its texts as sequences of characters.
pub enum ListerModel {
    Collecting { output: Seq<char> },
    Listed(Seq<VideoModel>),
    Failed(ErrorModel),
}

impl View for Lister {
    type V = ListerModel;

    open spec fn view(&self) -> ListerModel {
        match self {
            Lister::Collecting { output } => ListerModel::Collecting { output: output@ },
            Lister::Listed(videos) => ListerModel::Listed(video_views(videos@)),
            Lister::Failed(error) => ListerModel::Failed(error@),
        }
    }
}

/// The line that names the arguments of the listing.
pub open spec fn listing_announcement(arguments: Seq<Seq<char>>) -> Seq<char> {
    "Récupération des informations de la playlist avec les arguments: "@ + debug_listing(
        arguments,
    )
}

/// The line that hands on a line of the listing's standard error.
pub open spec fn listing_complaint(text: Seq<char>) -> Seq<char> {
    "Erreur lors de la récupération des informations: "@ + text
}

/// The effects that report these lines, in their order.
pub open spec fn report_all(lines: Seq<Seq<char>>) -> Seq<EffectModel> {
    lines.map_values(|line: Seq<char>| EffectModel::Report(line))
}

/// How a listing begins: its arguments are reported and the tool is asked
/// for.
pub open spec fn lister_begin(url: Seq<char>) -> (ListerModel, TurnModel) {
    let arguments = listing_arguments(url);
    (
        ListerModel::Collecting { output: Seq::empty() },
        reporting(listing_announcement(arguments), RequestModel::Spawn(arguments)),
    )
}

/// The end of a listing whose collected output is `output`: the output is
/// read, what there is to report of it is reported, and the listing is over,
/// with the summaries or with the reason why there are none.
pub open spec fn lister_close(output: Seq<char>) -> (ListerModel, TurnModel) {
    let listing = listing_of(readings_of(lines_of(output)));
    (
        match listing.outcome {
            Ok(videos) => ListerModel::Listed(videos),
            Err(error) => ListerModel::Failed(error),
        },
        TurnModel { effects: report_all(listing.progress), request: RequestModel::Finish },
    )
}

/// The state after an input, and the turn that answers it. Lines on
/// standard output are collected, lines on standard error are reported. An
/// exit code other than 0 fails the listing at once.
pub open spec fn lister_next(state: ListerModel, input: InputModel) -> (ListerModel, TurnModel) {
    match state {
        ListerModel::Collecting { output } => match input {
            InputModel::SpawnFailed(reason) => (
                ListerModel::Failed(ErrorModel::ProcessSpawnFailed(reason)),
                quiet(RequestModel::Finish),
            ),
            InputModel::Event(EventModel::StdoutLine(text)) => (
                ListerModel::Collecting { output: (output + text).push('\n') },
                quiet(RequestModel::Next),
            ),
            InputModel::Event(EventModel::StderrLine(text)) => (
                state,
                reporting(listing_complaint(text), RequestModel::Next),
            ),
            InputModel::Event(EventModel::Terminated(code)) => if code == Some(0i32) {
                (state, quiet(RequestModel::Next))
            } else {
                (ListerModel::Failed(ErrorModel::ListingFailed), quiet(RequestModel::Finish))
            },
            InputModel::Closed => lister_close(output),
            _ => (state, quiet(RequestModel::Next)),
        },
        ListerModel::Listed(_) => (state, quiet(RequestModel::Finish)),
        ListerModel::Failed(_) => (state, quiet(RequestModel::Finish)),
    }
}

/// The result of a listing that is over.
pub open spec fn lister_outcome(state: ListerModel) -> Option<Result<Seq<VideoModel>, ErrorModel>> {
    match state {
        ListerModel::Listed(videos) => Some(Ok(videos)),
        ListerModel::Failed(error) => Some(Err(error)),
        _ => None,
    }
}

/// Reads the collected output and closes the listing.
fn close(output: String) -> (next: (Lister, Turn))
    ensures
        (next.0@, next.1@) == lister_close(output@),
{
    let Listing { outcome, progress } = parse_listing(output.as_str());
    let ghost lines = views(progress@);
    let mut effects: Vec<Effect> = Vec::new();
    let mut i: usize = 0;
    while i < progress.len()
        invariant
            i <= progress.len(),
            lines == views(progress@),
            effect_views(effects@) =~= report_all(lines.take(i as int)),
        decreases progress.len() - i,
    {
        proof {
            assert(lines.take(i + 1) =~= lines.take(i as int).push(progress@[i as int]@));
        }
        push_effect(&mut effects, Effect::Report(progress[i].clone()));
        i += 1;
    }
    proof {
        assert(lines.take(progress.len() as int) =~= lines);
    }
    let state = match outcome {
        Ok(videos) => Lister::Listed(videos),
        Err(error) => Lister::Failed(error),
    };
    (state, Turn { effects, request: Request::Finish })
}

impl Lister {
    /// Begins the listing of the playlist at `url`.
    pub fn begin(url: &str) -> (begun: (Lister, Turn))
        ensures
            (begun.0@, begun.1@) == lister_begin(url@),
    {
        let arguments = listing_args(url);
        let shown = debug_list(&arguments);
        let line = joined(
            "Récupération des informations de la playlist avec les arguments: ",
            shown.as_str(),
        );
        (Lister::Collecting { output: String::new() }, Turn::reporting(line, Request::Spawn(arguments)))
    }

    /// Takes one input and answers it.
    pub fn advance(self, input: Input) -> (next: (Lister, Turn))
        ensures
            (next.0@, next.1@) == lister_next(self@, input@),
    {
        match self {
            Lister::Collecting { output } => match input {
                Input::SpawnFailed(reason) => (
                    Lister::Failed(OrchestratorError::ProcessSpawnFailed(reason)),
                    Turn::quiet(Request::Finish),
                ),
                Input::Event(ProcessEvent::StdoutLine(text)) => {
                    let mut output = output;
                    output.append(text.as_str());
                    output.push('\n');
                    (Lister::Collecting { output }, Turn::quiet(Request::Next))
                },
                Input::Event(ProcessEvent::StderrLine(text)) => {
                    let line = joined(
                        "Erreur lors de la récupération des informations: ",
                        text.as_str(),
                    );
                    (Lister::Collecting { output }, Turn::reporting(line, Request::Next))
                },
                Input::Event(ProcessEvent::Terminated(code)) => {
                    let clean = match code {
                        Some(value) => value == 0,
                        None => false,
                    };
                    if clean {
                        (Lister::Collecting { output }, Turn::quiet(Request::Next))
                    } else {
                        (
                            Lister::Failed(OrchestratorError::ListingFailed),
                            Turn::quiet(Request::Finish),
                        )
                    }
                },
                Input::Closed => close(output),
                _ => (Lister::Collecting { output }, Turn::quiet(Request::Next)),
            },
            Lister::Listed(videos) => (Lister::Listed(videos), Turn::quiet(Request::Finish)),
            Lister::Failed(error) => (Lister::Failed(error), Turn::quiet(Request::Finish)),
        }
    }

    /// The result, once the listing is over.
    pub fn outcome(self) -> (outcome: Option<Result<Vec<PlaylistVideo>, OrchestratorError>>)
        ensures
            match outcome {
                Some(Ok(videos)) => lister_outcome(self@) == Some(
                    Ok::<Seq<VideoModel>, ErrorModel>(video_views(videos@)),
                ),
                Some(Err(error)) => lister_outcome(self@) == Some(
                    Err::<Seq<VideoModel>, ErrorModel>(error@),
                ),
                None => lister_outcome(self@) is None,
            },
    {
        match self {
            Lister::Listed(videos) => Some(Ok(videos)),
            Lister::Failed(error) => Some(Err(error)),
            _ => None,
        }
    }
}

/// A listing whose collected output is blank as a whole ends as an empty
/// playlist, with nothing to warn of.
pub proof fn lemma_blank_output_closes_as_empty(output: Seq<char>)
    requires
        crate::text::blank(output),
    ensures
        lister_next(ListerModel::Collecting { output }, InputModel::Closed).0
            == ListerModel::Failed(ErrorModel::PlaylistEmpty { unparsed_data: false }),
        lister_next(ListerModel::Collecting { output }, InputModel::Closed).1.request
            == RequestModel::Finish,
{
    crate::playlist::lemma_blank_output_is_an_empty_playlist(output);
}

/// A listing whose tool ends with another exit code than 0 fails at once,
/// whatever it had printed.
pub proof fn lemma_bad_exit_fails_the_listing(output: Seq<char>, code: Option<i32>)
    requires
        code != Some(0i32),
    ensures
        lister_next(
            ListerModel::Collecting { output },
            InputModel::Event(EventModel::Terminated(code)),
        ) == (ListerModel::Failed(ErrorModel::ListingFailed), quiet(RequestModel::Finish)),
{
}

} // verus!
