//! One download, from the request to its outcome.
//!
//! The title is probed first and the path of the file is fixed from it
//! before the download starts, so that the file's presence at that path,
//! once the tool has ended with exit code 0, is what tells of success.

use vstd::prelude::*;
use vstd::string::*;

use crate::args::{title_probe_args, title_probe_arguments};
use crate::error::{ErrorModel, OrchestratorError};
use crate::event::{
    effect_views,
    push_effect,
    quiet,
    reporting,
    Effect,
    EffectModel,
    EventModel,
    Input,
    InputModel,
    ProcessEvent,
    Request,
    RequestModel,
    Turn,
    TurnModel,
};
use crate::format::{format_named, MediaFormat};
use crate::path::output_path;
use crate::probe::{launch, launch_turn, probe_report, react, reports, settled_title};
use crate::text::optional_text;

verus! {

/// Where a download stands.
#[derive(Debug, PartialEq, Eq)]
pub enum Download {
    /// The probe has been asked for, or runs; the title is awaited.
    TitleProbing { directory: String, url: String, format: MediaFormat },
    /// The path is fixed and the download has been asked for.
    PathResolved { path: String },
    /// The download runs.
    Downloading { path: String },
    /// The download has ended with exit code 0; whether the file is there
    /// has been asked.
    Finishing { path: String },
    /// Over, well: the text is the file's path, or a message where the file
    /// was not found.
    Succeeded(String),
    /// Over, badly.
    Failed(OrchestratorError),
}

/// A [`Download`] with its texts as sequences of characters.
pub enum DownloadModel {
    TitleProbing { directory: Seq<char>, url: Seq<char>, format: MediaFormat },
    PathResolved { path: Seq<char> },
    Downloading { path: Seq<char> },
    Finishing { path: Seq<char> },
    Succeeded(Seq<char>),
    Failed(ErrorModel),
}

impl View for Download {
    type V = DownloadModel;

    open spec fn view(&self) -> DownloadModel {
        match self {
            Download::TitleProbing { directory, url, format } => DownloadModel::TitleProbing {
                directory: directory@,
                url: url@,
                format: *format,
            },
            Download::PathResolved { path } => DownloadModel::PathResolved { path: path@ },
            Download::Downloading { path } => DownloadModel::Downloading { path: path@ },
            Download::Finishing { path } => DownloadModel::Finishing { path: path@ },
            Download::Succeeded(text) => DownloadModel::Succeeded(text@),
            Download::Failed(error) => DownloadModel::Failed(error@),
        }
    }
}

/// What a download returns where the tool ended with exit code 0 and the
/// file is not at its path.
pub open spec fn missing_file_message() -> Seq<char> {
    "Téléchargement réussi mais impossible de récupérer le chemin du fichier"@
}

/// How a download begins. Without a downloads directory it fails at once,
/// and so it does for a format that is not supported: no process is asked
/// for. Otherwise the probe is asked for.
pub open spec fn download_begin(
    directory: Option<Seq<char>>,
    url: Seq<char>,
    format_name: Seq<char>,
) -> (DownloadModel, TurnModel) {
    match directory {
        None => (
            DownloadModel::Failed(ErrorModel::DownloadsDirectoryUnavailable),
            quiet(RequestModel::Finish),
        ),
        Some(directory) => match format_named(format_name) {
            None => (
                DownloadModel::Failed(ErrorModel::UnsupportedFormat),
                quiet(RequestModel::Finish),
            ),
            Some(format) => (
                DownloadModel::TitleProbing { directory, url, format },
                quiet(RequestModel::Spawn(title_probe_arguments(url))),
            ),
        },
    }
}

/// What a running download makes of an input: every line of output is
/// reported as it is, exit code 0 leads to the question for the file, any
/// other end fails the download.
pub open spec fn while_downloading(path: Seq<char>, input: InputModel) -> (
    DownloadModel,
    TurnModel,
) {
    match input {
        InputModel::Event(EventModel::StdoutLine(text)) => (
            DownloadModel::Downloading { path },
            reporting(text, RequestModel::Next),
        ),
        InputModel::Event(EventModel::StderrLine(text)) => (
            DownloadModel::Downloading { path },
            reporting(text, RequestModel::Next),
        ),
        InputModel::Event(EventModel::Terminated(code)) => if code == Some(0i32) {
            (DownloadModel::Finishing { path }, quiet(RequestModel::FindFile(path)))
        } else {
            (DownloadModel::Failed(ErrorModel::DownloadFailed), quiet(RequestModel::Finish))
        },
        InputModel::Closed => (
            DownloadModel::Failed(ErrorModel::ProcessEndedUnexpectedly),
            quiet(RequestModel::Finish),
        ),
        _ => (DownloadModel::Downloading { path }, quiet(RequestModel::Next)),
    }
}

/// The state after an input, and the turn that answers it.
pub open spec fn download_next(state: DownloadModel, input: InputModel) -> (
    DownloadModel,
    TurnModel,
) {
    match state {
        DownloadModel::TitleProbing { directory, url, format } => match input {
            InputModel::SpawnFailed(reason) => (
                DownloadModel::Failed(ErrorModel::ProcessSpawnFailed(reason)),
                quiet(RequestModel::Finish),
            ),
            _ => match settled_title(input) {
                Some(title) => (
                    DownloadModel::PathResolved { path: output_path(directory, title, format) },
                    launch_turn(probe_report(input), directory, url, format, title),
                ),
                None => (
                    state,
                    TurnModel {
                        effects: reports(probe_report(input)),
                        request: RequestModel::Next,
                    },
                ),
            },
        },
        DownloadModel::PathResolved { path } => match input {
            InputModel::SpawnFailed(reason) => (
                DownloadModel::Failed(ErrorModel::ProcessSpawnFailed(reason)),
                quiet(RequestModel::Finish),
            ),
            _ => while_downloading(path, input),
        },
        DownloadModel::Downloading { path } => while_downloading(path, input),
        DownloadModel::Finishing { path } => match input {
            InputModel::FileFound(found) => if found {
                (
                    DownloadModel::Succeeded(path),
                    TurnModel {
                        effects: seq![EffectModel::Touch(path)],
                        request: RequestModel::Finish,
                    },
                )
            } else {
                (DownloadModel::Succeeded(missing_file_message()), quiet(RequestModel::Finish))
            },
            _ => (state, quiet(RequestModel::FindFile(path))),
        },
        DownloadModel::Succeeded(_) => (state, quiet(RequestModel::Finish)),
        DownloadModel::Failed(_) => (state, quiet(RequestModel::Finish)),
    }
}

/// The result of a download that is over.
pub open spec fn download_outcome(state: DownloadModel) -> Option<Result<Seq<char>, ErrorModel>> {
    match state {
        DownloadModel::Succeeded(text) => Some(Ok(text)),
        DownloadModel::Failed(error) => Some(Err(error)),
        _ => None,
    }
}

/// What a running download makes of an input.
fn advance_downloading(path: String, input: Input) -> (next: (Download, Turn))
    ensures
        (next.0@, next.1@) == while_downloading(path@, input@),
{
    match input {
        Input::Event(ProcessEvent::StdoutLine(text)) => (
            Download::Downloading { path },
            Turn::reporting(text, Request::Next),
        ),
        Input::Event(ProcessEvent::StderrLine(text)) => (
            Download::Downloading { path },
            Turn::reporting(text, Request::Next),
        ),
        Input::Event(ProcessEvent::Terminated(code)) => {
            let clean = match code {
                Some(value) => value == 0,
                None => false,
            };
            if clean {
                let asked = path.clone();
                (Download::Finishing { path }, Turn::quiet(Request::FindFile(asked)))
            } else {
                (Download::Failed(OrchestratorError::DownloadFailed), Turn::quiet(Request::Finish))
            }
        },
        Input::Closed => (
            Download::Failed(OrchestratorError::ProcessEndedUnexpectedly),
            Turn::quiet(Request::Finish),
        ),
        _ => (Download::Downloading { path }, Turn::quiet(Request::Next)),
    }
}

impl Download {
    /// Begins a download of `url` in the format named `format_name` into
    /// `directory`, the downloads directory if the platform has one.
    pub fn begin(directory: Option<String>, url: String, format_name: &str) -> (begun: (
        Download,
        Turn,
    ))
        ensures
            (begun.0@, begun.1@) == download_begin(optional_text(directory), url@, format_name@),
    {
        match directory {
            None => (
                Download::Failed(OrchestratorError::DownloadsDirectoryUnavailable),
                Turn::quiet(Request::Finish),
            ),
            Some(directory) => match MediaFormat::parse(format_name) {
                Err(error) => (Download::Failed(error), Turn::quiet(Request::Finish)),
                Ok(format) => {
                    let arguments = title_probe_args(url.as_str());
                    (
                        Download::TitleProbing { directory, url, format },
                        Turn::quiet(Request::Spawn(arguments)),
                    )
                },
            },
        }
    }

    /// Takes one input and answers it.
    pub fn advance(self, input: Input) -> (next: (Download, Turn))
        ensures
            (next.0@, next.1@) == download_next(self@, input@),
    {
        match self {
            Download::TitleProbing { directory, url, format } => match input {
                Input::SpawnFailed(reason) => (
                    Download::Failed(OrchestratorError::ProcessSpawnFailed(reason)),
                    Turn::quiet(Request::Finish),
                ),
                _ => {
                    let reaction = react(&input);
                    match reaction.title {
                        Some(title) => {
                            let launched = launch(
                                reaction.report,
                                directory.as_str(),
                                url.as_str(),
                                format,
                                title.as_str(),
                            );
                            (Download::PathResolved { path: launched.0 }, launched.1)
                        },
                        None => {
                            let mut effects: Vec<Effect> = Vec::new();
                            assert(effect_views(effects@) =~= Seq::<EffectModel>::empty());
                            match reaction.report {
                                Some(line) => {
                                    push_effect(&mut effects, Effect::Report(line));
                                },
                                None => {},
                            }
                            assert(effect_views(effects@) =~= reports(probe_report(input@)));
                            (
                                Download::TitleProbing { directory, url, format },
                                Turn { effects, request: Request::Next },
                            )
                        },
                    }
                },
            },
            Download::PathResolved { path } => match input {
                Input::SpawnFailed(reason) => (
                    Download::Failed(OrchestratorError::ProcessSpawnFailed(reason)),
                    Turn::quiet(Request::Finish),
                ),
                _ => advance_downloading(path, input),
            },
            Download::Downloading { path } => advance_downloading(path, input),
            Download::Finishing { path } => match input {
                Input::FileFound(found) => if found {
                    let mut effects: Vec<Effect> = Vec::new();
                    effects.push(Effect::Touch(path.clone()));
                    assert(effect_views(effects@) =~= seq![EffectModel::Touch(path@)]);
                    (Download::Succeeded(path), Turn { effects, request: Request::Finish })
                } else {
                    (
                        Download::Succeeded(
                            String::from_str(
                                "Téléchargement réussi mais impossible de récupérer le chemin du fichier",
                            ),
                        ),
                        Turn::quiet(Request::Finish),
                    )
                },
                _ => {
                    let asked = path.clone();
                    (Download::Finishing { path }, Turn::quiet(Request::FindFile(asked)))
                },
            },
            Download::Succeeded(text) => (Download::Succeeded(text), Turn::quiet(Request::Finish)),
            Download::Failed(error) => (Download::Failed(error), Turn::quiet(Request::Finish)),
        }
    }

    /// The result, once the download is over: the path of the file or the
    /// message that stands for it, or the error.
    pub fn outcome(self) -> (outcome: Option<Result<String, OrchestratorError>>)
        ensures
            match outcome {
                Some(Ok(text)) => download_outcome(self@) == Some(
                    Ok::<Seq<char>, ErrorModel>(text@),
                ),
                Some(Err(error)) => download_outcome(self@) == Some(
                    Err::<Seq<char>, ErrorModel>(error@),
                ),
                None => download_outcome(self@) is None,
            },
    {
        match self {
            Download::Succeeded(text) => Some(Ok(text)),
            Download::Failed(error) => Some(Err(error)),
            _ => None,
        }
    }
}

/// A download that ends with exit code 0 succeeds whether or not the file is
/// found: with the file it returns the path, without it the message that
/// stands for it, and never an error.
pub proof fn lemma_exit_code_zero_succeeds(path: Seq<char>, found: bool)
    ensures
        ({
            let ended = download_next(
                DownloadModel::Downloading { path },
                InputModel::Event(EventModel::Terminated(Some(0i32))),
            );
            let over = download_next(ended.0, InputModel::FileFound(found));
            &&& ended.1.request == RequestModel::FindFile(path)
            &&& over.1.request == RequestModel::Finish
            &&& download_outcome(over.0) == Some(
                Ok::<Seq<char>, ErrorModel>(
                    if found {
                        path
                    } else {
                        missing_file_message()
                    },
                ),
            )
        }),
{
}

/// A download that ends with another exit code than 0, or with none, fails,
/// and nothing is asked for after that.
pub proof fn lemma_other_exit_codes_fail(path: Seq<char>, code: Option<i32>)
    requires
        code != Some(0i32),
    ensures
        ({
            let ended = download_next(
                DownloadModel::Downloading { path },
                InputModel::Event(EventModel::Terminated(code)),
            );
            &&& ended.0 == DownloadModel::Failed(ErrorModel::DownloadFailed)
            &&& ended.1 == quiet(RequestModel::Finish)
        }),
{
}

/// A download that is over stays as it is, whatever it is told.
pub proof fn lemma_over_is_over(state: DownloadModel, input: InputModel)
    requires
        download_outcome(state) is Some,
    ensures
        download_next(state, input) == (state, quiet(RequestModel::Finish)),
{
}

/// No process is ever asked for on behalf of a format that is not
/// supported.
pub proof fn lemma_unsupported_format_spawns_nothing(
    directory: Seq<char>,
    url: Seq<char>,
    format_name: Seq<char>,
)
    requires
        format_named(format_name) is None,
    ensures
        download_begin(Some(directory), url, format_name) == (
            DownloadModel::Failed(ErrorModel::UnsupportedFormat),
            quiet(RequestModel::Finish),
        ),
{
}

} // verus!
