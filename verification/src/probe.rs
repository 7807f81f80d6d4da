//! The probe: a short run of the external tool that prints the title, and
//! what follows once the title is known.
//!
//! The first line on standard output is the title. Lines on standard error
//! are reported and change nothing; a probe that ends without a line on
//! standard output gives the empty title.

use vstd::prelude::*;
use vstd::string::*;

use crate::args::{download_args, download_arguments};
use crate::event::{
    effect_views,
    push_effect,
    Effect,
    EffectModel,
    EventModel,
    Input,
    InputModel,
    ProcessEvent,
    Request,
    RequestModel,
    Turn,
    TurnModel,
};
use crate::format::MediaFormat;
use crate::path::{output_path, resolve_output_path};
use crate::text::{debug_list, debug_listing, joined, optional_text, trim, trimmed};

verus! {

/// The title that an input settles, if it settles one: the first line on
/// standard output, trimmed, or the empty title when the probe has no more
/// to say.
pub open spec fn settled_title(input: InputModel) -> Option<Seq<char>> {
    match input {
        InputModel::Event(EventModel::StdoutLine(text)) => Some(trimmed(text)),
        InputModel::Closed => Some(Seq::empty()),
        _ => None,
    }
}

/// The line that is reported for an input to the probe, if there is one.
pub open spec fn probe_report(input: InputModel) -> Option<Seq<char>> {
    match input {
        InputModel::Event(EventModel::StdoutLine(text)) => Some(
            "Titre récupéré: "@ + trimmed(text),
        ),
        InputModel::Event(EventModel::StderrLine(text)) => Some(
            "Erreur lors de la récupération du titre: "@ + text,
        ),
        _ => None,
    }
}

/// The title that a probe gives whose events are these, in this order,
/// before its stream closes.
pub open spec fn probed_title(events: Seq<EventModel>) -> Seq<char>
    decreases events.len(),
{
    if events.len() == 0 {
        Seq::empty()
    } else {
        match events.first() {
            EventModel::StdoutLine(text) => trimmed(text),
            _ => probed_title(events.drop_first()),
        }
    }
}

/// The views of a list of events.
pub open spec fn event_views(events: Seq<ProcessEvent>) -> Seq<EventModel> {
    events.map_values(|event: ProcessEvent| event@)
}

/// The line that names the path of the download.
pub open spec fn path_report(path: Seq<char>) -> Seq<char> {
    "Chemin de sortie: "@ + path
}

/// The line that names the arguments of the download.
pub open spec fn arguments_report(arguments: Seq<Seq<char>>) -> Seq<char> {
    "Arguments de téléchargement: "@ + debug_listing(arguments)
}

/// The effects that report a line, if there is one.
pub open spec fn reports(line: Option<Seq<char>>) -> Seq<EffectModel> {
    match line {
        Some(text) => seq![EffectModel::Report(text)],
        None => Seq::empty(),
    }
}

/// The turn that follows a settled title: the probe is ended, the path and
/// the arguments of the download are reported, and the download is asked
/// for.
pub open spec fn launch_turn(
    report: Option<Seq<char>>,
    directory: Seq<char>,
    url: Seq<char>,
    format: MediaFormat,
    title: Seq<char>,
) -> TurnModel {
    let path = output_path(directory, title, format);
    let arguments = download_arguments(format, path, url);
    TurnModel {
        effects: reports(report) + seq![
            EffectModel::Kill,
            EffectModel::Report(path_report(path)),
            EffectModel::Report(arguments_report(arguments)),
        ],
        request: RequestModel::Spawn(arguments),
    }
}

/// What the probe makes of one input.
#[derive(Debug, PartialEq, Eq)]
pub struct Reaction {
    /// The line to report, if any.
    pub report: Option<String>,
    /// The title, once it is settled.
    pub title: Option<String>,
}

/// Takes one input to the probe.
pub fn react(input: &Input) -> (reaction: Reaction)
    ensures
        optional_text(reaction.report) == probe_report(input@),
        optional_text(reaction.title) == settled_title(input@),
{
    match input {
        Input::Event(ProcessEvent::StdoutLine(text)) => {
            let title = trim(text.as_str());
            Reaction {
                report: Some(joined("Titre récupéré: ", title.as_str())),
                title: Some(title),
            }
        },
        Input::Event(ProcessEvent::StderrLine(text)) => Reaction {
            report: Some(joined("Erreur lors de la récupération du titre: ", text.as_str())),
            title: None,
        },
        Input::Closed => Reaction { report: None, title: Some(String::new()) },
        _ => Reaction { report: None, title: None },
    }
}

/// The title that a probe gives whose events are these, in this order,
/// before its stream closes.
pub fn title_of(events: &Vec<ProcessEvent>) -> (title: String)
    ensures
        title@ == probed_title(event_views(events@)),
{
    let ghost models = event_views(events@);
    let mut i: usize = 0;
    proof {
        assert(models.skip(0) =~= models);
    }
    while i < events.len()
        invariant
            i <= events.len(),
            models == event_views(events@),
            probed_title(models) == probed_title(models.skip(i as int)),
        decreases events.len() - i,
    {
        proof {
            assert(models.skip(i as int).first() == events@[i as int]@);
            assert(models.skip(i as int).drop_first() =~= models.skip(i + 1));
        }
        match &events[i] {
            ProcessEvent::StdoutLine(text) => {
                return trim(text.as_str());
            },
            _ => {},
        }
        i += 1;
    }
    proof {
        assert(models.skip(events.len() as int) =~= Seq::<EventModel>::empty());
    }
    String::new()
}

/// Resolves the path, builds the arguments of the download, and makes the
/// turn that starts it. Returns the path with the turn.
pub fn launch(
    report: Option<String>,
    directory: &str,
    url: &str,
    format: MediaFormat,
    title: &str,
) -> (launched: (String, Turn))
    ensures
        launched.0@ == output_path(directory@, title@, format),
        launched.1@ == launch_turn(optional_text(report), directory@, url@, format, title@),
{
    let path = resolve_output_path(directory, title, format);
    let arguments = download_args(format, path.as_str(), url);
    let mut effects: Vec<Effect> = Vec::new();
    assert(effect_views(effects@) =~= Seq::<EffectModel>::empty());
    match report {
        Some(line) => {
            push_effect(&mut effects, Effect::Report(line));
        },
        None => {},
    }
    assert(effect_views(effects@) =~= reports(optional_text(report)));
    push_effect(&mut effects, Effect::Kill);
    push_effect(&mut effects, Effect::Report(joined("Chemin de sortie: ", path.as_str())));
    let listing = debug_list(&arguments);
    push_effect(
        &mut effects,
        Effect::Report(joined("Arguments de téléchargement: ", listing.as_str())),
    );
    let turn = Turn { effects, request: Request::Spawn(arguments) };
    proof {
        assert(turn@.effects =~= launch_turn(
            optional_text(report),
            directory@,
            url@,
            format,
            title@,
        ).effects);
    }
    (path, turn)
}

/// What stands on standard error, and the end of the process, never change
/// the title: an event of either kind in front of the others can as well be
/// left out.
pub proof fn lemma_only_stdout_settles_the_title(first: EventModel, rest: Seq<EventModel>)
    requires
        !(first is StdoutLine),
    ensures
        probed_title(seq![first] + rest) == probed_title(rest),
{
    let events = seq![first] + rest;
    assert(events.first() == first);
    assert(events.drop_first() =~= rest);
}

/// The first line on standard output is the title, whatever follows it.
pub proof fn lemma_first_stdout_line_is_the_title(text: Seq<char>, rest: Seq<EventModel>)
    ensures
        probed_title(seq![EventModel::StdoutLine(text)] + rest) == trimmed(text),
{
    let events = seq![EventModel::StdoutLine(text)] + rest;
    assert(events.first() == EventModel::StdoutLine(text));
}

} // verus!
