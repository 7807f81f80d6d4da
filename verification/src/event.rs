//! What passes between an operation and the one who runs it.
//!
//! An operation never starts a process, waits, or looks at the disk. It is
//! handed an [`Input`], decides, and answers with a [`Turn`]: the effects to
//! carry out, in order, and the one thing it wants to be told next.

use vstd::prelude::*;
use vstd::string::*;

use crate::text::{decode_lossy, lossy_text, views};

verus! {

/// One event in the life of a process of the external tool.
#[derive(Debug, PartialEq, Eq)]
pub enum ProcessEvent {
    /// A line on its standard output.
    StdoutLine(String),
    /// A line on its standard error.
    StderrLine(String),
    /// Its end, with the exit code where there is one.
    Terminated(Option<i32>),
}

/// A [`ProcessEvent`] with its text as a sequence of characters.
pub enum EventModel {
    StdoutLine(Seq<char>),
    StderrLine(Seq<char>),
    Terminated(Option<i32>),
}

impl View for ProcessEvent {
    type V = EventModel;

    open spec fn view(&self) -> EventModel {
        match self {
            ProcessEvent::StdoutLine(text) => EventModel::StdoutLine(text@),
            ProcessEvent::StderrLine(text) => EventModel::StderrLine(text@),
            ProcessEvent::Terminated(code) => EventModel::Terminated(*code),
        }
    }
}

impl ProcessEvent {
    /// The event for a chunk of standard output. The bytes are read as
    /// UTF-8; what is no UTF-8 is replaced, never refused.
    pub fn stdout(bytes: &[u8]) -> (event: ProcessEvent)
        ensures
            event@ == EventModel::StdoutLine(lossy_text(bytes@)),
            vstd::utf8::valid_utf8(bytes@) ==> event@ == EventModel::StdoutLine(
                vstd::utf8::decode_utf8(bytes@),
            ),
    {
        ProcessEvent::StdoutLine(decode_lossy(bytes))
    }

    /// The event for a chunk of standard error, read as [`Self::stdout`]
    /// reads its bytes.
    pub fn stderr(bytes: &[u8]) -> (event: ProcessEvent)
        ensures
            event@ == EventModel::StderrLine(lossy_text(bytes@)),
            vstd::utf8::valid_utf8(bytes@) ==> event@ == EventModel::StderrLine(
                vstd::utf8::decode_utf8(bytes@),
            ),
    {
        ProcessEvent::StderrLine(decode_lossy(bytes))
    }

    /// The event for the end of the process.
    pub fn terminated(code: Option<i32>) -> (event: ProcessEvent)
        ensures
            event@ == EventModel::Terminated(code),
    {
        ProcessEvent::Terminated(code)
    }
}

/// What an operation is told.
#[derive(Debug, PartialEq, Eq)]
pub enum Input {
    /// The process that was asked for runs.
    Spawned,
    /// The process that was asked for could not be started.
    SpawnFailed(String),
    /// The next event of the running process.
    Event(ProcessEvent),
    /// The running process has no further event.
    Closed,
    /// Whether the file that was asked about exists.
    FileFound(bool),
}

/// An [`Input`] with its texts as sequences of characters.
pub enum InputModel {
    Spawned,
    SpawnFailed(Seq<char>),
    Event(EventModel),
    Closed,
    FileFound(bool),
}

impl View for Input {
    type V = InputModel;

    open spec fn view(&self) -> InputModel {
        match self {
            Input::Spawned => InputModel::Spawned,
            Input::SpawnFailed(reason) => InputModel::SpawnFailed(reason@),
            Input::Event(event) => InputModel::Event(event@),
            Input::Closed => InputModel::Closed,
            Input::FileFound(found) => InputModel::FileFound(*found),
        }
    }
}

/// Something to carry out, with nothing to report back.
#[derive(Debug, PartialEq, Eq)]
pub enum Effect {
    /// Show this line of progress.
    Report(String),
    /// End the running process; it is not needed any longer.
    Kill,
    /// Set the file's modification and access times to now.
    Touch(String),
}

/// An [`Effect`] with its text as a sequence of characters.
pub enum EffectModel {
    Report(Seq<char>),
    Kill,
    Touch(Seq<char>),
}

impl View for Effect {
    type V = EffectModel;

    open spec fn view(&self) -> EffectModel {
        match self {
            Effect::Report(text) => EffectModel::Report(text@),
            Effect::Kill => EffectModel::Kill,
            Effect::Touch(path) => EffectModel::Touch(path@),
        }
    }
}

/// What an operation wants to be told next.
#[derive(Debug, PartialEq, Eq)]
pub enum Request {
    /// Start the external tool with these arguments, and say whether it
    /// runs: [`Input::Spawned`] or [`Input::SpawnFailed`].
    Spawn(Vec<String>),
    /// Hand over the next event of the running process:
    /// [`Input::Event`] or [`Input::Closed`].
    Next,
    /// Say whether this file exists: [`Input::FileFound`].
    FindFile(String),
    /// Nothing: the operation is over.
    Finish,
}

/// A [`Request`] with its texts as sequences of characters.
pub enum RequestModel {
    Spawn(Seq<Seq<char>>),
    Next,
    FindFile(Seq<char>),
    Finish,
}

impl View for Request {
    type V = RequestModel;

    open spec fn view(&self) -> RequestModel {
        match self {
            Request::Spawn(arguments) => RequestModel::Spawn(views(arguments@)),
            Request::Next => RequestModel::Next,
            Request::FindFile(path) => RequestModel::FindFile(path@),
            Request::Finish => RequestModel::Finish,
        }
    }
}

/// The views of a list of effects.
pub open spec fn effect_views(effects: Seq<Effect>) -> Seq<EffectModel> {
    effects.map_values(|effect: Effect| effect@)
}

/// An operation's answer to an input.
#[derive(Debug, PartialEq, Eq)]
pub struct Turn {
    /// What to carry out, in this order, before anything else.
    pub effects: Vec<Effect>,
    /// What to hand over after that.
    pub request: Request,
}

/// A [`Turn`] with its texts as sequences of characters.
pub struct TurnModel {
    pub effects: Seq<EffectModel>,
    pub request: RequestModel,
}

impl View for Turn {
    type V = TurnModel;

    open spec fn view(&self) -> TurnModel {
        TurnModel { effects: effect_views(self.effects@), request: self.request@ }
    }
}

/// The turn that carries nothing out.
pub open spec fn quiet(request: RequestModel) -> TurnModel {
    TurnModel { effects: Seq::empty(), request }
}

/// The turn that reports one line.
pub open spec fn reporting(line: Seq<char>, request: RequestModel) -> TurnModel {
    TurnModel { effects: seq![EffectModel::Report(line)], request }
}

impl Turn {
    /// The turn that carries nothing out.
    pub fn quiet(request: Request) -> (turn: Turn)
        ensures
            turn@ == quiet(request@),
    {
        let turn = Turn { effects: Vec::new(), request };
        assert(effect_views(turn.effects@) =~= Seq::<EffectModel>::empty());
        turn
    }

    /// The turn that reports one line.
    pub fn reporting(line: String, request: Request) -> (turn: Turn)
        ensures
            turn@ == reporting(line@, request@),
    {
        let mut effects: Vec<Effect> = Vec::new();
        effects.push(Effect::Report(line));
        assert(effect_views(effects@) =~= seq![EffectModel::Report(line@)]);
        Turn { effects, request }
    }
}

/// Appends an effect to a list of effects.
pub fn push_effect(effects: &mut Vec<Effect>, effect: Effect)
    ensures
        effect_views(final(effects)@) == effect_views(old(effects)@).push(effect@),
{
    effects.push(effect);
    assert(effect_views(effects@) =~= effect_views(old(effects)@).push(effect@));
}

/// Which of a file's two times could not be set.
#[derive(Clone, Copy, Debug, PartialEq, Eq, Structural)]
pub enum Timestamp {
    Modification,
    Access,
}

/// The line that tells of a file time that could not be set.
pub open spec fn touch_warning_text(which: Timestamp, reason: Seq<char>) -> Seq<char> {
    match which {
        Timestamp::Modification => "Erreur lors de la mise à jour de la date de modification: "@
            + reason,
        Timestamp::Access => "Erreur lors de la mise à jour de la date d'accès: "@ + reason,
    }
}

/// The line of progress for a file time that could not be set. A failure to
/// set one is reported and changes nothing else.
pub fn touch_warning(which: Timestamp, reason: &str) -> (line: String)
    ensures
        line@ == touch_warning_text(which, reason@),
{
    match which {
        Timestamp::Modification => crate::text::joined(
            "Erreur lors de la mise à jour de la date de modification: ",
            reason,
        ),
        Timestamp::Access => crate::text::joined(
            "Erreur lors de la mise à jour de la date d'accès: ",
            reason,
        ),
    }
}

} // verus!
