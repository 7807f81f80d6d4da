//! The plainest way to fetch a track: one run of the tool that is waited
//! for, with nothing reported while it runs; and the greeting.

use vstd::prelude::*;
use vstd::string::*;

use crate::args::push_text;
use crate::text::{decode_lossy, joined, lossy_text, views};

verus! {

/// The greeting for `name`.
pub open spec fn greeting(name: Seq<char>) -> Seq<char> {
    "Hello, "@ + name + "! You've been greeted from Rust!"@
}

/// The arguments of a run that extracts the audio of `url` as mp3.
pub open spec fn audio_extraction_arguments(url: Seq<char>) -> Seq<Seq<char>> {
    seq!["-x"@, "--audio-format"@, "mp3"@, url]
}

/// What a finished run amounts to: a fixed message where it succeeded, and
/// where it did not, what it wrote on standard error behind a fixed start.
pub open spec fn run_outcome(succeeded: bool, complaint: Seq<char>) -> Result<
    Seq<char>,
    Seq<char>,
> {
    if succeeded {
        Ok("Téléchargement réussi !"@)
    } else {
        Err("Erreur lors du téléchargement : "@ + complaint)
    }
}

/// Greets `name`.
pub fn greet(name: &str) -> (text: String)
    ensures
        text@ == greeting(name@),
{
    let mut text = String::from_str("Hello, ");
    text.append(name);
    text.append("! You've been greeted from Rust!");
    text
}

/// The arguments of a run that extracts the audio of `url` as mp3.
pub fn audio_extraction_args(url: &str) -> (args: Vec<String>)
    ensures
        views(args@) == audio_extraction_arguments(url@),
{
    let mut args: Vec<String> = Vec::new();
    assert(views(args@) =~= Seq::<Seq<char>>::empty());
    push_text(&mut args, "-x");
    push_text(&mut args, "--audio-format");
    push_text(&mut args, "mp3");
    push_text(&mut args, url);
    assert(views(args@) =~= audio_extraction_arguments(url@));
    args
}

/// Judges a finished run by whether it succeeded and by the bytes that it
/// wrote on standard error, which are read as UTF-8 with replacement.
pub fn judge_run(succeeded: bool, standard_error: &[u8]) -> (outcome: Result<String, String>)
    ensures
        match outcome {
            Ok(message) => run_outcome(succeeded, lossy_text(standard_error@)) == Ok::<
                Seq<char>,
                Seq<char>,
            >(message@),
            Err(message) => run_outcome(succeeded, lossy_text(standard_error@)) == Err::<
                Seq<char>,
                Seq<char>,
            >(message@),
        },
{
    if succeeded {
        Ok(String::from_str("Téléchargement réussi !"))
    } else {
        let complaint = decode_lossy(standard_error);
        Err(joined("Erreur lors du téléchargement : ", complaint.as_str()))
    }
}

} // verus!
