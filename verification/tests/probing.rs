use download_orchestrator::event::{Effect, Input, ProcessEvent, Request, Turn};
use download_orchestrator::format::MediaFormat;
use download_orchestrator::probe::{launch, react, title_of, Reaction};

fn out(text: &str) -> ProcessEvent {
    ProcessEvent::StdoutLine(text.to_string())
}

fn err(text: &str) -> ProcessEvent {
    ProcessEvent::StderrLine(text.to_string())
}

#[test]
fn stderr_then_stdout_then_exit_gives_the_stdout_line_as_title() {
    let events = vec![err("WARNING: slow"), out("The Title\n"), ProcessEvent::Terminated(Some(0))];
    assert_eq!(title_of(&events), "The Title");
}

#[test]
fn probe_without_a_stdout_line_gives_the_empty_title() {
    assert_eq!(title_of(&Vec::new()), "");
    assert_eq!(title_of(&vec![ProcessEvent::Terminated(Some(1))]), "");
    assert_eq!(title_of(&vec![err("ERROR: gone"), ProcessEvent::Terminated(Some(1))]), "");
}

#[test]
fn only_the_first_stdout_line_counts() {
    assert_eq!(title_of(&vec![out("  first "), out("second")]), "first");
    assert_eq!(title_of(&vec![ProcessEvent::Terminated(None), out("late")]), "late");
    assert_eq!(title_of(&vec![out("   "), out("second")]), "");
}

#[test]
fn reaction_to_a_stdout_line() {
    assert_eq!(
        react(&Input::Event(out(" A Song \r\n"))),
        Reaction {
            report: Some("Titre récupéré: A Song".to_string()),
            title: Some("A Song".to_string()),
        }
    );
}

#[test]
fn reaction_to_a_stderr_line() {
    assert_eq!(
        react(&Input::Event(err("WARNING: x\n"))),
        Reaction {
            report: Some("Erreur lors de la récupération du titre: WARNING: x\n".to_string()),
            title: None,
        }
    );
}

#[test]
fn reaction_to_the_end_of_the_stream() {
    assert_eq!(react(&Input::Closed), Reaction { report: None, title: Some(String::new()) });
}

#[test]
fn reaction_to_anything_else() {
    let nothing = Reaction { report: None, title: None };
    assert_eq!(react(&Input::Spawned), nothing);
    assert_eq!(react(&Input::Event(ProcessEvent::Terminated(Some(0)))), nothing);
    assert_eq!(react(&Input::FileFound(true)), nothing);
    assert_eq!(react(&Input::SpawnFailed("x".to_string())), nothing);
}

#[test]
fn launch_ends_the_probe_and_asks_for_the_download() {
    let (path, turn) = launch(
        Some("Titre récupéré: T".to_string()),
        "/d",
        "https://e/v",
        MediaFormat::Audio,
        "T",
    );
    assert_eq!(path, "/d/T.mp3");
    let arguments: Vec<String> = [
        "-x",
        "--audio-format",
        "mp3",
        "--audio-quality",
        "0",
        "--prefer-ffmpeg",
        "--no-playlist",
        "--encoding",
        "utf-8",
        "-o",
        "/d/T.mp3",
        "https://e/v",
    ]
    .iter()
    .map(|a| a.to_string())
    .collect();
    assert_eq!(
        turn,
        Turn {
            effects: vec![
                Effect::Report("Titre récupéré: T".to_string()),
                Effect::Kill,
                Effect::Report("Chemin de sortie: /d/T.mp3".to_string()),
                Effect::Report(
                    "Arguments de téléchargement: [\"-x\", \"--audio-format\", \"mp3\", \
                     \"--audio-quality\", \"0\", \"--prefer-ffmpeg\", \"--no-playlist\", \
                     \"--encoding\", \"utf-8\", \"-o\", \"/d/T.mp3\", \"https://e/v\"]"
                        .to_string()
                ),
            ],
            request: Request::Spawn(arguments),
        }
    );
}

#[test]
fn launch_without_a_report_starts_with_the_kill() {
    let (path, turn) = launch(None, "/d", "u", MediaFormat::Video, "");
    assert_eq!(path, "/d/.mp4");
    assert_eq!(turn.effects.len(), 3);
    assert_eq!(turn.effects[0], Effect::Kill);
    assert_eq!(turn.effects[1], Effect::Report("Chemin de sortie: /d/.mp4".to_string()));
}

#[test]
fn arguments_are_reported_quoted_and_escaped() {
    let (_, turn) = launch(None, "/d", "u", MediaFormat::Video, "a \"b\"\\");
    assert_eq!(
        turn.effects[2],
        Effect::Report(
            "Arguments de téléchargement: [\"-f\", \
             \"bestvideo[ext=mp4]+bestaudio[ext=m4a]/best[ext=mp4]/best\", \
             \"--merge-output-format\", \"mp4\", \"--no-playlist\", \"--encoding\", \"utf-8\", \
             \"-o\", \"/d/a \\\"b\\\"\\\\.mp4\", \"u\"]"
                .to_string()
        )
    );
}
