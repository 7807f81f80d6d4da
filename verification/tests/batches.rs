use download_orchestrator::batch::{Batch, ItemPhase};
use download_orchestrator::error::OrchestratorError;
use download_orchestrator::event::{Effect, Input, ProcessEvent, Request, Turn};
use download_orchestrator::format::MediaFormat;

fn out(text: &str) -> Input {
    Input::Event(ProcessEvent::StdoutLine(text.to_string()))
}

fn exit(code: i32) -> Input {
    Input::Event(ProcessEvent::Terminated(Some(code)))
}

fn strings(items: &[&str]) -> Vec<String> {
    items.iter().map(|item| item.to_string()).collect()
}

fn reports(effects: &[Effect]) -> Vec<String> {
    effects
        .iter()
        .filter_map(|effect| match effect {
            Effect::Report(line) => Some(line.clone()),
            _ => None,
        })
        .collect()
}

fn run(start: (Batch, Turn), inputs: Vec<Input>) -> (Batch, Vec<Effect>, Request) {
    let (mut state, mut turn) = start;
    let mut effects = Vec::new();
    for input in inputs {
        effects.append(&mut turn.effects);
        let next = state.advance(input);
        state = next.0;
        turn = next.1;
    }
    effects.append(&mut turn.effects);
    (state, effects, turn.request)
}

/// The inputs of one item whose probe prints `title` and whose download
/// ends with `code`, the file being there or not.
fn item(title: &str, code: i32, found: bool) -> Vec<Input> {
    let mut inputs = vec![Input::Spawned, out(title), Input::Spawned, out("[download] 100%"), exit(code)];
    if code == 0 {
        inputs.push(Input::FileFound(found));
    }
    inputs.push(Input::Closed);
    inputs
}

#[test]
fn batch_announces_the_first_item_and_asks_for_its_probe() {
    let (state, turn) =
        Batch::begin(Some("/d".to_string()), strings(&["a1", "b2"]), "audio").unwrap();
    assert_eq!(
        state,
        Batch {
            directory: "/d".to_string(),
            ids: strings(&["a1", "b2"]),
            format: MediaFormat::Audio,
            index: 0,
            phase: ItemPhase::TitleProbing,
            downloaded: vec![],
        }
    );
    assert_eq!(
        turn,
        Turn {
            effects: vec![Effect::Report("Téléchargement de la vidéo 1/2 (ID: a1)".to_string())],
            request: Request::Spawn(strings(&[
                "--get-title",
                "--no-warnings",
                "--encoding",
                "utf-8",
                "https://www.youtube.com/watch?v=a1",
            ])),
        }
    );
    assert!(!state.is_over());
}

#[test]
fn batch_without_a_downloads_directory_does_not_begin() {
    assert_eq!(
        Batch::begin(None, strings(&["a"]), "audio"),
        Err(OrchestratorError::DownloadsDirectoryUnavailable)
    );
    assert_eq!(
        Batch::begin(None, strings(&["a"]), "flac"),
        Err(OrchestratorError::DownloadsDirectoryUnavailable)
    );
}

#[test]
fn batch_in_an_unsupported_format_does_not_begin() {
    assert_eq!(
        Batch::begin(Some("/d".to_string()), strings(&["a"]), "flac"),
        Err(OrchestratorError::UnsupportedFormat)
    );
    assert_eq!(
        Batch::begin(Some("/d".to_string()), vec![], "flac"),
        Err(OrchestratorError::UnsupportedFormat)
    );
}

#[test]
fn batch_of_nothing_is_over_at_once() {
    let (state, turn) = Batch::begin(Some("/d".to_string()), vec![], "video").unwrap();
    assert!(state.is_over());
    assert_eq!(
        turn,
        Turn {
            effects: vec![Effect::Report(
                "Téléchargement terminé. 0 fichiers téléchargés sur 0".to_string()
            )],
            request: Request::Finish,
        }
    );
    assert!(state.into_downloaded().is_empty());
}

#[test]
fn batch_of_three_where_the_second_fails_returns_the_other_two() {
    let begun = Batch::begin(Some("/d".to_string()), strings(&["i1", "i2", "i3"]), "audio").unwrap();
    let mut inputs = item("One", 0, true);
    inputs.extend(item("Two", 1, false));
    inputs.extend(item("Three", 0, true));
    let (state, effects, request) = run(begun, inputs);
    assert_eq!(request, Request::Finish);
    assert!(state.is_over());
    let lines = reports(&effects);
    let failures: Vec<&String> =
        lines.iter().filter(|line| line.starts_with("Échec du téléchargement")).collect();
    assert_eq!(failures, vec!["Échec du téléchargement de la vidéo i2"]);
    assert_eq!(lines.last().unwrap(), "Téléchargement terminé. 2 fichiers téléchargés sur 3");
    assert_eq!(
        effects.iter().filter(|effect| matches!(effect, Effect::Touch(_))).count(),
        2
    );
    assert_eq!(state.into_downloaded(), vec!["/d/One.mp3", "/d/Three.mp3"]);
}

#[test]
fn batch_reports_every_step_of_an_item_in_order() {
    let begun = Batch::begin(Some("/d".to_string()), strings(&["i1"]), "video").unwrap();
    let (state, effects, _) = run(begun, item(" T \n", 0, true));
    assert_eq!(
        effects,
        vec![
            Effect::Report("Téléchargement de la vidéo 1/1 (ID: i1)".to_string()),
            Effect::Report("Titre récupéré: T".to_string()),
            Effect::Kill,
            Effect::Report("Chemin de sortie: /d/T.mp4".to_string()),
            Effect::Report(
                "Arguments de téléchargement: [\"-f\", \
                 \"bestvideo[ext=mp4]+bestaudio[ext=m4a]/best[ext=mp4]/best\", \
                 \"--merge-output-format\", \"mp4\", \"--no-playlist\", \"--encoding\", \
                 \"utf-8\", \"-o\", \"/d/T.mp4\", \"https://www.youtube.com/watch?v=i1\"]"
                    .to_string()
            ),
            Effect::Report("[download] 100%".to_string()),
            Effect::Touch("/d/T.mp4".to_string()),
            Effect::Report("Téléchargement terminé. 1 fichiers téléchargés sur 1".to_string()),
        ]
    );
    assert_eq!(state.into_downloaded(), vec!["/d/T.mp4"]);
}

#[test]
fn item_whose_file_is_missing_fails() {
    let begun = Batch::begin(Some("/d".to_string()), strings(&["i1", "i2"]), "audio").unwrap();
    let mut inputs = item("One", 0, false);
    inputs.extend(item("Two", 0, true));
    let (state, effects, _) = run(begun, inputs);
    let lines = reports(&effects);
    assert!(lines.contains(&"Échec du téléchargement de la vidéo i1".to_string()));
    assert!(!lines.contains(&"Échec du téléchargement de la vidéo i2".to_string()));
    assert_eq!(lines.last().unwrap(), "Téléchargement terminé. 1 fichiers téléchargés sur 2");
    assert_eq!(state.into_downloaded(), vec!["/d/Two.mp3"]);
}

#[test]
fn item_whose_process_cannot_be_started_fails_and_the_batch_goes_on() {
    let begun = Batch::begin(Some("/d".to_string()), strings(&["i1", "i2", "i3"]), "audio").unwrap();
    let mut inputs = vec![Input::SpawnFailed("no probe".to_string())];
    inputs.extend(vec![Input::Spawned, out("Two"), Input::SpawnFailed("no download".to_string())]);
    inputs.extend(item("Three", 0, true));
    let (state, effects, request) = run(begun, inputs);
    assert_eq!(request, Request::Finish);
    let lines = reports(&effects);
    assert_eq!(lines[0], "Téléchargement de la vidéo 1/3 (ID: i1)");
    assert_eq!(lines[1], "no probe");
    assert_eq!(lines[2], "Échec du téléchargement de la vidéo i1");
    assert_eq!(lines[3], "Téléchargement de la vidéo 2/3 (ID: i2)");
    assert!(lines.contains(&"no download".to_string()));
    assert!(lines.contains(&"Échec du téléchargement de la vidéo i2".to_string()));
    assert_eq!(lines.last().unwrap(), "Téléchargement terminé. 1 fichiers téléchargés sur 3");
    assert_eq!(state.into_downloaded(), vec!["/d/Three.mp3"]);
}

#[test]
fn item_whose_stream_closes_without_an_exit_fails() {
    let begun = Batch::begin(Some("/d".to_string()), strings(&["i1"]), "audio").unwrap();
    let (state, effects, request) =
        run(begun, vec![Input::Spawned, out("One"), Input::Spawned, Input::Closed]);
    assert_eq!(request, Request::Finish);
    let lines = reports(&effects);
    assert_eq!(lines[lines.len() - 2], "Échec du téléchargement de la vidéo i1");
    assert_eq!(lines[lines.len() - 1], "Téléchargement terminé. 0 fichiers téléchargés sur 1");
    assert!(state.into_downloaded().is_empty());
}

#[test]
fn batch_where_every_item_fails_returns_nothing_and_no_error() {
    let begun = Batch::begin(Some("/d".to_string()), strings(&["a", "b"]), "video").unwrap();
    let mut inputs = item("A", 2, false);
    inputs.extend(item("B", 1, false));
    let (state, effects, request) = run(begun, inputs);
    assert_eq!(request, Request::Finish);
    assert!(state.is_over());
    assert_eq!(
        reports(&effects).last().unwrap(),
        "Téléchargement terminé. 0 fichiers téléchargés sur 2"
    );
    assert!(state.into_downloaded().is_empty());
}

#[test]
fn items_are_worked_on_one_after_the_other() {
    let begun = Batch::begin(Some("/d".to_string()), strings(&["a", "b"]), "audio").unwrap();
    let (state, _, request) = run(begun, vec![Input::Spawned, out("A"), Input::Spawned, exit(0)]);
    assert_eq!(state.index, 0);
    assert_eq!(request, Request::FindFile("/d/A.mp3".to_string()));
    let (state, turn) = state.advance(Input::FileFound(true));
    assert_eq!(state.index, 0);
    assert_eq!(state.phase, ItemPhase::Downloading { path: "/d/A.mp3".to_string(), kept: true });
    assert_eq!(turn.request, Request::Next);
    let (state, turn) = state.advance(Input::Closed);
    assert_eq!(state.index, 1);
    assert_eq!(state.phase, ItemPhase::TitleProbing);
    assert_eq!(
        turn,
        Turn {
            effects: vec![Effect::Report("Téléchargement de la vidéo 2/2 (ID: b)".to_string())],
            request: Request::Spawn(strings(&[
                "--get-title",
                "--no-warnings",
                "--encoding",
                "utf-8",
                "https://www.youtube.com/watch?v=b",
            ])),
        }
    );
}

#[test]
fn a_path_is_taken_down_once() {
    let begun = Batch::begin(Some("/d".to_string()), strings(&["a"]), "audio").unwrap();
    let (state, _, request) = run(
        begun,
        vec![
            Input::Spawned,
            out("A"),
            Input::Spawned,
            exit(0),
            Input::FileFound(true),
            exit(0),
        ],
    );
    assert_eq!(request, Request::Next);
    assert_eq!(state.downloaded, vec!["/d/A.mp3"]);
}

#[test]
fn batch_that_is_over_stays_over() {
    let (state, _) = Batch::begin(Some("/d".to_string()), vec![], "audio").unwrap();
    let (state, turn) = state.advance(out("late"));
    assert!(state.is_over());
    assert_eq!(turn, Turn { effects: vec![], request: Request::Finish });
}
