use download_orchestrator::error::OrchestratorError;
use download_orchestrator::playlist::{
    assemble, normalize, parse_listing, read_line, LineReading, Listing, PlaylistVideo, RawEntry,
};

fn empty_entry() -> RawEntry {
    RawEntry {
        id: None,
        title: None,
        thumbnail: None,
        duration_text: None,
        duration_bits: None,
        uploader: None,
    }
}

fn video(id: &str, title: &str, thumbnail: &str, duration: &str, uploader: &str) -> PlaylistVideo {
    PlaylistVideo {
        id: id.to_string(),
        title: title.to_string(),
        thumbnail: thumbnail.to_string(),
        duration: duration.to_string(),
        uploader: uploader.to_string(),
    }
}

/// The entry of a line that holds one record.
fn entry(line: &str) -> RawEntry {
    match read_line(line) {
        LineReading::Record(entry) => entry,
        other => panic!("no record: {:?}", other),
    }
}

#[test]
fn numeric_duration_is_formatted() {
    let listing = parse_listing("{\"id\":\"a\",\"title\":\"T\",\"duration\":125}");
    assert_eq!(listing.outcome, Ok(vec![video("a", "T", "", "02:05", "")]));
}

#[test]
fn blank_output_is_an_empty_playlist() {
    for output in ["", "\n", "   ", " \r\n\t\n\n", "\u{a0}\n"] {
        let listing = parse_listing(output);
        assert_eq!(
            listing.outcome,
            Err(OrchestratorError::PlaylistEmpty { unparsed_data: false }),
            "{:?}",
            output
        );
        assert_eq!(listing.progress, vec!["Aucune donnée de playlist n'a été reçue."]);
    }
}

#[test]
fn output_without_any_record_is_an_empty_playlist_with_unparsed_data() {
    let listing = parse_listing("not json\n");
    assert_eq!(listing.outcome, Err(OrchestratorError::PlaylistEmpty { unparsed_data: true }));
    assert_eq!(
        listing.progress,
        vec![
            "Erreur de désérialisation JSON pour une vidéo : expected ident at line 1 column 2 - Ligne: not json",
            "Aucune vidéo n'a pu être extraite du JSON, bien que des données aient été reçues.",
        ]
    );
}

#[test]
fn unreadable_lines_are_passed_over() {
    let output = "{\"id\":\"a\"}\n{broken\n\n{\"id\":\"b\"}\n";
    let listing = parse_listing(output);
    assert_eq!(
        listing.outcome,
        Ok(vec![video("a", "", "", "", ""), video("b", "", "", "", "")])
    );
    assert_eq!(listing.progress.len(), 2);
    assert!(listing.progress[0]
        .starts_with("Erreur de désérialisation JSON pour une vidéo : key must be a string"));
    assert!(listing.progress[0].ends_with(" - Ligne: {broken"));
    assert_eq!(listing.progress[1], "Nombre de vidéos trouvées dans la playlist: 2");
}

#[test]
fn records_keep_the_order_of_their_lines() {
    let output = "{\"id\":\"3\"}\r\n{\"id\":\"1\"}\r\n{\"id\":\"2\"}";
    let listing = parse_listing(output);
    let ids: Vec<String> = listing.outcome.unwrap().into_iter().map(|v| v.id).collect();
    assert_eq!(ids, vec!["3", "1", "2"]);
    assert_eq!(listing.progress, vec!["Nombre de vidéos trouvées dans la playlist: 3"]);
}

#[test]
fn full_record_is_read_field_by_field() {
    let line = "{\"id\":\"abc\",\"title\":\"A title\",\"uploader\":\"Someone\",\
                \"duration\":3725.4,\"thumbnails\":[{\"url\":\"https://i/1.jpg\",\"height\":90},\
                {\"url\":\"https://i/2.jpg\"}]}";
    let listing = parse_listing(line);
    assert_eq!(
        listing.outcome,
        Ok(vec![video("abc", "A title", "https://i/1.jpg", "01:02:05", "Someone")])
    );
}

#[test]
fn duration_text_wins_over_the_number() {
    let both = entry("{\"duration_string\":\"3:07\",\"duration\":12}");
    assert_eq!(both.duration_text, Some("3:07".to_string()));
    assert_eq!(both.duration_bits, Some(12f64.to_bits()));
    assert_eq!(normalize(&both).duration, "3:07");
}

#[test]
fn duration_that_is_neither_text_nor_number_is_empty() {
    let neither = entry("{\"duration_string\":7,\"duration\":\"12\"}");
    assert_eq!(neither.duration_text, None);
    assert_eq!(neither.duration_bits, None);
    assert_eq!(normalize(&neither).duration, "");
}

#[test]
fn duration_number_is_rounded_to_the_nearest_second() {
    for (text, shown) in [
        ("{\"duration\":59.4}", "00:59"),
        ("{\"duration\":59.5}", "01:00"),
        ("{\"duration\":0}", "00:00"),
        ("{\"duration\":-3}", "00:00"),
        ("{\"duration\":3599.7}", "01:00:00"),
        ("{\"duration\":1e3}", "16:40"),
    ] {
        assert_eq!(normalize(&entry(text)).duration, shown, "{}", text);
    }
}

#[test]
fn fields_of_another_type_count_as_missing() {
    let misfit = entry(
        "{\"id\":1,\"title\":null,\"uploader\":[\"x\"],\"thumbnails\":{\"url\":\"u\"}}",
    );
    assert_eq!(misfit, empty_entry());
    assert_eq!(normalize(&misfit), video("", "", "", "", ""));
}

#[test]
fn a_document_that_is_no_object_has_no_fields() {
    for text in ["[]", "\"id\"", "12", "null", "true", "[{\"id\":\"a\"}]"] {
        assert_eq!(entry(text), empty_entry(), "{}", text);
    }
    let listing = parse_listing("12");
    assert_eq!(listing.outcome, Ok(vec![video("", "", "", "", "")]));
}

#[test]
fn thumbnail_is_the_address_of_the_first_one() {
    let first = |text: &str| entry(text).thumbnail;
    assert_eq!(first("{\"thumbnails\":[{\"url\":\"a\"},{\"url\":\"b\"}]}"), Some("a".to_string()));
    assert_eq!(first("{\"thumbnails\":[{\"id\":\"0\"},{\"url\":\"b\"}]}"), None);
    assert_eq!(first("{\"thumbnails\":[]}"), None);
    assert_eq!(first("{\"thumbnails\":[\"a\"]}"), None);
    assert_eq!(first("{\"thumbnails\":[{\"url\":5}]}"), None);
    assert_eq!(first("{\"thumbnail\":\"a\"}"), None);
}

#[test]
fn normalize_fills_missing_fields_with_nothing() {
    assert_eq!(normalize(&empty_entry()), video("", "", "", "", ""));
    let full = RawEntry {
        id: Some("i".to_string()),
        title: Some("t".to_string()),
        thumbnail: Some("h".to_string()),
        duration_text: None,
        duration_bits: Some(7265f64.to_bits()),
        uploader: Some("u".to_string()),
    };
    assert_eq!(normalize(&full), video("i", "t", "h", "02:01:05", "u"));
}

#[test]
fn lines_are_read_as_blank_record_or_unreadable() {
    assert_eq!(read_line("  \t"), LineReading::Blank);
    assert_eq!(read_line(""), LineReading::Blank);
    let mut only_id = empty_entry();
    only_id.id = Some("x".to_string());
    assert_eq!(read_line(" {\"id\":\"x\"} "), LineReading::Record(only_id));
    assert_eq!(
        read_line("{\"id\":"),
        LineReading::Unreadable {
            reason: "EOF while parsing a value at line 1 column 6".to_string(),
            line: "{\"id\":".to_string(),
        }
    );
}

#[test]
fn two_documents_on_one_line_are_unreadable() {
    assert!(matches!(read_line("{} {}"), LineReading::Unreadable { .. }));
}

#[test]
fn assemble_reports_warnings_in_order_and_then_the_count() {
    let mut first = empty_entry();
    first.id = Some("1".to_string());
    let readings = vec![
        LineReading::Unreadable { reason: "r1".to_string(), line: "l1".to_string() },
        LineReading::Blank,
        LineReading::Record(first),
        LineReading::Unreadable { reason: "r2".to_string(), line: "l2".to_string() },
        LineReading::Record(empty_entry()),
    ];
    assert_eq!(
        assemble(&readings),
        Listing {
            outcome: Ok(vec![video("1", "", "", "", ""), video("", "", "", "", "")]),
            progress: vec![
                "Erreur de désérialisation JSON pour une vidéo : r1 - Ligne: l1".to_string(),
                "Erreur de désérialisation JSON pour une vidéo : r2 - Ligne: l2".to_string(),
                "Nombre de vidéos trouvées dans la playlist: 2".to_string(),
            ],
        }
    );
}

#[test]
fn assemble_of_nothing_is_an_empty_playlist() {
    assert_eq!(
        assemble(&Vec::new()),
        Listing {
            outcome: Err(OrchestratorError::PlaylistEmpty { unparsed_data: false }),
            progress: vec!["Aucune donnée de playlist n'a été reçue.".to_string()],
        }
    );
    assert_eq!(
        assemble(&vec![LineReading::Blank, LineReading::Blank]).outcome,
        Err(OrchestratorError::PlaylistEmpty { unparsed_data: false })
    );
}

#[test]
fn error_messages() {
    assert_eq!(
        OrchestratorError::DownloadsDirectoryUnavailable.message(),
        "Impossible de trouver le dossier de téléchargement"
    );
    assert_eq!(
        OrchestratorError::UnsupportedFormat.message(),
        "Format non supporté. Utilisez 'audio' ou 'video'"
    );
    assert_eq!(OrchestratorError::ProcessSpawnFailed("no such file".to_string()).message(), "no such file");
    assert_eq!(OrchestratorError::DownloadFailed.message(), "Le téléchargement a échoué");
    assert_eq!(
        OrchestratorError::ProcessEndedUnexpectedly.message(),
        "Le processus s'est terminé de manière inattendue"
    );
    assert_eq!(
        OrchestratorError::ListingFailed.message(),
        "Échec de la récupération des informations de la playlist"
    );
    assert_eq!(
        OrchestratorError::PlaylistEmpty { unparsed_data: true }.message(),
        "Aucune vidéo n'a pu être extraite du JSON, bien que des données aient été reçues."
    );
    assert_eq!(
        OrchestratorError::PlaylistEmpty { unparsed_data: false }.message(),
        "Aucune donnée de playlist n'a été reçue."
    );
}

#[test]
fn listing_with_records_and_unreadable_lines_is_degraded() {
    assert!(parse_listing("{\"id\":\"a\"}\nnope\n").is_degraded());
    assert!(!parse_listing("{\"id\":\"a\"}\n\n").is_degraded());
    assert!(!parse_listing("nope\n").is_degraded());
    assert!(!parse_listing("").is_degraded());
}
