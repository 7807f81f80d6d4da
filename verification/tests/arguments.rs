use download_orchestrator::args::{
    download_args, listing_args, title_probe_args, watch_url, MAX_PLAYLIST_ITEMS,
};
use download_orchestrator::error::OrchestratorError;
use download_orchestrator::format::MediaFormat;

#[test]
fn audio_download_arguments() {
    assert_eq!(
        download_args(MediaFormat::Audio, "/home/u/Downloads/Song.mp3", "https://example.org/v"),
        vec![
            "-x",
            "--audio-format",
            "mp3",
            "--audio-quality",
            "0",
            "--prefer-ffmpeg",
            "--no-playlist",
            "--encoding",
            "utf-8",
            "-o",
            "/home/u/Downloads/Song.mp3",
            "https://example.org/v",
        ]
    );
}

#[test]
fn video_download_arguments() {
    assert_eq!(
        download_args(MediaFormat::Video, "/home/u/Downloads/Clip.mp4", "https://example.org/v"),
        vec![
            "-f",
            "bestvideo[ext=mp4]+bestaudio[ext=m4a]/best[ext=mp4]/best",
            "--merge-output-format",
            "mp4",
            "--no-playlist",
            "--encoding",
            "utf-8",
            "-o",
            "/home/u/Downloads/Clip.mp4",
            "https://example.org/v",
        ]
    );
}

#[test]
fn download_arguments_hold_one_output_override_and_end_in_the_source() {
    for format in [MediaFormat::Audio, MediaFormat::Video] {
        for (path, url) in [("/d/t.mp3", "https://e/x"), ("", ""), ("p q", "u v")] {
            let args = download_args(format, path, url);
            let n = args.len();
            assert_eq!(args[n - 1], url);
            assert_eq!(args[n - 2], path);
            assert_eq!(args[n - 3], "-o");
            assert_eq!(args[..n - 2].iter().filter(|a| a.as_str() == "-o").count(), 1);
        }
    }
}

#[test]
fn title_probe_arguments() {
    assert_eq!(
        title_probe_args("https://example.org/v"),
        vec!["--get-title", "--no-warnings", "--encoding", "utf-8", "https://example.org/v"]
    );
}

#[test]
fn listing_arguments_cap_the_number_of_entries() {
    assert_eq!(MAX_PLAYLIST_ITEMS, 25);
    assert_eq!(
        listing_args("https://example.org/list"),
        vec![
            "--flat-playlist",
            "--dump-json",
            "--playlist-items",
            "1-25",
            "--no-warnings",
            "--encoding",
            "utf-8",
            "https://example.org/list",
        ]
    );
}

#[test]
fn watch_url_of_an_id() {
    assert_eq!(watch_url("dQw4w9WgXcQ"), "https://www.youtube.com/watch?v=dQw4w9WgXcQ");
    assert_eq!(watch_url(""), "https://www.youtube.com/watch?v=");
}

#[test]
fn format_names() {
    assert_eq!(MediaFormat::parse("audio"), Ok(MediaFormat::Audio));
    assert_eq!(MediaFormat::parse("video"), Ok(MediaFormat::Video));
}

#[test]
fn other_format_names_are_not_supported() {
    for name in ["", "Audio", "VIDEO", "audio ", "mp3", "mp4", "flac", "audiovideo"] {
        assert_eq!(MediaFormat::parse(name), Err(OrchestratorError::UnsupportedFormat));
    }
}

#[test]
fn extensions() {
    assert_eq!(MediaFormat::Audio.extension(), "mp3");
    assert_eq!(MediaFormat::Video.extension(), "mp4");
}
