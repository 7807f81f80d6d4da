//! The argument lists with which the external tool is started.

use vstd::prelude::*;
use vstd::string::*;

use crate::format::MediaFormat;
use crate::text::{decimal, joined, push_decimal, views};

verus! {

/// A listing asks for no more than this many entries of a playlist.
pub const MAX_PLAYLIST_ITEMS: u64 = 25;

/// The page on which the video with this id is watched.
pub open spec fn watch_address(id: Seq<char>) -> Seq<char> {
    "https://www.youtube.com/watch?v="@ + id
}

/// The range of playlist entries that a listing asks for.
pub open spec fn listing_range() -> Seq<char> {
    "1-"@ + decimal(MAX_PLAYLIST_ITEMS as nat)
}

/// The arguments of the run that prints a title and nothing else.
pub open spec fn title_probe_arguments(url: Seq<char>) -> Seq<Seq<char>> {
    seq!["--get-title"@, "--no-warnings"@, "--encoding"@, "utf-8"@, url]
}

/// The arguments of the run that lists a playlist, one record on each line,
/// without downloading anything.
pub open spec fn listing_arguments(url: Seq<char>) -> Seq<Seq<char>> {
    seq![
        "--flat-playlist"@,
        "--dump-json"@,
        "--playlist-items"@,
        listing_range(),
        "--no-warnings"@,
        "--encoding"@,
        "utf-8"@,
        url,
    ]
}

/// The arguments that choose what is downloaded and how it is put together.
pub open spec fn selector_arguments(format: MediaFormat) -> Seq<Seq<char>> {
    match format {
        MediaFormat::Audio => seq![
            "-x"@,
            "--audio-format"@,
            "mp3"@,
            "--audio-quality"@,
            "0"@,
            "--prefer-ffmpeg"@,
        ],
        MediaFormat::Video => seq![
            "-f"@,
            "bestvideo[ext=mp4]+bestaudio[ext=m4a]/best[ext=mp4]/best"@,
            "--merge-output-format"@,
            "mp4"@,
        ],
    }
}

/// The arguments that every download ends with: no playlist is followed,
/// output is UTF-8, the file goes to `path`, and the source comes last.
pub open spec fn common_arguments(path: Seq<char>, url: Seq<char>) -> Seq<Seq<char>> {
    seq!["--no-playlist"@, "--encoding"@, "utf-8"@, "-o"@, path, url]
}

/// The arguments of a download of `url` in `format` to `path`.
pub open spec fn download_arguments(format: MediaFormat, path: Seq<char>, url: Seq<char>) -> Seq<
    Seq<char>,
> {
    selector_arguments(format) + common_arguments(path, url)
}

/// Appends a copy of `item` to `list`.
pub fn push_text(list: &mut Vec<String>, item: &str)
    ensures
        views(final(list)@) == views(old(list)@).push(item@),
{
    list.push(String::from_str(item));
    assert(views(list@) =~= views(old(list)@).push(item@));
}

/// The page on which the video with this id is watched.
pub fn watch_url(id: &str) -> (url: String)
    ensures
        url@ == watch_address(id@),
{
    joined("https://www.youtube.com/watch?v=", id)
}

/// The arguments of the run that prints the title of `url`.
pub fn title_probe_args(url: &str) -> (args: Vec<String>)
    ensures
        views(args@) == title_probe_arguments(url@),
{
    let mut args: Vec<String> = Vec::new();
    assert(views(args@) =~= Seq::<Seq<char>>::empty());
    push_text(&mut args, "--get-title");
    push_text(&mut args, "--no-warnings");
    push_text(&mut args, "--encoding");
    push_text(&mut args, "utf-8");
    push_text(&mut args, url);
    assert(views(args@) =~= title_probe_arguments(url@));
    args
}

/// The arguments of the run that lists the playlist at `url`.
pub fn listing_args(url: &str) -> (args: Vec<String>)
    ensures
        views(args@) == listing_arguments(url@),
{
    let mut range = String::from_str("1-");
    push_decimal(&mut range, MAX_PLAYLIST_ITEMS);
    let mut args: Vec<String> = Vec::new();
    assert(views(args@) =~= Seq::<Seq<char>>::empty());
    push_text(&mut args, "--flat-playlist");
    push_text(&mut args, "--dump-json");
    push_text(&mut args, "--playlist-items");
    push_text(&mut args, range.as_str());
    push_text(&mut args, "--no-warnings");
    push_text(&mut args, "--encoding");
    push_text(&mut args, "utf-8");
    push_text(&mut args, url);
    assert(views(args@) =~= listing_arguments(url@));
    args
}

/// The arguments of a download of `url` in `format` to `path`.
pub fn download_args(format: MediaFormat, path: &str, url: &str) -> (args: Vec<String>)
    ensures
        views(args@) == download_arguments(format, path@, url@),
{
    let mut args: Vec<String> = Vec::new();
    assert(views(args@) =~= Seq::<Seq<char>>::empty());
    match format {
        MediaFormat::Audio => {
            push_text(&mut args, "-x");
            push_text(&mut args, "--audio-format");
            push_text(&mut args, "mp3");
            push_text(&mut args, "--audio-quality");
            push_text(&mut args, "0");
            push_text(&mut args, "--prefer-ffmpeg");
        },
        MediaFormat::Video => {
            push_text(&mut args, "-f");
            push_text(&mut args, "bestvideo[ext=mp4]+bestaudio[ext=m4a]/best[ext=mp4]/best");
            push_text(&mut args, "--merge-output-format");
            push_text(&mut args, "mp4");
        },
    }
    assert(views(args@) =~= selector_arguments(format));
    push_text(&mut args, "--no-playlist");
    push_text(&mut args, "--encoding");
    push_text(&mut args, "utf-8");
    push_text(&mut args, "-o");
    push_text(&mut args, path);
    push_text(&mut args, url);
    assert(views(args@) =~= download_arguments(format, path@, url@));
    args
}

/// In the arguments of a download, whatever the format, the path and the
/// source: the source is the last argument, the path stands right before it
/// behind the one `-o`, and no argument before these two is another `-o`.
/// Unless the path or the source is itself the text `-o`, the list holds
/// that text exactly once.
pub proof fn lemma_download_arguments_shape(format: MediaFormat, path: Seq<char>, url: Seq<char>)
    ensures
        ({
            let args = download_arguments(format, path, url);
            &&& args.len() >= 3
            &&& args.last() == url
            &&& args[args.len() - 2] == path
            &&& args[args.len() - 3] == "-o"@
            &&& forall|i: int|
                0 <= i < args.len() - 2 && #[trigger] args[i] == "-o"@ ==> i == args.len() - 3
            &&& path != "-o"@ && url != "-o"@ ==> forall|i: int|
                0 <= i < args.len() && #[trigger] args[i] == "-o"@ ==> i == args.len() - 3
        }),
{
    reveal_strlit("-o");
    reveal_strlit("-x");
    reveal_strlit("-f");
    reveal_strlit("0");
    reveal_strlit("mp3");
    reveal_strlit("mp4");
    reveal_strlit("utf-8");
    reveal_strlit("--audio-format");
    reveal_strlit("--audio-quality");
    reveal_strlit("--prefer-ffmpeg");
    reveal_strlit("--merge-output-format");
    reveal_strlit("--no-playlist");
    reveal_strlit("--encoding");
    reveal_strlit("bestvideo[ext=mp4]+bestaudio[ext=m4a]/best[ext=mp4]/best");
    let args = download_arguments(format, path, url);
    let dash_o = "-o"@;
    assert(dash_o.len() == 2 && dash_o[1] == 'o');
    assert forall|i: int| 0 <= i < args.len() - 2 && #[trigger] args[i] == dash_o implies i
        == args.len() - 3 by {
        if i != args.len() - 3 {
            assert(args[i].len() != 2 || args[i][1] != 'o');
        }
    }
}

} // verus!
