//! Where a download is written: the downloads directory, the title and the
//! extension of the format, put together before the download starts.

use vstd::prelude::*;
use vstd::string::*;

use crate::format::{extension_of, lemma_extension_is_mp3_or_mp4, MediaFormat};

verus! {

/// The directory as the path starts with it: a separator follows, unless the
/// directory is empty or ends in one already.
pub open spec fn directory_prefix(directory: Seq<char>) -> Seq<char> {
    if directory.len() == 0 || directory.last() == '/' {
        directory
    } else {
        directory.push('/')
    }
}

/// The file's name: the title, a dot and the extension.
pub open spec fn file_name(title: Seq<char>, format: MediaFormat) -> Seq<char> {
    title.push('.') + extension_of(format)
}

/// The path of the file that a download of `title` in `format` leaves in
/// `directory`.
pub open spec fn output_path(directory: Seq<char>, title: Seq<char>, format: MediaFormat) -> Seq<
    char,
> {
    directory_prefix(directory) + file_name(title, format)
}

/// The destination of a download. The title is taken as it is: nothing in it
/// is escaped or replaced.
pub fn resolve_output_path(directory: &str, title: &str, format: MediaFormat) -> (path: String)
    ensures
        path@ == output_path(directory@, title@, format),
{
    let mut path = String::from_str(directory);
    let chars = crate::text::chars_of(directory);
    if chars.len() > 0 && chars[chars.len() - 1] != '/' {
        path.push('/');
    }
    path.append(title);
    path.push('.');
    path.append(format.extension());
    proof {
        assert(path@ =~= output_path(directory@, title@, format));
    }
    path
}

/// Whatever the title, the path ends in `.mp3` for audio and in `.mp4` for
/// video, the title stands right before that ending, and the directory
/// stands unchanged at the path's start.
pub proof fn lemma_output_path_shape(directory: Seq<char>, title: Seq<char>, format: MediaFormat)
    ensures
        ({
            let path = output_path(directory, title, format);
            let ending = if format == MediaFormat::Audio {
                seq!['.', 'm', 'p', '3']
            } else {
                seq!['.', 'm', 'p', '4']
            };
            let stem = path.len() - 4 - title.len();
            &&& path.len() >= directory.len() + title.len() + 4
            &&& path.subrange(0, directory.len() as int) == directory
            &&& path.subrange(path.len() - 4, path.len() as int) == ending
            &&& path.subrange(stem, path.len() - 4) == title
            &&& path.subrange(0, stem) == directory_prefix(directory)
        }),
{
    lemma_extension_is_mp3_or_mp4(format);
    let path = output_path(directory, title, format);
    let ending = if format == MediaFormat::Audio {
        seq!['.', 'm', 'p', '3']
    } else {
        seq!['.', 'm', 'p', '4']
    };
    let stem = path.len() - 4 - title.len();
    assert(path.subrange(0, directory.len() as int) =~= directory);
    assert(path.subrange(path.len() - 4, path.len() as int) =~= ending);
    assert(path.subrange(stem, path.len() - 4) =~= title);
    assert(path.subrange(0, stem) =~= directory_prefix(directory));
}

/// The path depends on the directory, the title and the format alone: the
/// same three give the same path, however often it is asked for.
pub proof fn lemma_output_path_is_a_function(
    first: (Seq<char>, Seq<char>, MediaFormat),
    second: (Seq<char>, Seq<char>, MediaFormat),
)
    requires
        first.0 == second.0,
        first.1 == second.1,
        first.2 == second.2,
    ensures
        output_path(first.0, first.1, first.2) == output_path(second.0, second.1, second.2),
{
}

} // verus!
