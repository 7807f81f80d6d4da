//! The two media formats that a download can be asked for.

use vstd::prelude::*;

use crate::error::{ErrorModel, OrchestratorError};
use crate::text::same_text;

verus! {

/// What a download delivers: the audio track alone, or the video.
#[derive(Clone, Copy, Debug, PartialEq, Eq, Structural)]
pub enum MediaFormat {
    Audio,
    Video,
}

/// The format that a name stands for, if it names one.
pub open spec fn format_named(name: Seq<char>) -> Option<MediaFormat> {
    if name == "audio"@ {
        Some(MediaFormat::Audio)
    } else if name == "video"@ {
        Some(MediaFormat::Video)
    } else {
        None
    }
}

/// The extension of the file that a download in `format` leaves behind.
pub open spec fn extension_of(format: MediaFormat) -> Seq<char> {
    match format {
        MediaFormat::Audio => "mp3"@,
        MediaFormat::Video => "mp4"@,
    }
}

impl MediaFormat {
    /// Reads a format's name. Any name but `audio` and `video` is refused
    /// with [`OrchestratorError::UnsupportedFormat`].
    pub fn parse(name: &str) -> (parsed: Result<MediaFormat, OrchestratorError>)
        ensures
            match parsed {
                Ok(format) => format_named(name@) == Some(format),
                Err(error) => format_named(name@) is None && error@
                    == ErrorModel::UnsupportedFormat,
            },
    {
        if same_text(name, "audio") {
            Ok(MediaFormat::Audio)
        } else if same_text(name, "video") {
            Ok(MediaFormat::Video)
        } else {
            Err(OrchestratorError::UnsupportedFormat)
        }
    }

    /// The extension of the file that a download in this format leaves
    /// behind: `mp3` for audio, `mp4` for video.
    pub fn extension(self) -> (extension: &'static str)
        ensures
            extension@ == extension_of(self),
    {
        match self {
            MediaFormat::Audio => "mp3",
            MediaFormat::Video => "mp4",
        }
    }
}

/// An extension is one of exactly two texts, each three characters long.
pub proof fn lemma_extension_is_mp3_or_mp4(format: MediaFormat)
    ensures
        extension_of(format) == seq!['m', 'p', if format == MediaFormat::Audio {
            '3'
        } else {
            '4'
        }],
{
    reveal_strlit("mp3");
    reveal_strlit("mp4");
    assert("mp3"@ =~= seq!['m', 'p', '3']);
    assert("mp4"@ =~= seq!['m', 'p', '4']);
}

} // verus!
