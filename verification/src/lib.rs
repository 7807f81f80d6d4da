//! Supervision of an external media downloader.
//!
//! The library decides; it starts no process and touches no file. An
//! operation ([`download::Download`], [`batch::Batch`], [`lister::Lister`])
//! is begun, answers with a [`event::Turn`], and is then told one
//! [`event::Input`] after the other by whoever runs it. Each turn says what
//! to carry out and what to hand over next.
//!
//! Around the operations stand the pieces they are made of: the argument
//! lists of the tool ([`args`]), the path of the file that a download leaves
//! ([`path`]), the probe for the title ([`probe`]), the reading of a
//! playlist's records ([`playlist`], [`json`]), durations ([`duration`]) and
//! text ([`text`]). What holds of whole runs of an operation is stated in
//! [`runs`].

pub mod args;
pub mod batch;
pub mod download;
pub mod duration;
pub mod error;
pub mod event;
pub mod format;
pub mod json;
pub mod lister;
pub mod oneshot;
pub mod path;
pub mod playlist;
pub mod probe;
pub mod runs;
pub mod text;
