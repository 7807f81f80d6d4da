//! The ways in which an operation of the orchestrator fails.

use vstd::prelude::*;
use vstd::string::*;

verus! {

/// Why an operation did not deliver its result.
#[derive(Debug, PartialEq, Eq)]
pub enum OrchestratorError {
    /// The platform has no downloads directory to offer.
    DownloadsDirectoryUnavailable,
    /// The requested format is neither `audio` nor `video`.
    UnsupportedFormat,
    /// The external tool could not be started; the text is the reason given.
    ProcessSpawnFailed(String),
    /// The download process ended with another exit code than 0.
    DownloadFailed,
    /// The event stream of the download process closed before it reported
    /// its termination.
    ProcessEndedUnexpectedly,
    /// The listing process ended with another exit code than 0.
    ListingFailed,
    /// The listing held no record. `unparsed_data` tells whether the tool had
    /// printed something that could not be read, or nothing at all.
    PlaylistEmpty { unparsed_data: bool },
}

/// An [`OrchestratorError`] with its text as a sequence of characters.
pub enum ErrorModel {
    DownloadsDirectoryUnavailable,
    UnsupportedFormat,
    ProcessSpawnFailed(Seq<char>),
    DownloadFailed,
    ProcessEndedUnexpectedly,
    ListingFailed,
    PlaylistEmpty { unparsed_data: bool },
}

impl View for OrchestratorError {
    type V = ErrorModel;

    open spec fn view(&self) -> ErrorModel {
        match self {
            OrchestratorError::DownloadsDirectoryUnavailable => {
                ErrorModel::DownloadsDirectoryUnavailable
            },
            OrchestratorError::UnsupportedFormat => ErrorModel::UnsupportedFormat,
            OrchestratorError::ProcessSpawnFailed(reason) => ErrorModel::ProcessSpawnFailed(
                reason@,
            ),
            OrchestratorError::DownloadFailed => ErrorModel::DownloadFailed,
            OrchestratorError::ProcessEndedUnexpectedly => ErrorModel::ProcessEndedUnexpectedly,
            OrchestratorError::ListingFailed => ErrorModel::ListingFailed,
            OrchestratorError::PlaylistEmpty { unparsed_data } => ErrorModel::PlaylistEmpty {
                unparsed_data: *unparsed_data,
            },
        }
    }
}

/// The text shown to the user for an error.
pub open spec fn message_of(error: ErrorModel) -> Seq<char> {
    match error {
        ErrorModel::DownloadsDirectoryUnavailable => {
            "Impossible de trouver le dossier de téléchargement"@
        },
        ErrorModel::UnsupportedFormat => "Format non supporté. Utilisez 'audio' ou 'video'"@,
        ErrorModel::ProcessSpawnFailed(reason) => reason,
        ErrorModel::DownloadFailed => "Le téléchargement a échoué"@,
        ErrorModel::ProcessEndedUnexpectedly => {
            "Le processus s'est terminé de manière inattendue"@
        },
        ErrorModel::ListingFailed => {
            "Échec de la récupération des informations de la playlist"@
        },
        ErrorModel::PlaylistEmpty { unparsed_data } => if unparsed_data {
            "Aucune vidéo n'a pu être extraite du JSON, bien que des données aient été reçues."@
        } else {
            "Aucune donnée de playlist n'a été reçue."@
        },
    }
}

impl OrchestratorError {
    /// The text shown to the user for this error.
    pub fn message(&self) -> (text: String)
        ensures
            text@ == message_of(self@),
    {
        match self {
            OrchestratorError::DownloadsDirectoryUnavailable => String::from_str(
                "Impossible de trouver le dossier de téléchargement",
            ),
            OrchestratorError::UnsupportedFormat => String::from_str(
                "Format non supporté. Utilisez 'audio' ou 'video'",
            ),
            OrchestratorError::ProcessSpawnFailed(reason) => reason.clone(),
            OrchestratorError::DownloadFailed => String::from_str("Le téléchargement a échoué"),
            OrchestratorError::ProcessEndedUnexpectedly => String::from_str(
                "Le processus s'est terminé de manière inattendue",
            ),
            OrchestratorError::ListingFailed => String::from_str(
                "Échec de la récupération des informations de la playlist",
            ),
            OrchestratorError::PlaylistEmpty { unparsed_data } => if *unparsed_data {
                String::from_str(
                    "Aucune vidéo n'a pu être extraite du JSON, bien que des données aient été reçues.",
                )
            } else {
                String::from_str("Aucune donnée de playlist n'a été reçue.")
            },
        }
    }
}

} // verus!
