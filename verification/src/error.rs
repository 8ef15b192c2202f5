//! The failures of the pipeline, by stage, and what each is reported as.

use vstd::prelude::*;

verus! {

/// A failure of the catalog search.
#[derive(Debug, Clone, Copy, PartialEq, Eq, Structural)]
pub enum CatalogError {
    /// The request could not be issued or brought no body.
    Transport,
    /// The body is no JSON, or the results in it are not track records.
    MalformedResponse,
}

/// A failure to build the selection menu.
#[derive(Debug, Clone, Copy, PartialEq, Eq, Structural)]
pub enum MenuError {
    /// There is no track to choose from.
    Empty,
    /// A track offers no format of the tier.
    NoMatchingFormat,
    /// A track names no singer.
    NoSinger,
    /// The size of a track's format is no unsigned number.
    InvalidSize,
}

/// A failure to derive the download of a track.
#[derive(Debug, Clone, Copy, PartialEq, Eq, Structural)]
pub enum ResolveError {
    /// The track offers no format of the tier.
    NoMatchingFormat,
    /// The format names no address at all.
    NoUsableUrl,
    /// The format's address is no absolute URL.
    UrlParse,
    /// The address does not take the download scheme or host.
    RewriteFailed,
    /// The file that the address names has no extension.
    NoExtension,
    /// The track names no singer to call the file after.
    NoSinger,
}

/// A failure of the transfer.
#[derive(Debug, Clone, Copy, PartialEq, Eq, Structural)]
pub enum DownloadError {
    /// The response declares no content length.
    UnknownLength,
    /// The destination could not be created or written, or the stream broke.
    Io,
}

/// Any failure of a run, by the stage it comes from.
#[derive(Debug, Clone, Copy, PartialEq, Eq, Structural)]
pub enum MusdError {
    Catalog(CatalogError),
    Menu(MenuError),
    Resolve(ResolveError),
    Download(DownloadError),
}

/// The text a failure is reported as.
pub open spec fn message_text(e: MusdError) -> Seq<char> {
    match e {
        MusdError::Catalog(CatalogError::Transport) => "Download by reqwest failed"@,
        MusdError::Catalog(CatalogError::MalformedResponse) => "Searching response parsing failed"@,
        MusdError::Menu(MenuError::Empty) => "No music to select from"@,
        MusdError::Menu(MenuError::NoMatchingFormat) => "No super quality format available!"@,
        MusdError::Menu(MenuError::NoSinger) => "No singer available!"@,
        MusdError::Menu(MenuError::InvalidSize) => "Music file size parsing error!"@,
        MusdError::Resolve(ResolveError::NoMatchingFormat) => "No super quality format available!"@,
        MusdError::Resolve(ResolveError::NoUsableUrl) => "No download url available!"@,
        MusdError::Resolve(ResolveError::UrlParse) => "Download url parsing error"@,
        MusdError::Resolve(ResolveError::RewriteFailed) => "Download url rewriting failed"@,
        MusdError::Resolve(ResolveError::NoExtension) => "Get music file extension error!"@,
        MusdError::Resolve(ResolveError::NoSinger) => "No singer available!"@,
        MusdError::Download(DownloadError::UnknownLength) => "Failed to get content length"@,
        MusdError::Download(DownloadError::Io) => "Dest file creation failed"@,
    }
}

/// The status a run that failed with `e` ends with: 1 for a failed search,
/// 2 for a failure at any later stage.
pub open spec fn failure_status(e: MusdError) -> u8 {
    match e {
        MusdError::Catalog(_) => 1,
        _ => 2,
    }
}

impl MusdError {
    /// The text this failure is reported as.
    pub fn message(&self) -> (res: String)
        ensures
            res@ == message_text(*self),
    {
        match self {
            MusdError::Catalog(CatalogError::Transport) => String::from_str(
                "Download by reqwest failed",
            ),
            MusdError::Catalog(CatalogError::MalformedResponse) => String::from_str(
                "Searching response parsing failed",
            ),
            MusdError::Menu(MenuError::Empty) => String::from_str("No music to select from"),
            MusdError::Menu(MenuError::NoMatchingFormat) => String::from_str(
                "No super quality format available!",
            ),
            MusdError::Menu(MenuError::NoSinger) => String::from_str("No singer available!"),
            MusdError::Menu(MenuError::InvalidSize) => String::from_str(
                "Music file size parsing error!",
            ),
            MusdError::Resolve(ResolveError::NoMatchingFormat) => String::from_str(
                "No super quality format available!",
            ),
            MusdError::Resolve(ResolveError::NoUsableUrl) => String::from_str(
                "No download url available!",
            ),
            MusdError::Resolve(ResolveError::UrlParse) => String::from_str(
                "Download url parsing error",
            ),
            MusdError::Resolve(ResolveError::RewriteFailed) => String::from_str(
                "Download url rewriting failed",
            ),
            MusdError::Resolve(ResolveError::NoExtension) => String::from_str(
                "Get music file extension error!",
            ),
            MusdError::Resolve(ResolveError::NoSinger) => String::from_str("No singer available!"),
            MusdError::Download(DownloadError::UnknownLength) => String::from_str(
                "Failed to get content length",
            ),
            MusdError::Download(DownloadError::Io) => String::from_str(
                "Dest file creation failed",
            ),
        }
    }

    /// The status the process ends with after this failure.
    pub fn exit_code(&self) -> (res: u8)
        ensures
            res == failure_status(*self),
            res != 0,
    {
        match self {
            MusdError::Catalog(_) => 1,
            _ => 2,
        }
    }
}

/// Why a run ended early without a failure.
#[derive(Debug, Clone, Copy, PartialEq, Eq, Structural)]
pub enum BenignStop {
    /// The catalog has no match for the query.
    NoResults,
    /// The file to write is already there.
    AlreadyExists,
}

/// How a run ended.
#[derive(Debug, Clone, Copy, PartialEq, Eq, Structural)]
pub enum RunOutcome {
    /// The track was downloaded.
    Success,
    /// There was nothing to do.
    BenignStop(BenignStop),
    /// A stage failed.
    Failure(MusdError),
}

/// The status a run ends with: 0 unless a stage failed.
pub open spec fn exit_status(outcome: RunOutcome) -> u8 {
    match outcome {
        RunOutcome::Success => 0,
        RunOutcome::BenignStop(_) => 0,
        RunOutcome::Failure(e) => failure_status(e),
    }
}

impl RunOutcome {
    /// The status the process ends with.
    pub fn exit_code(&self) -> (res: u8)
        ensures
            res == exit_status(*self),
            res == 0 <==> !(*self is Failure),
    {
        match self {
            RunOutcome::Success => 0,
            RunOutcome::BenignStop(_) => 0,
            RunOutcome::Failure(e) => e.exit_code(),
        }
    }
}

} // verus!
