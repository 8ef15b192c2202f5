use musd::{
    BenignStop, CatalogError, DownloadError, MenuError, MusdError, ResolveError, RunOutcome,
};

#[test]
fn failures_have_their_messages() {
    assert_eq!(MusdError::Catalog(CatalogError::Transport).message(), "Download by reqwest failed");
    assert_eq!(
        MusdError::Catalog(CatalogError::MalformedResponse).message(),
        "Searching response parsing failed"
    );
    assert_eq!(MusdError::Resolve(ResolveError::UrlParse).message(), "Download url parsing error");
    assert_eq!(MusdError::Download(DownloadError::Io).message(), "Dest file creation failed");
    assert_eq!(
        MusdError::Download(DownloadError::UnknownLength).message(),
        "Failed to get content length"
    );
    assert_eq!(
        MusdError::Resolve(ResolveError::NoMatchingFormat).message(),
        "No super quality format available!"
    );
    assert_eq!(MusdError::Resolve(ResolveError::NoUsableUrl).message(), "No download url available!");
    assert_eq!(MusdError::Resolve(ResolveError::RewriteFailed).message(), "Download url rewriting failed");
    assert_eq!(MusdError::Resolve(ResolveError::NoExtension).message(), "Get music file extension error!");
    assert_eq!(MusdError::Resolve(ResolveError::NoSinger).message(), "No singer available!");
    assert_eq!(MusdError::Menu(MenuError::Empty).message(), "No music to select from");
    assert_eq!(MusdError::Menu(MenuError::NoMatchingFormat).message(), "No super quality format available!");
    assert_eq!(MusdError::Menu(MenuError::NoSinger).message(), "No singer available!");
    assert_eq!(MusdError::Menu(MenuError::InvalidSize).message(), "Music file size parsing error!");
}

#[test]
fn a_failed_search_and_a_failed_download_end_differently() {
    assert_eq!(MusdError::Catalog(CatalogError::Transport).exit_code(), 1);
    assert_eq!(MusdError::Catalog(CatalogError::MalformedResponse).exit_code(), 1);
    assert_eq!(MusdError::Menu(MenuError::Empty).exit_code(), 2);
    assert_eq!(MusdError::Resolve(ResolveError::UrlParse).exit_code(), 2);
    assert_eq!(MusdError::Download(DownloadError::Io).exit_code(), 2);
}

#[test]
fn only_failures_end_with_a_status_other_than_zero() {
    assert_eq!(RunOutcome::Success.exit_code(), 0);
    assert_eq!(RunOutcome::BenignStop(BenignStop::NoResults).exit_code(), 0);
    assert_eq!(RunOutcome::BenignStop(BenignStop::AlreadyExists).exit_code(), 0);
    assert_eq!(RunOutcome::Failure(MusdError::Catalog(CatalogError::Transport)).exit_code(), 1);
    assert_eq!(RunOutcome::Failure(MusdError::Download(DownloadError::UnknownLength)).exit_code(), 2);
}
