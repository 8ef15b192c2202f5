//! Searching a music catalog and downloading a chosen track: the rules of the
//! pipeline, from the search request to the progress of the transfer.

pub mod catalog;
pub mod def;
pub mod download;
pub mod error;
pub mod json;
pub mod menu;
pub mod resolve;
pub mod text;
pub mod web;

pub use catalog::{
    interpret_reply, interpret_response, search_outcome, search_url, SearchOutcome,
};
pub use def::{
    default_size, default_string, Args, MusicFormat, MusicFormatView, MusicType, Singer,
    SingerView, Song, SongView, MIGU_DOWNLOAD_HOST, MIGU_DOWNLOAD_SCHEME, MIGU_QUERY_API,
    MUSD_OUTPUT_ENV_KEY, SUPER_QUALITY,
};
pub use download::{
    get_dest_directory, DownloadAction, DownloadEvent, DownloadState, Progress,
};
pub use error::{
    BenignStop, CatalogError, DownloadError, MenuError, MusdError, ResolveError, RunOutcome,
};
pub use json::Json;
pub use menu::{chosen_track, filter_by_tier, menu_line, menu_lines, menu_prompt};
pub use resolve::{get_download_url, get_file_extension, resolve, ResolvedDownload};
