//! The download resolver: from a track to the address to fetch and the file
//! to write.

use crate::def::{
    MusicFormat, MusicFormatView, Song, SongView, MIGU_DOWNLOAD_HOST, MIGU_DOWNLOAD_SCHEME,
};
use crate::error::ResolveError;
use crate::menu::{first_format, first_format_of};
use crate::text::{chars_of, text_result, text_view, text_views};
use crate::web::{
    check_fits, fits, parse_url, path_segments, set_url_host, set_url_scheme, url_of,
    url_path_segments, url_with_host, url_with_scheme,
};
use vstd::prelude::*;

verus! {

/// The name a download gets where its address names no file.
pub const DEFAULT_FILE_NAME: &'static str = "music-tmp.flac";

/// The address to download a format from: the one for mobile clients where
/// there is one, else the primary one, else none.
pub open spec fn candidate_of(format: MusicFormatView) -> Option<Seq<char>> {
    if format.android_url.len() > 0 {
        Some(format.android_url)
    } else if format.url.len() > 0 {
        Some(format.url)
    } else {
        None
    }
}

/// Picks the address to download a format from. Fails with `NoUsableUrl`
/// exactly where the format has none.
pub fn candidate_url(format: &MusicFormat) -> (res: Result<&str, ResolveError>)
    ensures
        match res {
            Ok(candidate) => candidate_of(format@) == Some(candidate@),
            Err(e) => e == ResolveError::NoUsableUrl && candidate_of(format@) is None,
        },
{
    if !format.android_url.as_str().is_empty() {
        Ok(format.android_url.as_str())
    } else if !format.url.as_str().is_empty() {
        Ok(format.url.as_str())
    } else {
        Err(ResolveError::NoUsableUrl)
    }
}

/// The address `candidate` with its scheme replaced by `scheme` and then its
/// host by `host`. It is no URL (`UrlParse`), or one that does not take the
/// scheme or the host, or is too long to be edited (`RewriteFailed`).
pub open spec fn rewritten(candidate: Seq<char>, scheme: Seq<char>, host: Seq<char>) -> Result<
    Seq<char>,
    ResolveError,
> {
    match url_of(candidate) {
        None => Err(ResolveError::UrlParse),
        Some(parsed) => if !fits(parsed) || !fits(scheme) || !fits(host) {
            Err(ResolveError::RewriteFailed)
        } else {
            match url_with_scheme(parsed, scheme) {
                None => Err(ResolveError::RewriteFailed),
                Some(secured) => if !fits(secured) {
                    Err(ResolveError::RewriteFailed)
                } else {
                    match url_with_host(secured, host) {
                        None => Err(ResolveError::RewriteFailed),
                        Some(moved) => Ok(moved),
                    }
                },
            }
        },
    }
}

/// Parses `candidate` as an absolute URL and replaces its scheme and its host,
/// whatever they were.
pub fn rewrite_url(candidate: &str, scheme: &str, host: &str) -> (res: Result<
    String,
    ResolveError,
>)
    ensures
        text_result(res) == rewritten(candidate@, scheme@, host@),
{
    let parsed: String = match parse_url(candidate) {
        Ok(parsed) => parsed,
        Err(_) => { return Err(ResolveError::UrlParse); },
    };
    if !check_fits(parsed.as_str()) || !check_fits(scheme) || !check_fits(host) {
        return Err(ResolveError::RewriteFailed);
    }
    let secured: String = match set_url_scheme(parsed.as_str(), scheme) {
        Some(secured) => secured,
        None => { return Err(ResolveError::RewriteFailed); },
    };
    if !check_fits(secured.as_str()) {
        return Err(ResolveError::RewriteFailed);
    }
    match set_url_host(secured.as_str(), host) {
        Some(moved) => Ok(moved),
        None => Err(ResolveError::RewriteFailed),
    }
}

/// The name of the file behind a URL with the path segments `segments`: the
/// last segment, or the default name where there are no segments or the last
/// one is empty.
pub open spec fn segment_name(segments: Option<Seq<Seq<char>>>) -> Seq<char> {
    match segments {
        Some(list) => if list.len() > 0 && list.last().len() > 0 {
            list.last()
        } else {
            DEFAULT_FILE_NAME@
        },
        None => DEFAULT_FILE_NAME@,
    }
}

/// The views of the path segments of a URL, where it has any.
pub open spec fn segment_views(segments: Option<Vec<String>>) -> Option<Seq<Seq<char>>> {
    match segments {
        Some(list) => Some(text_views(list@)),
        None => None,
    }
}

/// Picks the name of the file behind a URL from its path segments.
pub fn name_from_segments(segments: &Option<Vec<String>>) -> (res: &str)
    ensures
        res@ == segment_name(segment_views(*segments)),
{
    match segments {
        Some(list) => {
            if list.len() > 0 && !list[list.len() - 1].as_str().is_empty() {
                list[list.len() - 1].as_str()
            } else {
                DEFAULT_FILE_NAME
            }
        },
        None => DEFAULT_FILE_NAME,
    }
}

/// The position of the last `c` in `s`.
pub open spec fn last_index_of(s: Seq<char>, c: char) -> Option<int>
    decreases s.len(),
{
    if s.len() == 0 {
        None
    } else if s.last() == c {
        Some(s.len() - 1)
    } else {
        last_index_of(s.drop_last(), c)
    }
}

/// The extension of a file name: what follows its last dot. A name without a
/// dot has none, nor has one whose only dot is its first character, nor the
/// name `..`.
pub open spec fn extension_of(name: Seq<char>) -> Option<Seq<char>> {
    if name == seq!['.', '.'] {
        None
    } else {
        match last_index_of(name, '.') {
            None => None,
            Some(dot) => if dot == 0 {
                None
            } else {
                Some(name.subrange(dot + 1, name.len() as int))
            },
        }
    }
}

/// Extracts the extension of a file name.
pub fn file_extension(name: &str) -> (res: Option<String>)
    ensures
        text_view(res) == extension_of(name@),
{
    let chars: Vec<char> = chars_of(name);
    let len: usize = chars.len();
    if len == 2 && chars[0] == '.' && chars[1] == '.' {
        assert(name@ =~= seq!['.', '.']);
        return None;
    }
    assert(name@ != seq!['.', '.']);
    let mut end: usize = len;
    assert(name@.subrange(0, end as int) =~= name@);
    while end > 0
        invariant
            end <= len,
            len == name@.len(),
            chars@ == name@,
            name@ != seq!['.', '.'],
            last_index_of(name@, '.') == last_index_of(name@.subrange(0, end as int), '.'),
        decreases end,
    {
        let ghost head = name@.subrange(0, end as int);
        assert(head.drop_last() =~= name@.subrange(0, end - 1));
        if chars[end - 1] == '.' {
            if end == 1 {
                return None;
            }
            return Some(name.substring_char(end, len).to_owned());
        }
        end = end - 1;
    }
    None
}

/// The name of the file a track is saved as: its name, a hyphen, the name of
/// its first singer, a dot and the extension.
pub open spec fn file_name_text(track: Seq<char>, singer: Seq<char>, extension: Seq<char>) -> Seq<
    char,
> {
    track + seq!['-'] + singer + seq!['.'] + extension
}

/// Builds the name of the file a track is saved as.
pub fn destination_name(track: &str, singer: &str, extension: &str) -> (res: String)
    ensures
        res@ == file_name_text(track@, singer@, extension@),
{
    proof {
        reveal_strlit("-");
        reveal_strlit(".");
    }
    let mut out: String = String::from_str(track);
    out.append("-");
    out.append(singer);
    out.append(".");
    out.append(extension);
    out
}

/// The path that `std::path::Path::join` gives for the directory `directory`
/// and the file name `name`, as text.
pub uninterp spec fn joined_path(directory: Seq<char>, name: Seq<char>) -> Seq<char>;

/// Calls `std::path::Path::join` on `directory` with `name` and gives the path
/// back as text. The contract names that text: the same directory and name
/// always give the same path.
#[verifier::external_body]
pub(crate) fn join_path(directory: &str, name: &str) -> (res: String)
    ensures
        res@ == joined_path(directory@, name@),
{
    std::path::Path::new(directory).join(name).to_string_lossy().into_owned()
}

/// All that a download needs.
#[derive(Debug, Clone, PartialEq, Eq)]
pub struct ResolvedDownload {
    /// The address to fetch.
    pub url: String,
    /// The extension of the file behind the address.
    pub file_extension: String,
    /// The name of the file to write.
    pub file_name: String,
    /// The file to write: `file_name` in the output directory.
    pub destination_path: String,
}

/// What a `ResolvedDownload` is in contracts.
pub struct ResolvedDownloadView {
    pub url: Seq<char>,
    pub file_extension: Seq<char>,
    pub file_name: Seq<char>,
    pub destination_path: Seq<char>,
}

impl View for ResolvedDownload {
    type V = ResolvedDownloadView;

    open spec fn view(&self) -> ResolvedDownloadView {
        ResolvedDownloadView {
            url: self.url@,
            file_extension: self.file_extension@,
            file_name: self.file_name@,
            destination_path: self.destination_path@,
        }
    }
}

/// The address to download `track` from in `tier`: the address of its first
/// format of `tier`, with the download scheme and host in place of its own.
pub open spec fn download_url_of(track: SongView, tier: Seq<char>) -> Result<
    Seq<char>,
    ResolveError,
> {
    match first_format(track.new_rate_formats, tier) {
        None => Err(ResolveError::NoMatchingFormat),
        Some(format) => match candidate_of(format) {
            None => Err(ResolveError::NoUsableUrl),
            Some(candidate) => rewritten(candidate, MIGU_DOWNLOAD_SCHEME@, MIGU_DOWNLOAD_HOST@),
        },
    }
}

/// Derives the address to download `track` from in `tier`.
pub fn get_download_url(track: &Song, tier: &str) -> (res: Result<String, ResolveError>)
    ensures
        text_result(res) == download_url_of(track@, tier@),
{
    let format: &MusicFormat = match first_format_of(track, tier) {
        Some(format) => format,
        None => { return Err(ResolveError::NoMatchingFormat); },
    };
    let candidate: &str = match candidate_url(format) {
        Ok(candidate) => candidate,
        Err(e) => { return Err(e); },
    };
    rewrite_url(candidate, MIGU_DOWNLOAD_SCHEME, MIGU_DOWNLOAD_HOST)
}

/// The extension to save the file behind a URL with: the extension of the
/// file's name, which must have one, and not an empty one.
pub open spec fn download_extension(segments: Option<Seq<Seq<char>>>) -> Result<
    Seq<char>,
    ResolveError,
> {
    match extension_of(segment_name(segments)) {
        Some(extension) => if extension.len() > 0 {
            Ok(extension)
        } else {
            Err(ResolveError::NoExtension)
        },
        None => Err(ResolveError::NoExtension),
    }
}

/// Derives the extension to save a file with from the path segments of its
/// URL. Fails with `NoExtension` exactly where the file's name has no
/// extension or an empty one.
pub fn extension_from_segments(segments: &Option<Vec<String>>) -> (res: Result<
    String,
    ResolveError,
>)
    ensures
        text_result(res) == download_extension(segment_views(*segments)),
{
    match file_extension(name_from_segments(segments)) {
        Some(extension) => if extension.as_str().is_empty() {
            Err(ResolveError::NoExtension)
        } else {
            Ok(extension)
        },
        None => Err(ResolveError::NoExtension),
    }
}

/// Derives the extension of the file behind the address `url`.
pub fn get_file_extension(url: &str) -> (res: Result<String, ResolveError>)
    ensures
        text_result(res) == download_extension(url_path_segments(url@)),
{
    let segments: Option<Vec<String>> = path_segments(url);
    extension_from_segments(&segments)
}

/// The download of `track` into `directory`, given the address `url` to fetch
/// and the extension of the file behind it.
pub open spec fn assembled(
    track: SongView,
    directory: Seq<char>,
    url: Seq<char>,
    extension: Seq<char>,
) -> Result<ResolvedDownloadView, ResolveError> {
    if track.singers.len() == 0 {
        Err(ResolveError::NoSinger)
    } else {
        let file_name = file_name_text(track.name, track.singers[0].name, extension);
        Ok(
            ResolvedDownloadView {
                url,
                file_extension: extension,
                file_name,
                destination_path: joined_path(directory, file_name),
            },
        )
    }
}

/// The download of `track` in `tier` into `directory`: the address of the
/// track's first format of `tier`, rewritten to the download scheme and host,
/// and the file named after the track, its first singer and the extension of
/// the file behind the address.
pub open spec fn resolved(track: SongView, tier: Seq<char>, directory: Seq<char>) -> Result<
    ResolvedDownloadView,
    ResolveError,
> {
    match download_url_of(track, tier) {
        Err(e) => Err(e),
        Ok(url) => match download_extension(url_path_segments(url)) {
            Err(e) => Err(e),
            Ok(extension) => assembled(track, directory, url, extension),
        },
    }
}

/// Puts a download together from the address to fetch and the extension of
/// the file behind it. Fails with `NoSinger` exactly where the track names no
/// singer.
pub fn assemble(track: &Song, directory: &str, url: String, extension: String) -> (res: Result<
    ResolvedDownload,
    ResolveError,
>)
    ensures
        resolution_view(res) == assembled(track@, directory@, url@, extension@),
{
    if track.singers.len() == 0 {
        return Err(ResolveError::NoSinger);
    }
    let file_name: String = destination_name(
        track.name.as_str(),
        track.singers[0].name.as_str(),
        extension.as_str(),
    );
    let destination_path: String = join_path(directory, file_name.as_str());
    Ok(ResolvedDownload { url, file_extension: extension, file_name, destination_path })
}

/// What a resolution is in contracts.
pub open spec fn resolution_view(resolution: Result<ResolvedDownload, ResolveError>) -> Result<
    ResolvedDownloadView,
    ResolveError,
> {
    match resolution {
        Ok(download) => Ok(download@),
        Err(e) => Err(e),
    }
}

/// Resolves the download of `track` in `tier` into the directory `directory`.
pub fn resolve(track: &Song, tier: &str, directory: &str) -> (res: Result<
    ResolvedDownload,
    ResolveError,
>)
    ensures
        resolution_view(res) == resolved(track@, tier@, directory@),
{
    let url: String = match get_download_url(track, tier) {
        Ok(url) => url,
        Err(e) => { return Err(e); },
    };
    let extension: String = match get_file_extension(url.as_str()) {
        Ok(extension) => extension,
        Err(e) => { return Err(e); },
    };
    assemble(track, directory, url, extension)
}

/// Resolving is a function of the track, the tier and the directory alone:
/// whatever two resolutions of the same input return, it is the same download
/// or the same failure.
pub proof fn lemma_resolve_is_deterministic(
    track: SongView,
    tier: Seq<char>,
    directory: Seq<char>,
    first: Result<ResolvedDownload, ResolveError>,
    second: Result<ResolvedDownload, ResolveError>,
)
    requires
        resolution_view(first) == resolved(track, tier, directory),
        resolution_view(second) == resolved(track, tier, directory),
    ensures
        resolution_view(first) == resolution_view(second),
        first is Ok <==> second is Ok,
        first is Ok ==> first->Ok_0@ == second->Ok_0@,
        first is Err ==> first->Err_0 == second->Err_0,
{
}

} // verus!
