//! The catalog client: the search request and the reading of its response.

use crate::def::{
    default_size, default_string, format_views, singer_views, song_views, MusicFormat,
    MusicFormatView, Singer, SingerView, Song, SongView, MIGU_QUERY_API,
};
use crate::error::CatalogError;
use crate::json::{member, member_or_null, parse_json, parsed_json, Json, JsonView};
use crate::text::{pair_views, text_view};
use crate::web::{check_fits, fits, parse_url_with_params, url_with_query};
use vstd::prelude::*;

verus! {

/// The query pairs of a search for `query`: the text, one page, songs only.
pub open spec fn search_pairs(query: Seq<char>) -> Seq<(Seq<char>, Seq<char>)> {
    seq![("text"@, query), ("pageSize"@, "1"@), ("searchSwitch"@, "{song:1}"@)]
}

/// The address of the search request for `query`: the endpoint with the
/// search pairs as its query string. There is none for a query too long to
/// stand in a URL.
pub open spec fn search_url_text(query: Seq<char>) -> Option<Seq<char>> {
    if fits(query) {
        url_with_query(MIGU_QUERY_API@, search_pairs(query))
    } else {
        None
    }
}

proof fn lemma_ascii_fits(text: Seq<char>)
    requires
        vstd::utf8::is_ascii_chars(text),
        text.len() <= 128,
    ensures
        fits(text),
{
    vstd::utf8::is_ascii_chars_encode_utf8(text);
}

/// Builds the address of the search request for `query`. Fails with
/// `Transport` exactly where no such address exists.
pub fn search_url(query: &str) -> (res: Result<String, CatalogError>)
    ensures
        match res {
            Ok(address) => search_url_text(query@) == Some(address@),
            Err(e) => e == CatalogError::Transport && search_url_text(query@) is None,
        },
{
    if !check_fits(query) {
        return Err(CatalogError::Transport);
    }
    let mut pairs: Vec<(String, String)> = Vec::new();
    pairs.push((String::from_str("text"), String::from_str(query)));
    pairs.push((String::from_str("pageSize"), String::from_str("1")));
    pairs.push((String::from_str("searchSwitch"), String::from_str("{song:1}")));
    proof {
        reveal_strlit("text");
        reveal_strlit("pageSize");
        reveal_strlit("1");
        reveal_strlit("searchSwitch");
        reveal_strlit("{song:1}");
        reveal_strlit("https://pd.musicapp.migu.cn/MIGUM3.0/v1.0/content/search_all.do");
        lemma_ascii_fits("text"@);
        lemma_ascii_fits("pageSize"@);
        lemma_ascii_fits("1"@);
        lemma_ascii_fits("searchSwitch"@);
        lemma_ascii_fits("{song:1}"@);
        lemma_ascii_fits(MIGU_QUERY_API@);
        assert(pair_views(pairs@) =~= search_pairs(query@));
    }
    match parse_url_with_params(MIGU_QUERY_API, &pairs) {
        Ok(address) => Ok(address),
        Err(_) => Err(CatalogError::Transport),
    }
}

/// The text of the member `key` of `record`, which must be there as a string.
pub open spec fn required_text(record: JsonView, key: Seq<char>) -> Option<Seq<char>> {
    match member(record, key) {
        Some(JsonView::Text(t)) => Some(t),
        _ => None,
    }
}

/// The text of the member `key` of `record`: `fallback` where the record has
/// no such member, and nothing where the member is no string.
pub open spec fn optional_text(record: JsonView, key: Seq<char>, fallback: Seq<char>) -> Option<
    Seq<char>,
> {
    match member(record, key) {
        None => Some(fallback),
        Some(JsonView::Text(t)) => Some(t),
        Some(_) => None,
    }
}

/// The singer that `record` describes: an object with the strings `id` and
/// `name`.
pub open spec fn singer_of(record: JsonView) -> Option<SingerView> {
    if record is Object && required_text(record, "id"@) is Some && required_text(
        record,
        "name"@,
    ) is Some {
        Some(
            SingerView {
                id: required_text(record, "id"@)->0,
                name: required_text(record, "name"@)->0,
            },
        )
    } else {
        None
    }
}

/// The format that `record` describes: an object with the string
/// `formatType`; its other members are strings where present, and default to
/// the empty string, the size to `0`.
pub open spec fn format_of(record: JsonView) -> Option<MusicFormatView> {
    let empty = Seq::<char>::empty();
    if record is Object && required_text(record, "formatType"@) is Some && optional_text(
        record,
        "url"@,
        empty,
    ) is Some && optional_text(record, "iosUrl"@, empty) is Some && optional_text(
        record,
        "androidUrl"@,
        empty,
    ) is Some && optional_text(record, "size"@, seq!['0']) is Some && optional_text(
        record,
        "fileType"@,
        empty,
    ) is Some {
        Some(
            MusicFormatView {
                format_type: required_text(record, "formatType"@)->0,
                url: optional_text(record, "url"@, empty)->0,
                ios_url: optional_text(record, "iosUrl"@, empty)->0,
                android_url: optional_text(record, "androidUrl"@, empty)->0,
                size: optional_text(record, "size"@, seq!['0'])->0,
                file_type: optional_text(record, "fileType"@, empty)->0,
            },
        )
    } else {
        None
    }
}

/// The singers that `value` lists: an array of singer records.
pub open spec fn singers_of(value: JsonView) -> Option<Seq<SingerView>> {
    match value {
        JsonView::Array(items) => if forall|i: int|
            0 <= i < items.len() ==> singer_of(#[trigger] items[i]) is Some {
            Some(Seq::new(items.len(), |i: int| singer_of(items[i])->0))
        } else {
            None
        },
        _ => None,
    }
}

/// The formats that `value` lists: an array of format records.
pub open spec fn formats_of(value: JsonView) -> Option<Seq<MusicFormatView>> {
    match value {
        JsonView::Array(items) => if forall|i: int|
            0 <= i < items.len() ==> format_of(#[trigger] items[i]) is Some {
            Some(Seq::new(items.len(), |i: int| format_of(items[i])->0))
        } else {
            None
        },
        _ => None,
    }
}

/// The track that `record` describes: an object with the string `name`, the
/// singers under `singers` and the formats under `newRateFormats`.
pub open spec fn song_of(record: JsonView) -> Option<SongView> {
    if record is Object && required_text(record, "name"@) is Some && member(
        record,
        "singers"@,
    ) is Some && singers_of(member(record, "singers"@)->0) is Some && member(
        record,
        "newRateFormats"@,
    ) is Some && formats_of(member(record, "newRateFormats"@)->0) is Some {
        Some(
            SongView {
                name: required_text(record, "name"@)->0,
                singers: singers_of(member(record, "singers"@)->0)->0,
                new_rate_formats: formats_of(member(record, "newRateFormats"@)->0)->0,
            },
        )
    } else {
        None
    }
}

/// The tracks that `value` lists: an array of track records.
pub open spec fn songs_of(value: JsonView) -> Option<Seq<SongView>> {
    match value {
        JsonView::Array(items) => if forall|i: int|
            0 <= i < items.len() ==> song_of(#[trigger] items[i]) is Some {
            Some(Seq::new(items.len(), |i: int| song_of(items[i])->0))
        } else {
            None
        },
        _ => None,
    }
}

/// The results of a response: what stands under `songResultData`, then
/// `result`; null where either is missing.
pub open spec fn result_field(root: JsonView) -> JsonView {
    member_or_null(member_or_null(root, "songResultData"@), "result"@)
}

/// What a response tree says: no results (`None`) where the results are null
/// or missing, the tracks where they are a list of track records, and a
/// malformed response otherwise.
pub open spec fn decoded_search(root: JsonView) -> Result<Option<Seq<SongView>>, CatalogError> {
    let results = result_field(root);
    if results is Null {
        Ok(None)
    } else {
        match songs_of(results) {
            Some(songs) => Ok(Some(songs)),
            None => Err(CatalogError::MalformedResponse),
        }
    }
}

/// What a response body says: what its tree says, and a malformed response
/// where it is no JSON.
pub open spec fn interpreted(body: Seq<char>) -> Result<Option<Seq<SongView>>, CatalogError> {
    match parsed_json(body) {
        Some(root) => decoded_search(root),
        None => Err(CatalogError::MalformedResponse),
    }
}

/// What the answer to a search says, from whether its status reports success
/// and from its body. An answer without success whose body is no JSON is a
/// failure of the transport; every other answer says what its body says.
pub open spec fn replied(success: bool, body: Seq<char>) -> Result<
    Option<Seq<SongView>>,
    CatalogError,
> {
    if !success && parsed_json(body) is None {
        Err(CatalogError::Transport)
    } else {
        interpreted(body)
    }
}

/// What a search found.
#[derive(Debug, Clone, PartialEq, Eq)]
pub enum SearchOutcome {
    /// The catalog has no match; this is no failure.
    NoResults,
    /// The tracks of the catalog's answer, in its order.
    Found(Vec<Song>),
}

impl View for SearchOutcome {
    type V = Option<Seq<SongView>>;

    open spec fn view(&self) -> Option<Seq<SongView>> {
        match self {
            SearchOutcome::NoResults => None,
            SearchOutcome::Found(songs) => Some(song_views(songs@)),
        }
    }
}

fn required_string(record: &Json, key: &str) -> (res: Option<String>)
    ensures
        text_view(res) == required_text(record@, key@),
{
    match record.get(key) {
        Some(Json::Text(t)) => Some(t.clone()),
        _ => None,
    }
}

fn optional_string(record: &Json, key: &str, fallback: String) -> (res: Option<String>)
    ensures
        text_view(res) == optional_text(record@, key@, fallback@),
{
    match record.get(key) {
        None => Some(fallback),
        Some(Json::Text(t)) => Some(t.clone()),
        Some(_) => None,
    }
}

fn is_object(value: &Json) -> (res: bool)
    ensures
        res == (value@ is Object),
{
    match value {
        Json::Object(_) => true,
        _ => false,
    }
}

/// Reads a singer record.
pub fn decode_singer(record: &Json) -> (res: Option<Singer>)
    ensures
        match res {
            Some(singer) => singer_of(record@) == Some(singer@),
            None => singer_of(record@) is None,
        },
{
    if !is_object(record) {
        return None;
    }
    let id: String = match required_string(record, "id") {
        Some(t) => t,
        None => { return None; },
    };
    let name: String = match required_string(record, "name") {
        Some(t) => t,
        None => { return None; },
    };
    Some(Singer { id, name })
}

/// Reads a format record, with the defaults for the members it lacks.
pub fn decode_format(record: &Json) -> (res: Option<MusicFormat>)
    ensures
        match res {
            Some(format) => format_of(record@) == Some(format@),
            None => format_of(record@) is None,
        },
{
    if !is_object(record) {
        return None;
    }
    let format_type: String = match required_string(record, "formatType") {
        Some(t) => t,
        None => { return None; },
    };
    let url: String = match optional_string(record, "url", default_string()) {
        Some(t) => t,
        None => { return None; },
    };
    let ios_url: String = match optional_string(record, "iosUrl", default_string()) {
        Some(t) => t,
        None => { return None; },
    };
    let android_url: String = match optional_string(record, "androidUrl", default_string()) {
        Some(t) => t,
        None => { return None; },
    };
    let size: String = match optional_string(record, "size", default_size()) {
        Some(t) => t,
        None => { return None; },
    };
    let file_type: String = match optional_string(record, "fileType", default_string()) {
        Some(t) => t,
        None => { return None; },
    };
    Some(MusicFormat { format_type, url, ios_url, android_url, size, file_type })
}

/// Reads a list of singer records.
pub fn decode_singers(value: &Json) -> (res: Option<Vec<Singer>>)
    ensures
        match res {
            Some(singers) => singers_of(value@) == Some(singer_views(singers@)),
            None => singers_of(value@) is None,
        },
{
    match value {
        Json::Array(items) => {
            let mut out: Vec<Singer> = Vec::new();
            let ghost views = value@->Array_0;
            let mut i: usize = 0;
            while i < items.len()
                invariant
                    i <= items.len(),
                    out@.len() == i,
                    value@ == JsonView::Array(views),
                    views.len() == items@.len(),
                    forall|j: int| 0 <= j < views.len() ==> #[trigger] views[j] == items@[j]@,
                    forall|j: int| 0 <= j < i ==> singer_of(#[trigger] items@[j]@) == Some(out@[j]@),
                decreases items.len() - i,
            {
                match decode_singer(&items[i]) {
                    Some(singer) => {
                        out.push(singer);
                    },
                    None => {
                        assert(singer_of(views[i as int]) is None);
                        return None;
                    },
                }
                i = i + 1;
            }
            Some(out)
        },
        _ => None,
    }
}

/// Reads a list of format records.
pub fn decode_formats(value: &Json) -> (res: Option<Vec<MusicFormat>>)
    ensures
        match res {
            Some(formats) => formats_of(value@) == Some(format_views(formats@)),
            None => formats_of(value@) is None,
        },
{
    match value {
        Json::Array(items) => {
            let mut out: Vec<MusicFormat> = Vec::new();
            let ghost views = value@->Array_0;
            let mut i: usize = 0;
            while i < items.len()
                invariant
                    i <= items.len(),
                    out@.len() == i,
                    value@ == JsonView::Array(views),
                    views.len() == items@.len(),
                    forall|j: int| 0 <= j < views.len() ==> #[trigger] views[j] == items@[j]@,
                    forall|j: int| 0 <= j < i ==> format_of(#[trigger] items@[j]@) == Some(out@[j]@),
                decreases items.len() - i,
            {
                match decode_format(&items[i]) {
                    Some(format) => {
                        out.push(format);
                    },
                    None => {
                        assert(format_of(views[i as int]) is None);
                        return None;
                    },
                }
                i = i + 1;
            }
            Some(out)
        },
        _ => None,
    }
}

/// Reads a track record.
pub fn decode_song(record: &Json) -> (res: Option<Song>)
    ensures
        match res {
            Some(song) => song_of(record@) == Some(song@),
            None => song_of(record@) is None,
        },
{
    if !is_object(record) {
        return None;
    }
    let name: String = match required_string(record, "name") {
        Some(t) => t,
        None => { return None; },
    };
    let singers: Vec<Singer> = match record.get("singers") {
        Some(value) => match decode_singers(value) {
            Some(list) => list,
            None => { return None; },
        },
        None => { return None; },
    };
    let new_rate_formats: Vec<MusicFormat> = match record.get("newRateFormats") {
        Some(value) => match decode_formats(value) {
            Some(list) => list,
            None => { return None; },
        },
        None => { return None; },
    };
    Some(Song { name, singers, new_rate_formats })
}

/// Reads a list of track records. Fails with `MalformedResponse` exactly where
/// `value` is no such list.
pub fn decode_songs(value: &Json) -> (res: Result<Vec<Song>, CatalogError>)
    ensures
        match res {
            Ok(songs) => songs_of(value@) == Some(song_views(songs@)),
            Err(e) => e == CatalogError::MalformedResponse && songs_of(value@) is None,
        },
{
    match value {
        Json::Array(items) => {
            let mut out: Vec<Song> = Vec::new();
            let ghost views = value@->Array_0;
            let mut i: usize = 0;
            while i < items.len()
                invariant
                    i <= items.len(),
                    out@.len() == i,
                    value@ == JsonView::Array(views),
                    views.len() == items@.len(),
                    forall|j: int| 0 <= j < views.len() ==> #[trigger] views[j] == items@[j]@,
                    forall|j: int| 0 <= j < i ==> song_of(#[trigger] items@[j]@) == Some(out@[j]@),
                decreases items.len() - i,
            {
                match decode_song(&items[i]) {
                    Some(song) => {
                        out.push(song);
                    },
                    None => {
                        assert(song_of(views[i as int]) is None);
                        return Err(CatalogError::MalformedResponse);
                    },
                }
                i = i + 1;
            }
            Ok(out)
        },
        _ => Err(CatalogError::MalformedResponse),
    }
}

/// Reads the tree of a response: no results where the results are null or
/// missing, else the tracks, else `MalformedResponse`.
pub fn search_outcome(root: &Json) -> (res: Result<SearchOutcome, CatalogError>)
    ensures
        match res {
            Ok(outcome) => decoded_search(root@) == Ok::<Option<Seq<SongView>>, CatalogError>(
                outcome@,
            ),
            Err(e) => decoded_search(root@) == Err::<Option<Seq<SongView>>, CatalogError>(e),
        },
{
    let results: &Json = match root.get("songResultData") {
        Some(data) => match data.get("result") {
            Some(results) => results,
            None => { return Ok(SearchOutcome::NoResults); },
        },
        None => { return Ok(SearchOutcome::NoResults); },
    };
    if results.is_null() {
        return Ok(SearchOutcome::NoResults);
    }
    match decode_songs(results) {
        Ok(songs) => Ok(SearchOutcome::Found(songs)),
        Err(e) => Err(e),
    }
}

/// Reads the body of a response to a search.
pub fn interpret_response(body: &str) -> (res: Result<SearchOutcome, CatalogError>)
    ensures
        match res {
            Ok(outcome) => interpreted(body@) == Ok::<Option<Seq<SongView>>, CatalogError>(
                outcome@,
            ),
            Err(e) => interpreted(body@) == Err::<Option<Seq<SongView>>, CatalogError>(e),
        },
{
    match parse_json(body) {
        Ok(root) => search_outcome(&root),
        Err(_) => Err(CatalogError::MalformedResponse),
    }
}

/// Reads the answer to a search: `success` tells whether its status reports
/// success, `body` is its body. Fails with `Transport` exactly where the
/// status reports no success and the body is no JSON; otherwise the result is
/// that of `interpret_response` on the body.
pub fn interpret_reply(success: bool, body: &str) -> (res: Result<SearchOutcome, CatalogError>)
    ensures
        match res {
            Ok(outcome) => replied(success, body@) == Ok::<Option<Seq<SongView>>, CatalogError>(
                outcome@,
            ),
            Err(e) => replied(success, body@) == Err::<Option<Seq<SongView>>, CatalogError>(e),
        },
{
    match parse_json(body) {
        Ok(root) => search_outcome(&root),
        Err(_) => if success {
            Err(CatalogError::MalformedResponse)
        } else {
            Err(CatalogError::Transport)
        },
    }
}

/// A response whose results are null or missing means that nothing was
/// found; it is never a failure, whatever the status of the answer.
pub proof fn lemma_null_results_are_no_failure(success: bool, body: Seq<char>)
    requires
        parsed_json(body) is Some,
        result_field(parsed_json(body)->0) is Null,
    ensures
        interpreted(body) == Ok::<Option<Seq<SongView>>, CatalogError>(None),
        replied(success, body) == Ok::<Option<Seq<SongView>>, CatalogError>(None),
{
}

/// A format record that lacks an address, the file type or the size still
/// reads: each missing text is empty, a missing size is `0`.
pub proof fn lemma_missing_members_take_defaults(record: JsonView)
    requires
        record is Object,
        required_text(record, "formatType"@) is Some,
        member(record, "url"@) is None || member(record, "url"@)->0 is Text,
        member(record, "iosUrl"@) is None || member(record, "iosUrl"@)->0 is Text,
        member(record, "androidUrl"@) is None || member(record, "androidUrl"@)->0 is Text,
        member(record, "size"@) is None || member(record, "size"@)->0 is Text,
        member(record, "fileType"@) is None || member(record, "fileType"@)->0 is Text,
    ensures
        format_of(record) is Some,
        member(record, "url"@) is None ==> format_of(record)->0.url == Seq::<char>::empty(),
        member(record, "iosUrl"@) is None ==> format_of(record)->0.ios_url == Seq::<char>::empty(),
        member(record, "androidUrl"@) is None ==> format_of(record)->0.android_url == Seq::<
            char,
        >::empty(),
        member(record, "fileType"@) is None ==> format_of(record)->0.file_type == Seq::<
            char,
        >::empty(),
        member(record, "size"@) is None ==> format_of(record)->0.size == seq!['0'],
{
}

} // verus!
