//! The records of the music catalog and the options of the command line.

use crate::text::text_views;
use vstd::prelude::*;

verus! {

/// The environment variable that names the default output directory.
pub const MUSD_OUTPUT_ENV_KEY: &'static str = "MUSD_OUTPUT";

/// The scheme every download address is rewritten to.
pub const MIGU_DOWNLOAD_SCHEME: &'static str = "https";

/// The host every download address is rewritten to.
pub const MIGU_DOWNLOAD_HOST: &'static str = "freetyst.nf.migu.cn";

/// The address of the catalog's search endpoint.
pub const MIGU_QUERY_API: &'static str = "https://pd.musicapp.migu.cn/MIGUM3.0/v1.0/content/search_all.do";

/// The label of the one quality tier the tool targets: super quality.
pub const SUPER_QUALITY: &'static str = "SQ";

/// The audio container a user may ask for.
#[derive(Debug, Clone, Copy, PartialEq, Eq, Structural)]
pub enum MusicType {
    M4a,
    Flac,
}

/// The options of one invocation.
#[derive(Debug, Clone, PartialEq, Eq)]
pub struct Args {
    /// The directory to save the download in, when given explicitly.
    pub output: Option<String>,
    /// The preferred container.
    pub format: Option<MusicType>,
    /// Whether the build details were asked for.
    pub build_info: bool,
    /// The words of the search query.
    pub music: Vec<String>,
}

/// The words `words`, each followed by a space but the last.
pub open spec fn joined_words(words: Seq<Seq<char>>) -> Seq<char>
    decreases words.len(),
{
    if words.len() == 0 {
        Seq::empty()
    } else if words.len() == 1 {
        words[0]
    } else {
        joined_words(words.drop_last()) + seq![' '] + words.last()
    }
}

impl Args {
    /// The search query: the words of the command line, joined by spaces.
    pub fn query(&self) -> (res: String)
        ensures
            res@ == joined_words(text_views(self.music@)),
    {
        let ghost words = text_views(self.music@);
        let mut out: String = String::new();
        let mut i: usize = 0;
        while i < self.music.len()
            invariant
                i <= self.music.len(),
                words == text_views(self.music@),
                out@ == joined_words(words.subrange(0, i as int)),
            decreases self.music.len() - i,
        {
            proof {
                reveal_strlit(" ");
                let longer = words.subrange(0, i as int + 1);
                assert(longer.drop_last() =~= words.subrange(0, i as int));
            }
            if i > 0 {
                out.append(" ");
            }
            out.append(self.music[i].as_str());
            i = i + 1;
        }
        assert(words.subrange(0, i as int) =~= words);
        out
    }
}

/// A performer of a track.
#[derive(Debug, Clone, PartialEq, Eq)]
pub struct Singer {
    pub id: String,
    pub name: String,
}

/// What a `Singer` is in contracts.
pub struct SingerView {
    pub id: Seq<char>,
    pub name: Seq<char>,
}

impl View for Singer {
    type V = SingerView;

    open spec fn view(&self) -> SingerView {
        SingerView { id: self.id@, name: self.name@ }
    }
}

/// One quality tier's addresses and size for a track.
#[derive(Debug, Clone, PartialEq, Eq)]
pub struct MusicFormat {
    /// The tier's label, such as `SQ`.
    pub format_type: String,
    /// The primary address; empty when the catalog gave none.
    pub url: String,
    pub ios_url: String,
    /// The address preferred for downloading; empty when the catalog gave none.
    pub android_url: String,
    /// The size in bytes, as decimal text.
    pub size: String,
    pub file_type: String,
}

/// The singers of a track as they stand in contracts, in the same order.
pub open spec fn singer_views(singers: Seq<Singer>) -> Seq<SingerView> {
    Seq::new(singers.len(), |i: int| singers[i]@)
}

/// What a `MusicFormat` is in contracts.
pub struct MusicFormatView {
    pub format_type: Seq<char>,
    pub url: Seq<char>,
    pub ios_url: Seq<char>,
    pub android_url: Seq<char>,
    pub size: Seq<char>,
    pub file_type: Seq<char>,
}

impl View for MusicFormat {
    type V = MusicFormatView;

    open spec fn view(&self) -> MusicFormatView {
        MusicFormatView {
            format_type: self.format_type@,
            url: self.url@,
            ios_url: self.ios_url@,
            android_url: self.android_url@,
            size: self.size@,
            file_type: self.file_type@,
        }
    }
}

/// A track of the catalog, with its singers and formats in catalog order.
#[derive(Debug, Clone, PartialEq, Eq)]
pub struct Song {
    pub name: String,
    pub singers: Vec<Singer>,
    pub new_rate_formats: Vec<MusicFormat>,
}

/// The formats of a track as they stand in contracts, in the same order.
pub open spec fn format_views(formats: Seq<MusicFormat>) -> Seq<MusicFormatView> {
    Seq::new(formats.len(), |i: int| formats[i]@)
}

/// What a `Song` is in contracts.
pub struct SongView {
    pub name: Seq<char>,
    pub singers: Seq<SingerView>,
    pub new_rate_formats: Seq<MusicFormatView>,
}

impl View for Song {
    type V = SongView;

    open spec fn view(&self) -> SongView {
        SongView {
            name: self.name@,
            singers: singer_views(self.singers@),
            new_rate_formats: format_views(self.new_rate_formats@),
        }
    }
}

/// Tracks as they stand in contracts, in the same order.
pub open spec fn song_views(songs: Seq<Song>) -> Seq<SongView> {
    Seq::new(songs.len(), |i: int| songs[i]@)
}

/// The text a singer is shown as: the name in round brackets.
pub open spec fn singer_display(name: Seq<char>) -> Seq<char> {
    seq!['('] + name + seq![')']
}

impl Singer {
    /// Renders the singer as `(name)`.
    pub fn display(&self) -> (res: String)
        ensures
            res@ == singer_display(self.name@),
    {
        proof {
            reveal_strlit("(");
            reveal_strlit(")");
        }
        let mut out = String::from_str("(");
        out.append(self.name.as_str());
        out.append(")");
        out
    }
}

/// The value a missing text field of a catalog record takes: the empty string.
pub fn default_string() -> (res: String)
    ensures
        res@ == Seq::<char>::empty(),
{
    String::new()
}

/// The value a missing size field of a catalog record takes: `0`.
pub fn default_size() -> (res: String)
    ensures
        res@ == seq!['0'],
{
    proof {
        reveal_strlit("0");
    }
    let out = String::from_str("0");
    out
}

} // verus!
