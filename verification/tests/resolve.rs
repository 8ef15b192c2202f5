use musd::resolve::{
    assemble, candidate_url, destination_name, extension_from_segments, file_extension,
    name_from_segments, rewrite_url,
};
use musd::{
    get_download_url, get_file_extension, resolve, MusicFormat, ResolveError, ResolvedDownload,
    Singer, Song,
};

fn sq(url: &str, android_url: &str) -> MusicFormat {
    MusicFormat {
        format_type: "SQ".to_string(),
        url: url.to_string(),
        ios_url: String::new(),
        android_url: android_url.to_string(),
        size: "3145728".to_string(),
        file_type: "flac".to_string(),
    }
}

fn moon(formats: Vec<MusicFormat>) -> Song {
    Song {
        name: "Fly Me to the Moon".to_string(),
        singers: vec![
            Singer { id: "1".to_string(), name: "Sinatra".to_string() },
            Singer { id: "2".to_string(), name: "Basie".to_string() },
        ],
        new_rate_formats: formats,
    }
}

fn joined(directory: &str, name: &str) -> String {
    std::path::Path::new(directory).join(name).to_string_lossy().into_owned()
}

#[test]
fn resolve_rewrites_scheme_and_host() {
    let song = moon(vec![sq("ftp://origin.example/path/song.flac", "")]);
    let resolved = resolve(&song, "SQ", "music").unwrap();
    assert_eq!(resolved.url, "https://freetyst.nf.migu.cn/path/song.flac");
    assert_eq!(resolved.file_extension, "flac");
}

#[test]
fn resolve_names_the_file_after_track_and_first_singer() {
    let song = moon(vec![sq("ftp://origin.example/path/song.flac", "")]);
    let resolved = resolve(&song, "SQ", "music").unwrap();
    assert_eq!(resolved.file_name, "Fly Me to the Moon-Sinatra.flac");
    assert_eq!(resolved.destination_path, joined("music", "Fly Me to the Moon-Sinatra.flac"));
}

#[test]
fn resolve_gives_the_whole_download() {
    let song = moon(vec![sq("http://218.205.239.34/a/b/c.m4a?x=1#f", "")]);
    assert_eq!(
        resolve(&song, "SQ", "/tmp/out"),
        Ok(ResolvedDownload {
            url: "https://freetyst.nf.migu.cn/a/b/c.m4a?x=1#f".to_string(),
            file_extension: "m4a".to_string(),
            file_name: "Fly Me to the Moon-Sinatra.m4a".to_string(),
            destination_path: joined("/tmp/out", "Fly Me to the Moon-Sinatra.m4a"),
        })
    );
}

#[test]
fn resolve_twice_gives_the_same() {
    let song = moon(vec![sq("ftp://origin.example/path/song.flac", "ftp://m.example/other/song.m4a")]);
    assert_eq!(resolve(&song, "SQ", "out"), resolve(&song, "SQ", "out"));
    let refused = moon(vec![sq("", "")]);
    assert_eq!(resolve(&refused, "SQ", "out"), resolve(&refused, "SQ", "out"));
}

#[test]
fn the_mobile_address_is_preferred() {
    let song = moon(vec![sq("ftp://origin.example/path/song.flac", "ftp://m.example/other/tune.m4a")]);
    let resolved = resolve(&song, "SQ", "").unwrap();
    assert_eq!(resolved.url, "https://freetyst.nf.migu.cn/other/tune.m4a");
    assert_eq!(resolved.file_extension, "m4a");
    assert_eq!(candidate_url(&song.new_rate_formats[0]), Ok("ftp://m.example/other/tune.m4a"));
    assert_eq!(candidate_url(&sq("ftp://origin.example/a.flac", "")), Ok("ftp://origin.example/a.flac"));
}

#[test]
fn the_first_format_of_the_tier_is_resolved() {
    let mut other = sq("ftp://origin.example/hq.mp3", "");
    other.format_type = "HQ".to_string();
    let song = moon(vec![
        other,
        sq("ftp://origin.example/first.flac", ""),
        sq("ftp://origin.example/second.flac", ""),
    ]);
    assert_eq!(get_download_url(&song, "SQ"), Ok("https://freetyst.nf.migu.cn/first.flac".to_string()));
    assert_eq!(get_download_url(&song, "HQ"), Ok("https://freetyst.nf.migu.cn/hq.mp3".to_string()));
}

#[test]
fn a_track_without_the_tier_is_not_resolved() {
    let mut other = sq("ftp://origin.example/hq.mp3", "");
    other.format_type = "HQ".to_string();
    assert_eq!(resolve(&moon(vec![other]), "SQ", "out"), Err(ResolveError::NoMatchingFormat));
    assert_eq!(resolve(&moon(vec![]), "SQ", "out"), Err(ResolveError::NoMatchingFormat));
}

#[test]
fn a_format_without_addresses_is_not_resolved() {
    assert_eq!(resolve(&moon(vec![sq("", "")]), "SQ", "out"), Err(ResolveError::NoUsableUrl));
    assert_eq!(candidate_url(&sq("", "")), Err(ResolveError::NoUsableUrl));
    let mut only_ios = sq("", "");
    only_ios.ios_url = "ftp://i.example/a.flac".to_string();
    assert_eq!(candidate_url(&only_ios), Err(ResolveError::NoUsableUrl));
}

#[test]
fn an_address_that_is_no_url_is_refused() {
    assert_eq!(resolve(&moon(vec![sq("not a url", "")]), "SQ", "out"), Err(ResolveError::UrlParse));
    assert_eq!(resolve(&moon(vec![sq("/path/only.flac", "")]), "SQ", "out"), Err(ResolveError::UrlParse));
    assert_eq!(resolve(&moon(vec![sq("http://", "")]), "SQ", "out"), Err(ResolveError::UrlParse));
}

#[test]
fn an_address_that_takes_no_host_or_scheme_is_refused() {
    assert_eq!(
        resolve(&moon(vec![sq("mailto:rms@example.net", "")]), "SQ", "out"),
        Err(ResolveError::RewriteFailed)
    );
    assert_eq!(
        resolve(&moon(vec![sq("data:text/plain,song.flac", "")]), "SQ", "out"),
        Err(ResolveError::RewriteFailed)
    );
    assert_eq!(
        resolve(&moon(vec![sq("foo://example.net/a.flac", "")]), "SQ", "out"),
        Err(ResolveError::RewriteFailed)
    );
    assert_eq!(
        resolve(&moon(vec![sq("file:///tmp/a.flac", "")]), "SQ", "out"),
        Err(ResolveError::RewriteFailed)
    );
}

#[test]
fn rewrite_url_sets_what_it_is_given() {
    assert_eq!(
        rewrite_url("ftp://user:pw@origin.example:2121/p/a.flac?q=1", "http", "example.org"),
        Ok("http://user:pw@example.org:2121/p/a.flac?q=1".to_string())
    );
    assert_eq!(
        rewrite_url("http://origin.example:443/a", "https", "example.org"),
        Ok("https://example.org/a".to_string())
    );
    assert_eq!(rewrite_url("ftp://origin.example/a", "1x", "example.org"), Err(ResolveError::RewriteFailed));
    assert_eq!(rewrite_url("ftp://origin.example/a", "https", ""), Err(ResolveError::RewriteFailed));
    assert_eq!(rewrite_url("ftp://origin.example/a", "https", "a b"), Err(ResolveError::RewriteFailed));
    assert_eq!(rewrite_url("", "https", "example.org"), Err(ResolveError::UrlParse));
}

#[test]
fn rewrite_url_refuses_oversized_parts() {
    let long = "a".repeat(0x0100_0000);
    assert_eq!(
        rewrite_url("ftp://origin.example/a", "https", &long),
        Err(ResolveError::RewriteFailed)
    );
    assert_eq!(
        rewrite_url("ftp://origin.example/a", &long, "example.org"),
        Err(ResolveError::RewriteFailed)
    );
    let address = format!("ftp://origin.example/{long}");
    assert_eq!(rewrite_url(&address, "https", "example.org"), Err(ResolveError::RewriteFailed));
}

#[test]
fn an_address_without_a_file_falls_back_to_the_default_name() {
    let song = moon(vec![sq("ftp://origin.example", "")]);
    let resolved = resolve(&song, "SQ", "out").unwrap();
    assert_eq!(resolved.url, "https://freetyst.nf.migu.cn/");
    assert_eq!(resolved.file_extension, "flac");
    assert_eq!(resolved.file_name, "Fly Me to the Moon-Sinatra.flac");
    let directory = moon(vec![sq("ftp://origin.example/albums/best.of/", "")]);
    assert_eq!(resolve(&directory, "SQ", "out").unwrap().file_extension, "flac");
}

#[test]
fn a_file_without_extension_is_refused() {
    assert_eq!(
        resolve(&moon(vec![sq("ftp://origin.example/path/song", "")]), "SQ", "out"),
        Err(ResolveError::NoExtension)
    );
    assert_eq!(
        resolve(&moon(vec![sq("ftp://origin.example/path.d/.hidden", "")]), "SQ", "out"),
        Err(ResolveError::NoExtension)
    );
    assert_eq!(get_file_extension("https://freetyst.nf.migu.cn/a/b"), Err(ResolveError::NoExtension));
}

#[test]
fn a_file_with_an_empty_extension_is_refused() {
    assert_eq!(
        resolve(&moon(vec![sq("ftp://origin.example/path/song.", "")]), "SQ", "out"),
        Err(ResolveError::NoExtension)
    );
    assert_eq!(get_file_extension("https://freetyst.nf.migu.cn/a/b."), Err(ResolveError::NoExtension));
    assert_eq!(
        extension_from_segments(&Some(vec!["a".to_string(), "...".to_string()])),
        Err(ResolveError::NoExtension)
    );
}

#[test]
fn extension_from_segments_reads_the_last_segment() {
    let some = |list: Vec<&str>| Some(list.into_iter().map(String::from).collect::<Vec<String>>());
    assert_eq!(extension_from_segments(&some(vec!["a.mp3", "b.m4a"])), Ok("m4a".to_string()));
    assert_eq!(extension_from_segments(&some(vec!["a.mp3", ""])), Ok("flac".to_string()));
    assert_eq!(extension_from_segments(&some(vec![])), Ok("flac".to_string()));
    assert_eq!(extension_from_segments(&None), Ok("flac".to_string()));
    assert_eq!(extension_from_segments(&some(vec!["a.mp3", "b"])), Err(ResolveError::NoExtension));
    assert_eq!(extension_from_segments(&some(vec!["a.mp3", ".b"])), Err(ResolveError::NoExtension));
}

#[test]
fn get_file_extension_reads_the_last_segment() {
    assert_eq!(get_file_extension("https://freetyst.nf.migu.cn/a.mp3/b.flac"), Ok("flac".to_string()));
    assert_eq!(get_file_extension("https://freetyst.nf.migu.cn/a/b.tar.gz?x=y.z"), Ok("gz".to_string()));
    assert_eq!(get_file_extension("https://freetyst.nf.migu.cn/a/vi%E1%BB%87t.m4a"), Ok("m4a".to_string()));
    assert_eq!(get_file_extension("https://freetyst.nf.migu.cn/"), Ok("flac".to_string()));
    assert_eq!(get_file_extension("data:text/plain,x.mp3"), Ok("flac".to_string()));
    assert_eq!(get_file_extension("no url at all"), Ok("flac".to_string()));
}

#[test]
fn name_from_segments_takes_the_last_that_is_not_empty() {
    let some = |list: Vec<&str>| Some(list.into_iter().map(String::from).collect::<Vec<String>>());
    assert_eq!(name_from_segments(&some(vec!["a", "b.flac"])), "b.flac");
    assert_eq!(name_from_segments(&some(vec!["a", ""])), "music-tmp.flac");
    assert_eq!(name_from_segments(&some(vec![""])), "music-tmp.flac");
    assert_eq!(name_from_segments(&some(vec![])), "music-tmp.flac");
    assert_eq!(name_from_segments(&None), "music-tmp.flac");
}

#[test]
fn file_extension_is_what_follows_the_last_dot() {
    assert_eq!(file_extension("song.flac"), Some("flac".to_string()));
    assert_eq!(file_extension("a.b.c"), Some("c".to_string()));
    assert_eq!(file_extension(".a.b"), Some("b".to_string()));
    assert_eq!(file_extension("..a"), Some("a".to_string()));
    assert_eq!(file_extension("传奇.m4a"), Some("m4a".to_string()));
    assert_eq!(file_extension("a.é"), Some("é".to_string()));
    assert_eq!(file_extension("song."), Some(String::new()));
    assert_eq!(file_extension("..."), Some(String::new()));
}

#[test]
fn file_extension_of_a_name_without_one() {
    assert_eq!(file_extension("song"), None);
    assert_eq!(file_extension(""), None);
    assert_eq!(file_extension(".hidden"), None);
    assert_eq!(file_extension("."), None);
    assert_eq!(file_extension(".."), None);
}

#[test]
fn file_extension_agrees_with_the_standard_library() {
    for name in ["a.b", "a", ".a", "a.", "..", "...", ".a.b", "a..b", "x.tar.gz", "", "."] {
        let expected = std::path::Path::new(name)
            .extension()
            .map(|e| e.to_string_lossy().into_owned());
        assert_eq!(file_extension(name), expected);
    }
}

#[test]
fn destination_name_joins_the_three_parts() {
    assert_eq!(destination_name("Fly Me to the Moon", "Sinatra", "flac"), "Fly Me to the Moon-Sinatra.flac");
    assert_eq!(destination_name("", "", ""), "-.");
    assert_eq!(destination_name("a-b", "c.d", "e"), "a-b-c.d.e");
}

#[test]
fn a_track_without_singer_is_not_resolved() {
    let mut song = moon(vec![sq("ftp://origin.example/path/song.flac", "")]);
    song.singers.clear();
    assert_eq!(resolve(&song, "SQ", "out"), Err(ResolveError::NoSinger));
    assert_eq!(
        assemble(&song, "out", "https://h/a.flac".to_string(), "flac".to_string()),
        Err(ResolveError::NoSinger)
    );
    let mut no_extension = moon(vec![sq("ftp://origin.example/path/song", "")]);
    no_extension.singers.clear();
    assert_eq!(resolve(&no_extension, "SQ", "out"), Err(ResolveError::NoExtension));
}

#[test]
fn assemble_joins_directory_and_name() {
    let song = moon(vec![]);
    assert_eq!(
        assemble(&song, "some/dir", "https://h/a.flac".to_string(), "ogg".to_string()),
        Ok(ResolvedDownload {
            url: "https://h/a.flac".to_string(),
            file_extension: "ogg".to_string(),
            file_name: "Fly Me to the Moon-Sinatra.ogg".to_string(),
            destination_path: joined("some/dir", "Fly Me to the Moon-Sinatra.ogg"),
        })
    );
    let plain = assemble(&song, "", "u".to_string(), "e".to_string()).unwrap();
    assert_eq!(plain.destination_path, "Fly Me to the Moon-Sinatra.e");
}
