use musd::{
    default_size, default_string, Args, MusicType, MIGU_DOWNLOAD_HOST, MIGU_DOWNLOAD_SCHEME,
    MIGU_QUERY_API, MUSD_OUTPUT_ENV_KEY, SUPER_QUALITY,
};

#[test]
fn defaults_of_missing_members() {
    assert_eq!(default_string(), "");
    assert_eq!(default_size(), "0");
}

#[test]
fn the_fixed_names() {
    assert_eq!(MUSD_OUTPUT_ENV_KEY, "MUSD_OUTPUT");
    assert_eq!(MIGU_DOWNLOAD_SCHEME, "https");
    assert_eq!(MIGU_DOWNLOAD_HOST, "freetyst.nf.migu.cn");
    assert_eq!(MIGU_QUERY_API, "https://pd.musicapp.migu.cn/MIGUM3.0/v1.0/content/search_all.do");
    assert_eq!(SUPER_QUALITY, "SQ");
}

#[test]
fn args_hold_the_options() {
    let args = Args {
        output: Some("out".to_string()),
        format: Some(MusicType::Flac),
        build_info: false,
        music: vec!["someone".to_string(), "like".to_string(), "you".to_string()],
    };
    assert_eq!(args.music.join(" "), "someone like you");
    assert_eq!(args.format, Some(MusicType::Flac));
    assert_ne!(args.format, Some(MusicType::M4a));
}

#[test]
fn the_query_is_the_words_joined_by_spaces() {
    let with = |words: Vec<&str>| Args {
        output: None,
        format: None,
        build_info: false,
        music: words.into_iter().map(String::from).collect(),
    };
    assert_eq!(with(vec!["someone", "like", "you"]).query(), "someone like you");
    assert_eq!(with(vec!["传奇"]).query(), "传奇");
    assert_eq!(with(vec![]).query(), "");
    assert_eq!(with(vec!["a", "", "b"]).query(), "a  b");
    assert_eq!(with(vec!["", ""]).query(), " ");
    assert_eq!(with(vec!["a b", "c"]).query(), "a b c");
}
