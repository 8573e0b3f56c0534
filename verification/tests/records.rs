use vrsr::args::{Cli, Mode, Src};
use vrsr::catalog::{EpisodeInfo, ResourceInfo, TeleplayInfo, TeleplaySrc, URIType, Uri};
use vrsr::assembly::extension;
use vrsr::commands::{
    download, episode_file, episode_group, m3u8_download, progress_prefix, resolved, save_dir,
    search, verdict, Fetch,
};
use vrsr::request::Requestor;
use vrsr::downloader::{DownloadError, MP4Download, MP4DownloadBuilder};
use vrsr::error::{CommandError, Error};
use vrsr::source::{FilmInfo, IJUJITV, ZBKYYY};
use vrsr::text::{join, join_path, parse_u64, split, trim, trim_matches, u64_to_string};

#[test]
fn listing_shows_what_is_known() {
    let mut info = TeleplayInfo::default();
    assert_eq!(info.fmt(), "|影片ID:0\n|影片名称:\n");
    info.id = 5139;
    info.title = "庆余年".to_string();
    assert_eq!(info.fmt(), "|影片ID:5139\n|影片名称:庆余年\n");
    info.status = Some("完结".to_string());
    info.director = Some(vec!["甲".to_string(), "乙".to_string()]);
    info.times = Some("2019".to_string());
    info.language = Some("国语".to_string());
    info.starring = Some(vec!["丙".to_string(), "丁".to_string(), "戊".to_string()]);
    info.introduction = Some("简短的介绍".to_string());
    info.genre = Some("不显示".to_string());
    assert_eq!(
        info.fmt(),
        "|影片ID:5139\n|影片名称:庆余年[完结]\n|导演:甲,乙 年代:2019 语言:国语\n|演员:丙/丁/戊\n|简介:简短的介绍"
    );
    info.director = Some(Vec::new());
    info.times = None;
    info.starring = Some(vec!["丙".to_string()]);
    info.introduction = None;
    assert_eq!(
        info.fmt(),
        "|影片ID:5139\n|影片名称:庆余年[完结]\n|导演: 语言:国语\n|演员:丙\n"
    );
    let copy = info.clone();
    assert_eq!(copy.fmt(), info.fmt());
    assert_eq!(copy.genre.as_deref(), Some("不显示"));
}

#[test]
fn records_start_empty() {
    let uri = Uri::default();
    assert_eq!(uri.uri, "");
    assert_eq!(uri.utype, URIType::UNKNOWN);
    let episode = EpisodeInfo::default();
    assert_eq!((episode.name.as_str(), episode.url.as_str()), ("", ""));
    let site = ResourceInfo::default();
    assert_eq!(site.host, "");
    assert_eq!(site.search_key, "");
    let mut source = TeleplaySrc::new();
    assert!(source.name.is_none() && source.episodes.is_empty());
    source
        .set_name("线路一")
        .append_episode(EpisodeInfo { name: "第01集".to_string(), url: "/p/1".to_string() })
        .append_episode(EpisodeInfo { name: "第02集".to_string(), url: "/p/2".to_string() });
    assert_eq!(source.name.as_deref(), Some("线路一"));
    let names: Vec<&str> = source.episodes.iter().map(|e| e.name.as_str()).collect();
    assert_eq!(names, vec!["第01集", "第02集"]);
    let copy = source.episodes[1].clone();
    assert_eq!(copy.url, "/p/2");
}

#[test]
fn film_pages_are_found_by_identifier() {
    let film = IJUJITV::from_id(5139);
    assert_eq!(film.url(), "https://v.ijujitv.cc/detail/5139.html");
    assert_eq!(film.name(), "");
    assert_eq!(film.release_time(), "");
    assert_eq!(film.genre(), "");
    assert_eq!(film.language(), "");
    assert_eq!(film.director(), "");
    assert_eq!(film.starring(), "");
    assert_eq!(film.introduction(), "");
    assert_eq!(film.region(), "");
    assert!(film.sources().is_empty());
    let film = ZBKYYY::from_id(10);
    assert_eq!(film.url(), "https://www.zbkyyy.com/qyvoddetail/10.html");
    assert!(film.sources().is_empty());
    assert_eq!(ZBKYYY::new("https://x.example/").url(), "https://x.example/");
    assert_eq!(IJUJITV::new("").url(), "");
    assert_eq!(IJUJITV::default().url(), "");
    assert_eq!(ZBKYYY::from_id(u64::MAX).url(), "https://www.zbkyyy.com/qyvoddetail/18446744073709551615.html");
}

#[test]
fn numbers_are_written_and_read() {
    assert_eq!(u64_to_string(0), "0");
    assert_eq!(u64_to_string(9), "9");
    assert_eq!(u64_to_string(10), "10");
    assert_eq!(u64_to_string(1234567890), "1234567890");
    assert_eq!(u64_to_string(u64::MAX), "18446744073709551615");
    for text in ["0", "7", "+7", "007", "18446744073709551615", "18446744073709551616", "", "+", "-1", " 1", "1 ", "1a", "٣", "99999999999999999999999"] {
        assert_eq!(parse_u64(text), text.parse::<u64>().ok(), "{:?}", text);
    }
    assert_eq!(parse_u64("4096"), Some(4096));
}

#[test]
fn text_is_split_joined_and_trimmed() {
    assert_eq!(split("a,b,,c", ','), vec!["a", "b", "", "c"]);
    assert_eq!(split("", ','), vec![""]);
    assert_eq!(split(",", ','), vec!["", ""]);
    assert_eq!(split("é/ü", '/'), vec!["é", "ü"]);
    assert_eq!(join(&vec!["a".to_string(), "".to_string(), "c".to_string()], "/"), "a//c");
    assert_eq!(join(&Vec::new(), ","), "");
    assert_eq!(join(&vec!["solo".to_string()], ", "), "solo");
    for text in ["  a b \t\n", "", " ", "\u{3000}x\u{a0}", "x", "\u{85}\u{2028}y\u{1680}z\u{205f}", "\u{200b}a\u{200b}", "\u{feff}a"] {
        assert_eq!(trim(text), text.trim(), "{:?}", text);
    }
    for text in ["\"\"a\"b\"", "\"", "", "a\"", "\"a", "a"] {
        assert_eq!(trim_matches(text, '"'), text.trim_matches('"'), "{:?}", text);
    }
    assert_eq!(join_path(".cache", "abc"), ".cache/abc");
    assert_eq!(join_path("dir/", "abc"), "dir/abc");
    assert_eq!(join_path("", "abc"), "abc");
    assert_eq!(join_path("/", "abc"), "/abc");
    assert_eq!(join_path("a/b", ""), "a/b/");
}

#[test]
fn commands_choose_sites_and_jobs() {
    assert_eq!(search(Src::IJUJITV, true), vec![Src::ZBKYYY, Src::IJUJITV, Src::JUGOUGOU]);
    assert_eq!(search(Src::IJUJITV, false), vec![Src::IJUJITV]);
    assert_eq!(search(Src::JUGOUGOU, false), vec![Src::JUGOUGOU]);

    let job = m3u8_download("http://h.example/i.m3u8", "output.mp4", 4);
    assert_eq!(job.uri(), "http://h.example/i.m3u8");
    assert_eq!(job.save_file(), "output.mp4");
    assert_eq!(job.cache_dir(), ".cache");
    assert_eq!(job.timeout(), 5);
    assert_eq!(job.climit(), 4);
    assert_eq!(job.try_count(), -1);
    assert!(job.ignore_cache());
    assert_eq!(job.total(), 0);

    let stream = Uri { uri: "http://h.example/i.m3u8".to_string(), utype: URIType::M3U8 };
    match download(&stream, "dir/第01集.mp4", 8) {
        Fetch::Stream(job) => {
            assert_eq!(job.uri(), "http://h.example/i.m3u8");
            assert_eq!(job.save_file(), "dir/第01集.mp4");
            assert_eq!(job.timeout(), 3);
            assert_eq!(job.climit(), 8);
            assert_eq!(job.try_count(), -1);
            assert!(!job.ignore_cache());
        }
        _ => panic!("not a stream"),
    }
    let file = Uri { uri: "http://h.example/v.mp4".to_string(), utype: URIType::MP4 };
    match download(&file, "v.mp4", 8) {
        Fetch::File(job) => {
            assert_eq!(job.uri(), "http://h.example/v.mp4");
            assert_eq!(job.save_file(), "v.mp4");
            assert_eq!(job.timeout(), 3);
        }
        _ => panic!("not a file"),
    }
    assert!(matches!(download(&Uri::default(), "x", 1), Fetch::Unsupported));
}

#[test]
fn groups_files_and_prefixes() {
    assert_eq!(episode_group(1, 3), Some(0));
    assert_eq!(episode_group(3, 3), Some(2));
    assert_eq!(episode_group(0, 3), None);
    assert_eq!(episode_group(4, 3), None);
    assert_eq!(episode_group(1, 0), None);
    assert_eq!(save_dir(&Some("videos".to_string()), "Title"), "videos");
    assert_eq!(save_dir(&None, "Title"), "Title");
    assert_eq!(episode_file("videos", "第01集"), "videos/第01集.mp4");
    assert_eq!(episode_file("", "a"), "a.mp4");
    assert_eq!(progress_prefix(1, 9), "01/09");
    assert_eq!(progress_prefix(10, 12), "10/12");
    assert_eq!(progress_prefix(0, 100), "00/100");
    assert_eq!(progress_prefix(7, 24), format!("{:02}/{:02}", 7, 24));
}

#[test]
fn extension_is_what_follows_the_last_dot_of_the_file_name() {
    assert_eq!(extension("out.mp4").as_deref(), Some("mp4"));
    assert_eq!(extension("video/第08集.mp4").as_deref(), Some("mp4"));
    assert_eq!(extension("a.b/c").as_deref(), None);
    assert_eq!(extension("a.tar.gz").as_deref(), Some("gz"));
    assert_eq!(extension(".mp4").as_deref(), None);
    assert_eq!(extension("dir/.hidden").as_deref(), None);
    assert_eq!(extension("..mp4").as_deref(), Some("mp4"));
    assert_eq!(extension(".a.b").as_deref(), Some("b"));
    assert_eq!(extension("out.").as_deref(), Some(""));
    assert_eq!(extension("out").as_deref(), None);
    assert_eq!(extension("").as_deref(), None);
    assert_eq!(extension("..").as_deref(), None);
    assert_eq!(extension("a/..").as_deref(), None);
    assert_eq!(extension("...").as_deref(), Some(""));
    assert_eq!(extension("out.MP4").as_deref(), Some("MP4"));
    for path in ["out.mp4", "dir/out.ts", "a.b/c", "x.tar.gz", ".mp4", "d/.h", "..mp4", "out.", "out", "", "..", "a/..", "/abs/p.q", "第.集"] {
        let std_way = std::path::Path::new(path).extension().and_then(|e| e.to_str());
        assert_eq!(extension(path).as_deref(), std_way, "{:?}", path);
    }
}

#[test]
fn commands_hand_on_the_error_of_the_job() {
    assert!(verdict(Ok(())).is_ok());
    assert!(matches!(
        verdict(Err(DownloadError::Incomplete)),
        Err(CommandError::M3U8DownloadError(DownloadError::Incomplete))
    ));
    match verdict(Err(DownloadError::CreateFile("disk full".to_string()))) {
        Err(CommandError::M3U8DownloadError(DownloadError::CreateFile(words))) => {
            assert_eq!(words, "disk full")
        }
        other => panic!("unexpected: {:?}", other),
    }
    assert!(resolved(Ok(())).is_ok());
    assert!(matches!(
        resolved(Err(Error::ResponseFailed(404))),
        Err(CommandError::ParserResourceError(Error::ResponseFailed(404)))
    ));
    assert!(Requestor::cache_step(false, Some(4), 5));
    assert!(!Requestor::cache_step(false, Some(5), 5));
    assert!(!Requestor::cache_step(true, Some(4), 5));
    assert!(!Requestor::cache_step(false, None, 5));
}

#[test]
fn command_line_defaults() {
    assert_eq!(Cli::default_src(), Src::JUGOUGOU);
    assert_eq!(Cli::default_index(), 1);
    assert_eq!(Cli::default_climit(), 32);
    assert_eq!(Cli::default_output(), "output.mp4");
    for src in [Src::ZBKYYY, Src::IJUJITV, Src::JUGOUGOU] {
        assert_eq!(Src::from_name(src.name()), Some(src));
    }
    assert_eq!(Src::ZBKYYY.name(), "zbkyyy");
    assert_eq!(Src::from_name("xmb"), None);
    assert_eq!(Src::from_name("ZBKYYY"), None);
    let direct = |climit| Cli {
        mode: Some(Mode::M3U8 { url: "u".to_string(), output: "o".to_string(), climit }),
    };
    assert!(direct(1).valid());
    assert!(!direct(0).valid());
    assert!(Cli { mode: None }.valid());
    let group = Cli {
        mode: Some(Mode::Download {
            id: 1,
            src: Src::IJUJITV,
            index: 1,
            nocache: false,
            save_dir: None,
            print: false,
            climit: 0,
        }),
    };
    assert!(group.valid());
    let find = Cli {
        mode: Some(Mode::Search { keyword: "k".to_string(), src: Src::ZBKYYY, all: true, nocache: true }),
    };
    assert!(find.valid());
}

#[test]
fn errors_have_their_words() {
    assert_eq!(DownloadError::CreateFile("x".to_string()).message(), "create file error");
    assert_eq!(DownloadError::Reqwest("x".to_string()).message(), "reqwest error");
    assert_eq!(DownloadError::URI.message(), "url invailable");
    assert_eq!(DownloadError::Incomplete.message(), "download incomplete");
    assert_eq!(DownloadError::GetContentSize.message(), "get content size error");
    assert_eq!(DownloadError::ResponseFailed(500).message(), "response failed");
    assert_eq!(DownloadError::Decrypt.message(), "decrypt error");
    let job = m3u8_download("::", "o", 1);
    match job.playlist_url() {
        Err(e) => {
            assert!(matches!(e, DownloadError::URIParse(_)));
            assert_eq!(e.message(), "reqwest error");
            assert!(!e.is_transport());
        }
        Ok(url) => panic!("parsed to {}", url),
    }
    assert!(DownloadError::Reqwest(String::new()).is_transport());
    assert!(!DownloadError::Incomplete.is_transport());

    assert_eq!(Error::RequestError("reset".to_string()).message(), "Request error: reset");
    assert_eq!(Error::RequestOutOfTry(3).message(), "Request out of try: 3");
    assert_eq!(Error::ResponseFailed(404).message(), "Response failed");
    assert_eq!(Error::IoError("full".to_string()).message(), "IO error: full");
    assert_eq!(Error::ParseError("odd".to_string()).message(), "Parser error: odd");
    assert_eq!(Error::SerdeJsonError("eof".to_string()).message(), "serde json error: eof");
    assert_eq!(Error::BrowserError.message(), "browser error");
    assert_eq!(
        Error::selector("bad token").message(),
        "Parser error: Selector error: bad token"
    );
    assert!(matches!(
        CommandError::from(Error::BrowserError),
        CommandError::ParserResourceError(Error::BrowserError)
    ));
    assert!(matches!(
        CommandError::from(DownloadError::Incomplete),
        CommandError::M3U8DownloadError(DownloadError::Incomplete)
    ));
}

#[test]
fn progressive_download_rules() {
    assert_eq!(MP4Download::byte2mb(0), 0);
    assert_eq!(MP4Download::byte2mb(1_048_575), 0);
    assert_eq!(MP4Download::byte2mb(1_048_576), 1);
    assert_eq!(MP4Download::byte2mb(5 * 1_048_576 + 17), 5);
    assert_eq!(MP4Download::byte2mb(u64::MAX), 17_592_186_044_415);

    assert_eq!(MP4Download::get_total_size(200, Some("1048576")).unwrap(), 1_048_576);
    assert_eq!(MP4Download::get_total_size(206, Some("12")).unwrap(), 12);
    assert_eq!(MP4Download::get_total_size(200, Some("0")).unwrap(), 0);
    for missing in [None, Some("12 "), Some(""), Some("1e3")] {
        assert!(matches!(
            MP4Download::get_total_size(200, missing),
            Err(DownloadError::GetContentSize)
        ));
    }
    for status in [404u16, 500, 301, 199] {
        assert!(matches!(
            MP4Download::get_total_size(status, Some("12")),
            Err(DownloadError::GetContentSize)
        ));
    }

    let mut builder = MP4DownloadBuilder::new();
    let job = builder.build();
    assert_eq!((job.uri(), job.save_file(), job.timeout()), ("", "", 0));
    let transport = || DownloadError::Reqwest("reset".to_string());
    assert_eq!(job.download(0, transport()).unwrap(), 1);
    assert_eq!(job.download(41, transport()).unwrap(), 42);
    assert_eq!(job.download(i64::MAX, transport()).unwrap(), i64::MAX);
    assert!(matches!(job.download(0, DownloadError::GetContentSize), Err(DownloadError::GetContentSize)));
    assert!(matches!(
        job.download(0, DownloadError::CreateFile("x".to_string())),
        Err(DownloadError::CreateFile(_))
    ));

    builder.uri("http://h.example/v.mp4").save_file("v.mp4").try_count(2).timeout(9);
    let job = builder.build();
    assert_eq!(
        (job.uri(), job.save_file(), job.timeout()),
        ("http://h.example/v.mp4", "v.mp4", 9)
    );
    assert_eq!(job.download(0, transport()).unwrap(), 1);
    assert_eq!(job.download(1, transport()).unwrap(), 2);
    assert!(matches!(job.download(2, transport()), Err(DownloadError::Reqwest(_))));
    builder.try_count(0);
    assert!(matches!(builder.build().download(0, transport()), Err(DownloadError::Reqwest(_))));
}
