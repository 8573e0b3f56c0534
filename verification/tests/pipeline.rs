use std::cell::RefCell;
use std::sync::Arc;

use vrsr::catalog::{EpisodeInfo, ResourceInfo, TeleplayInfo, TeleplaySrc, URIType, Uri};
use vrsr::error::Error;
use vrsr::parser::{
    cast, names, stream_message, stream_message_behind, stream_uri, teleplay_id, IJUJITVParser,
    JUGOUGOUParser, XMBParser, ZBKYYYParser,
};
use vrsr::request::{Requestor, RequestorBuilder, RequestStep, RESOURCE_CACHE_TIME};
use vrsr::resolver::{
    create_resource, create_teleplay, BaseEpisode, BaseResource, BaseTeleplay, Episode,
    EpisodeParse, GenerateInfo, Request, Resource, ResourceParse, Teleplay, TeleplayParse,
};

struct Canned {
    pages: Vec<(String, String)>,
    asked: RefCell<Vec<(String, u128)>>,
}

impl Canned {
    fn new(pages: &[(&str, &str)]) -> Arc<Canned> {
        Arc::new(Canned {
            pages: pages.iter().map(|(u, b)| (u.to_string(), b.to_string())).collect(),
            asked: RefCell::new(Vec::new()),
        })
    }

    fn body(&self, url: &str) -> Result<String, Error> {
        match self.pages.iter().find(|(u, _)| u == url) {
            Some((_, body)) => Ok(body.clone()),
            None => Err(Error::ResponseFailed(404)),
        }
    }
}

impl Request for Canned {
    fn request(&self, url: &str) -> Result<String, Error> {
        self.asked.borrow_mut().push((url.to_string(), 0));
        self.body(url)
    }

    fn request_with_cache(&self, url: &str, cache_time: u128) -> Result<String, Error> {
        self.asked.borrow_mut().push((url.to_string(), cache_time));
        self.body(url)
    }
}

struct Lines {
    host: String,
}

impl GenerateInfo for Lines {
    fn generate_resource_info(&self) -> ResourceInfo {
        ResourceInfo {
            host: self.host.clone(),
            name: "lines".to_string(),
            search_path: "find/list.html".to_string(),
            search_key: "wd".to_string(),
        }
    }

    fn generate_teleplay_info(&self, id: u64) -> TeleplayInfo {
        let mut info = TeleplayInfo::default();
        info.id = id;
        info.home_page = format!("{}/entry/{}.html", self.host, id);
        info
    }
}

impl ResourceParse for Lines {
    fn parse<R: Request>(
        &self,
        html: &str,
        org_url: &str,
        _requestor: &Arc<R>,
    ) -> Result<Vec<TeleplayInfo>, Error> {
        assert!(org_url.starts_with("https://site.example/find/list.html?wd="));
        let mut found = Vec::new();
        for line in html.lines() {
            let (title, page) = line
                .split_once('|')
                .ok_or_else(|| Error::ParseError("no bar".to_string()))?;
            let mut info = TeleplayInfo::default();
            info.title = title.to_string();
            info.home_page = page.to_string();
            info.id = teleplay_id(page).unwrap_or(0);
            found.push(info);
        }
        Ok(found)
    }
}

impl TeleplayParse for Lines {
    fn parse<R: Request>(
        &self,
        html: &str,
        org_url: &str,
        teleplay_info: &mut TeleplayInfo,
        _requestor: &Arc<R>,
    ) -> Result<Vec<TeleplaySrc>, Error> {
        assert_eq!(org_url, teleplay_info.home_page);
        let mut sources = Vec::new();
        for line in html.lines() {
            if let Some(title) = line.strip_prefix("title=") {
                teleplay_info.title = title.to_string();
                continue;
            }
            let mut source = TeleplaySrc::new();
            let mut parts = line.split(';');
            source.set_name(parts.next().unwrap());
            for part in parts {
                let (name, url) = part
                    .split_once('|')
                    .ok_or_else(|| Error::ParseError("no bar".to_string()))?;
                source.append_episode(EpisodeInfo { name: name.to_string(), url: url.to_string() });
            }
            sources.push(source);
        }
        Ok(sources)
    }
}

impl EpisodeParse for Lines {
    fn parse<R: Request>(&self, html: &str, org_url: &str, _requestor: &Arc<R>) -> Result<Uri, Error> {
        assert!(org_url.starts_with("https://site.example/"));
        stream_uri(&stream_message(html))
    }
}

fn lines(host: &str) -> Arc<Lines> {
    Arc::new(Lines { host: host.to_string() })
}

type Entry = BaseTeleplay<Canned, Lines, Lines, BaseEpisode<Canned, Lines>>;

#[test]
fn search_asks_for_the_search_page_and_makes_pages_absolute() {
    let url = "https://site.example/find/list.html?wd=%E5%89%91+x";
    let requestor = Canned::new(&[(url, "One|/entry/11.html\nTwo|entry/22.html?x=1")]);
    let mut resource = create_resource(requestor.clone(), lines("https://site.example/base?q=1"));
    assert_eq!(resource.name(), "lines");
    assert_eq!(resource.host(), "https://site.example/base?q=1");
    assert!(resource.teleplays().is_empty());
    assert_eq!(resource.search_url("剑 x").unwrap(), url);
    resource.search("剑 x").unwrap();
    assert_eq!(
        *requestor.asked.borrow(),
        vec![(url.to_string(), RESOURCE_CACHE_TIME)]
    );
    let entries = resource.teleplays();
    assert_eq!(entries.len(), 2);
    assert_eq!(entries[0].title(), "One");
    assert_eq!(entries[0].id(), 11);
    assert_eq!(entries[0].home_page(), "https://site.example/entry/11.html?q=1");
    assert_eq!(entries[1].title(), "Two");
    assert_eq!(entries[1].id(), 22);
    assert_eq!(
        entries[1].home_page(),
        "https://site.example/entry/22.html%3Fx=1?q=1"
    );
    assert!(entries[1].episodes().is_empty());
    resource.search("剑 x").unwrap();
    assert_eq!(resource.teleplays().len(), 4);
}

#[test]
fn search_failures_leave_the_catalog_as_it_was() {
    let requestor = Canned::new(&[("https://site.example/find/list.html?wd=a", "broken line")]);
    let mut resource = create_resource(requestor.clone(), lines("https://site.example"));
    assert!(matches!(resource.search("a"), Err(Error::ParseError(_))));
    assert!(matches!(resource.search("b"), Err(Error::ResponseFailed(404))));
    assert!(resource.teleplays().is_empty());
    let mut lost = create_resource(requestor, lines("nowhere"));
    assert!(matches!(lost.search_url("a"), Err(Error::ParseError(_))));
    assert!(matches!(lost.search("a"), Err(Error::ParseError(_))));
    assert!(lost.teleplays().is_empty());
}

#[test]
fn adopt_is_all_or_nothing() {
    let requestor = Canned::new(&[]);
    let parser = lines("not a url");
    let mut resource: BaseResource<Canned, Lines, Lines, Lines, Entry> = Resource::new(
        parser.generate_resource_info(),
        requestor,
        parser.clone(),
        parser.clone(),
        parser,
    );
    let mut info = TeleplayInfo::default();
    info.home_page = "/a.html".to_string();
    assert!(matches!(resource.adopt(vec![info]), Err(Error::ParseError(_))));
    assert!(resource.teleplays().is_empty());
    assert!(resource.adopt(Vec::new()).is_ok());
}

#[test]
fn entry_is_looked_up_and_its_episodes_resolve() {
    let page = "https://site.example/entry/7.html";
    let requestor = Canned::new(&[
        (page, "title=Seven\nline A;ep1|/play/7-1.html;ep2|/play/7-2.html\nline B;only|play/b.html"),
        (
            "https://site.example/play/7-1.html",
            "var player = {\"url\":\"https://cdn.example/7/1/index.m3u8\",\"from\":\"x\"}  ",
        ),
        ("https://site.example/play/7-2.html", "var player = 12"),
    ]);
    let mut teleplay = create_teleplay(requestor.clone(), lines("https://site.example"), 7);
    assert_eq!(teleplay.id(), 7);
    assert_eq!(teleplay.home_page(), page);
    assert_eq!(teleplay.title(), "");
    assert!(teleplay.status().is_none());
    teleplay.request().unwrap();
    assert_eq!(teleplay.title(), "Seven");
    assert_eq!(teleplay.info().title, "Seven");
    let sources = teleplay.episodes();
    assert_eq!(sources.len(), 2);
    assert_eq!(sources[0].0.as_deref(), Some("line A"));
    assert_eq!(sources[1].0.as_deref(), Some("line B"));
    let shown: Vec<(&str, &str)> = sources[0].1.iter().map(|e| (e.name(), e.url())).collect();
    assert_eq!(
        shown,
        vec![
            ("ep1", "https://site.example/play/7-1.html"),
            ("ep2", "https://site.example/play/7-2.html"),
        ]
    );
    assert_eq!(sources[1].1[0].url(), "https://site.example/play/b.html");
    assert_eq!(sources[0].1[0].uri().utype, URIType::UNKNOWN);

    let mut first = BaseEpisode::new(
        EpisodeInfo { name: "ep1".to_string(), url: sources[0].1[0].url().to_string() },
        requestor.clone(),
        lines("https://site.example"),
    );
    let uri = first.request().unwrap();
    assert_eq!(uri.uri, "https://cdn.example/7/1/index.m3u8");
    assert_eq!(uri.utype, URIType::M3U8);
    assert_eq!(first.uri().uri, "https://cdn.example/7/1/index.m3u8");

    let mut second = BaseEpisode::new(
        EpisodeInfo { name: "ep2".to_string(), url: sources[0].1[1].url().to_string() },
        requestor.clone(),
        lines("https://site.example"),
    );
    assert!(matches!(second.request(), Err(Error::ParseError(_))));
    assert_eq!(second.uri().uri, "");
    assert_eq!(second.uri().utype, URIType::UNKNOWN);
    let mut third = BaseEpisode::new(
        EpisodeInfo { name: "x".to_string(), url: "https://site.example/none".to_string() },
        requestor.clone(),
        lines("https://site.example"),
    );
    assert!(matches!(third.request(), Err(Error::ResponseFailed(404))));
    let asked = requestor.asked.borrow();
    assert!(asked.iter().all(|(_, ttl)| *ttl == 2_592_000_000_000_000));
    assert_eq!(asked.len(), 4);
}

#[test]
fn teleplay_adopt_is_all_or_nothing() {
    let parser = lines("https://site.example");
    let mut teleplay: Entry = Teleplay::new(
        TeleplayInfo::default(),
        Canned::new(&[]),
        parser.clone(),
        parser,
    );
    let mut source = TeleplaySrc::new();
    source.append_episode(EpisodeInfo { name: "a".to_string(), url: "/a".to_string() });
    assert!(matches!(
        teleplay.adopt("no home", vec![source]),
        Err(Error::ParseError(_))
    ));
    assert!(teleplay.episodes().is_empty());
    assert!(matches!(teleplay.request(), Err(Error::ResponseFailed(404))));
    let mut source = TeleplaySrc::new();
    source.set_name("s").append_episode(EpisodeInfo { name: "a".to_string(), url: "/a b".to_string() });
    teleplay.adopt("http://h.example/x/y?k=v#f", vec![source, TeleplaySrc::new()]).unwrap();
    let sources = teleplay.episodes();
    assert_eq!(sources.len(), 2);
    assert_eq!(sources[0].1[0].url(), "http://h.example/a%20b?k=v#f");
    assert!(sources[1].0.is_none());
    assert!(sources[1].1.is_empty());
}

#[test]
fn sites_know_where_they_live() {
    let ijujitv = IJUJITVParser::new();
    let info = ijujitv.generate_resource_info();
    assert_eq!(info.name, "剧集TV");
    assert_eq!(info.host, "https://v.ijujitv.cc");
    assert_eq!(info.search_path, "search/-------------.html");
    assert_eq!(info.search_key, "wd");
    let entry = ijujitv.generate_teleplay_info(5139);
    assert_eq!(entry.home_page, "https://v.ijujitv.cc/detail/5139.html");
    assert_eq!(entry.id, 0);
    assert_eq!(entry.title, "");

    let zbkyyy = ZBKYYYParser::new();
    let info = zbkyyy.resource_info();
    assert_eq!(info.name, "真不卡影院");
    assert_eq!(info.host, "https://www.zbkyyy.com");
    assert_eq!(info.search_path, "qyvodsearch/-------------.html");
    let entry = zbkyyy.teleplay_info(0);
    assert_eq!(entry.home_page, "https://www.zbkyyy.com/qyvoddetail/0.html");
    assert_eq!(entry.id, 0);

    let jugougou = JUGOUGOUParser::new();
    let info = jugougou.generate_resource_info();
    assert_eq!(info.name, "剧狗狗");
    assert_eq!(info.host, "https://www.jugougou.me");
    assert_eq!(info.search_path, "vodsearch/-------------.html");
    let entry = jugougou.generate_teleplay_info(18446744073709551615);
    assert_eq!(
        entry.home_page,
        "https://www.jugougou.me/voddetail/18446744073709551615.html"
    );
    assert_eq!(entry.id, 18446744073709551615);

    let xmb = XMBParser::new();
    let info = xmb.generate_resource_info();
    assert_eq!(info.name, "小目标");
    assert_eq!(info.host, "https://tv.xmb.app/index.php");
    assert_eq!(info.search_path, "index.php/vod/search.html");
    let entry = xmb.generate_teleplay_info(42);
    assert_eq!(entry.home_page, "https://tv.xmb.app/index.php/vod/detail/id/42.html");
    assert_eq!(entry.id, 42);
    assert!(entry.cover.is_none() && entry.director.is_none());
}

#[test]
fn identifier_is_read_from_the_page_reference() {
    assert_eq!(teleplay_id("/detail/5139.html"), Some(5139));
    assert_eq!(teleplay_id("https://v.ijujitv.cc/detail/54460.html"), Some(54460));
    assert_eq!(teleplay_id("77"), Some(77));
    assert_eq!(teleplay_id("a/b/007.x.y"), Some(7));
    assert_eq!(teleplay_id("/voddetail/+3.html"), Some(3));
    assert_eq!(teleplay_id("/detail/abc.html"), None);
    assert_eq!(teleplay_id("/detail/12/"), None);
    assert_eq!(teleplay_id(""), None);
    assert_eq!(teleplay_id("/x/18446744073709551616.html"), None);
    assert_eq!(teleplay_id("/x/18446744073709551615.html"), Some(u64::MAX));
}

#[test]
fn message_is_found_in_the_script() {
    assert_eq!(stream_message("var a = {\"url\":\"u\"} \n"), "{\"url\":\"u\"}");
    assert_eq!(stream_message("no equals sign"), "no equals sign");
    assert_eq!(stream_message("a=b=c"), "c");
    assert_eq!(stream_message("a="), "");
    assert_eq!(stream_message_behind("var a = {\"u\":\"x=y\"} "), "{\"u\":\"xy\"}");
    assert_eq!(stream_message_behind("no equals sign"), "");
    assert_eq!(stream_message_behind("a=\u{3000}b\t"), "b");
    assert_eq!(stream_message_behind("=="), "");
}

#[test]
fn stream_is_read_from_the_message() {
    let uri = stream_uri("{\"url\":\"\\\"https://c.example/i.m3u8\\\"\",\"n\":1}").unwrap();
    assert_eq!(uri.uri, "https://c.example/i.m3u8");
    assert_eq!(uri.utype, URIType::M3U8);
    assert_eq!(stream_uri("{\"url\":\"plain\"}").unwrap().uri, "plain");
    assert_eq!(stream_uri("{\"url\":\"\"}").unwrap().uri, "");
    assert!(matches!(stream_uri("{\"url\":5}"), Err(Error::ParseError(_))));
    assert!(matches!(stream_uri("{\"other\":\"x\"}"), Err(Error::ParseError(_))));
    assert!(matches!(stream_uri("[1,2]"), Err(Error::ParseError(_))));
    match stream_uri("{\"url\":") {
        Err(Error::SerdeJsonError(words)) => assert!(!words.is_empty()),
        other => panic!("unexpected: {:?}", other),
    }
    match stream_uri("{\"other\":\"x\"}") {
        Err(Error::ParseError(words)) => {
            assert_eq!(words, "Faild to find url string from json msg")
        }
        other => panic!("unexpected: {:?}", other),
    }
}

#[test]
fn cast_is_read_from_a_labelled_line() {
    assert_eq!(
        cast("主演: 甲, 乙 ,丙"),
        Some(vec!["甲".to_string(), "乙".to_string(), "丙".to_string()])
    );
    assert_eq!(
        cast("主演:甲 乙  丙"),
        Some(vec!["甲".to_string(), "乙".to_string(), "丙".to_string()])
    );
    assert_eq!(cast("a:b:  x,y "), Some(vec!["x".to_string(), "y".to_string()]));
    assert_eq!(cast("主演:solo"), Some(vec!["solo".to_string()]));
    assert_eq!(cast("主演:,solo,"), Some(vec!["solo".to_string()]));
    assert_eq!(cast("no colon, at all"), None);
    assert_eq!(cast("主演:"), None);
    assert_eq!(cast("主演: ,"), None);
    assert_eq!(cast("主演:  "), None);
    assert_eq!(cast("主演: x "), Some(vec!["x".to_string()]));
    assert_eq!(cast("主演:a, ,b"), Some(vec!["a".to_string(), "".to_string(), "b".to_string()]));
    assert_eq!(names("a,,b , c", ','), vec!["a", "b", "c"]);
    assert_eq!(names("", ','), Vec::<String>::new());
}

#[test]
fn requestor_settings_are_kept() {
    let requestor: Arc<Requestor> = RequestorBuilder::new().build();
    assert_eq!(requestor.timeout(), 30);
    assert!(!requestor.ignore_cache());
    let headers = requestor.headers();
    assert_eq!(headers.len(), 5);
    assert_eq!(headers[0], ("content-type".to_string(), "text/html".to_string()));
    assert_eq!(headers[1].0, "user-agent");
    assert!(headers[1].1.starts_with("Mozilla/5.0 (Windows NT 10.0; Win64; x64)"));
    assert!(headers[1].1.ends_with("Chrome/58.0.3029.110 Safari/537.36"));
    assert_eq!(headers[2], ("accept-encoding".to_string(), "gzip, deflate, br".to_string()));
    assert_eq!(
        headers[3],
        ("accept-language".to_string(), "zh-CN,zh;q=0.8,en;q=0.6".to_string())
    );
    assert_eq!(headers[4], ("connection".to_string(), "keep-alive".to_string()));
    assert_eq!(
        requestor.get_cache_path("hello"),
        ".cache/2cf24dba5fb0a30e26e83b2ac5b9e29e1b161e5c1fa7425e73043362938b9824"
    );

    let mut builder = RequestorBuilder::new();
    builder
        .headers(vec![("x-a".to_string(), "1".to_string())])
        .cache_dir("tmp/")
        .timeout(7)
        .try_count(2)
        .ignore_cache(true);
    let custom = builder.build();
    assert_eq!(custom.timeout(), 7);
    assert!(custom.ignore_cache());
    assert_eq!(*custom.headers(), vec![("x-a".to_string(), "1".to_string())]);
    assert_eq!(
        custom.get_cache_path("https://e.example/a?b=c"),
        format!("tmp/{}", sha256::digest("https://e.example/a?b=c"))
    );
    assert!(matches!(
        custom.request(0, Err(Error::RequestError("reset".to_string()))),
        RequestStep::Retry
    ));
    assert!(matches!(
        custom.request(1, Err(Error::RequestError("reset".to_string()))),
        RequestStep::Finished(Err(Error::RequestOutOfTry(2)))
    ));
}

#[test]
fn request_retries_transport_failures_only() {
    let requestor = RequestorBuilder::new().build();
    let transport = || Err(Error::RequestError("timed out".to_string()));
    let mut tried = 0;
    let mut steps = 0;
    let last = loop {
        steps += 1;
        match requestor.request(tried, transport()) {
            RequestStep::Retry => tried += 1,
            RequestStep::Finished(result) => break result,
        }
    };
    assert_eq!(steps, 3);
    assert!(matches!(last, Err(Error::RequestOutOfTry(3))));

    assert!(matches!(
        requestor.request(0, Requestor::base_request(500, "oops".to_string())),
        RequestStep::Finished(Err(Error::ResponseFailed(500)))
    ));
    assert!(matches!(
        requestor.request(0, Requestor::base_request(404, String::new())),
        RequestStep::Finished(Err(Error::ResponseFailed(404)))
    ));
    assert!(matches!(
        requestor.request(0, Requestor::base_request(302, String::new())),
        RequestStep::Finished(Err(Error::ResponseFailed(302)))
    ));
    match requestor.request(2, Requestor::base_request(200, "body".to_string())) {
        RequestStep::Finished(Ok(body)) => assert_eq!(body, "body"),
        other => panic!("unexpected: {:?}", other),
    }
    match requestor.post_request(1, Requestor::base_request(204, String::new())) {
        RequestStep::Finished(Ok(body)) => assert_eq!(body, ""),
        other => panic!("unexpected: {:?}", other),
    }
    assert!(matches!(
        requestor.post_request(0, Err(Error::IoError("disk".to_string()))),
        RequestStep::Retry
    ));
    assert!(matches!(
        requestor.post_request(2, transport()),
        RequestStep::Finished(Err(Error::RequestOutOfTry(3)))
    ));

    let mut builder = RequestorBuilder::new();
    builder.try_count(0);
    let patient = builder.build();
    for tried in [0u64, 1, 1000, u64::MAX - 1, u64::MAX] {
        assert!(matches!(patient.request(tried, transport()), RequestStep::Retry));
    }
    builder.try_count(1);
    let hasty = builder.build();
    assert!(matches!(
        hasty.request(0, transport()),
        RequestStep::Finished(Err(Error::RequestOutOfTry(1)))
    ));
    assert!(matches!(
        hasty.request(u64::MAX, transport()),
        RequestStep::Finished(Err(Error::RequestOutOfTry(u64::MAX)))
    ));
}

#[test]
fn cache_serves_only_what_is_young_enough() {
    let requestor = RequestorBuilder::new().build();
    let day: u128 = 86_400_000_000_000;
    assert_eq!(RESOURCE_CACHE_TIME, 30 * day);
    assert!(requestor.request_with_cache(Some(0), RESOURCE_CACHE_TIME));
    assert!(requestor.request_with_cache(Some(30 * day - 1), RESOURCE_CACHE_TIME));
    assert!(!requestor.request_with_cache(Some(30 * day), RESOURCE_CACHE_TIME));
    assert!(!requestor.request_with_cache(Some(31 * day), RESOURCE_CACHE_TIME));
    assert!(!requestor.request_with_cache(None, RESOURCE_CACHE_TIME));
    assert!(!requestor.request_with_cache(Some(0), 0));
    let mut builder = RequestorBuilder::new();
    builder.ignore_cache(true);
    let fresh = builder.build();
    assert!(!fresh.request_with_cache(Some(0), RESOURCE_CACHE_TIME));
    assert!(!fresh.request_with_cache(None, RESOURCE_CACHE_TIME));

    assert_eq!(Requestor::modifie_time(Some(10), 25), Some(15));
    assert_eq!(Requestor::modifie_time(Some(25), 25), Some(0));
    assert_eq!(Requestor::modifie_time(Some(26), 25), None);
    assert_eq!(Requestor::modifie_time(None, 25), None);
}

#[test]
fn response_is_its_body_or_its_status() {
    assert_eq!(Requestor::base_request(200, "a".to_string()).unwrap(), "a");
    assert_eq!(Requestor::base_request(299, "b".to_string()).unwrap(), "b");
    for status in [100u16, 199, 300, 400, 503] {
        match Requestor::base_request(status, "x".to_string()) {
            Err(Error::ResponseFailed(s)) => assert_eq!(s, status),
            other => panic!("unexpected: {:?}", other),
        }
    }
}
