use std::collections::HashMap;

use vrsr::downloader::m3u8::{M3U8Download, M3U8DownloadBuilder};
use vrsr::downloader::run::{Action, Download, Event, Stage};
use vrsr::error::{DownloadError, Error};
use vrsr::lookup;

use aes::cipher::block_padding::Pkcs7;
use aes::cipher::{BlockEncryptMut, KeyIvInit};

struct World {
    pages: HashMap<String, (u16, Vec<u8>)>,
    flaky: HashMap<String, usize>,
    disk: HashMap<String, Vec<u8>>,
    written: HashMap<String, u128>,
    now: u128,
    fetched: Vec<String>,
    commands: Vec<Vec<String>>,
    dirs: Vec<String>,
    most_running: usize,
    reverse: bool,
}

impl World {
    fn new(pages: &[(&str, u16, &[u8])]) -> World {
        World {
            pages: pages
                .iter()
                .map(|(url, status, body)| (url.to_string(), (*status, body.to_vec())))
                .collect(),
            flaky: HashMap::new(),
            disk: HashMap::new(),
            written: HashMap::new(),
            now: 1_000,
            fetched: Vec::new(),
            commands: Vec::new(),
            dirs: Vec::new(),
            most_running: 0,
            reverse: false,
        }
    }

    fn get(&mut self, url: &str) -> Result<(u16, Vec<u8>), DownloadError> {
        self.fetched.push(url.to_string());
        if let Some(left) = self.flaky.get_mut(url) {
            if *left > 0 {
                *left -= 1;
                return Ok((500, b"busy".to_vec()));
            }
        }
        match self.pages.get(url) {
            Some(page) => Ok(page.clone()),
            None => Err(DownloadError::Reqwest(format!("no route to {}", url))),
        }
    }

    fn page(&mut self, mut request: lookup::Lookup) -> Result<String, Error> {
        let mut action = request.step(lookup::Event::Begin);
        loop {
            action = match action {
                lookup::Action::Stat(path) => {
                    let modified = self.written.get(&path).copied();
                    request.step(lookup::Event::Modified { modified, now: self.now })
                }
                lookup::Action::Read(path) => {
                    let content = match self.disk.get(&path) {
                        Some(bytes) => String::from_utf8(bytes.clone()).map_err(|e| e.to_string()),
                        None => Err("no such file".to_string()),
                    };
                    request.step(lookup::Event::Read(content))
                }
                lookup::Action::Send { method, url } => {
                    assert_eq!(method, lookup::Method::Get);
                    let response = match self.get(&url) {
                        Ok((status, body)) => Ok((status, String::from_utf8(body).unwrap())),
                        Err(e) => Err(format!("{:?}", e)),
                    };
                    request.step(lookup::Event::Response(response))
                }
                lookup::Action::Write { path, content } => {
                    self.disk.insert(path.clone(), content.into_bytes());
                    self.written.insert(path, self.now);
                    request.step(lookup::Event::Written)
                }
                lookup::Action::Return(result) => return result,
                lookup::Action::Ignored => panic!("the request ignored a report"),
            };
        }
    }

    fn times(&self, url: &str) -> usize {
        self.fetched.iter().filter(|u| u.as_str() == url).count()
    }

    fn run(&mut self, job: M3U8Download) -> (Result<(), DownloadError>, Download) {
        let mut run = job.download();
        assert_eq!(run.stage(), Stage::Idle);
        let mut running = Vec::new();
        let mut action = run.step(Event::Begin);
        loop {
            action = match action {
                Action::MakeDir(dir) => {
                    self.dirs.push(dir);
                    run.step(Event::Prepared(Ok(())))
                }
                Action::Lookup(request) => {
                    let page = self.page(request);
                    run.step(Event::Page(page))
                }
                Action::Fetch(url) => {
                    let body = self.get(&url).map(|(_, body)| body);
                    run.step(Event::Body(body))
                }
                Action::Stat(files) => {
                    let sizes = files
                        .iter()
                        .map(|f| self.disk.get(f).map(|b| b.len() as u64))
                        .collect();
                    run.step(Event::Sizes(sizes))
                }
                Action::Spawn(tasks) => {
                    running.extend(tasks);
                    assert_eq!(run.job().in_flight(), running.len());
                    assert!(running.len() <= run.job().climit());
                    self.most_running = self.most_running.max(running.len());
                    let task = if self.reverse { running.pop().unwrap() } else { running.remove(0) };
                    self.disk.insert(task.save_file.clone(), Vec::new());
                    let ok = match self.get(&task.uri) {
                        Ok((status, body)) => {
                            match M3U8Download::download_segment(status, body, &task.key) {
                                Ok(payload) => {
                                    self.disk.insert(task.save_file.clone(), payload);
                                    true
                                }
                                Err(_) => false,
                            }
                        }
                        Err(_) => false,
                    };
                    run.step(Event::Finished { index: task.index, ok })
                }
                Action::Combine(plan) => {
                    let mut output = Vec::new();
                    let mut result = Ok(());
                    for input in plan.inputs.iter() {
                        match self.disk.get(input) {
                            Some(bytes) => output.extend_from_slice(bytes),
                            None => {
                                result = Err(DownloadError::CreateFile(format!("{} is missing", input)));
                                break;
                            }
                        }
                    }
                    self.disk.insert(plan.output.clone(), output);
                    run.step(Event::Combined(result))
                }
                Action::Transcode(command) => {
                    let made = self.disk.get(&command[2]).cloned();
                    self.commands.push(command.clone());
                    match made {
                        Some(bytes) => {
                            self.disk.insert(command[5].clone(), bytes);
                            run.step(Event::Transcoded { success: true, stderr: String::new() })
                        }
                        None => run.step(Event::Transcoded {
                            success: false,
                            stderr: "no input".to_string(),
                        }),
                    }
                }
                Action::Return(verdict) => {
                    assert_eq!(run.stage(), Stage::Closed);
                    for file in run.job().cleanup() {
                        self.disk.remove(&file);
                    }
                    return (verdict, run);
                }
                Action::Ignored => panic!("the run ignored a report"),
            };
        }
    }
}

fn job(uri: &str, output: &str, retries: i64, climit: usize) -> M3U8Download {
    let mut builder = M3U8DownloadBuilder::new();
    builder
        .uri(uri)
        .save_file(output)
        .cache_dir("cache")
        .try_count(retries)
        .timeout(5)
        .climit(climit);
    builder.build()
}

fn file_of(url: &str) -> String {
    format!("cache/{}", sha256::digest(url))
}

fn encrypt(key: &[u8; 16], iv: &[u8; 16], plain: &[u8]) -> Vec<u8> {
    let mut buffer = vec![0u8; plain.len() + 16];
    let cipher = cbc::Encryptor::<aes::Aes128>::new(key.into(), iv.into());
    cipher
        .encrypt_padded_b2b_mut::<Pkcs7>(plain, &mut buffer)
        .unwrap()
        .to_vec()
}

const INDEX: &str = "http://m.example/s/index.m3u8";
const THREE: &[u8] = b"#EXTM3U\n#EXT-X-TARGETDURATION:10\n#EXTINF:10.0,\na\n#EXTINF:10.0,\nb\n#EXTINF:10.0,\nc\n#EXT-X-ENDLIST\n";
const TWO: &[u8] = b"#EXTM3U\n#EXT-X-TARGETDURATION:10\n#EXTINF:10.0,\ns0\n#EXTINF:10.0,\ns1\n#EXT-X-ENDLIST\n";

fn three() -> World {
    World::new(&[
        (INDEX, 200, THREE),
        ("http://m.example/s/a", 200, b"AAA"),
        ("http://m.example/s/b", 200, b"BBB"),
        ("http://m.example/s/c", 200, b"CCC"),
    ])
}

#[test]
fn run_of_an_unencrypted_stream() {
    for (climit, reverse) in [(32, false), (32, true), (1, false), (2, true)] {
        let mut world = three();
        world.reverse = reverse;
        let (verdict, run) = world.run(job(INDEX, "out.ts", -1, climit));
        assert!(verdict.is_ok());
        assert_eq!(world.disk["out.ts"], b"AAABBBCCC".to_vec());
        assert!(world.commands.is_empty());
        assert_eq!(world.dirs, vec!["cache"]);
        assert_eq!(world.fetched.len(), 4);
        assert_eq!(world.fetched[0], INDEX);
        assert_eq!(world.most_running, climit.min(3));
        assert_eq!(run.job().position(), 3);
        assert_eq!(run.job().total(), 3);
        assert_eq!(world.disk[&file_of("http://m.example/s/b")], b"BBB".to_vec());
    }
}

#[test]
fn run_with_mp4_output() {
    let mut world = three();
    let (verdict, _run) = world.run(job(INDEX, "out.mp4", -1, 32));
    assert!(verdict.is_ok());
    let intermediate = file_of(INDEX);
    assert_eq!(
        world.commands,
        vec![vec![
            "ffmpeg".to_string(),
            "-i".to_string(),
            intermediate.clone(),
            "-c".to_string(),
            "copy".to_string(),
            "out.mp4".to_string(),
        ]]
    );
    assert_eq!(world.disk["out.mp4"], b"AAABBBCCC".to_vec());
    assert!(!world.disk.contains_key(&intermediate));
    assert!(world.disk.contains_key(&file_of("http://m.example/s/a")));
}

#[test]
fn run_with_exhausted_retries_and_its_resume() {
    let mut world = World::new(&[
        (INDEX, 200, TWO),
        ("http://m.example/s/s0", 200, b"zero"),
        ("http://m.example/s/s1", 200, b"one"),
    ]);
    world.flaky.insert("http://m.example/s/s1".to_string(), 4);
    let (verdict, run) = world.run(job(INDEX, "out.ts", 3, 32));
    assert!(matches!(verdict, Err(DownloadError::Incomplete)));
    assert_eq!(world.times("http://m.example/s/s1"), 4);
    assert_eq!(world.times("http://m.example/s/s0"), 1);
    assert_eq!(run.job().segments()[1].try_count, 3);
    assert_eq!(world.disk[&file_of("http://m.example/s/s0")], b"zero".to_vec());
    assert!(!world.disk.contains_key(&file_of("http://m.example/s/s1")));

    world.fetched.clear();
    world.now += 5;
    let (verdict, run) = world.run(job(INDEX, "out.ts", 3, 32));
    assert!(verdict.is_ok());
    assert_eq!(world.fetched, vec!["http://m.example/s/s1"]);
    assert_eq!(world.times("http://m.example/s/s0"), 0);
    assert_eq!(world.times("http://m.example/s/s1"), 1);
    assert_eq!(world.disk["out.ts"], b"zeroone".to_vec());
    assert_eq!(run.job().position(), 2);

    world.fetched.clear();
    world.most_running = 0;
    let before = world.disk["out.ts"].clone();
    let (verdict, _run) = world.run(job(INDEX, "out.ts", 3, 32));
    assert!(verdict.is_ok());
    assert!(world.fetched.is_empty());
    assert_eq!(world.disk["out.ts"], before);
    assert_eq!(world.most_running, 0);

    world.now += 2_592_000_000_000_000;
    let (verdict, _run) = world.run(job(INDEX, "out.ts", 3, 32));
    assert!(verdict.is_ok());
    assert_eq!(world.fetched, vec![INDEX]);
    assert_eq!(world.written[&file_of(INDEX)], world.now);

    world.fetched.clear();
    let mut builder = M3U8DownloadBuilder::new();
    builder.uri(INDEX).save_file("again.ts").cache_dir("cache").ignore_cache(true);
    let (verdict, _run) = world.run(builder.build());
    assert!(verdict.is_ok());
    assert_eq!(world.fetched.len(), 3);
    assert_eq!(world.fetched[0], INDEX);
    assert_eq!(world.disk["again.ts"], b"zeroone".to_vec());
}

#[test]
fn run_of_an_encrypted_stream() {
    let key = *b"sixteen byte key";
    let iv = [0u8; 16];
    let first = encrypt(&key, &iv, b"plain one ");
    let second = encrypt(&key, &iv, b"and plain two");
    let mut world = World::new(&[
        (
            INDEX,
            200,
            b"#EXTM3U\n#EXT-X-TARGETDURATION:10\n#EXT-X-KEY:METHOD=AES-128,URI=\"k\",IV=0x00000000000000000000000000000000\n#EXTINF:10.0,\n1.ts\n#EXTINF:10.0,\n2.ts\n#EXT-X-ENDLIST\n",
        ),
        ("http://m.example/s/k", 200, &key),
        ("http://m.example/s/1.ts", 200, &first),
        ("http://m.example/s/2.ts", 200, &second),
    ]);
    let (verdict, run) = world.run(job(INDEX, "out.ts", 0, 32));
    assert!(verdict.is_ok());
    assert_eq!(world.times("http://m.example/s/k"), 1);
    assert_eq!(world.disk["out.ts"], b"plain one and plain two".to_vec());
    for segment in run.job().segments() {
        let used = segment.key.as_ref().unwrap();
        assert_eq!(*used.key(), key.to_vec());
        assert_eq!(*used.iv(), iv.to_vec());
    }
}

#[test]
fn run_from_a_master_playlist() {
    let mut world = World::new(&[
        (
            "http://m.example/top/master.m3u8",
            200,
            b"#EXTM3U\n#EXT-X-STREAM-INF:BANDWIDTH=1280000\nlow/v.m3u8\n#EXT-X-STREAM-INF:BANDWIDTH=2560000\nhigh/v.m3u8\n",
        ),
        ("http://m.example/top/low/v.m3u8", 200, THREE),
        ("http://m.example/top/low/a", 200, b"1"),
        ("http://m.example/top/low/b", 200, b"2"),
        ("http://m.example/top/low/c", 200, b"3"),
    ]);
    let (verdict, run) = world.run(job("http://m.example/top/master.m3u8", "out.ts", -1, 32));
    assert!(verdict.is_ok());
    assert_eq!(
        world.fetched[..2],
        [
            "http://m.example/top/master.m3u8".to_string(),
            "http://m.example/top/low/v.m3u8".to_string()
        ]
    );
    assert_eq!(world.fetched.len(), 5);
    assert_eq!(world.disk["out.ts"], b"123".to_vec());
    assert!(world.disk.contains_key(&file_of("http://m.example/top/master.m3u8")));
    assert!(world.disk.contains_key(&file_of("http://m.example/top/low/v.m3u8")));
    assert_eq!(world.disk.len(), 6);
    let sources: Vec<&str> = run.job().segments().iter().map(|s| s.uri.as_str()).collect();
    assert_eq!(
        sources,
        vec![
            "http://m.example/top/low/a",
            "http://m.example/top/low/b",
            "http://m.example/top/low/c"
        ]
    );
}

#[test]
fn run_ends_at_the_first_fatal_error() {
    let mut world = World::new(&[]);
    let (verdict, _) = world.run(job("not a url", "out.ts", -1, 32));
    assert!(matches!(verdict, Err(DownloadError::URIParse(_))));
    assert!(world.fetched.is_empty());

    let (verdict, _) = world.run(job(INDEX, "out.ts", -1, 32));
    match verdict {
        Err(DownloadError::Reqwest(words)) => assert_eq!(words, "Request out of try: 1"),
        other => panic!("unexpected: {:?}", other),
    }
    assert_eq!(world.fetched, vec![INDEX]);

    let mut world = World::new(&[(INDEX, 403, b"no")]);
    let (verdict, _) = world.run(job(INDEX, "out.ts", -1, 32));
    assert!(matches!(verdict, Err(DownloadError::ResponseFailed(403))));

    let mut world = World::new(&[(INDEX, 200, b"<html>")]);
    let (verdict, _) = world.run(job(INDEX, "out.ts", -1, 32));
    assert!(matches!(verdict, Err(DownloadError::URI)));

    let mut world = World::new(&[(INDEX, 200, b"#EXTM3U\n#EXT-X-TARGETDURATION:10\n#EXT-X-ENDLIST\n")]);
    let (verdict, _) = world.run(job(INDEX, "out.ts", -1, 32));
    assert!(matches!(verdict, Err(DownloadError::URI)));
    assert_eq!(world.fetched, vec![INDEX]);

    let mut world = World::new(&[(
        INDEX,
        200,
        b"#EXTM3U\n#EXT-X-TARGETDURATION:10\n#EXTINF:10.0,\na\n#EXT-X-KEY:METHOD=AES-128,URI=\"k\"\n#EXTINF:10.0,\nb\n#EXT-X-ENDLIST\n",
    )]);
    let (verdict, run) = world.run(job(INDEX, "out.ts", -1, 32));
    assert!(matches!(verdict, Err(DownloadError::Reqwest(_))));
    assert_eq!(world.fetched, vec![INDEX, "http://m.example/s/k"]);
    assert_eq!(run.job().total(), 1);

    let mut world = World::new(&[(INDEX, 200, b"#EXTM3U\n#EXT-X-STREAM-INF:BANDWIDTH=1\nv.m3u8\n"), ("http://m.example/s/v.m3u8", 200, b"nothing")]);
    let (verdict, _) = world.run(job(INDEX, "out.ts", -1, 32));
    assert!(matches!(verdict, Err(DownloadError::URI)));
}

#[test]
fn run_ends_where_a_key_has_not_sixteen_bytes() {
    let mut world = World::new(&[
        (
            INDEX,
            200,
            b"#EXTM3U\n#EXT-X-TARGETDURATION:10\n#EXTINF:10.0,\na\n#EXT-X-KEY:METHOD=AES-128,URI=\"k\"\n#EXTINF:10.0,\nb\n#EXT-X-ENDLIST\n",
        ),
        ("http://m.example/s/k", 200, b"short"),
        ("http://m.example/s/a", 200, b"A"),
    ]);
    let (verdict, run) = world.run(job(INDEX, "out.ts", -1, 32));
    assert!(matches!(verdict, Err(DownloadError::Decrypt)));
    assert_eq!(world.fetched, vec![INDEX, "http://m.example/s/k"]);
    assert_eq!(run.job().total(), 1);
    assert!(run.job().segments()[0].key.is_none());
}

#[test]
fn run_reports_a_directory_that_cannot_be_made() {
    let mut run = job(INDEX, "out.ts", -1, 32).download();
    assert!(matches!(run.step(Event::Begin), Action::MakeDir(dir) if dir == "cache"));
    assert_eq!(run.stage(), Stage::Preparing);
    match run.step(Event::Prepared(Err("read-only".to_string()))) {
        Action::Return(Err(DownloadError::CreateFile(words))) => assert_eq!(words, "read-only"),
        other => panic!("unexpected: {:?}", other),
    }
    assert_eq!(run.stage(), Stage::Closed);
    assert!(matches!(run.step(Event::Begin), Action::Ignored));
    assert!(matches!(run.step(Event::Prepared(Ok(()))), Action::Ignored));
}

#[test]
fn run_ignores_reports_that_do_not_fit() {
    let mut run = job(INDEX, "out.ts", -1, 32).download();
    assert!(matches!(run.step(Event::Prepared(Ok(()))), Action::Ignored));
    assert!(matches!(run.step(Event::Body(Ok(Vec::new()))), Action::Ignored));
    assert!(matches!(run.step(Event::Page(Ok(String::new()))), Action::Ignored));
    assert!(matches!(run.step(Event::Sizes(Vec::new())), Action::Ignored));
    assert!(matches!(run.step(Event::Finished { index: 0, ok: true }), Action::Ignored));
    assert!(matches!(run.step(Event::Combined(Ok(()))), Action::Ignored));
    assert!(matches!(
        run.step(Event::Transcoded { success: true, stderr: String::new() }),
        Action::Ignored
    ));
    assert_eq!(run.stage(), Stage::Idle);
    assert!(matches!(run.step(Event::Begin), Action::MakeDir(_)));
    assert!(matches!(run.step(Event::Begin), Action::Ignored));
    assert!(matches!(run.step(Event::Prepared(Ok(()))), Action::Lookup(_)));
    assert_eq!(run.stage(), Stage::Manifest);
    assert!(matches!(run.step(Event::Sizes(vec![None])), Action::Ignored));
    assert!(matches!(run.step(Event::Body(Ok(THREE.to_vec()))), Action::Ignored));
    match run.step(Event::Page(Ok(String::from_utf8(THREE.to_vec()).unwrap()))) {
        Action::Stat(files) => assert_eq!(
            files,
            vec![
                file_of("http://m.example/s/a"),
                file_of("http://m.example/s/b"),
                file_of("http://m.example/s/c")
            ]
        ),
        other => panic!("unexpected: {:?}", other),
    }
    assert_eq!(run.stage(), Stage::Sizes);
    match run.step(Event::Sizes(vec![Some(1), None, Some(0)])) {
        Action::Spawn(tasks) => {
            let started: Vec<usize> = tasks.iter().map(|t| t.index).collect();
            assert_eq!(started, vec![1, 2]);
            assert_eq!(tasks[0].timeout, 5);
            assert_eq!(tasks[0].uri, "http://m.example/s/b");
        }
        other => panic!("unexpected: {:?}", other),
    }
    assert_eq!(run.stage(), Stage::Running);
    assert!(matches!(run.step(Event::Finished { index: 0, ok: true }), Action::Spawn(tasks) if tasks.is_empty()));
    assert!(matches!(run.step(Event::Finished { index: 2, ok: false }), Action::Spawn(tasks) if tasks.len() == 1 && tasks[0].index == 2));
    assert!(matches!(run.step(Event::Finished { index: 2, ok: true }), Action::Spawn(tasks) if tasks.is_empty()));
    match run.step(Event::Finished { index: 1, ok: true }) {
        Action::Combine(plan) => {
            assert_eq!(plan.output, "out.ts");
            assert!(plan.transcode.is_none());
            assert_eq!(plan.inputs.len(), 3);
        }
        other => panic!("unexpected: {:?}", other),
    }
    assert_eq!(run.stage(), Stage::Combining);
    assert!(matches!(run.step(Event::Finished { index: 1, ok: true }), Action::Ignored));
    assert!(matches!(run.step(Event::Combined(Ok(()))), Action::Return(Ok(()))));
    assert_eq!(run.stage(), Stage::Closed);
}

#[test]
fn run_fails_where_assembly_or_transcoding_fails() {
    let mut run = job(INDEX, "out.mp4", -1, 32).download();
    run.step(Event::Begin);
    run.step(Event::Prepared(Ok(())));
    run.step(Event::Page(Ok(String::from_utf8(TWO.to_vec()).unwrap())));
    assert!(matches!(run.step(Event::Sizes(vec![Some(3), Some(3)])), Action::Combine(_)));
    match run.step(Event::Combined(Err(DownloadError::CreateFile("disk full".to_string())))) {
        Action::Return(Err(DownloadError::CreateFile(words))) => assert_eq!(words, "disk full"),
        other => panic!("unexpected: {:?}", other),
    }
    assert!(run.job().cleanup().is_empty());

    let mut run = job(INDEX, "out.mp4", -1, 32).download();
    run.step(Event::Begin);
    run.step(Event::Prepared(Ok(())));
    run.step(Event::Page(Ok(String::from_utf8(TWO.to_vec()).unwrap())));
    run.step(Event::Sizes(vec![Some(3), Some(3)]));
    assert!(matches!(run.step(Event::Combined(Ok(()))), Action::Transcode(_)));
    assert_eq!(run.stage(), Stage::Transcoding);
    match run.step(Event::Transcoded { success: false, stderr: "bad codec".to_string() }) {
        Action::Return(Err(DownloadError::CreateFile(words))) => {
            assert_eq!(words, "ffmpeg error: bad codec")
        }
        other => panic!("unexpected: {:?}", other),
    }
    assert!(run.job().cleanup().is_empty());
}
