//! One run of a download job, taken step by step: the job says what is to be
//! done next, its surroundings do it and report what came of it. The order
//! of the steps, from the playlist to the verdict, is decided here.

use crate::assembly::{extension_of, transcoder_command, Assembly, AssemblyView};
use crate::cipher::AesKeyView;
use crate::downloader::m3u8::{JobView, KeyRequest, M3U8Download, PlaylistStep, SegmentTask, TaskView};
use crate::digest::{digest, sha256_hex};
use crate::error::{DownloadError, Error};
use crate::locator::{url_joined, url_parsed};
use crate::lookup::{Lookup, LookupView, Method};
use crate::plan::{planned_at, planned_range, stop_index, PlanFault, PlanStop};
use crate::playlist;
use crate::playlist::{m3u8_media, m3u8_playlist, MediaPlaylist, MediaSegmentView, PlaylistView};
use crate::request::RESOURCE_CACHE_TIME;
use crate::schedule::{
    files, lemma_count_bounds, lemma_start_n_adds, lemma_start_settles, lemma_start_takes_one,
    Schedule,
};
use crate::segment::SegmentState;
use crate::text::{join_path, joined_path, views};
use vstd::prelude::*;

verus! {

/// Where a run stands: what it is waiting for.
#[derive(Clone, Copy, PartialEq, Eq, Debug, Structural)]
pub enum Stage {
    /// Nothing was done yet.
    Idle,
    /// The cache directory is being made.
    Preparing,
    /// The playlist is being fetched.
    Manifest,
    /// The media playlist of the first variant is being fetched.
    Variant,
    /// A key is being fetched.
    Key,
    /// The files of the segments are being looked at.
    Sizes,
    /// Segments are being downloaded.
    Running,
    /// The output is being concatenated.
    Combining,
    /// The transcoder is running.
    Transcoding,
    /// The verdict was returned.
    Closed,
}

/// What the surroundings report to a run.
#[derive(Debug)]
pub enum Event {
    /// The run is to begin.
    Begin,
    /// The cache directory exists, or could not be made for the reason given.
    Prepared(Result<(), String>),
    /// What the request for a playlist has returned.
    Page(Result<String, Error>),
    /// The body of the key that was asked for, or why it could not be fetched.
    Body(Result<Vec<u8>, DownloadError>),
    /// The sizes of the files that were asked about, in the same order; `None`
    /// for a file that does not exist.
    Sizes(Vec<Option<u64>>),
    /// The task of segment `index` has ended, with or without success.
    Finished { index: usize, ok: bool },
    /// The output was concatenated, or could not be.
    Combined(Result<(), DownloadError>),
    /// The transcoder has ended; `stderr` is what it wrote to its error stream.
    Transcoded { success: bool, stderr: String },
}

/// What a run asks of its surroundings.
#[derive(Debug)]
pub enum Action {
    /// Make this directory, with its parents, and report `Prepared`.
    MakeDir(String),
    /// Carry out this request for a playlist and report the `Page` it returns.
    Lookup(Lookup),
    /// Fetch the body of the key at this URL and report `Body`.
    Fetch(String),
    /// Look at these files and report their `Sizes`.
    Stat(Vec<String>),
    /// Start these tasks, wait for any running task to end and report it as
    /// `Finished`.
    Spawn(Vec<SegmentTask>),
    /// Concatenate the inputs of this plan into its output and report `Combined`.
    Combine(Assembly),
    /// Run this command line and report `Transcoded`.
    Transcode(Vec<String>),
    /// The run is over, with this verdict.
    Return(Result<(), DownloadError>),
    /// The event does not fit the stage of the run; nothing has changed.
    Ignored,
}

/// What a run holds: the job, the stage, the URL that the playlist at hand
/// was fetched from, the entries of that playlist, the entry that planning
/// has come to, the key that is being fetched and the plan of the assembly.
pub struct RunView {
    pub job: JobView,
    pub stage: Stage,
    pub base: Seq<char>,
    pub media: Seq<MediaSegmentView>,
    pub position: nat,
    pub wanted: Option<(Seq<char>, Seq<u8>)>,
    pub output: Option<AssemblyView>,
}

/// The bytes of a text: its UTF-8 encoding.
pub open spec fn bytes_of(text: Seq<char>) -> Seq<u8> {
    vstd::utf8::encode_utf8(text)
}

/// What the task for segment `index` of a job is given.
pub open spec fn task_of(job: JobView, index: int) -> TaskView {
    TaskView {
        index,
        uri: job.segments[index].uri,
        save_file: job.segments[index].save_file,
        timeout: job.timeout,
        key: job.segments[index].key,
    }
}

/// The request for the playlist at `url` on behalf of `job`: one attempt,
/// through the response cache in the cache directory of the job.
pub open spec fn playlist_request(job: JobView, url: Seq<char>) -> LookupView {
    LookupView {
        method: Method::Get,
        url,
        cache: Some((joined_path(job.cache_dir, sha256_hex(url)), RESOURCE_CACHE_TIME)),
        ignore_cache: job.ignore_cache,
        try_count: 1,
        stage: crate::lookup::Stage::Idle,
        tried: 0,
        body: None,
    }
}

/// Whether `action` asks for the playlist at `url` on behalf of `job`.
pub open spec fn asks_playlist(job: JobView, url: Seq<char>, action: Action) -> bool {
    action matches Action::Lookup(lookup) && lookup.wf() && lookup@ == playlist_request(job, url)
}

/// Whether `action` ends the run with the error of a job whose request for
/// a playlist has failed with `e`.
pub open spec fn request_failed(e: Error, action: Action) -> bool {
    match e {
        Error::ResponseFailed(status) => action matches Action::Return(
            Err(DownloadError::ResponseFailed(s)),
        ) && s == status,
        _ => action matches Action::Return(Err(DownloadError::Reqwest(words))) && words@
            == e.message_text(),
    }
}

/// Whether `tasks` are the tasks of the segments that get a permit when
/// permits are asked for until none is given.
pub open spec fn spawned(job: JobView, tasks: Seq<SegmentTask>) -> bool {
    &&& forall|j: int|
        0 <= j < tasks.len() ==> job.schedule().start_n(j as nat).next() == Some(
            (#[trigger] tasks[j]).index as int,
        ) && tasks[j]@ == task_of(job, tasks[j].index as int)
    &&& job.schedule().start_n(tasks.len()).next() is None
}

/// Whether `action` returns the verdict on `job`: success where every
/// segment is done, `Incomplete` otherwise.
pub open spec fn verdict(job: JobView, action: Action) -> bool {
    if job.schedule().intact() {
        action matches Action::Return(Ok(_))
    } else {
        action matches Action::Return(Err(DownloadError::Incomplete))
    }
}

impl RunView {
    /// The run closed, nothing else changed.
    pub open spec fn closed(self) -> RunView {
        RunView { stage: Stage::Closed, ..self }
    }

    /// What planning makes of a run whose playlist is at hand: the entries
    /// from the one that planning has come to, up to the first that cannot
    /// be planned, become segments of the job, and planning has come to
    /// that entry.
    /// At an entry whose key is missing the key is fetched; at a faulty
    /// entry, and at the end of a playlist that leaves the job without
    /// segments, the run ends with the error; otherwise the files of the
    /// segments are looked at next.
    pub open spec fn planned(self, after: RunView, action: Action) -> bool {
        let from = self.position as int;
        let dir = self.job.cache_dir;
        let stop = stop_index(self.media, from, self.base, dir, self.job.keys);
        let at = stop as nat;
        let job = JobView {
            segments: self.job.segments + planned_range(
                self.media,
                from,
                stop,
                self.base,
                dir,
                self.job.keys,
            ),
            ..self.job
        };
        if stop < self.media.len() {
            match planned_at(self.media, stop, self.base, dir, self.job.keys) {
                Err(PlanStop::NeedKey { uri, iv }) => after == (RunView {
                    job,
                    stage: Stage::Key,
                    position: at,
                    wanted: Some((uri, iv)),
                    ..self
                }) && (action matches Action::Fetch(url) && url@ == uri),
                Err(PlanStop::Fault(PlanFault::URIParse)) => after == (RunView {
                    job,
                    stage: Stage::Closed,
                    position: at,
                    ..self
                }) && action matches Action::Return(Err(DownloadError::URIParse(_))),
                Err(PlanStop::Fault(PlanFault::URI)) => after == (RunView {
                    job,
                    stage: Stage::Closed,
                    position: at,
                    ..self
                }) && action matches Action::Return(Err(DownloadError::URI)),
                Ok(_) => false,
            }
        } else if job.segments.len() == 0 {
            after == (RunView { job, stage: Stage::Closed, position: at, ..self })
                && action matches Action::Return(Err(DownloadError::URI))
        } else {
            after == (RunView { job, stage: Stage::Sizes, position: at, ..self }) && (
            action matches Action::Stat(paths) && views(paths@) == files(job.segments))
        }
    }

    /// What follows when the states of the segments have changed: permits
    /// are asked for until none is given. Where then nothing runs and nothing
    /// waits, the output is assembled, by the plan that is kept with the
    /// run; otherwise the tasks that got a permit are started.
    pub open spec fn dispatched(self, after: RunView, action: Action) -> bool {
        let drained = self.job.schedule().start_n(self.job.segments.len());
        let job = JobView { segments: drained.segments, ..self.job };
        if drained.idle() {
            action matches Action::Combine(plan) && plan@ == job.assembly(
                extension_of(job.save_file),
            ) && after == (RunView {
                job,
                stage: Stage::Combining,
                output: Some(plan@),
                ..self
            })
        } else {
            after == (RunView { job, stage: Stage::Running, ..self }) && (action matches Action::Spawn(
                tasks,
            ) && spawned(self.job, tasks@))
        }
    }

    /// What an event makes of a run, and what the run asks for in answer.
    /// An event that does not fit the stage is ignored.
    pub open spec fn follows(self, event: Event, after: RunView, action: Action) -> bool {
        match (self.stage, event) {
            (Stage::Idle, Event::Begin) => after == (RunView { stage: Stage::Preparing, ..self })
                && (action matches Action::MakeDir(dir) && dir@ == self.job.cache_dir),
            (Stage::Preparing, Event::Prepared(Err(words))) => after == self.closed() && (
            action matches Action::Return(Err(DownloadError::CreateFile(text))) && text@ == words@),
            (Stage::Preparing, Event::Prepared(Ok(_))) => match url_parsed(self.job.uri) {
                Some(url) => after == (RunView { stage: Stage::Manifest, base: url, ..self })
                    && asks_playlist(self.job, url, action),
                None => after == self.closed() && action matches Action::Return(
                    Err(DownloadError::URIParse(_)),
                ),
            },
            (Stage::Manifest, Event::Page(Err(e))) => after == self.closed() && request_failed(
                e,
                action,
            ),
            (Stage::Manifest, Event::Page(Ok(body))) => match m3u8_playlist(bytes_of(body@)) {
                None => after == self.closed() && action matches Action::Return(
                    Err(DownloadError::URI),
                ),
                Some(PlaylistView::MasterPlaylist(variants)) => if variants.len() == 0 {
                    after == self.closed() && action matches Action::Return(Err(DownloadError::URI))
                } else {
                    match url_joined(self.base, variants[0]) {
                        Some(url) => after == (RunView {
                            stage: Stage::Variant,
                            base: url,
                            ..self
                        }) && asks_playlist(self.job, url, action),
                        None => after == self.closed() && action matches Action::Return(
                            Err(DownloadError::URIParse(_)),
                        ),
                    }
                },
                Some(PlaylistView::MediaPlaylist(entries)) => (RunView {
                    media: entries,
                    position: 0,
                    ..self
                }).planned(after, action),
            },
            (Stage::Variant, Event::Page(Err(e))) => after == self.closed() && request_failed(
                e,
                action,
            ),
            (Stage::Variant, Event::Page(Ok(body))) => match m3u8_media(bytes_of(body@)) {
                None => after == self.closed() && action matches Action::Return(
                    Err(DownloadError::URI),
                ),
                Some(entries) => (RunView { media: entries, position: 0, ..self }).planned(
                    after,
                    action,
                ),
            },
            (Stage::Key, Event::Body(Err(e))) => after == self.closed() && action
                == Action::Return(Err(e)),
            (Stage::Key, Event::Body(Ok(body))) => match self.wanted {
                Some(pair) => if body@.len() == 16 {
                    (RunView {
                        job: JobView {
                            keys: self.job.keys.insert(
                                pair.0,
                                AesKeyView { key: body@, iv: pair.1 },
                            ),
                            ..self.job
                        },
                        wanted: None,
                        ..self
                    }).planned(after, action)
                } else {
                    after == (RunView { stage: Stage::Closed, wanted: None, ..self })
                        && action matches Action::Return(Err(DownloadError::Decrypt))
                },
                None => false,
            },
            (Stage::Sizes, Event::Sizes(sizes)) => (RunView {
                job: JobView {
                    segments: self.job.schedule().preflight(
                        sizes@,
                        self.job.ignore_cache,
                    ).segments,
                    ..self.job
                },
                ..self
            }).dispatched(after, action),
            (Stage::Running, Event::Finished { index, ok }) => (RunView {
                job: JobView {
                    segments: self.job.schedule().complete(index as int, ok).segments,
                    ..self.job
                },
                ..self
            }).dispatched(after, action),
            (Stage::Combining, Event::Combined(Err(e))) => after == self.closed() && action
                == Action::Return(Err(e)),
            (Stage::Combining, Event::Combined(Ok(_))) => match self.output {
                Some(plan) => match plan.transcode {
                    Some(_) => after == (RunView { stage: Stage::Transcoding, ..self }) && (
                    action matches Action::Transcode(command) && views(command@)
                        == transcoder_command(plan.output, self.job.save_file)),
                    None => after == self.closed() && verdict(self.job, action),
                },
                None => false,
            },
            (Stage::Transcoding, Event::Transcoded { success, stderr }) => if success {
                match self.output {
                    Some(plan) => after == (RunView {
                        job: JobView { cache_file: Some(plan.output), ..self.job },
                        stage: Stage::Closed,
                        ..self
                    }) && verdict(self.job, action),
                    None => false,
                }
            } else {
                after == self.closed() && (action matches Action::Return(
                    Err(DownloadError::CreateFile(text)),
                ) && text@ == "ffmpeg error: "@ + stderr@)
            },
            _ => after == self && action is Ignored,
        }
    }
}

/// One run of a download job.
pub struct Download {
    job: M3U8Download,
    stage: Stage,
    base_url: String,
    media: MediaPlaylist,
    position: usize,
    wanted: Option<KeyRequest>,
    output: Option<Assembly>,
}

impl View for Download {
    type V = RunView;

    closed spec fn view(&self) -> RunView {
        RunView {
            job: self.job@,
            stage: self.stage,
            base: self.base_url@,
            media: self.media@,
            position: self.position as nat,
            wanted: match self.wanted {
                Some(request) => Some((request.uri@, request.iv@)),
                None => None,
            },
            output: match self.output {
                Some(plan) => Some(plan@),
                None => None,
            },
        }
    }
}

impl Download {
    /// The run is consistent: its job is, a key that is being fetched is
    /// one that the cache lacks and has a vector of 16 bytes, and the plan
    /// of the assembly is at hand while the output is assembled or
    /// transcoded.
    pub closed spec fn wf(&self) -> bool {
        &&& self.job.wf()
        &&& self.stage == Stage::Key ==> (self@.wanted matches Some(pair)
            && !self@.job.keys.contains_key(pair.0) && pair.1.len() == 16)
        &&& (self.stage == Stage::Combining || self.stage == Stage::Transcoding)
            ==> self@.output is Some
    }

    /// A run of `job` that has not begun.
    pub fn new(job: M3U8Download) -> (run: Self)
        requires
            job.wf(),
        ensures
            run.wf(),
            run@ == (RunView {
                job: job@,
                stage: Stage::Idle,
                base: Seq::empty(),
                media: Seq::empty(),
                position: 0,
                wanted: None,
                output: None,
            }),
    {
        let run = Download {
            job,
            stage: Stage::Idle,
            base_url: String::new(),
            media: MediaPlaylist { segments: Vec::new() },
            position: 0,
            wanted: None,
            output: None,
        };
        assert(run@.media =~= Seq::empty());
        run
    }

    /// The job of the run, as it stands.
    pub fn job(&self) -> (job: &M3U8Download)
        requires
            self.wf(),
        ensures
            job@ == self@.job,
            job.wf(),
    {
        &self.job
    }

    /// Where the run stands.
    pub fn stage(&self) -> (stage: Stage)
        ensures
            stage == self@.stage,
    {
        self.stage
    }

    fn ask(&self, url: &str) -> (lookup: Lookup)
        ensures
            lookup.wf(),
            lookup@ == playlist_request(self.job@, url@),
    {
        let name = digest(url);
        let path = join_path(self.job.cache_dir(), name.as_str());
        Lookup::cached(url, path, RESOURCE_CACHE_TIME, self.job.ignore_cache(), 1)
    }

    fn plan(&mut self) -> (action: Action)
        requires
            old(self).job.wf(),
        ensures
            final(self).wf(),
            old(self)@.planned(final(self)@, action),
    {
        match self.job.parse_media_playlist(
            &self.media,
            self.base_url.as_str(),
            &mut self.position,
        ) {
            Ok(None) => {
                self.stage = Stage::Sizes;
                Action::Stat(self.job.combine_files())
            },
            Ok(Some(request)) => {
                let url = request.uri.clone();
                self.wanted = Some(request);
                self.stage = Stage::Key;
                Action::Fetch(url)
            },
            Err(e) => {
                self.stage = Stage::Closed;
                Action::Return(Err(e))
            },
        }
    }

    fn dispatch(&mut self) -> (action: Action)
        requires
            old(self).job.wf(),
        ensures
            final(self).wf(),
            old(self)@.dispatched(final(self)@, action),
    {
        let ghost job0 = self.job@;
        let ghost s0 = self.job@.schedule();
        let mut tasks: Vec<SegmentTask> = Vec::new();
        loop
            invariant
                self.job.wf(),
                job0 == old(self).job@,
                s0 == job0.schedule(),
                self.stage == old(self).stage,
                self.base_url == old(self).base_url,
                self.media == old(self).media,
                self.position == old(self).position,
                self.wanted == old(self).wanted,
                self.output == old(self).output,
                self.job@ == (JobView { segments: s0.start_n(tasks.len() as nat).segments, ..job0 }),
                self.job@.schedule() == s0.start_n(tasks.len() as nat),
                s0.start_n(tasks.len() as nat).waiting() + tasks.len() == s0.waiting(),
                forall|j: int|
                    0 <= j < tasks.len() ==> s0.start_n(j as nat).next() == Some(
                        (#[trigger] tasks@[j]).index as int,
                    ) && tasks@[j]@ == task_of(job0, tasks@[j].index as int),
            ensures
                self.job.wf(),
                self.stage == old(self).stage,
                self.base_url == old(self).base_url,
                self.media == old(self).media,
                self.position == old(self).position,
                self.wanted == old(self).wanted,
                self.output == old(self).output,
                self.job@ == (JobView { segments: s0.start_n(tasks.len() as nat).segments, ..job0 }),
                self.job@.schedule() == s0.start_n(tasks.len() as nat),
                tasks.len() <= s0.waiting(),
                spawned(job0, tasks@),
            decreases s0.start_n(tasks.len() as nat).waiting(),
        {
            let ghost k = tasks.len() as nat;
            let ghost now = s0.start_n(k);
            match self.job.next_start() {
                Some(task) => {
                    proof {
                        lemma_start_takes_one(now);
                        assert(s0.start_n(k + 1) == now.start());
                        lemma_starts_keep_plan(s0, k);
                        assert(task@ == task_of(job0, task.index as int));
                    }
                    tasks.push(task);
                },
                None => {
                    break ;
                },
            }
        }
        proof {
            let k = tasks.len() as nat;
            let n = job0.segments.len();
            lemma_count_bounds(job0.segments, SegmentState::Pending);
            lemma_start_n_adds(s0, k, (n - k) as nat);
            lemma_start_settles(s0.start_n(k), (n - k) as nat);
            assert(s0.start_n(n) == s0.start_n(k));
        }
        if tasks.len() == 0 && self.job.is_idle() {
            let plan = self.job.convert();
            self.output = Some(plan.clone());
            self.stage = Stage::Combining;
            Action::Combine(plan)
        } else {
            proof {
                if tasks.len() > 0 {
                    let last = tasks@[tasks.len() - 1];
                    assert(s0.start_n((tasks.len() - 1) as nat).next() == Some(last.index as int));
                    lemma_started_is_busy(s0, tasks.len() as nat);
                }
            }
            self.stage = Stage::Running;
            Action::Spawn(tasks)
        }
    }

    /// Takes a report and says what is to be done next.
    ///
    /// A run begins by making the cache directory and asking for the
    /// playlist, through the response cache and once. A master playlist
    /// leads to the media playlist of its first variant, asked for in the
    /// same way. The segments of the media playlist are planned, every key
    /// that the plan needs being fetched once; a key body that has not 16
    /// bytes ends the run with `Decrypt`. The files of the segments are
    /// looked at, and what is there and not empty is not downloaded again.
    /// Then tasks are started as far as the limit allows, and again
    /// whenever one has ended, until nothing runs and nothing waits. The
    /// output is concatenated in the order of the playlist and, for an
    /// `mp4` output, transcoded. The verdict is `Incomplete` unless every
    /// segment is done. An error of a step that the job cannot do without
    /// ends the run at once.
    pub fn step(&mut self, event: Event) -> (action: Action)
        requires
            old(self).wf(),
        ensures
            final(self).wf(),
            old(self)@.follows(event, final(self)@, action),
    {
        match (self.stage, event) {
            (Stage::Idle, Event::Begin) => {
                self.stage = Stage::Preparing;
                Action::MakeDir(String::from_str(self.job.cache_dir()))
            },
            (Stage::Preparing, Event::Prepared(Err(words))) => {
                self.stage = Stage::Closed;
                Action::Return(Err(DownloadError::CreateFile(words)))
            },
            (Stage::Preparing, Event::Prepared(Ok(_))) => {
                match self.job.playlist_url() {
                    Ok(url) => {
                        let lookup = self.ask(url.as_str());
                        self.base_url = url;
                        self.stage = Stage::Manifest;
                        Action::Lookup(lookup)
                    },
                    Err(e) => {
                        self.stage = Stage::Closed;
                        Action::Return(Err(e))
                    },
                }
            },
            (Stage::Manifest, Event::Page(Err(e))) => {
                self.stage = Stage::Closed;
                Action::Return(Err(DownloadError::from_request(e)))
            },
            (Stage::Manifest, Event::Page(Ok(body))) => {
                match M3U8Download::parse_playlist(
                    body.as_str().as_bytes(),
                    self.base_url.as_str(),
                ) {
                    Ok(PlaylistStep::Variant(url)) => {
                        let lookup = self.ask(url.as_str());
                        self.base_url = url;
                        self.stage = Stage::Variant;
                        Action::Lookup(lookup)
                    },
                    Ok(PlaylistStep::Media(list)) => {
                        self.media = list;
                        self.position = 0;
                        self.plan()
                    },
                    Err(e) => {
                        self.stage = Stage::Closed;
                        Action::Return(Err(e))
                    },
                }
            },
            (Stage::Variant, Event::Page(Err(e))) => {
                self.stage = Stage::Closed;
                Action::Return(Err(DownloadError::from_request(e)))
            },
            (Stage::Variant, Event::Page(Ok(body))) => {
                match playlist::parse_media_playlist(body.as_str().as_bytes()) {
                    Ok(list) => {
                        self.media = list;
                        self.position = 0;
                        self.plan()
                    },
                    Err(e) => {
                        self.stage = Stage::Closed;
                        Action::Return(Err(e))
                    },
                }
            },
            (Stage::Key, Event::Body(Err(e))) => {
                self.stage = Stage::Closed;
                Action::Return(Err(e))
            },
            (Stage::Key, Event::Body(Ok(body))) => {
                match self.wanted.take() {
                    Some(request) => {
                        match self.job.get_aes_key(request.uri.as_str(), request.iv, body) {
                            Ok(_) => self.plan(),
                            Err(e) => {
                                self.stage = Stage::Closed;
                                Action::Return(Err(e))
                            },
                        }
                    },
                    None => Action::Ignored,
                }
            },
            (Stage::Sizes, Event::Sizes(sizes)) => {
                self.job.preflight(&sizes);
                self.dispatch()
            },
            (Stage::Running, Event::Finished { index, ok }) => {
                let _ = self.job.on_complete(index, ok);
                self.dispatch()
            },
            (Stage::Combining, Event::Combined(Err(e))) => {
                self.stage = Stage::Closed;
                Action::Return(Err(e))
            },
            (Stage::Combining, Event::Combined(Ok(_))) => {
                let transcode = match &self.output {
                    Some(plan) => match &plan.transcode {
                        Some(_) => Some(self.job.convert2mp4(plan.output.as_str())),
                        None => None,
                    },
                    None => None,
                };
                match transcode {
                    Some(command) => {
                        self.stage = Stage::Transcoding;
                        Action::Transcode(command)
                    },
                    None => {
                        self.stage = Stage::Closed;
                        Action::Return(self.job.finish())
                    },
                }
            },
            (Stage::Transcoding, Event::Transcoded { success, stderr }) => {
                self.stage = Stage::Closed;
                match M3U8Download::transcoded(success, stderr.as_str()) {
                    Ok(_) => {
                        let verdict = self.job.finish();
                        let path = match &self.output {
                            Some(plan) => plan.output.clone(),
                            None => String::new(),
                        };
                        self.job.record_cache_file(path.as_str());
                        Action::Return(verdict)
                    },
                    Err(e) => Action::Return(Err(e)),
                }
            },
            _ => Action::Ignored,
        }
    }
}

/// Permits leave the plan as it is: the segment that a permit goes to has
/// the source, file and key that it had before any permit was given.
pub proof fn lemma_starts_keep_plan(s: Schedule, n: nat)
    ensures
        crate::schedule::same_plan(s.segments, s.start_n(n).segments),
    decreases n,
{
    if n > 0 {
        lemma_starts_keep_plan(s, (n - 1) as nat);
        crate::schedule::lemma_step(s.start_n((n - 1) as nat), crate::schedule::Event::Start);
    }
}

/// After a permit was given a download is running.
pub proof fn lemma_started_is_busy(s: Schedule, n: nat)
    requires
        n > 0,
        s.start_n((n - 1) as nat).next() is Some,
    ensures
        !s.start_n(n).idle(),
{
    let before = s.start_n((n - 1) as nat);
    let i = before.next()->0;
    crate::schedule::lemma_first_pending(
        before.segments,
        choose|w: int| crate::schedule::is_pending(before.segments, w),
    );
    assert(crate::schedule::first_pending(before.segments, i));
    lemma_count_bounds(s.start_n(n).segments, SegmentState::InFlight);
    assert(s.start_n(n).segments[i].state == SegmentState::InFlight);
}

} // verus!
