//! The job that downloads one segmented stream: what it is configured with,
//! how it plans its segments from the playlist, how it schedules and retries
//! them, and what it assembles and removes at the end.

use crate::assembly::{
    extension, extension_of, transcoder_command, unfinished_files, Assembly, AssemblyView,
};
use crate::cipher::{unpadded, AesKey, AesKeyView};
use crate::digest::{digest, sha256_hex};
use crate::downloader::run::{Download, RunView, Stage};
use crate::error::DownloadError;
use crate::locator;
use crate::locator::{url_joined, url_parsed};
use crate::plan::{
    key_in_force, lemma_stop_index, planned_at, planned_range, stop_index, wanted_key, PlanFault,
    PlanStop,
};
use crate::playlist;
use crate::playlist::{
    key_iv, m3u8_playlist, Key, KeyMethod, MasterPlaylist, MediaPlaylist, Playlist, PlaylistView,
};
use crate::request::is_success;
use crate::schedule::{
    count_in, files, first_pending, is_pending, lemma_count_bounds, lemma_count_update, reusable,
    size_at, with_state, Schedule,
};
use crate::segment::{key_of, Segment, SegmentState, SegmentView};
use crate::text::{join_path, joined_path, views};
use vstd::hash_map::StringHashMap;
use vstd::prelude::*;

verus! {

/// The views of a vector of segments.
pub open spec fn segment_views(segments: Seq<Segment>) -> Seq<SegmentView> {
    Seq::new(segments.len(), |i: int| segments[i]@)
}

/// The views of the keys in a key cache.
pub open spec fn key_views(keys: Map<Seq<char>, AesKey>) -> Map<Seq<char>, AesKeyView> {
    Map::new(|uri: Seq<char>| keys.contains_key(uri), |uri: Seq<char>| keys[uri]@)
}

/// A key that planning needs and the cache does not hold: the absolute URI
/// to fetch it from, and the vector that the playlist gave for it.
#[derive(Debug)]
pub struct KeyRequest {
    pub uri: String,
    pub iv: Vec<u8>,
}

/// What the first manifest of a job turned out to be.
#[derive(Debug)]
pub enum PlaylistStep {
    /// A master playlist: the media playlist is to be fetched from this URL.
    Variant(String),
    /// A media playlist: its segments can be planned.
    Media(MediaPlaylist),
}

/// What the task of one segment is given: copies of what it needs, and
/// nothing of the job itself.
#[derive(Debug)]
pub struct SegmentTask {
    pub index: usize,
    pub uri: String,
    pub save_file: String,
    pub timeout: u64,
    pub key: Option<AesKey>,
}

/// What a [`SegmentTask`] holds.
pub struct TaskView {
    pub index: int,
    pub uri: Seq<char>,
    pub save_file: Seq<char>,
    pub timeout: nat,
    pub key: Option<AesKeyView>,
}

impl View for SegmentTask {
    type V = TaskView;

    open spec fn view(&self) -> TaskView {
        TaskView {
            index: self.index as int,
            uri: self.uri@,
            save_file: self.save_file@,
            timeout: self.timeout as nat,
            key: key_of(self.key),
        }
    }
}

/// What the report of a task did to its segment.
#[derive(Clone, Copy, PartialEq, Eq, Debug, Structural)]
pub enum Completion {
    /// The segment is done.
    Finished,
    /// The segment waits for another try.
    Retry,
    /// The segment has failed for good.
    Failed,
    /// No task was running for the segment; nothing changed.
    Ignored,
}

/// What a job holds.
pub struct JobView {
    pub uri: Seq<char>,
    pub save_file: Seq<char>,
    pub cache_dir: Seq<char>,
    pub segments: Seq<SegmentView>,
    pub try_count: int,
    pub timeout: nat,
    pub cache_file: Option<Seq<char>>,
    pub ignore_cache: bool,
    pub climit: nat,
    pub keys: Map<Seq<char>, AesKeyView>,
}

/// Whether every key in a key cache has 16 bytes in each of its parts.
pub open spec fn keys_usable(keys: Map<Seq<char>, AesKeyView>) -> bool {
    forall|uri: Seq<char>| keys.contains_key(uri) ==> (#[trigger] keys[uri]).usable()
}

/// Whether every key that a segment carries has 16 bytes in each of its parts.
pub open spec fn segments_keyed(segments: Seq<SegmentView>) -> bool {
    forall|i: int|
        0 <= i < segments.len() ==> ((#[trigger] segments[i]).key matches Some(key)
            ==> key.usable())
}

impl JobView {
    /// Every key that the job holds has 16 bytes in each of its parts.
    pub open spec fn keyed(self) -> bool {
        keys_usable(self.keys) && segments_keyed(self.segments)
    }

    /// The part of the job that the scheduler decides on.
    pub open spec fn schedule(self) -> Schedule {
        Schedule { segments: self.segments, retries: self.try_count, climit: self.climit }
    }

    /// The intermediate of the job: inside the cache directory, named by the
    /// digest of the playlist URI.
    pub open spec fn intermediate(self) -> Seq<char> {
        joined_path(self.cache_dir, sha256_hex(self.uri))
    }

    /// How the output is put together when the output path has the given
    /// extension: through the intermediate and the transcoder for `mp4`,
    /// straight into the output file otherwise.
    pub open spec fn assembly(self, extension: Option<Seq<char>>) -> AssemblyView {
        if extension == Some("mp4"@) {
            AssemblyView {
                inputs: files(self.segments),
                output: self.intermediate(),
                transcode: Some(self.save_file),
            }
        } else {
            AssemblyView { inputs: files(self.segments), output: self.save_file, transcode: None }
        }
    }

    /// What teardown removes: the files of the segments that are not done,
    /// then the intermediate where one was recorded.
    pub open spec fn removals(self) -> Seq<Seq<char>> {
        unfinished_files(self.segments) + match self.cache_file {
            Some(path) => seq![path],
            None => Seq::empty(),
        }
    }
}



/// The download of one segmented stream into one file.
pub struct M3U8Download {
    uri: String,
    save_file: String,
    cache_dir: String,
    segments: Vec<Segment>,
    try_count: i64,
    timeout: u64,
    cache_file: Option<String>,
    ignore_cache: bool,
    climit: usize,
    aes_keys: StringHashMap<AesKey>,
    in_flight: usize,
    finished: usize,
}

impl View for M3U8Download {
    type V = JobView;

    closed spec fn view(&self) -> JobView {
        JobView {
            uri: self.uri@,
            save_file: self.save_file@,
            cache_dir: self.cache_dir@,
            segments: segment_views(self.segments@),
            try_count: self.try_count as int,
            timeout: self.timeout as nat,
            cache_file: match self.cache_file {
                Some(path) => Some(path@),
                None => None,
            },
            ignore_cache: self.ignore_cache,
            climit: self.climit as nat,
            keys: key_views(self.aes_keys@),
        }
    }
}

impl M3U8Download {
    /// The job's counters agree with the states of its segments.
    pub closed spec fn counted(&self) -> bool {
        &&& self.in_flight == count_in(segment_views(self.segments@), SegmentState::InFlight)
        &&& self.finished == count_in(segment_views(self.segments@), SegmentState::Done)
    }

    /// The job is consistent: no more downloads are running than its limit
    /// allows, and every key that it holds, in the key cache or with a
    /// segment, has 16 bytes in each of its parts.
    pub open spec fn wf(&self) -> bool {
        self.counted() && self@.schedule().bounded() && self@.keyed()
    }

    /// The URL to fetch the playlist from: the job's URI as an absolute URL.
    /// Fails with `URIParse` where the URI is none.
    pub fn playlist_url(&self) -> (r: Result<String, DownloadError>)
        ensures
            r is Ok <==> url_parsed(self@.uri) is Some,
            r matches Ok(url) ==> url_parsed(self@.uri) == Some(url@),
            r matches Err(e) ==> e is URIParse,
    {
        match locator::parse(self.uri.as_str()) {
            Ok(url) => Ok(url),
            Err(e) => Err(DownloadError::URIParse(e)),
        }
    }

    /// The URL of the media playlist that a master playlist leads to: its
    /// first variant, resolved against the URL the master was fetched from.
    /// Fails with `URI` where the playlist has no variant and with `URIParse`
    /// where the variant's URI cannot be resolved.
    pub fn parse_master_playlist(playlist: &MasterPlaylist, base_url: &str) -> (r: Result<
        String,
        DownloadError,
    >)
        ensures
            playlist@.len() == 0 ==> r matches Err(DownloadError::URI),
            playlist@.len() > 0 ==> match url_joined(base_url@, playlist@[0]) {
                Some(url) => r matches Ok(u) && u@ == url,
                None => r matches Err(DownloadError::URIParse(_)),
            },
    {
        if playlist.variants.len() == 0 {
            return Err(DownloadError::URI);
        }
        match locator::join(base_url, playlist.variants[0].as_str()) {
            Ok(url) => Ok(url),
            Err(e) => Err(DownloadError::URIParse(e)),
        }
    }

    /// What to do with a parsed manifest that was fetched from `base_url`: a
    /// media playlist is handed on, a master playlist leads to its first
    /// variant.
    pub fn playlist_step(playlist: Playlist, base_url: &str) -> (r: Result<
        PlaylistStep,
        DownloadError,
    >)
        ensures
            match playlist@ {
                PlaylistView::MediaPlaylist(entries) => r matches Ok(PlaylistStep::Media(list))
                    && list@ == entries,
                PlaylistView::MasterPlaylist(variants) => if variants.len() == 0 {
                    r matches Err(DownloadError::URI)
                } else {
                    match url_joined(base_url@, variants[0]) {
                        Some(url) => r matches Ok(PlaylistStep::Variant(u)) && u@ == url,
                        None => r matches Err(DownloadError::URIParse(_)),
                    }
                },
            },
    {
        match playlist {
            Playlist::MediaPlaylist(list) => Ok(PlaylistStep::Media(list)),
            Playlist::MasterPlaylist(list) => {
                match Self::parse_master_playlist(&list, base_url) {
                    Ok(url) => Ok(PlaylistStep::Variant(url)),
                    Err(e) => Err(e),
                }
            },
        }
    }

    /// Reads the manifest that was fetched from `base_url` and says what to do
    /// with it. Fails with `URI` where the bytes are no playlist or a master
    /// playlist has no variant, and with `URIParse` where the variant's URI
    /// cannot be resolved.
    pub fn parse_playlist(body: &[u8], base_url: &str) -> (r: Result<PlaylistStep, DownloadError>)
        ensures
            match m3u8_playlist(body@) {
                None => r matches Err(DownloadError::URI),
                Some(PlaylistView::MediaPlaylist(entries)) => r matches Ok(
                    PlaylistStep::Media(list),
                ) && list@ == entries,
                Some(PlaylistView::MasterPlaylist(variants)) => if variants.len() == 0 {
                    r matches Err(DownloadError::URI)
                } else {
                    match url_joined(base_url@, variants[0]) {
                        Some(url) => r matches Ok(PlaylistStep::Variant(u)) && u@ == url,
                        None => r matches Err(DownloadError::URIParse(_)),
                    }
                },
            },
    {
        match playlist::parse_playlist(body) {
            Ok(list) => Self::playlist_step(list, base_url),
            Err(e) => Err(e),
        }
    }

    /// The key for the key URI `uri`, through the key cache. Where the cache
    /// holds a key for `uri` it is returned as it is, vector included, and
    /// `iv` and `body` are not looked at. Otherwise the key made of `body`
    /// and `iv` is stored and returned, provided that each has 16 bytes:
    /// what has another length is no key, and the call fails with `Decrypt`
    /// and leaves the cache as it was.
    pub fn get_aes_key(&mut self, uri: &str, iv: Vec<u8>, body: Vec<u8>) -> (r: Result<
        AesKey,
        DownloadError,
    >)
        requires
            old(self).wf(),
        ensures
            final(self).wf(),
            old(self)@.keys.contains_key(uri@) ==> (final(self)@ == old(self)@ && (r matches Ok(
                key,
            ) && key@ == old(self)@.keys[uri@])),
            !old(self)@.keys.contains_key(uri@) && body@.len() == 16 && iv@.len() == 16 ==> (
            r matches Ok(key) && key@ == (AesKeyView { key: body@, iv: iv@ }) && final(self)@ == (
            JobView { keys: old(self)@.keys.insert(uri@, key@), ..old(self)@ })),
            !old(self)@.keys.contains_key(uri@) && !(body@.len() == 16 && iv@.len() == 16) ==> (
            r matches Err(DownloadError::Decrypt) && final(self)@ == old(self)@),
    {
        match self.aes_keys.get(uri) {
            Some(cached) => {
                let key = cached.clone();
                return Ok(key);
            },
            None => {},
        }
        let key = match AesKey::new(body, iv) {
            Some(key) => key,
            None => {
                return Err(DownloadError::Decrypt);
            },
        };
        let copy = key.clone();
        self.aes_keys.insert(String::from_str(uri), key);
        assert(final(self)@.keys =~= old(self)@.keys.insert(uri@, copy@));
        Ok(copy)
    }

    /// Plans the segments of a media playlist that was fetched from
    /// `base_url`, from the entry at `position` on, and moves `position` to
    /// where planning stopped. Each entry becomes a segment behind those
    /// that the job holds, with its source resolved against `base_url`, its
    /// file named by the digest of the source inside the cache directory,
    /// and the cached key of the key URI that the key tag in force asks for.
    /// A key tag is in force for every entry behind it until another tag
    /// takes its place.
    ///
    /// Planning stops at the first entry that it cannot plan. Where that
    /// entry asks for a key that the cache does not hold, the request for it
    /// is returned: store the key with [`get_aes_key`](Self::get_aes_key) and
    /// call again with the same `position`. Where the entry is faulty the
    /// error is returned: `URI` for a key tag without a vector of 16 bytes
    /// or without a URI, `URIParse` for a reference that cannot be resolved.
    /// At the end of the playlist the result is `None`, or the error `URI`
    /// where the job has no segment at all.
    pub fn parse_media_playlist(
        &mut self,
        playlist: &MediaPlaylist,
        base_url: &str,
        position: &mut usize,
    ) -> (r: Result<Option<KeyRequest>, DownloadError>)
        requires
            old(self).wf(),
        ensures
            final(self).wf(),
            ({
                let before = old(self)@;
                let from = *old(position) as int;
                let stop = stop_index(playlist@, from, base_url@, before.cache_dir, before.keys);
                &&& *final(position) == stop
                &&& final(self)@ == (JobView {
                    segments: before.segments + planned_range(
                        playlist@,
                        from,
                        stop,
                        base_url@,
                        before.cache_dir,
                        before.keys,
                    ),
                    ..before
                })
                &&& if stop < playlist@.len() {
                    match planned_at(playlist@, stop, base_url@, before.cache_dir, before.keys) {
                        Err(PlanStop::NeedKey { uri, iv }) => r matches Ok(Some(request))
                            && request.uri@ == uri && request.iv@ == iv && iv.len() == 16,
                        Err(PlanStop::Fault(PlanFault::URIParse)) => r matches Err(
                            DownloadError::URIParse(_),
                        ),
                        Err(PlanStop::Fault(PlanFault::URI)) => r matches Err(DownloadError::URI),
                        Ok(_) => false,
                    }
                } else if final(self)@.segments.len() == 0 {
                    r matches Err(DownloadError::URI)
                } else {
                    r matches Ok(None)
                }
            }),
    {
        let ghost before = self@;
        let ghost from = *position as int;
        let ghost base = base_url@;
        let ghost dir = before.cache_dir;
        let ghost keys = before.keys;
        let ghost entries = playlist@;
        let mut i: usize = *position;
        let mut active: Option<&Key> = if 0 < i && i <= playlist.segments.len() {
            Self::key_in_force(playlist, i - 1)
        } else {
            None
        };
        proof {
            assert(self@.segments =~= before.segments + planned_range(
                entries,
                from,
                from,
                base,
                dir,
                keys,
            ));
            if from > entries.len() {
                assert(stop_index(entries, from, base, dir, keys) == from);
            }
        }
        while i < playlist.segments.len()
            invariant
                self.wf(),
                entries == playlist@,
                entries.len() == playlist.segments.len(),
                base == base_url@,
                dir == before.cache_dir,
                keys == before.keys,
                from <= i,
                i <= entries.len() || i == from,
                from == *old(position),
                before == old(self)@,
                forall|k: int|
                    from <= k < i ==> (#[trigger] planned_at(entries, k, base, dir, keys)) is Ok,
                i <= entries.len() ==> crate::playlist::key_of_tag(active) == key_in_force(
                    entries,
                    i - 1,
                ),
                self@ == (JobView {
                    segments: before.segments + planned_range(
                        entries,
                        from,
                        i as int,
                        base,
                        dir,
                        keys,
                    ),
                    ..before
                }),
            decreases playlist.segments.len() - i,
        {
            let entry = &playlist.segments[i];
            assert(entries[i as int] == entry@);
            if let Some(tag) = &entry.key {
                active = Some(tag);
            } else if entry.clears_key() {
                active = None;
            }
            assert(key_in_force(entries, -1) is None);
            assert(crate::playlist::key_of_tag(active) == key_in_force(entries, i as int));
            let ghost plan = planned_at(entries, i as int, base, dir, keys);
            let want = match Self::wanted_key(active, base_url) {
                Ok(want) => want,
                Err(e) => {
                    proof {
                        assert(plan is Err);
                        lemma_stop_index(entries, from, i as int, base, dir, keys);
                        assert(stop_index(entries, from, base, dir, keys) == i);
                    }
                    *position = i;
                    return Err(e);
                },
            };
            let key: Option<AesKey> = match want {
                Some(request) => match self.aes_keys.get(request.uri.as_str()) {
                    Some(cached) => Some(cached.clone()),
                    None => {
                        proof {
                            lemma_stop_index(entries, from, i as int, base, dir, keys);
                        }
                        *position = i;
                        return Ok(Some(request));
                    },
                },
                None => None,
            };
            let source = match locator::join(base_url, entry.uri.as_str()) {
                Ok(source) => source,
                Err(e) => {
                    proof {
                        lemma_stop_index(entries, from, i as int, base, dir, keys);
                    }
                    *position = i;
                    return Err(DownloadError::URIParse(e));
                },
            };
            let name = digest(source.as_str());
            let file = join_path(self.cache_dir.as_str(), name.as_str());
            let segment = Segment::new(source.as_str(), file.as_str(), key);
            assert(plan == Ok::<SegmentView, PlanStop>(segment@));
            assert(segment@.key matches Some(k) ==> k.usable());
            let ghost views = segment_views(self.segments@);
            let ghost planned = planned_range(entries, from, i as int, base, dir, keys);
            self.segments.push(segment);
            proof {
                let grown = segment_views(self.segments@);
                let more = planned_range(entries, from, i + 1, base, dir, keys);
                assert(grown.drop_last() =~= views);
                assert(grown.last() == segment@);
                assert(more =~= planned.push(segment@));
                assert(grown =~= views.push(segment@));
                assert(views == before.segments + planned);
                assert(grown =~= before.segments + more);
                assert(segments_keyed(grown)) by {
                    assert forall|j: int| 0 <= j < grown.len() implies ((#[trigger] grown[j]).key matches Some(
                        k,
                    ) ==> k.usable()) by {
                        if j < views.len() {
                            assert(grown[j] == views[j]);
                        }
                    }
                }
            }
            i += 1;
        }
        proof {
            if from <= entries.len() {
                lemma_stop_index(entries, from, i as int, base, dir, keys);
            }
        }
        *position = i;
        if self.segments.len() == 0 {
            Err(DownloadError::URI)
        } else {
            Ok(None)
        }
    }

    /// Starts a run of the job: the run says step by step what is to be
    /// done, from fetching the playlist to the verdict.
    pub fn download(self) -> (run: Download)
        requires
            self.wf(),
        ensures
            run.wf(),
            run@ == (RunView {
                job: self@,
                stage: Stage::Idle,
                base: Seq::empty(),
                media: Seq::empty(),
                position: 0,
                wanted: None,
                output: None,
            }),
    {
        Download::new(self)
    }

    /// The URI of the playlist, as the job was given it.
    pub fn uri(&self) -> (uri: &str)
        ensures
            uri@ == self@.uri,
    {
        self.uri.as_str()
    }

    /// The path of the output file.
    pub fn save_file(&self) -> (path: &str)
        ensures
            path@ == self@.save_file,
    {
        self.save_file.as_str()
    }

    /// The directory that holds downloaded segments.
    pub fn cache_dir(&self) -> (dir: &str)
        ensures
            dir@ == self@.cache_dir,
    {
        self.cache_dir.as_str()
    }

    /// How often a failed segment is tried again; negative: without limit.
    pub fn try_count(&self) -> (count: i64)
        ensures
            count == self@.try_count,
    {
        self.try_count
    }

    /// The timeout of one segment request in seconds; 0: none.
    pub fn timeout(&self) -> (seconds: u64)
        ensures
            seconds == self@.timeout,
    {
        self.timeout
    }

    /// How many downloads may run at once.
    pub fn climit(&self) -> (limit: usize)
        ensures
            limit == self@.climit,
    {
        self.climit
    }

    /// Whether files already in the cache are downloaded again.
    pub fn ignore_cache(&self) -> (ignore: bool)
        ensures
            ignore == self@.ignore_cache,
    {
        self.ignore_cache
    }

    /// The segments of the job, in the order of the playlist.
    pub fn segments(&self) -> (segments: &Vec<Segment>)
        ensures
            segment_views(segments@) == self@.segments,
    {
        &self.segments
    }

    /// Number of segments: the length of the progress.
    pub fn total(&self) -> (n: usize)
        ensures
            n == self@.segments.len(),
    {
        self.segments.len()
    }

    /// Number of finished segments: the position of the progress. It never
    /// exceeds [`total`](Self::total).
    pub fn position(&self) -> (n: usize)
        requires
            self.wf(),
        ensures
            n == self@.schedule().done(),
            n <= self@.segments.len(),
    {
        proof {
            lemma_count_bounds(self@.segments, SegmentState::Done);
        }
        self.finished
    }

    /// Number of downloads that are running. It never exceeds the limit.
    pub fn in_flight(&self) -> (n: usize)
        requires
            self.wf(),
        ensures
            n == self@.schedule().in_flight(),
            n <= self@.climit,
    {
        self.in_flight
    }

    /// The preflight: looks at the size of the file of every segment
    /// (`None`: no such file; a segment beyond the end of `sizes` counts as
    /// having none). A new segment whose file is not empty is done, unless
    /// the cache is ignored; every other new segment waits for a permit.
    pub fn preflight(&mut self, sizes: &Vec<Option<u64>>)
        requires
            old(self).wf(),
        ensures
            final(self).wf(),
            final(self)@ == (JobView {
                segments: old(self)@.schedule().preflight(
                    sizes@,
                    old(self)@.ignore_cache,
                ).segments,
                ..old(self)@
            }),
    {
        let ghost before = self@;
        let ghost target = before.schedule().preflight(sizes@, before.ignore_cache).segments;
        let mut i: usize = 0;
        while i < self.segments.len()
            invariant
                self.wf(),
                before == old(self)@,
                target == before.schedule().preflight(sizes@, before.ignore_cache).segments,
                i <= self.segments.len(),
                self@.segments.len() == before.segments.len(),
                forall|k: int| 0 <= k < i ==> (#[trigger] self@.segments[k]) == target[k],
                forall|k: int|
                    i <= k < before.segments.len() ==> (#[trigger] self@.segments[k])
                        == before.segments[k],
                self@ == (JobView { segments: self@.segments, ..before }),
            decreases self.segments.len() - i,
        {
            let ghost views = self@.segments;
            assert(views[i as int] == before.segments[i as int]);
            assert(views[i as int] == self.segments@[i as int]@);
            if self.segments[i].state == SegmentState::New {
                let size: Option<u64> = if i < sizes.len() {
                    sizes[i]
                } else {
                    None
                };
                let cached = !self.ignore_cache && match size {
                    Some(n) => n > 0,
                    None => false,
                };
                assert(cached == reusable(size_at(sizes@, i as int), before.ignore_cache));
                if cached {
                    self.segments[i].state = SegmentState::Done;
                    proof {
                        let changed = segment_views(self.segments@);
                        assert(changed =~= views.update(
                            i as int,
                            with_state(views[i as int], SegmentState::Done),
                        ));
                        lemma_count_update(
                            views,
                            i as int,
                            changed[i as int],
                            SegmentState::InFlight,
                        );
                        lemma_count_update(views, i as int, changed[i as int], SegmentState::Done);
                        lemma_count_bounds(changed, SegmentState::Done);
                    }
                    self.finished = self.finished + 1;
                } else {
                    self.segments[i].state = SegmentState::Pending;
                    proof {
                        let changed = segment_views(self.segments@);
                        assert(changed =~= views.update(
                            i as int,
                            with_state(views[i as int], SegmentState::Pending),
                        ));
                        lemma_count_update(
                            views,
                            i as int,
                            changed[i as int],
                            SegmentState::InFlight,
                        );
                        lemma_count_update(views, i as int, changed[i as int], SegmentState::Done);
                    }
                }
            }
            i += 1;
        }
        assert(self@.segments =~= target);
    }

    /// Asks for a permit. Where fewer downloads are running than the limit
    /// allows and a segment waits, the first waiting segment is set running
    /// and the task to run for it is returned; otherwise nothing changes.
    pub fn next_start(&mut self) -> (r: Option<SegmentTask>)
        requires
            old(self).wf(),
        ensures
            final(self).wf(),
            final(self)@ == (JobView {
                segments: old(self)@.schedule().start().segments,
                ..old(self)@
            }),
            match old(self)@.schedule().next() {
                Some(i) => r matches Some(task) && task@ == (TaskView {
                    index: i,
                    uri: old(self)@.segments[i].uri,
                    save_file: old(self)@.segments[i].save_file,
                    timeout: old(self)@.timeout,
                    key: old(self)@.segments[i].key,
                }),
                None => r is None,
            },
    {
        let ghost before = self@;
        let ghost views = self@.segments;
        if self.in_flight >= self.climit {
            assert(self@.segments =~= before.schedule().start().segments);
            return None;
        }
        let mut i: usize = 0;
        while i < self.segments.len()
            invariant
                self.wf(),
                self@ == before,
                views == before.segments,
                before == old(self)@,
                self.in_flight < self.climit,
                i <= self.segments.len(),
                forall|k: int| 0 <= k < i ==> !is_pending(views, k),
            decreases self.segments.len() - i,
        {
            assert(views[i as int] == self.segments@[i as int]@);
            if self.segments[i].state == SegmentState::Pending {
                proof {
                    assert(is_pending(views, i as int));
                    assert(first_pending(views, i as int));
                    let chosen = choose|c: int| first_pending(views, c);
                    assert(first_pending(views, chosen));
                    assert(chosen == i);
                }
                let task = SegmentTask {
                    index: i,
                    uri: self.segments[i].uri.clone(),
                    save_file: self.segments[i].save_file.clone(),
                    timeout: self.timeout,
                    key: match &self.segments[i].key {
                        Some(key) => Some(key.clone()),
                        None => None,
                    },
                };
                self.segments[i].state = SegmentState::InFlight;
                proof {
                    let changed = segment_views(self.segments@);
                    assert(changed =~= views.update(
                        i as int,
                        with_state(views[i as int], SegmentState::InFlight),
                    ));
                    lemma_count_update(views, i as int, changed[i as int], SegmentState::InFlight);
                    lemma_count_update(views, i as int, changed[i as int], SegmentState::Done);
                }
                self.in_flight = self.in_flight + 1;
                return Some(task);
            }
            i += 1;
        }
        assert(forall|k: int| !is_pending(views, k));
        assert(self@.segments =~= before.schedule().start().segments);
        None
    }

    /// Takes the report of the task of segment `index`. A success finishes
    /// the segment. A failure sends it back to wait, one retry used, while
    /// retries are left or are not limited; otherwise the segment has failed.
    /// Its peers are not touched. A report for a segment that no task runs
    /// for changes nothing.
    pub fn on_complete(&mut self, index: usize, ok: bool) -> (r: Completion)
        requires
            old(self).wf(),
        ensures
            final(self).wf(),
            final(self)@ == (JobView {
                segments: old(self)@.schedule().complete(index as int, ok).segments,
                ..old(self)@
            }),
            r == if !old(self)@.schedule().awaited(index as int) {
                Completion::Ignored
            } else if ok {
                Completion::Finished
            } else if old(self)@.schedule().may_retry(index as int) {
                Completion::Retry
            } else {
                Completion::Failed
            },
    {
        let ghost before = self@;
        let ghost views = self@.segments;
        if index >= self.segments.len() {
            return Completion::Ignored;
        }
        assert(views[index as int] == self.segments@[index as int]@);
        if self.segments[index].state != SegmentState::InFlight {
            return Completion::Ignored;
        }
        proof {
            lemma_count_bounds(views, SegmentState::InFlight);
        }
        let outcome = if ok {
            self.segments[index].state = SegmentState::Done;
            Completion::Finished
        } else if self.try_count < 0 || self.segments[index].try_count < self.try_count {
            if self.segments[index].try_count < i64::MAX {
                self.segments[index].try_count = self.segments[index].try_count + 1;
            }
            self.segments[index].state = SegmentState::Pending;
            Completion::Retry
        } else {
            self.segments[index].state = SegmentState::Failed;
            Completion::Failed
        };
        proof {
            let changed = segment_views(self.segments@);
            assert(changed =~= views.update(
                index as int,
                before.schedule().settled(index as int, ok),
            ));
            lemma_count_update(views, index as int, changed[index as int], SegmentState::InFlight);
            lemma_count_update(views, index as int, changed[index as int], SegmentState::Done);
            lemma_count_bounds(changed, SegmentState::Done);
        }
        self.in_flight = self.in_flight - 1;
        if ok {
            self.finished = self.finished + 1;
        }
        outcome
    }

    /// Whether the task set is empty: nothing runs and nothing waits.
    pub fn is_idle(&self) -> (r: bool)
        requires
            self.wf(),
        ensures
            r == self@.schedule().idle(),
    {
        if self.in_flight > 0 {
            return false;
        }
        let mut i: usize = 0;
        while i < self.segments.len()
            invariant
                i <= self.segments.len(),
                forall|k: int| 0 <= k < i ==> !is_pending(self@.segments, k),
            decreases self.segments.len() - i,
        {
            assert(self@.segments[i as int] == self.segments@[i as int]@);
            if self.segments[i].state == SegmentState::Pending {
                assert(is_pending(self@.segments, i as int));
                return false;
            }
            i += 1;
        }
        true
    }

    /// Whether every segment is done.
    pub fn check_integrity(&self) -> (r: bool)
        ensures
            r == self@.schedule().intact(),
    {
        let mut i: usize = 0;
        while i < self.segments.len()
            invariant
                i <= self.segments.len(),
                forall|k: int|
                    0 <= k < i ==> (#[trigger] self@.segments[k]).state == SegmentState::Done,
            decreases self.segments.len() - i,
        {
            assert(self@.segments[i as int] == self.segments@[i as int]@);
            if !self.segments[i].success() {
                return false;
            }
            i += 1;
        }
        true
    }

    /// The verdict of the job after assembly: `Incomplete` unless every
    /// segment is done.
    pub fn finish(&self) -> (r: Result<(), DownloadError>)
        ensures
            r is Ok <==> self@.schedule().intact(),
            r matches Err(e) ==> e is Incomplete,
    {
        if self.check_integrity() {
            Ok(())
        } else {
            Err(DownloadError::Incomplete)
        }
    }

    /// The files that assembly concatenates: the file of every segment, in
    /// the order of the playlist, whatever the order in which they were
    /// finished.
    pub fn combine_files(&self) -> (inputs: Vec<String>)
        ensures
            views(inputs@) == files(self@.segments),
    {
        let mut inputs: Vec<String> = Vec::new();
        let mut i: usize = 0;
        while i < self.segments.len()
            invariant
                i <= self.segments.len(),
                inputs.len() == i,
                forall|k: int| 0 <= k < i ==> (#[trigger] inputs@[k])@ == self@.segments[k].save_file,
            decreases self.segments.len() - i,
        {
            assert(self@.segments[i as int] == self.segments@[i as int]@);
            inputs.push(self.segments[i].save_file.clone());
            i += 1;
        }
        assert(views(inputs@) =~= files(self@.segments));
        inputs
    }

    /// The plan of the assembly for an output file whose extension is
    /// `extension`. For `mp4` the segments are concatenated into an
    /// intermediate inside the cache directory, named by the digest of the
    /// playlist URI, and the transcoder makes the output of it; for any other
    /// extension, and for none, they are concatenated into the output itself.
    pub fn convert_for(&self, extension: Option<&str>) -> (plan: Assembly)
        ensures
            plan@ == self@.assembly(
                match extension {
                    Some(text) => Some(text@),
                    None => None,
                },
            ),
    {
        let inputs = self.combine_files();
        let to_mp4 = match extension {
            Some(text) => text.eq("mp4"),
            None => false,
        };
        if to_mp4 {
            let name = digest(self.uri.as_str());
            Assembly {
                inputs,
                output: join_path(self.cache_dir.as_str(), name.as_str()),
                transcode: Some(self.save_file.clone()),
            }
        } else {
            Assembly { inputs, output: self.save_file.clone(), transcode: None }
        }
    }

    /// The plan of the assembly for the job's output file, by the extension
    /// of its path.
    pub fn convert(&self) -> (plan: Assembly)
        ensures
            plan@ == self@.assembly(extension_of(self@.save_file)),
    {
        let extension = extension(self.save_file.as_str());
        match &extension {
            Some(text) => self.convert_for(Some(text.as_str())),
            None => self.convert_for(None),
        }
    }

    /// The command line of the transcoder that makes the output file of the
    /// intermediate `cache_file`.
    pub fn convert2mp4(&self, cache_file: &str) -> (command: Vec<String>)
        ensures
            views(command@) == transcoder_command(cache_file@, self@.save_file),
    {
        let mut command: Vec<String> = Vec::new();
        command.push(String::from_str("ffmpeg"));
        command.push(String::from_str("-i"));
        command.push(String::from_str(cache_file));
        command.push(String::from_str("-c"));
        command.push(String::from_str("copy"));
        command.push(self.save_file.clone());
        assert(views(command@) =~= transcoder_command(cache_file@, self@.save_file));
        command
    }

    /// The verdict on the transcoder's run: an error that carries what it
    /// wrote to its error stream, unless it ended with success.
    pub fn transcoded(success: bool, stderr: &str) -> (r: Result<(), DownloadError>)
        ensures
            r is Ok <==> success,
            r matches Err(e) ==> (e matches DownloadError::CreateFile(text) && text@
                == "ffmpeg error: "@ + stderr@),
    {
        if success {
            Ok(())
        } else {
            Err(DownloadError::CreateFile(String::from_str("ffmpeg error: ").concat(stderr)))
        }
    }

    /// Records the intermediate that assembly has written, so that cleanup
    /// removes it.
    pub fn record_cache_file(&mut self, cache_file: &str)
        requires
            old(self).wf(),
        ensures
            final(self).wf(),
            final(self)@ == (JobView { cache_file: Some(cache_file@), ..old(self)@ }),
    {
        self.cache_file = Some(String::from_str(cache_file));
    }

    /// What teardown removes: the file of every segment that is not done, in
    /// the order of the playlist, then the intermediate where one was
    /// recorded. The files of finished segments stay: they are what a later
    /// run resumes from.
    pub fn cleanup(&self) -> (leftovers: Vec<String>)
        ensures
            views(leftovers@) == self@.removals(),
    {
        let mut leftovers: Vec<String> = Vec::new();
        let mut i: usize = 0;
        while i < self.segments.len()
            invariant
                i <= self.segments.len(),
                views(leftovers@) == unfinished_files(self@.segments.subrange(0, i as int)),
            decreases self.segments.len() - i,
        {
            let ghost seen = self@.segments.subrange(0, i as int);
            let ghost more = self@.segments.subrange(0, i + 1);
            let ghost listed = views(leftovers@);
            assert(more.drop_last() =~= seen);
            assert(more.last() == self.segments@[i as int]@);
            if !self.segments[i].success() {
                leftovers.push(self.segments[i].save_file.clone());
                assert(views(leftovers@) =~= listed.push(more.last().save_file));
            }
            i += 1;
        }
        assert(self@.segments.subrange(0, i as int) =~= self@.segments);
        let ghost listed = views(leftovers@);
        match &self.cache_file {
            Some(path) => {
                leftovers.push(path.clone());
                assert(views(leftovers@) =~= listed + seq![path@]);
            },
            None => {
                assert(listed =~= listed + Seq::<Seq<char>>::empty());
            },
        }
        leftovers
    }

    /// What the task of an encrypted segment writes to the segment's file:
    /// the body decrypted with the segment's key, which is shorter than the
    /// body by the padding of 1 to 16 bytes. Fails with `Decrypt` where the
    /// body does not decrypt.
    pub fn download_segment_with_key(body: &[u8], key: &AesKey) -> (r: Result<
        Vec<u8>,
        DownloadError,
    >)
        ensures
            match key@.plain(body@) {
                Some(plain) => r matches Ok(bytes) && bytes@ == plain && unpadded(
                    body@.len(),
                    bytes@.len(),
                ),
                None => r matches Err(DownloadError::Decrypt),
            },
    {
        key.decrypt(body)
    }

    /// What the task of a segment writes to the segment's file, given the
    /// status and the body of the response: the body itself, or the body
    /// decrypted where the segment has a key. Fails with `ResponseFailed`
    /// for a status outside 200..=299 and with `Decrypt` where the body does
    /// not decrypt.
    pub fn download_segment(status: u16, body: Vec<u8>, key: &Option<AesKey>) -> (r: Result<
        Vec<u8>,
        DownloadError,
    >)
        ensures
            !is_success(status) ==> (r matches Err(DownloadError::ResponseFailed(s)) && s
                == status),
            is_success(status) ==> match key {
                None => r matches Ok(bytes) && bytes@ == body@,
                Some(k) => match k@.plain(body@) {
                    Some(plain) => r matches Ok(bytes) && bytes@ == plain && unpadded(
                        body@.len(),
                        bytes@.len(),
                    ),
                    None => r matches Err(DownloadError::Decrypt),
                },
            },
    {
        if status < 200 || status > 299 {
            return Err(DownloadError::ResponseFailed(status));
        }
        match key {
            Some(k) => Self::download_segment_with_key(body.as_slice(), k),
            None => Ok(body),
        }
    }

    /// The key tag in force for entry `index` of a playlist: the tag that
    /// stands before the entry itself or, failing that, the one in force for
    /// the entry before it. A key tag that was not made sense of ends the
    /// force of the tag before it.
    pub fn key_in_force(playlist: &MediaPlaylist, index: usize) -> (tag: Option<&Key>)
        ensures
            crate::playlist::key_of_tag(tag) == key_in_force(playlist@, index as int),
    {
        if index >= playlist.segments.len() {
            return None;
        }
        let mut i: usize = index;
        loop
            invariant
                i <= index,
                index < playlist.segments.len(),
                playlist@.len() == playlist.segments.len(),
                key_in_force(playlist@, index as int) == key_in_force(playlist@, i as int),
            decreases i,
        {
            assert(playlist@[i as int] == playlist.segments@[i as int]@);
            if let Some(tag) = &playlist.segments[i].key {
                return Some(tag);
            }
            if playlist.segments[i].clears_key() {
                return None;
            }
            if i == 0 {
                assert(key_in_force(playlist@, -1) is None);
                return None;
            }
            i -= 1;
        }
    }

    /// The key that a key tag asks for, its URI resolved against `base_url`,
    /// with the vector of 16 bytes that goes with it. Only the method
    /// AES-128 asks for a key. Fails with `URI` where such a tag has no
    /// vector of 16 bytes or no URI, and with `URIParse` where the key's URI
    /// cannot be resolved.
    pub fn wanted_key(tag: Option<&Key>, base_url: &str) -> (r: Result<
        Option<KeyRequest>,
        DownloadError,
    >)
        ensures
            match wanted_key(crate::playlist::key_of_tag(tag), base_url@) {
                Ok(Some(pair)) => r matches Ok(Some(request)) && request.uri@ == pair.0
                    && request.iv@ == pair.1 && pair.1.len() == 16,
                Ok(None) => r matches Ok(None),
                Err(PlanFault::URIParse) => r matches Err(DownloadError::URIParse(_)),
                Err(PlanFault::URI) => r matches Err(DownloadError::URI),
            },
    {
        match tag {
            Some(tag) => match tag.method {
                KeyMethod::AES128 => {
                    let iv = match key_iv(&tag.iv) {
                        Some(iv) => iv,
                        None => {
                            return Err(DownloadError::URI);
                        },
                    };
                    let reference = match &tag.uri {
                        Some(reference) => reference,
                        None => {
                            return Err(DownloadError::URI);
                        },
                    };
                    match locator::join(base_url, reference.as_str()) {
                        Ok(uri) => Ok(Some(KeyRequest { uri, iv })),
                        Err(e) => Err(DownloadError::URIParse(e)),
                    }
                },
                _ => Ok(None),
            },
            None => Ok(None),
        }
    }
}

/// Collects the settings of a job before it is built.
pub struct M3U8DownloadBuilder {
    uri: String,
    save_file: String,
    cache_dir: String,
    try_count: i64,
    timeout: u64,
    ignore_cache: bool,
    climit: usize,
}

/// What a builder holds.
pub struct SettingsView {
    pub uri: Seq<char>,
    pub save_file: Seq<char>,
    pub cache_dir: Seq<char>,
    pub try_count: int,
    pub timeout: nat,
    pub ignore_cache: bool,
    pub climit: nat,
}

impl SettingsView {
    /// The settings of a builder that nothing was set on: no URI and no
    /// output yet, the cache in `.cache`, retries without limit, no timeout,
    /// the cache in use, 32 downloads at once.
    pub open spec fn initial() -> SettingsView {
        SettingsView {
            uri: Seq::empty(),
            save_file: Seq::empty(),
            cache_dir: ".cache"@,
            try_count: -1,
            timeout: 0,
            ignore_cache: false,
            climit: 32,
        }
    }

    /// The job that these settings describe: nothing planned, nothing cached.
    pub open spec fn job(self) -> JobView {
        JobView {
            uri: self.uri,
            save_file: self.save_file,
            cache_dir: self.cache_dir,
            segments: Seq::empty(),
            try_count: self.try_count,
            timeout: self.timeout,
            cache_file: None,
            ignore_cache: self.ignore_cache,
            climit: self.climit,
            keys: Map::empty(),
        }
    }
}

impl View for M3U8DownloadBuilder {
    type V = SettingsView;

    closed spec fn view(&self) -> SettingsView {
        SettingsView {
            uri: self.uri@,
            save_file: self.save_file@,
            cache_dir: self.cache_dir@,
            try_count: self.try_count as int,
            timeout: self.timeout as nat,
            ignore_cache: self.ignore_cache,
            climit: self.climit as nat,
        }
    }
}

impl M3U8DownloadBuilder {
    /// A builder with the default settings.
    pub fn new() -> (b: Self)
        ensures
            b@ == SettingsView::initial(),
    {
        M3U8DownloadBuilder {
            uri: String::new(),
            save_file: String::new(),
            cache_dir: String::from_str(".cache"),
            try_count: -1,
            timeout: 0,
            ignore_cache: false,
            climit: 32,
        }
    }

    /// Sets the URL of the playlist.
    pub fn uri(&mut self, uri: &str) -> (b: &mut Self)
        ensures
            b@ == (SettingsView { uri: uri@, ..old(self)@ }),
            *final(self) == *final(b),
    {
        self.uri = String::from_str(uri);
        self
    }

    /// Sets the directory that holds downloaded segments.
    pub fn cache_dir(&mut self, dir: &str) -> (b: &mut Self)
        ensures
            b@ == (SettingsView { cache_dir: dir@, ..old(self)@ }),
            *final(self) == *final(b),
    {
        self.cache_dir = String::from_str(dir);
        self
    }

    /// Sets the path of the output file.
    pub fn save_file(&mut self, save: &str) -> (b: &mut Self)
        ensures
            b@ == (SettingsView { save_file: save@, ..old(self)@ }),
            *final(self) == *final(b),
    {
        self.save_file = String::from_str(save);
        self
    }

    /// Sets how often a failed segment is tried again; negative: without limit.
    pub fn try_count(&mut self, count: i64) -> (b: &mut Self)
        ensures
            b@ == (SettingsView { try_count: count as int, ..old(self)@ }),
            *final(self) == *final(b),
    {
        self.try_count = count;
        self
    }

    /// Sets the timeout of one segment request in seconds; 0: none.
    pub fn timeout(&mut self, second: u64) -> (b: &mut Self)
        ensures
            b@ == (SettingsView { timeout: second as nat, ..old(self)@ }),
            *final(self) == *final(b),
    {
        self.timeout = second;
        self
    }

    /// Sets how many downloads may run at once.
    pub fn climit(&mut self, limit: usize) -> (b: &mut Self)
        ensures
            b@ == (SettingsView { climit: limit as nat, ..old(self)@ }),
            *final(self) == *final(b),
    {
        self.climit = limit;
        self
    }

    /// Sets whether files already in the cache are downloaded again.
    pub fn ignore_cache(&mut self, ignore: bool) -> (b: &mut Self)
        ensures
            b@ == (SettingsView { ignore_cache: ignore, ..old(self)@ }),
            *final(self) == *final(b),
    {
        self.ignore_cache = ignore;
        self
    }

    /// A job with the settings collected so far; the builder keeps them.
    pub fn build(&mut self) -> (job: M3U8Download)
        ensures
            final(self)@ == old(self)@,
            job@ == old(self)@.job(),
            job.wf(),
    {
        let job = M3U8Download {
            uri: self.uri.clone(),
            save_file: self.save_file.clone(),
            cache_dir: self.cache_dir.clone(),
            segments: Vec::new(),
            try_count: self.try_count,
            timeout: self.timeout,
            cache_file: None,
            ignore_cache: self.ignore_cache,
            climit: self.climit,
            aes_keys: StringHashMap::new(),
            in_flight: 0,
            finished: 0,
        };
        assert(job@.segments =~= Seq::empty());
        assert(job@.keys =~= Map::empty());
        job
    }
}

} // verus!
