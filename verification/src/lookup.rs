//! One request of the HTTP client wrapper, taken step by step: whether the
//! cache answers it, how often it is attempted, and what it returns.

use crate::digest::sha256_hex;
use crate::error::Error;
use crate::request::{is_success, one_more, serves_cache, tries_left, RequestStep, Requestor};
use crate::text::joined_path;
use vstd::prelude::*;

verus! {

/// How a request is sent.
#[derive(Clone, Copy, PartialEq, Eq, Debug, Structural)]
pub enum Method {
    Get,
    Post,
}

/// Where a request stands: what it is waiting for.
#[derive(Clone, Copy, PartialEq, Eq, Debug, Structural)]
pub enum Stage {
    /// Nothing was done yet.
    Idle,
    /// The time of the cached copy is being looked up.
    Aging,
    /// The cached copy is being read.
    Reading,
    /// An attempt is under way.
    Fetching,
    /// The fetched body is being written to the cache.
    Writing,
    /// The result was returned.
    Closed,
}

/// What the surroundings report to a request.
#[derive(Debug)]
pub enum Event {
    /// The request is to begin.
    Begin,
    /// When the cached copy was written (`None`: there is none) and what
    /// time it is, both in nanoseconds since the same instant.
    Modified { modified: Option<u128>, now: u128 },
    /// The cached copy, or why it could not be read.
    Read(Result<String, String>),
    /// The status and body of the response to an attempt, or how the
    /// transport failed.
    Response(Result<(u16, String), String>),
    /// The body was written to the cache, or could not be: either way the
    /// request goes on.
    Written,
}

/// What a request asks of its surroundings.
#[derive(Debug)]
pub enum Action {
    /// Look up when this file was written and report `Modified`.
    Stat(String),
    /// Read this file and report `Read`.
    Read(String),
    /// Send the request to this URL and report the `Response`.
    Send { method: Method, url: String },
    /// Write this body to this file and report `Written`.
    Write { path: String, content: String },
    /// The request is over, with this result.
    Return(Result<String, Error>),
    /// The event does not fit the stage of the request; nothing has changed.
    Ignored,
}

/// What a request holds: how and where it is sent, the cache file and the
/// time for which a cached copy is served (`None`: the cache has no part),
/// the limit on attempts, the stage, the attempts that have failed in
/// transport, and the body that is being written to the cache.
pub struct LookupView {
    pub method: Method,
    pub url: Seq<char>,
    pub cache: Option<(Seq<char>, u128)>,
    pub ignore_cache: bool,
    pub try_count: u64,
    pub stage: Stage,
    pub tried: u64,
    pub body: Option<Seq<char>>,
}

/// The age of a cached copy that was written at `modified`, at the time
/// `now`; none where there is no copy or where it claims to be written later.
pub open spec fn age_of(modified: Option<u128>, now: u128) -> Option<u128> {
    match modified {
        Some(written) => if written <= now {
            Some((now - written) as u128)
        } else {
            None
        },
        None => None,
    }
}

impl LookupView {
    /// The request closed, nothing else changed.
    pub open spec fn closed(self) -> LookupView {
        LookupView { stage: Stage::Closed, ..self }
    }

    /// Whether `action` sends the request.
    pub open spec fn sends(self, action: Action) -> bool {
        action matches Action::Send { method, url } && method == self.method && url@ == self.url
    }

    /// What the body of a successful attempt leads to: it is written to the
    /// cache where the request goes through the cache, and returned.
    pub open spec fn fetched(self, body: Seq<char>, after: LookupView, action: Action) -> bool {
        match self.cache {
            Some(entry) => after == (LookupView { stage: Stage::Writing, body: Some(body), ..self })
                && (action matches Action::Write { path, content } && path@ == entry.0 && content@
                == body),
            None => after == self.closed() && (action matches Action::Return(Ok(text)) && text@
                == body),
        }
    }

    /// What a failure in transport leads to: another attempt while the
    /// limit allows one, the error `RequestOutOfTry` with the number of
    /// attempts made otherwise.
    pub open spec fn failed(self, after: LookupView, action: Action) -> bool {
        if tries_left(self.try_count, one_more(self.tried)) {
            after == (LookupView { tried: one_more(self.tried), ..self }) && self.sends(action)
        } else {
            after == self.closed() && (action matches Action::Return(
                Err(Error::RequestOutOfTry(n)),
            ) && n == one_more(self.tried))
        }
    }

    /// What an event makes of a request, and what the request asks for in
    /// answer. An event that does not fit the stage is ignored.
    pub open spec fn follows(self, event: Event, after: LookupView, action: Action) -> bool {
        match (self.stage, event) {
            (Stage::Idle, Event::Begin) => match self.cache {
                Some(entry) => if self.ignore_cache {
                    after == (LookupView { stage: Stage::Fetching, ..self }) && self.sends(action)
                } else {
                    after == (LookupView { stage: Stage::Aging, ..self }) && (
                    action matches Action::Stat(path) && path@ == entry.0)
                },
                None => after == (LookupView { stage: Stage::Fetching, ..self }) && self.sends(
                    action,
                ),
            },
            (Stage::Aging, Event::Modified { modified, now }) => match self.cache {
                Some(entry) => if serves_cache(self.ignore_cache, age_of(modified, now), entry.1) {
                    after == (LookupView { stage: Stage::Reading, ..self }) && (
                    action matches Action::Read(path) && path@ == entry.0)
                } else {
                    after == (LookupView { stage: Stage::Fetching, ..self }) && self.sends(action)
                },
                None => false,
            },
            (Stage::Reading, Event::Read(Ok(content))) => after == self.closed() && (
            action matches Action::Return(Ok(text)) && text@ == content@),
            (Stage::Reading, Event::Read(Err(_))) => after == (LookupView {
                stage: Stage::Fetching,
                ..self
            }) && self.sends(action),
            (Stage::Fetching, Event::Response(Ok(response))) => if is_success(response.0) {
                self.fetched(response.1@, after, action)
            } else {
                after == self.closed() && (action matches Action::Return(
                    Err(Error::ResponseFailed(status)),
                ) && status == response.0)
            },
            (Stage::Fetching, Event::Response(Err(_))) => self.failed(after, action),
            (Stage::Writing, Event::Written) => match self.body {
                Some(body) => after == self.closed() && (action matches Action::Return(Ok(text))
                    && text@ == body),
                None => false,
            },
            _ => after == self && action is Ignored,
        }
    }
}

/// One request.
#[derive(Debug)]
pub struct Lookup {
    method: Method,
    url: String,
    cache: Option<(String, u128)>,
    ignore_cache: bool,
    try_count: u64,
    stage: Stage,
    tried: u64,
    body: Option<String>,
}

impl View for Lookup {
    type V = LookupView;

    closed spec fn view(&self) -> LookupView {
        LookupView {
            method: self.method,
            url: self.url@,
            cache: match self.cache {
                Some(entry) => Some((entry.0@, entry.1)),
                None => None,
            },
            ignore_cache: self.ignore_cache,
            try_count: self.try_count,
            stage: self.stage,
            tried: self.tried,
            body: match self.body {
                Some(body) => Some(body@),
                None => None,
            },
        }
    }
}

impl Requestor {
    /// A GET of `url`, not begun.
    pub fn get(&self, url: &str) -> (lookup: Lookup)
        ensures
            lookup.wf(),
            lookup@ == (LookupView {
                method: Method::Get,
                url: url@,
                cache: None,
                ignore_cache: self@.ignore_cache,
                try_count: self@.try_count as u64,
                stage: Stage::Idle,
                tried: 0,
                body: None,
            }),
    {
        Lookup {
            method: Method::Get,
            url: String::from_str(url),
            cache: None,
            ignore_cache: self.ignore_cache(),
            try_count: self.try_count(),
            stage: Stage::Idle,
            tried: 0,
            body: None,
        }
    }

    /// A POST to `url`, not begun. The form that it carries is the matter of
    /// who sends it.
    pub fn post(&self, url: &str) -> (lookup: Lookup)
        ensures
            lookup.wf(),
            lookup@ == (LookupView {
                method: Method::Post,
                url: url@,
                cache: None,
                ignore_cache: self@.ignore_cache,
                try_count: self@.try_count as u64,
                stage: Stage::Idle,
                tried: 0,
                body: None,
            }),
    {
        Lookup {
            method: Method::Post,
            url: String::from_str(url),
            cache: None,
            ignore_cache: self.ignore_cache(),
            try_count: self.try_count(),
            stage: Stage::Idle,
            tried: 0,
            body: None,
        }
    }

    /// A GET of `url` through the response cache, not begun: a cached copy
    /// that is younger than `cache_time` nanoseconds answers it.
    pub fn get_cached(&self, url: &str, cache_time: u128) -> (lookup: Lookup)
        ensures
            lookup.wf(),
            lookup@ == (LookupView {
                method: Method::Get,
                url: url@,
                cache: Some((joined_path(self@.cache_dir, sha256_hex(url@)), cache_time)),
                ignore_cache: self@.ignore_cache,
                try_count: self@.try_count as u64,
                stage: Stage::Idle,
                tried: 0,
                body: None,
            }),
    {
        Lookup {
            method: Method::Get,
            url: String::from_str(url),
            cache: Some((self.get_cache_path(url), cache_time)),
            ignore_cache: self.ignore_cache(),
            try_count: self.try_count(),
            stage: Stage::Idle,
            tried: 0,
            body: None,
        }
    }
}

impl Lookup {
    /// A GET of `url` through the cache file `path`, not begun: a copy in the
    /// file that is younger than `cache_time` nanoseconds answers it unless
    /// the cache is passed over, and `try_count` limits the attempts (0: no
    /// limit).
    pub fn cached(url: &str, path: String, cache_time: u128, ignore_cache: bool, try_count: u64) -> (lookup:
        Lookup)
        ensures
            lookup.wf(),
            lookup@ == (LookupView {
                method: Method::Get,
                url: url@,
                cache: Some((path@, cache_time)),
                ignore_cache,
                try_count,
                stage: Stage::Idle,
                tried: 0,
                body: None,
            }),
    {
        Lookup {
            method: Method::Get,
            url: String::from_str(url),
            cache: Some((path, cache_time)),
            ignore_cache,
            try_count,
            stage: Stage::Idle,
            tried: 0,
            body: None,
        }
    }

    /// The request is consistent: it looks at the cache only where it has
    /// one, and holds the body while the body is written.
    pub closed spec fn wf(&self) -> bool {
        &&& (self.stage == Stage::Aging || self.stage == Stage::Reading || self.stage
            == Stage::Writing) ==> self.cache is Some
        &&& self.stage == Stage::Writing ==> self.body is Some
    }

    /// Where the request stands.
    pub fn stage(&self) -> (stage: Stage)
        ensures
            stage == self@.stage,
    {
        self.stage
    }

    fn send(&self) -> (action: Action)
        ensures
            self@.sends(action),
    {
        Action::Send { method: self.method, url: self.url.clone() }
    }

    /// Takes a report and says what is to be done next.
    ///
    /// A request through the cache first asks for the age of the cached
    /// copy, unless the cache is passed over, and reads the copy where it
    /// is young enough; a copy that cannot be read is no error. In every
    /// other case the request is sent. A response with a success status
    /// ends it with the body, which is written to the cache first where the
    /// request goes through the cache. A response with any other status
    /// ends it with `ResponseFailed`, whatever attempts are left. A failure
    /// in transport leads to another attempt while the limit allows one,
    /// and to `RequestOutOfTry` otherwise.
    pub fn step(&mut self, event: Event) -> (action: Action)
        requires
            old(self).wf(),
        ensures
            final(self).wf(),
            old(self)@.follows(event, final(self)@, action),
            action matches Action::Read(_) ==> (event matches Event::Modified { modified, now }
                && old(self)@.cache matches Some(entry) && age_of(modified, now) matches Some(age)
                && age < entry.1),
    {
        match (self.stage, event) {
            (Stage::Idle, Event::Begin) => {
                if self.ignore_cache {
                    self.stage = Stage::Fetching;
                    return self.send();
                }
                match &self.cache {
                    Some(entry) => {
                        self.stage = Stage::Aging;
                        Action::Stat(entry.0.clone())
                    },
                    None => {
                        self.stage = Stage::Fetching;
                        self.send()
                    },
                }
            },
            (Stage::Aging, Event::Modified { modified, now }) => {
                let age = Requestor::modifie_time(modified, now);
                let path = match &self.cache {
                    Some(entry) => if Requestor::cache_step(self.ignore_cache, age, entry.1) {
                        Some(entry.0.clone())
                    } else {
                        None
                    },
                    None => None,
                };
                match path {
                    Some(path) => {
                        self.stage = Stage::Reading;
                        Action::Read(path)
                    },
                    None => {
                        self.stage = Stage::Fetching;
                        self.send()
                    },
                }
            },
            (Stage::Reading, Event::Read(Ok(content))) => {
                self.stage = Stage::Closed;
                Action::Return(Ok(content))
            },
            (Stage::Reading, Event::Read(Err(_))) => {
                self.stage = Stage::Fetching;
                self.send()
            },
            (Stage::Fetching, Event::Response(Ok(response))) => {
                match Requestor::base_request(response.0, response.1) {
                    Ok(body) => match &self.cache {
                        Some(entry) => {
                            let path = entry.0.clone();
                            self.body = Some(body.clone());
                            self.stage = Stage::Writing;
                            Action::Write { path, content: body }
                        },
                        None => {
                            self.stage = Stage::Closed;
                            Action::Return(Ok(body))
                        },
                    },
                    Err(e) => {
                        self.stage = Stage::Closed;
                        Action::Return(Err(e))
                    },
                }
            },
            (Stage::Fetching, Event::Response(Err(words))) => {
                match Requestor::request_step(
                    self.try_count,
                    self.tried,
                    Err(Error::RequestError(words)),
                ) {
                    RequestStep::Retry => {
                        self.tried = if self.tried < u64::MAX {
                            self.tried + 1
                        } else {
                            self.tried
                        };
                        self.send()
                    },
                    RequestStep::Finished(result) => {
                        self.stage = Stage::Closed;
                        Action::Return(result)
                    },
                }
            },
            (Stage::Writing, Event::Written) => {
                self.stage = Stage::Closed;
                match &self.body {
                    Some(body) => Action::Return(Ok(body.clone())),
                    None => Action::Ignored,
                }
            },
            _ => Action::Ignored,
        }
    }
}

} // verus!
