//! The rules of the HTTP client wrapper: which attempt ends a request and
//! how, where a response is cached, and when a cached response is served.

use crate::digest::{digest, sha256_hex};
use crate::error::Error;
use crate::text::{join_path, joined_path};
use std::sync::Arc;
use vstd::prelude::*;

verus! {

/// What follows an attempt.
#[derive(Debug)]
pub enum RequestStep {
    /// The request is over, with this result.
    Finished(Result<String, Error>),
    /// The request is to be attempted again.
    Retry,
}

/// Whether an HTTP status reports success.
pub open spec fn is_success(status: u16) -> bool {
    200 <= status <= 299
}

/// Number of attempts made once one more has been made; the count does not
/// run past the largest number.
pub open spec fn one_more(tried: u64) -> u64 {
    if tried < u64::MAX {
        (tried + 1) as u64
    } else {
        tried
    }
}

/// Whether a request that failed in transport `failed` times is attempted
/// again under the limit `try_count`; a limit of 0 is no limit.
pub open spec fn tries_left(try_count: u64, failed: u64) -> bool {
    try_count == 0 || failed < try_count
}

/// Whether the cached copy is served: the cache is in use, the copy exists
/// (`age` is the time since it was written) and it is younger than
/// `cache_time`.
pub open spec fn serves_cache(ignore_cache: bool, age: Option<u128>, cache_time: u128) -> bool {
    !ignore_cache && (age matches Some(a) && a < cache_time)
}

/// The time for which a fetched page or playlist is served from the cache:
/// 30 days, in nanoseconds.
pub const RESOURCE_CACHE_TIME: u128 = 2_592_000_000_000_000;

/// The headers of a requestor that no others were given to, as pairs of name
/// and value.
pub open spec fn default_headers() -> Seq<(Seq<char>, Seq<char>)> {
    seq![
        ("content-type"@, "text/html"@),
        (
            "user-agent"@,
            "Mozilla/5.0 (Windows NT 10.0; Win64; x64) AppleWebKit/537.36 (KHTML, like Gecko) Chrome/58.0.3029.110 Safari/537.36"@,
        ),
        ("accept-encoding"@, "gzip, deflate, br"@),
        ("accept-language"@, "zh-CN,zh;q=0.8,en;q=0.6"@),
        ("connection"@, "keep-alive"@),
    ]
}

/// The views of a list of headers.
pub open spec fn header_views(headers: Seq<(String, String)>) -> Seq<(Seq<char>, Seq<char>)> {
    Seq::new(headers.len(), |i: int| (headers[i].0@, headers[i].1@))
}

/// What a requestor, or its builder, holds.
pub struct RequestorView {
    pub headers: Seq<(Seq<char>, Seq<char>)>,
    pub cache_dir: Seq<char>,
    pub timeout: nat,
    pub try_count: nat,
    pub ignore_cache: bool,
}

impl RequestorView {
    /// The settings of a builder that nothing was set on: the default
    /// headers, the cache in `.cache`, 30 seconds for an attempt, 3 attempts,
    /// the cache in use.
    pub open spec fn initial() -> RequestorView {
        RequestorView {
            headers: default_headers(),
            cache_dir: ".cache"@,
            timeout: 30,
            try_count: 3,
            ignore_cache: false,
        }
    }
}

/// The settings of the HTTP client and the rules it follows.
#[derive(Debug)]
pub struct Requestor {
    headers: Vec<(String, String)>,
    cache_dir: String,
    timeout: u64,
    try_count: u64,
    ignore_cache: bool,
}

impl View for Requestor {
    type V = RequestorView;

    closed spec fn view(&self) -> RequestorView {
        RequestorView {
            headers: header_views(self.headers@),
            cache_dir: self.cache_dir@,
            timeout: self.timeout as nat,
            try_count: self.try_count as nat,
            ignore_cache: self.ignore_cache,
        }
    }
}

fn copy_headers(headers: &Vec<(String, String)>) -> (copy: Vec<(String, String)>)
    ensures
        header_views(copy@) == header_views(headers@),
{
    let mut copy: Vec<(String, String)> = Vec::new();
    let mut i: usize = 0;
    while i < headers.len()
        invariant
            i <= headers.len(),
            copy.len() == i,
            forall|k: int|
                0 <= k < i ==> (#[trigger] copy@[k]).0@ == headers@[k].0@ && copy@[k].1@
                    == headers@[k].1@,
        decreases headers.len() - i,
    {
        copy.push((headers[i].0.clone(), headers[i].1.clone()));
        i += 1;
    }
    assert(header_views(copy@) =~= header_views(headers@));
    copy
}

impl Requestor {
    /// The headers that every request carries.
    pub fn headers(&self) -> (headers: &Vec<(String, String)>)
        ensures
            header_views(headers@) == self@.headers,
    {
        &self.headers
    }

    /// The directory that holds cached bodies.
    pub fn cache_dir(&self) -> (dir: &str)
        ensures
            dir@ == self@.cache_dir,
    {
        self.cache_dir.as_str()
    }

    /// The timeout of one attempt, in seconds.
    pub fn timeout(&self) -> (seconds: u64)
        ensures
            seconds == self@.timeout,
    {
        self.timeout
    }

    /// The limit on the attempts of one request; 0: no limit.
    pub fn try_count(&self) -> (count: u64)
        ensures
            count == self@.try_count,
    {
        self.try_count
    }

    /// Whether the cache is passed over.
    pub fn ignore_cache(&self) -> (ignore: bool)
        ensures
            ignore == self@.ignore_cache,
    {
        self.ignore_cache
    }

    /// What a response amounts to: its body where the status reports
    /// success, the error `ResponseFailed` with the status otherwise.
    pub fn base_request(status: u16, text: String) -> (r: Result<String, Error>)
        ensures
            is_success(status) ==> (r matches Ok(body) && body@ == text@),
            !is_success(status) ==> (r matches Err(Error::ResponseFailed(s)) && s == status),
    {
        if 200 <= status && status <= 299 {
            Ok(text)
        } else {
            Err(Error::ResponseFailed(status))
        }
    }

    /// What follows an attempt that was made after `tried` earlier ones had
    /// failed, under the limit `try_count` on attempts (0: no limit). A body
    /// ends the request. The error `ResponseFailed` ends it too, whatever
    /// attempts are left: a refusal by the server is not tried again. Any
    /// other error leads to another attempt while the limit allows one, and
    /// to `RequestOutOfTry` with the number of attempts made otherwise.
    pub fn request_step(try_count: u64, tried: u64, outcome: Result<String, Error>) -> (step:
        RequestStep)
        ensures
            match outcome {
                Ok(text) => step matches RequestStep::Finished(Ok(body)) && body@ == text@,
                Err(Error::ResponseFailed(status)) => step matches RequestStep::Finished(
                    Err(Error::ResponseFailed(s)),
                ) && s == status,
                Err(_) => if tries_left(try_count, one_more(tried)) {
                    step is Retry
                } else {
                    step matches RequestStep::Finished(Err(Error::RequestOutOfTry(n))) && n
                        == one_more(tried)
                },
            },
    {
        match outcome {
            Ok(text) => RequestStep::Finished(Ok(text)),
            Err(Error::ResponseFailed(status)) => RequestStep::Finished(
                Err(Error::ResponseFailed(status)),
            ),
            Err(_) => {
                let failed: u64 = if tried < u64::MAX {
                    tried + 1
                } else {
                    tried
                };
                if try_count == 0 || failed < try_count {
                    RequestStep::Retry
                } else {
                    RequestStep::Finished(Err(Error::RequestOutOfTry(failed)))
                }
            },
        }
    }

    /// What follows an attempt of a GET that was made after `tried` earlier
    /// ones had failed, under the limit of this requestor.
    pub fn request(&self, tried: u64, outcome: Result<String, Error>) -> (step: RequestStep)
        ensures
            match outcome {
                Ok(text) => step matches RequestStep::Finished(Ok(body)) && body@ == text@,
                Err(Error::ResponseFailed(status)) => step matches RequestStep::Finished(
                    Err(Error::ResponseFailed(s)),
                ) && s == status,
                Err(_) => if tries_left(self@.try_count as u64, one_more(tried)) {
                    step is Retry
                } else {
                    step matches RequestStep::Finished(Err(Error::RequestOutOfTry(n))) && n
                        == one_more(tried)
                },
            },
    {
        Self::request_step(self.try_count, tried, outcome)
    }

    /// What follows an attempt of a POST: the rules are those of a GET.
    pub fn post_request(&self, tried: u64, outcome: Result<String, Error>) -> (step: RequestStep)
        ensures
            match outcome {
                Ok(text) => step matches RequestStep::Finished(Ok(body)) && body@ == text@,
                Err(Error::ResponseFailed(status)) => step matches RequestStep::Finished(
                    Err(Error::ResponseFailed(s)),
                ) && s == status,
                Err(_) => if tries_left(self@.try_count as u64, one_more(tried)) {
                    step is Retry
                } else {
                    step matches RequestStep::Finished(Err(Error::RequestOutOfTry(n))) && n
                        == one_more(tried)
                },
            },
    {
        self.request(tried, outcome)
    }

    /// The file that holds the cached body of `url`: inside the cache
    /// directory, named by the digest of the URL.
    pub fn get_cache_path(&self, url: &str) -> (path: String)
        ensures
            path@ == joined_path(self@.cache_dir, sha256_hex(url@)),
    {
        let name = digest(url);
        join_path(self.cache_dir.as_str(), name.as_str())
    }

    /// The age of a cached copy: the time from `modified`, when it was
    /// written, to `now`, both in nanoseconds since the same instant. There is
    /// no age where there is no copy (`modified` is `None`) or where the copy
    /// claims to be written after `now`.
    pub fn modifie_time(modified: Option<u128>, now: u128) -> (age: Option<u128>)
        ensures
            age == match modified {
                Some(written) => if written <= now {
                    Some((now - written) as u128)
                } else {
                    None
                },
                None => None,
            },
    {
        match modified {
            Some(written) => if written <= now {
                Some(now - written)
            } else {
                None
            },
            None => None,
        }
    }

    /// Whether a copy of the age `age` (`None`: there is no copy) answers a
    /// request that serves cached copies for `cache_time`: the cache is in
    /// use, the copy exists, and its age is below `cache_time`.
    pub fn cache_step(ignore_cache: bool, age: Option<u128>, cache_time: u128) -> (cached: bool)
        ensures
            cached == serves_cache(ignore_cache, age, cache_time),
            cached ==> (age is Some && age->0 < cache_time),
    {
        if ignore_cache {
            return false;
        }
        match age {
            Some(a) => a < cache_time,
            None => false,
        }
    }

    /// Whether a request of this requestor is answered from the cache: the
    /// cache is in use, the copy exists, and its age is below `cache_time`.
    /// In every other case the body is fetched, and the fetched body
    /// replaces the copy.
    pub fn request_with_cache(&self, age: Option<u128>, cache_time: u128) -> (cached: bool)
        ensures
            cached == serves_cache(self@.ignore_cache, age, cache_time),
            cached ==> (age is Some && age->0 < cache_time),
    {
        Self::cache_step(self.ignore_cache, age, cache_time)
    }
}

/// Collects the settings of a requestor before it is built.
pub struct RequestorBuilder {
    headers: Vec<(String, String)>,
    cache_dir: String,
    timeout: u64,
    try_count: u64,
    ignore_cache: bool,
}

impl View for RequestorBuilder {
    type V = RequestorView;

    closed spec fn view(&self) -> RequestorView {
        RequestorView {
            headers: header_views(self.headers@),
            cache_dir: self.cache_dir@,
            timeout: self.timeout as nat,
            try_count: self.try_count as nat,
            ignore_cache: self.ignore_cache,
        }
    }
}

impl Default for RequestorBuilder {
    fn default() -> (b: Self)
        ensures
            b@ == RequestorView::initial(),
    {
        let mut headers: Vec<(String, String)> = Vec::new();
        headers.push((String::from_str("content-type"), String::from_str("text/html")));
        headers.push(
            (
                String::from_str("user-agent"),
                String::from_str(
                    "Mozilla/5.0 (Windows NT 10.0; Win64; x64) AppleWebKit/537.36 (KHTML, like Gecko) Chrome/58.0.3029.110 Safari/537.36",
                ),
            ),
        );
        headers.push(
            (String::from_str("accept-encoding"), String::from_str("gzip, deflate, br")),
        );
        headers.push(
            (String::from_str("accept-language"), String::from_str("zh-CN,zh;q=0.8,en;q=0.6")),
        );
        headers.push((String::from_str("connection"), String::from_str("keep-alive")));
        assert(header_views(headers@) =~= default_headers());
        RequestorBuilder {
            headers,
            cache_dir: String::from_str(".cache"),
            timeout: 30,
            try_count: 3,
            ignore_cache: false,
        }
    }
}

impl RequestorBuilder {
    /// A builder with the default settings.
    pub fn new() -> (b: Self)
        ensures
            b@ == RequestorView::initial(),
    {
        Self::default()
    }

    /// Replaces the headers that every request carries.
    pub fn headers(&mut self, headers: Vec<(String, String)>) -> (b: &mut Self)
        ensures
            b@ == (RequestorView { headers: header_views(headers@), ..old(self)@ }),
            *final(self) == *final(b),
    {
        self.headers = headers;
        self
    }

    /// Sets the directory that holds cached bodies.
    pub fn cache_dir(&mut self, cache_dir: &str) -> (b: &mut Self)
        ensures
            b@ == (RequestorView { cache_dir: cache_dir@, ..old(self)@ }),
            *final(self) == *final(b),
    {
        self.cache_dir = String::from_str(cache_dir);
        self
    }

    /// Sets the timeout of one attempt, in seconds.
    pub fn timeout(&mut self, timeout: u64) -> (b: &mut Self)
        ensures
            b@ == (RequestorView { timeout: timeout as nat, ..old(self)@ }),
            *final(self) == *final(b),
    {
        self.timeout = timeout;
        self
    }

    /// Sets how many attempts a request is given; 0: as many as it takes.
    pub fn try_count(&mut self, count: u64) -> (b: &mut Self)
        ensures
            b@ == (RequestorView { try_count: count as nat, ..old(self)@ }),
            *final(self) == *final(b),
    {
        self.try_count = count;
        self
    }

    /// Sets whether the cache is passed over.
    pub fn ignore_cache(&mut self, ignore: bool) -> (b: &mut Self)
        ensures
            b@ == (RequestorView { ignore_cache: ignore, ..old(self)@ }),
            *final(self) == *final(b),
    {
        self.ignore_cache = ignore;
        self
    }

    /// A requestor with the settings collected so far.
    pub fn build(&self) -> (requestor: Arc<Requestor>)
        ensures
            requestor@ == self@,
    {
        Arc::new(
            Requestor {
                headers: copy_headers(&self.headers),
                cache_dir: self.cache_dir.clone(),
                timeout: self.timeout,
                try_count: self.try_count,
                ignore_cache: self.ignore_cache,
            },
        )
    }
}

} // verus!
