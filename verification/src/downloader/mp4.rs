//! The job that downloads one progressive file: its settings and the rules
//! of its size query, its progress and its retries.

use crate::error::DownloadError;
use crate::request::is_success;
use crate::text::{parse_u64, parsed_u64, text_view};
use vstd::prelude::*;

verus! {

/// What a progressive download, or its builder, holds.
pub struct FileJobView {
    pub uri: Seq<char>,
    pub save_file: Seq<char>,
    pub try_count: int,
    pub timeout: nat,
}

impl FileJobView {
    /// The settings of a builder that nothing was set on: no URI and no
    /// output yet, retries without limit, no timeout.
    pub open spec fn initial() -> FileJobView {
        FileJobView { uri: Seq::empty(), save_file: Seq::empty(), try_count: -1, timeout: 0 }
    }

    /// Whether a download that failed in transport is attempted again after
    /// `tried` retries: always under a negative limit, else while fewer
    /// retries were made than the limit allows.
    pub open spec fn retries(self, tried: int) -> bool {
        self.try_count < 0 || tried < self.try_count
    }
}

/// The size that the answer to a size query tells: the number in its
/// `Content-Length` header, where its status reports success.
pub open spec fn total_size(status: u16, content_length: Option<Seq<char>>) -> Option<u64> {
    if is_success(status) {
        match content_length {
            Some(text) => parsed_u64(text),
            None => None,
        }
    } else {
        None
    }
}

/// The number of retries after one more; it does not run past the largest number.
pub open spec fn next_try(tried: i64) -> i64 {
    if tried < i64::MAX {
        (tried + 1) as i64
    } else {
        tried
    }
}

/// The download of one progressive file.
#[derive(Debug)]
pub struct MP4Download {
    uri: String,
    save_file: String,
    try_count: i64,
    timeout: u64,
}

impl View for MP4Download {
    type V = FileJobView;

    closed spec fn view(&self) -> FileJobView {
        FileJobView {
            uri: self.uri@,
            save_file: self.save_file@,
            try_count: self.try_count as int,
            timeout: self.timeout as nat,
        }
    }
}

impl MP4Download {
    /// The URL to download from.
    pub fn uri(&self) -> (uri: &str)
        ensures
            uri@ == self@.uri,
    {
        self.uri.as_str()
    }

    /// The path of the output file.
    pub fn save_file(&self) -> (path: &str)
        ensures
            path@ == self@.save_file,
    {
        self.save_file.as_str()
    }

    /// The timeout of the request in seconds; 0: none.
    pub fn timeout(&self) -> (seconds: u64)
        ensures
            seconds == self@.timeout,
    {
        self.timeout
    }

    /// A number of bytes in whole mebibytes, the unit of the progress.
    pub fn byte2mb(size: u64) -> (mb: u64)
        ensures
            mb == size / 1024 / 1024,
    {
        size / 1024 / 1024
    }

    /// The size of the file, from the answer to the size query: the number
    /// in the `Content-Length` header of a response whose status reports
    /// success. Fails with `GetContentSize` for any other status, and where
    /// the header is missing or holds no number.
    pub fn get_total_size(status: u16, content_length: Option<&str>) -> (r: Result<
        u64,
        DownloadError,
    >)
        ensures
            match total_size(status, text_view(content_length)) {
                Some(size) => r matches Ok(n) && n == size,
                None => r matches Err(DownloadError::GetContentSize),
            },
    {
        if status < 200 || status > 299 {
            return Err(DownloadError::GetContentSize);
        }
        let size = match content_length {
            Some(text) => parse_u64(text),
            None => None,
        };
        match size {
            Some(n) => Ok(n),
            None => Err(DownloadError::GetContentSize),
        }
    }

    /// What follows a failed attempt that was made after `tried` retries. A
    /// failure in transport is tried again while the limit allows it, and
    /// the new number of retries is returned; any other error, and a failure
    /// in transport beyond the limit, ends the download with that error.
    pub fn download(&self, tried: i64, error: DownloadError) -> (r: Result<i64, DownloadError>)
        ensures
            (error is Reqwest && self@.retries(tried as int)) ==> r == Ok::<i64, DownloadError>(
                next_try(tried),
            ),
            !(error is Reqwest && self@.retries(tried as int)) ==> r == Err::<i64, DownloadError>(
                error,
            ),
    {
        if error.is_transport() && (self.try_count < 0 || tried < self.try_count) {
            if tried < i64::MAX {
                Ok(tried + 1)
            } else {
                Ok(tried)
            }
        } else {
            Err(error)
        }
    }
}

/// Collects the settings of a progressive download before it is built.
pub struct MP4DownloadBuilder {
    uri: String,
    save_file: String,
    try_count: i64,
    timeout: u64,
}

impl View for MP4DownloadBuilder {
    type V = FileJobView;

    closed spec fn view(&self) -> FileJobView {
        FileJobView {
            uri: self.uri@,
            save_file: self.save_file@,
            try_count: self.try_count as int,
            timeout: self.timeout as nat,
        }
    }
}

impl MP4DownloadBuilder {
    /// A builder with the default settings.
    pub fn new() -> (b: Self)
        ensures
            b@ == FileJobView::initial(),
    {
        MP4DownloadBuilder {
            uri: String::new(),
            save_file: String::new(),
            try_count: -1,
            timeout: 0,
        }
    }

    /// Sets the URL to download from.
    pub fn uri(&mut self, uri: &str) -> (b: &mut Self)
        ensures
            b@ == (FileJobView { uri: uri@, ..old(self)@ }),
            *final(self) == *final(b),
    {
        self.uri = String::from_str(uri);
        self
    }

    /// Sets the path of the output file.
    pub fn save_file(&mut self, save: &str) -> (b: &mut Self)
        ensures
            b@ == (FileJobView { save_file: save@, ..old(self)@ }),
            *final(self) == *final(b),
    {
        self.save_file = String::from_str(save);
        self
    }

    /// Sets how often a failed download is tried again; negative: without limit.
    pub fn try_count(&mut self, count: i64) -> (b: &mut Self)
        ensures
            b@ == (FileJobView { try_count: count as int, ..old(self)@ }),
            *final(self) == *final(b),
    {
        self.try_count = count;
        self
    }

    /// Sets the timeout of the request in seconds; 0: none.
    pub fn timeout(&mut self, second: u64) -> (b: &mut Self)
        ensures
            b@ == (FileJobView { timeout: second as nat, ..old(self)@ }),
            *final(self) == *final(b),
    {
        self.timeout = second;
        self
    }

    /// A download with the settings collected so far; the builder keeps them.
    pub fn build(&mut self) -> (job: MP4Download)
        ensures
            final(self)@ == old(self)@,
            job@ == old(self)@,
    {
        MP4Download {
            uri: self.uri.clone(),
            save_file: self.save_file.clone(),
            try_count: self.try_count,
            timeout: self.timeout,
        }
    }
}

} // verus!
