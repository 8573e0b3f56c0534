//! Error kinds of the download engine, of the resolver pipeline and of the
//! commands that drive them.

use crate::text::{decimal, u64_to_string};
use vstd::prelude::*;
use vstd::std_specs::convert::FromSpecImpl;

verus! {

/// Why a download job, or one of its segments, failed.
#[derive(Debug)]
pub enum DownloadError {
    /// The local file system refused an operation; the text says which.
    CreateFile(String),
    /// An HTTP exchange failed in transport; the text says how.
    Reqwest(String),
    /// The playlist URL, or a reference inside the playlist, is malformed.
    URIParse(url::ParseError),
    /// The playlist is no playlist, or it names nothing to download.
    URI,
    /// At least one segment is not done after its retries.
    Incomplete,
    /// The size of a progressive download could not be learned.
    GetContentSize,
    /// A segment request was answered with a status outside 200..=299.
    ResponseFailed(u16),
    /// A segment could not be decrypted, or its padding is malformed.
    Decrypt,
}

impl DownloadError {
    /// The error of a job whose request for a page or playlist has failed
    /// with `e`: a refusal by the server keeps its status, and every other
    /// failure counts as one of the transport and carries the words of `e`.
    pub fn from_request(e: Error) -> (r: DownloadError)
        ensures
            match e {
                Error::ResponseFailed(status) => r matches DownloadError::ResponseFailed(s) && s
                    == status,
                _ => r matches DownloadError::Reqwest(words) && words@ == e.message_text(),
            },
    {
        match e {
            Error::ResponseFailed(status) => DownloadError::ResponseFailed(status),
            other => DownloadError::Reqwest(other.message()),
        }
    }

    /// The text that a diagnostic line shows for this error.
    pub open spec fn message_text(self) -> Seq<char> {
        match self {
            DownloadError::CreateFile(_) => "create file error"@,
            DownloadError::Reqwest(_) => "reqwest error"@,
            DownloadError::URIParse(_) => "reqwest error"@,
            DownloadError::URI => "url invailable"@,
            DownloadError::Incomplete => "download incomplete"@,
            DownloadError::GetContentSize => "get content size error"@,
            DownloadError::ResponseFailed(_) => "response failed"@,
            DownloadError::Decrypt => "decrypt error"@,
        }
    }

    /// The text that a diagnostic line shows for this error.
    pub fn message(&self) -> (s: String)
        ensures
            s@ == self.message_text(),
    {
        match self {
            DownloadError::CreateFile(_) => String::from_str("create file error"),
            DownloadError::Reqwest(_) => String::from_str("reqwest error"),
            DownloadError::URIParse(_) => String::from_str("reqwest error"),
            DownloadError::URI => String::from_str("url invailable"),
            DownloadError::Incomplete => String::from_str("download incomplete"),
            DownloadError::GetContentSize => String::from_str("get content size error"),
            DownloadError::ResponseFailed(_) => String::from_str("response failed"),
            DownloadError::Decrypt => String::from_str("decrypt error"),
        }
    }

    /// Whether the error is a transport failure, the only kind that a
    /// progressive download tries again.
    pub fn is_transport(&self) -> (r: bool)
        ensures
            r == (self is Reqwest),
    {
        match self {
            DownloadError::Reqwest(_) => true,
            _ => false,
        }
    }
}

/// Why a request of the resolver pipeline failed.
#[derive(Debug)]
pub enum Error {
    /// An HTTP exchange failed in transport.
    RequestError(String),
    /// Every permitted attempt failed in transport; the number is that of the attempts.
    RequestOutOfTry(u64),
    /// The server answered with this status, which is outside 200..=299.
    ResponseFailed(u16),
    /// The local file system refused an operation.
    IoError(String),
    /// A page did not have the expected shape.
    ParseError(String),
    /// An embedded JSON message could not be read; the text says why.
    SerdeJsonError(String),
    /// The browser that a resolver drives failed.
    BrowserError,
}

impl Error {
    /// The text that a diagnostic line shows for this error.
    pub open spec fn message_text(self) -> Seq<char> {
        match self {
            Error::RequestError(detail) => "Request error: "@ + detail@,
            Error::RequestOutOfTry(count) => "Request out of try: "@ + decimal(count as nat),
            Error::ResponseFailed(_) => "Response failed"@,
            Error::IoError(detail) => "IO error: "@ + detail@,
            Error::ParseError(detail) => "Parser error: "@ + detail@,
            Error::SerdeJsonError(detail) => "serde json error: "@ + detail@,
            Error::BrowserError => "browser error"@,
        }
    }

    /// The text that a diagnostic line shows for this error.
    pub fn message(&self) -> (s: String)
        ensures
            s@ == self.message_text(),
    {
        match self {
            Error::RequestError(detail) => String::from_str("Request error: ").concat(
                detail.as_str(),
            ),
            Error::RequestOutOfTry(count) => {
                let number = u64_to_string(*count);
                String::from_str("Request out of try: ").concat(number.as_str())
            },
            Error::ResponseFailed(_) => String::from_str("Response failed"),
            Error::IoError(detail) => String::from_str("IO error: ").concat(detail.as_str()),
            Error::ParseError(detail) => String::from_str("Parser error: ").concat(detail.as_str()),
            Error::SerdeJsonError(detail) => String::from_str("serde json error: ").concat(
                detail.as_str(),
            ),
            Error::BrowserError => String::from_str("browser error"),
        }
    }

    /// The error for a selector that the page parser refused, `detail` being
    /// the parser's own words.
    pub fn selector(detail: &str) -> (e: Error)
        ensures
            e matches Error::ParseError(text) && text@ == "Selector error: "@ + detail@,
    {
        Error::ParseError(String::from_str("Selector error: ").concat(detail))
    }
}

/// Why a command failed.
#[derive(Debug)]
pub enum CommandError {
    /// Searching or resolving a catalog entry failed.
    ParserResourceError(Error),
    /// Downloading the stream failed.
    M3U8DownloadError(DownloadError),
}

impl From<Error> for CommandError {
    fn from(e: Error) -> (r: CommandError) {
        CommandError::ParserResourceError(e)
    }
}

impl FromSpecImpl<Error> for CommandError {
    open spec fn obeys_from_spec() -> bool {
        true
    }

    open spec fn from_spec(e: Error) -> CommandError {
        CommandError::ParserResourceError(e)
    }
}

impl From<DownloadError> for CommandError {
    fn from(e: DownloadError) -> (r: CommandError) {
        CommandError::M3U8DownloadError(e)
    }
}

impl FromSpecImpl<DownloadError> for CommandError {
    open spec fn obeys_from_spec() -> bool {
        true
    }

    open spec fn from_spec(e: DownloadError) -> CommandError {
        CommandError::M3U8DownloadError(e)
    }
}

} // verus!
