//! What the commands decide: which sites a search visits, how a download
//! is configured, and how the files of a group of episodes are named.

use crate::args::Src;
use crate::catalog::{URIType, Uri};
use crate::downloader::m3u8::{M3U8Download, M3U8DownloadBuilder, SettingsView};
use crate::downloader::mp4::{FileJobView, MP4Download, MP4DownloadBuilder};
use crate::error::{CommandError, DownloadError, Error};
use crate::text::{decimal, join_path, joined_path, u64_to_string};
use vstd::prelude::*;

verus! {

/// How the stream of an episode is downloaded.
pub enum Fetch {
    /// As a segmented stream, by this job.
    Stream(M3U8Download),
    /// As a progressive file, by this job.
    File(MP4Download),
    /// Not at all: the kind of the stream is not known.
    Unsupported,
}

/// The sites that a search visits, in this order: all of them, or the one
/// that was chosen.
pub fn search(src: Src, all: bool) -> (sites: Vec<Src>)
    ensures
        all ==> sites@ == seq![Src::ZBKYYY, Src::IJUJITV, Src::JUGOUGOU],
        !all ==> sites@ == seq![src],
{
    let mut sites: Vec<Src> = Vec::new();
    if all {
        sites.push(Src::ZBKYYY);
        sites.push(Src::IJUJITV);
        sites.push(Src::JUGOUGOU);
    } else {
        sites.push(src);
    }
    sites
}

/// The job of a direct download of the playlist at `url` into `output`:
/// five seconds for a segment request, files in the cache not trusted.
pub fn m3u8_download(url: &str, output: &str, climit: usize) -> (job: M3U8Download)
    ensures
        job.wf(),
        job@ == (SettingsView {
            uri: url@,
            save_file: output@,
            timeout: 5,
            climit: climit as nat,
            ignore_cache: true,
            ..SettingsView::initial()
        }).job(),
{
    let mut builder = M3U8DownloadBuilder::new();
    builder.uri(url).save_file(output).timeout(5).climit(climit).ignore_cache(true);
    builder.build()
}

/// What a command returns for the verdict of a download: success for
/// success, and the error of the job as the error of the command.
pub fn verdict(result: Result<(), DownloadError>) -> (r: Result<(), CommandError>)
    ensures
        match result {
            Ok(_) => r is Ok,
            Err(e) => r == Err::<(), CommandError>(CommandError::M3U8DownloadError(e)),
        },
{
    match result {
        Ok(_) => Ok(()),
        Err(e) => Err(CommandError::M3U8DownloadError(e)),
    }
}

/// What a command returns for the result of searching or resolving: success
/// for success, and the error of the resolver as the error of the command.
pub fn resolved(result: Result<(), Error>) -> (r: Result<(), CommandError>)
    ensures
        match result {
            Ok(_) => r is Ok,
            Err(e) => r == Err::<(), CommandError>(CommandError::ParserResourceError(e)),
        },
{
    match result {
        Ok(_) => Ok(()),
        Err(e) => Err(CommandError::ParserResourceError(e)),
    }
}

/// The job that downloads the resolved stream of an episode into
/// `save_file`, by the kind of the stream: three seconds for a request, and
/// for a segmented stream `climit` downloads at once.
pub fn download(uri: &Uri, save_file: &str, climit: usize) -> (fetch: Fetch)
    ensures
        match uri@.utype {
            URIType::M3U8 => fetch matches Fetch::Stream(job) && job.wf() && job@ == (SettingsView {
                uri: uri@.uri,
                save_file: save_file@,
                timeout: 3,
                climit: climit as nat,
                ..SettingsView::initial()
            }).job(),
            URIType::MP4 => fetch matches Fetch::File(job) && job@ == (FileJobView {
                uri: uri@.uri,
                save_file: save_file@,
                timeout: 3,
                ..FileJobView::initial()
            }),
            URIType::UNKNOWN => fetch is Unsupported,
        },
{
    match uri.utype {
        URIType::M3U8 => {
            let mut builder = M3U8DownloadBuilder::new();
            builder.uri(uri.uri.as_str()).timeout(3).climit(climit).save_file(save_file);
            Fetch::Stream(builder.build())
        },
        URIType::MP4 => {
            let mut builder = MP4DownloadBuilder::new();
            builder.uri(uri.uri.as_str()).timeout(3).save_file(save_file);
            Fetch::File(builder.build())
        },
        URIType::UNKNOWN => Fetch::Unsupported,
    }
}

/// The position in the list of groups that the command line means by
/// `index`, which counts from 1; `None` where there is no such group.
pub fn episode_group(index: usize, groups: usize) -> (position: Option<usize>)
    ensures
        position == if 1 <= index <= groups {
            Some((index - 1) as usize)
        } else {
            None
        },
{
    if 1 <= index && index <= groups {
        Some(index - 1)
    } else {
        None
    }
}

/// The directory that a download goes to: the one that was given, else one
/// named by the title of the entry.
pub fn save_dir(given: &Option<String>, title: &str) -> (dir: String)
    ensures
        dir@ == match given {
            Some(path) => path@,
            None => title@,
        },
{
    match given {
        Some(path) => path.clone(),
        None => String::from_str(title),
    }
}

/// The file of the episode `name` inside `dir`.
pub open spec fn episode_path(dir: Seq<char>, name: Seq<char>) -> Seq<char> {
    joined_path(dir, name + ".mp4"@)
}

/// The file that the episode `name` is downloaded to inside `dir`.
pub fn episode_file(dir: &str, name: &str) -> (path: String)
    ensures
        path@ == episode_path(dir@, name@),
{
    let file = String::from_str(name).concat(".mp4");
    join_path(dir, file.as_str())
}

/// `n` in decimal, with a leading zero where it has one digit.
pub open spec fn two_digits(n: nat) -> Seq<char> {
    if n < 10 {
        "0"@ + decimal(n)
    } else {
        decimal(n)
    }
}

/// The prefix of a progress line: the position among `total`, counted from 1.
pub open spec fn prefix_text(position: nat, total: nat) -> Seq<char> {
    two_digits(position) + "/"@ + two_digits(total)
}

fn push_two_digits(out: &mut String, n: u64)
    ensures
        final(out)@ == old(out)@ + two_digits(n as nat),
{
    let number = u64_to_string(n);
    if n < 10 {
        out.append("0");
    }
    out.append(number.as_str());
    assert(final(out)@ =~= old(out)@ + two_digits(n as nat));
}

/// The prefix that the progress line of an episode carries.
pub fn progress_prefix(position: u64, total: u64) -> (prefix: String)
    ensures
        prefix@ == prefix_text(position as nat, total as nat),
{
    let mut prefix = String::new();
    push_two_digits(&mut prefix, position);
    prefix.append("/");
    push_two_digits(&mut prefix, total);
    assert(prefix@ =~= prefix_text(position as nat, total as nat));
    prefix
}

} // verus!
