//! The two download engines: segmented streams and progressive files.

pub mod m3u8;
pub mod mp4;
pub mod run;

pub use crate::error::DownloadError;
pub use m3u8::{M3U8Download, M3U8DownloadBuilder};
pub use mp4::{MP4Download, MP4DownloadBuilder};
