//! One media segment of a job and the state it is in.

use crate::cipher::{AesKey, AesKeyView};
use vstd::prelude::*;

verus! {

/// Where a segment stands between planning and the end of the job.
#[derive(Clone, Copy, PartialEq, Eq, Debug, Structural)]
pub enum SegmentState {
    /// Planned from the playlist; nothing decided yet.
    New,
    /// Waiting for a permit to download.
    Pending,
    /// A download task is running.
    InFlight,
    /// The file is complete on disk.
    Done,
    /// Given up after the last permitted retry.
    Failed,
}

/// One segment of the playlist.
#[derive(Debug)]
pub struct Segment {
    pub uri: String,
    pub save_file: String,
    pub try_count: i64,
    pub state: SegmentState,
    pub key: Option<AesKey>,
}

/// What a [`Segment`] holds.
pub struct SegmentView {
    pub uri: Seq<char>,
    pub save_file: Seq<char>,
    pub try_count: int,
    pub state: SegmentState,
    pub key: Option<AesKeyView>,
}

/// The view of an optional key.
pub open spec fn key_of(key: Option<AesKey>) -> Option<AesKeyView> {
    match key {
        Some(k) => Some(k@),
        None => None,
    }
}

impl View for Segment {
    type V = SegmentView;

    open spec fn view(&self) -> SegmentView {
        SegmentView {
            uri: self.uri@,
            save_file: self.save_file@,
            try_count: self.try_count as int,
            state: self.state,
            key: key_of(self.key),
        }
    }
}

impl Segment {
    /// A segment as planning leaves it: never tried, nothing decided.
    pub fn new(uri: &str, save_file: &str, key: Option<AesKey>) -> (s: Self)
        ensures
            s@ == (SegmentView {
                uri: uri@,
                save_file: save_file@,
                try_count: 0,
                state: SegmentState::New,
                key: key_of(key),
            }),
    {
        Segment {
            uri: String::from_str(uri),
            save_file: String::from_str(save_file),
            try_count: 0,
            state: SegmentState::New,
            key,
        }
    }

    /// Whether the segment's file is complete on disk.
    pub fn success(&self) -> (r: bool)
        ensures
            r == (self@.state == SegmentState::Done),
    {
        self.state == SegmentState::Done
    }
}

} // verus!
