//! The scheduler of a job as a transition system over plain values, and what
//! holds of every run of it: the bound on concurrent downloads, the fixed
//! order of the plan, and the monotone progress of every segment.

use crate::segment::{SegmentState, SegmentView};
use vstd::prelude::*;

verus! {

/// What the scheduler decides on: the segments with their states, the number
/// of retries a segment is allowed (negative: without limit) and the number
/// of downloads that may run at once.
pub struct Schedule {
    pub segments: Seq<SegmentView>,
    pub retries: int,
    pub climit: nat,
}

/// What can happen to a schedule: a permit is handed out, or the task of the
/// segment `index` reports how it ended.
pub enum Event {
    Start,
    Complete { index: int, ok: bool },
}

/// Number of segments that are in `state`.
pub open spec fn count_in(segments: Seq<SegmentView>, state: SegmentState) -> nat
    decreases segments.len(),
{
    if segments.len() == 0 {
        0
    } else {
        count_in(segments.drop_last(), state) + if segments.last().state == state {
            1nat
        } else {
            0nat
        }
    }
}

/// `segment` moved to `state`, nothing else changed.
pub open spec fn with_state(segment: SegmentView, state: SegmentState) -> SegmentView {
    SegmentView { state, ..segment }
}

/// The retry count after one more failure; it does not run past the largest number.
pub open spec fn bump(count: int) -> int {
    if count < i64::MAX {
        count + 1
    } else {
        count
    }
}

/// Whether the segment `i` waits for a permit.
pub open spec fn is_pending(segments: Seq<SegmentView>, i: int) -> bool {
    0 <= i < segments.len() && segments[i].state == SegmentState::Pending
}

/// Whether `i` is the first segment that waits for a permit.
pub open spec fn first_pending(segments: Seq<SegmentView>, i: int) -> bool {
    is_pending(segments, i) && forall|j: int| is_pending(segments, j) ==> i <= j
}

/// Whether a file of `size` bytes (`None`: no file) stands for a finished
/// download: it exists, it is not empty, and the cache is not ignored.
pub open spec fn reusable(size: Option<u64>, ignore_cache: bool) -> bool {
    !ignore_cache && (size matches Some(n) && n > 0)
}

/// The size that the preflight was told for segment `i`; `None` where it was told none.
pub open spec fn size_at(sizes: Seq<Option<u64>>, i: int) -> Option<u64> {
    if 0 <= i < sizes.len() {
        sizes[i]
    } else {
        None
    }
}

/// The files of the segments, in the order of the plan.
pub open spec fn files(segments: Seq<SegmentView>) -> Seq<Seq<char>> {
    Seq::new(segments.len(), |i: int| segments[i].save_file)
}

/// Whether two lists of segments are the same plan: the same sources, files
/// and keys in the same order, whatever the states and retry counts.
pub open spec fn same_plan(a: Seq<SegmentView>, b: Seq<SegmentView>) -> bool {
    &&& a.len() == b.len()
    &&& forall|i: int|
        0 <= i < a.len() ==> (#[trigger] a[i]).uri == b[i].uri && a[i].save_file == b[i].save_file
            && a[i].key == b[i].key
}

/// Whether `after` is no step back from `before`: what was done stays done,
/// and no retry count has dropped.
pub open spec fn advanced(before: Seq<SegmentView>, after: Seq<SegmentView>) -> bool {
    &&& before.len() == after.len()
    &&& forall|i: int|
        0 <= i < before.len() ==> ((#[trigger] before[i]).state == SegmentState::Done
            ==> after[i].state == SegmentState::Done) && before[i].try_count <= after[i].try_count
}

impl Schedule {
    /// Number of downloads that are running.
    pub open spec fn in_flight(self) -> nat {
        count_in(self.segments, SegmentState::InFlight)
    }

    /// Number of segments whose file is complete: the position of the progress.
    pub open spec fn done(self) -> nat {
        count_in(self.segments, SegmentState::Done)
    }

    /// No more downloads are running than the limit allows.
    pub open spec fn bounded(self) -> bool {
        self.in_flight() <= self.climit
    }

    /// The segment that the next permit goes to: the first that waits, while
    /// fewer downloads are running than the limit allows.
    pub open spec fn next(self) -> Option<int> {
        if self.in_flight() < self.climit && exists|i: int| is_pending(self.segments, i) {
            Some(choose|i: int| first_pending(self.segments, i))
        } else {
            None
        }
    }

    /// The schedule after a permit was asked for.
    pub open spec fn start(self) -> Schedule {
        match self.next() {
            Some(i) => Schedule {
                segments: self.segments.update(
                    i,
                    with_state(self.segments[i], SegmentState::InFlight),
                ),
                ..self
            },
            None => self,
        }
    }

    /// The schedule after `n` permits were asked for, one after the other.
    pub open spec fn start_n(self, n: nat) -> Schedule
        decreases n,
    {
        if n == 0 {
            self
        } else {
            self.start_n((n - 1) as nat).start()
        }
    }

    /// Number of segments that wait for a permit.
    pub open spec fn waiting(self) -> nat {
        count_in(self.segments, SegmentState::Pending)
    }

    /// Whether a task of segment `index` is running.
    pub open spec fn awaited(self, index: int) -> bool {
        0 <= index < self.segments.len() && self.segments[index].state == SegmentState::InFlight
    }

    /// Whether segment `index` may be tried again after a failure.
    pub open spec fn may_retry(self, index: int) -> bool {
        self.retries < 0 || self.segments[index].try_count < self.retries
    }

    /// Segment `index` after its task has reported.
    pub open spec fn settled(self, index: int, ok: bool) -> SegmentView {
        let segment = self.segments[index];
        if ok {
            with_state(segment, SegmentState::Done)
        } else if self.may_retry(index) {
            SegmentView {
                state: SegmentState::Pending,
                try_count: bump(segment.try_count),
                ..segment
            }
        } else {
            with_state(segment, SegmentState::Failed)
        }
    }

    /// The schedule after the task of segment `index` has reported. A report
    /// for a segment that no task runs for changes nothing.
    pub open spec fn complete(self, index: int, ok: bool) -> Schedule {
        if self.awaited(index) {
            Schedule { segments: self.segments.update(index, self.settled(index, ok)), ..self }
        } else {
            self
        }
    }

    /// The schedule after the preflight: every new segment whose file can be
    /// reused is done, every other new segment waits for a permit.
    pub open spec fn preflight(self, sizes: Seq<Option<u64>>, ignore_cache: bool) -> Schedule {
        Schedule {
            segments: Seq::new(
                self.segments.len(),
                |i: int|
                    if self.segments[i].state == SegmentState::New {
                        with_state(
                            self.segments[i],
                            if reusable(size_at(sizes, i), ignore_cache) {
                                SegmentState::Done
                            } else {
                                SegmentState::Pending
                            },
                        )
                    } else {
                        self.segments[i]
                    },
            ),
            ..self
        }
    }

    /// The task set is empty: nothing runs and nothing waits.
    pub open spec fn idle(self) -> bool {
        self.in_flight() == 0 && forall|i: int| !is_pending(self.segments, i)
    }

    /// Every segment is done.
    pub open spec fn intact(self) -> bool {
        forall|i: int| 0 <= i < self.segments.len() ==> (#[trigger] self.segments[i]).state
            == SegmentState::Done
    }

    /// The schedule after one event.
    pub open spec fn step(self, event: Event) -> Schedule {
        match event {
            Event::Start => self.start(),
            Event::Complete { index, ok } => self.complete(index, ok),
        }
    }

    /// The schedule after a sequence of events, in whatever order tasks were
    /// started and have ended.
    pub open spec fn run(self, events: Seq<Event>) -> Schedule
        decreases events.len(),
    {
        if events.len() == 0 {
            self
        } else {
            self.run(events.drop_last()).step(events.last())
        }
    }
}

/// Replacing one segment changes the count of a state by what that segment
/// leaves and what it enters.
pub proof fn lemma_count_update(
    segments: Seq<SegmentView>,
    i: int,
    segment: SegmentView,
    state: SegmentState,
)
    requires
        0 <= i < segments.len(),
    ensures
        count_in(segments.update(i, segment), state) + (if segments[i].state == state {
            1nat
        } else {
            0nat
        }) == count_in(segments, state) + (if segment.state == state {
            1nat
        } else {
            0nat
        }),
    decreases segments.len(),
{
    let changed = segments.update(i, segment);
    if i == segments.len() - 1 {
        assert(changed.drop_last() =~= segments.drop_last());
    } else {
        assert(changed.drop_last() =~= segments.drop_last().update(i, segment));
        lemma_count_update(segments.drop_last(), i, segment, state);
    }
}

/// No more segments are in a state than there are segments, and where none is
/// counted none is in it.
pub proof fn lemma_count_bounds(segments: Seq<SegmentView>, state: SegmentState)
    ensures
        count_in(segments, state) <= segments.len(),
        count_in(segments, state) == 0 <==> forall|i: int|
            0 <= i < segments.len() ==> (#[trigger] segments[i]).state != state,
        count_in(segments, state) == segments.len() <==> forall|i: int|
            0 <= i < segments.len() ==> (#[trigger] segments[i]).state == state,
    decreases segments.len(),
{
    if segments.len() > 0 {
        let front = segments.drop_last();
        lemma_count_bounds(front, state);
        assert forall|i: int| 0 <= i < front.len() implies front[i] == segments[i] by {}
        if count_in(segments, state) == 0 {
            assert forall|i: int| 0 <= i < segments.len() implies (#[trigger] segments[i]).state
                != state by {
                if i < front.len() {
                    assert(front[i].state != state);
                }
            }
        }
        if count_in(segments, state) == segments.len() {
            assert forall|i: int| 0 <= i < segments.len() implies (#[trigger] segments[i]).state
                == state by {
                if i < front.len() {
                    assert(front[i].state == state);
                }
            }
        }
        if forall|i: int| 0 <= i < segments.len() ==> (#[trigger] segments[i]).state != state {
            assert forall|i: int| 0 <= i < front.len() implies (#[trigger] front[i]).state
                != state by {
                assert(segments[i].state != state);
            }
        }
        if forall|i: int| 0 <= i < segments.len() ==> (#[trigger] segments[i]).state == state {
            assert forall|i: int| 0 <= i < front.len() implies (#[trigger] front[i]).state
                == state by {
                assert(segments[i].state == state);
            }
            assert(segments.last() == segments[segments.len() - 1]);
        }
    }
}

/// Where a segment waits for a permit, one of them is the first.
pub proof fn lemma_first_pending(segments: Seq<SegmentView>, w: int)
    requires
        is_pending(segments, w),
    ensures
        exists|i: int| first_pending(segments, i),
    decreases w,
{
    if exists|j: int| is_pending(segments, j) && j < w {
        let j = choose|j: int| is_pending(segments, j) && j < w;
        lemma_first_pending(segments, j);
    } else {
        assert(first_pending(segments, w));
    }
}

/// One event keeps the bound on running downloads, keeps the plan, and steps
/// no segment back.
pub proof fn lemma_step(s: Schedule, event: Event)
    ensures
        s.step(event).retries == s.retries,
        s.step(event).climit == s.climit,
        s.bounded() ==> s.step(event).bounded(),
        same_plan(s.segments, s.step(event).segments),
        advanced(s.segments, s.step(event).segments),
        s.done() <= s.step(event).done(),
{
    match event {
        Event::Start => {
            if let Some(i) = s.next() {
                lemma_first_pending(s.segments, choose|w: int| is_pending(s.segments, w));
                assert(first_pending(s.segments, i));
                let moved = with_state(s.segments[i], SegmentState::InFlight);
                lemma_count_update(s.segments, i, moved, SegmentState::InFlight);
                lemma_count_update(s.segments, i, moved, SegmentState::Done);
            }
        },
        Event::Complete { index, ok } => {
            if s.awaited(index) {
                let moved = s.settled(index, ok);
                lemma_count_update(s.segments, index, moved, SegmentState::InFlight);
                lemma_count_update(s.segments, index, moved, SegmentState::Done);
            }
        },
    }
}

/// A permit that is given takes one segment out of those that wait.
pub proof fn lemma_start_takes_one(s: Schedule)
    requires
        s.next() is Some,
    ensures
        s.waiting() >= 1,
        s.start().waiting() == s.waiting() - 1,
        first_pending(s.segments, s.next()->0),
{
    let i = s.next()->0;
    lemma_first_pending(s.segments, choose|w: int| is_pending(s.segments, w));
    assert(first_pending(s.segments, i));
    lemma_count_update(
        s.segments,
        i,
        with_state(s.segments[i], SegmentState::InFlight),
        SegmentState::Pending,
    );
}

/// Once no permit is given, asking again changes nothing.
pub proof fn lemma_start_settles(s: Schedule, n: nat)
    requires
        s.next() is None,
    ensures
        s.start_n(n) == s,
    decreases n,
{
    if n > 0 {
        lemma_start_settles(s, (n - 1) as nat);
    }
}

/// Asking for `a + b` permits is asking for `a` and then for `b`.
pub proof fn lemma_start_n_adds(s: Schedule, a: nat, b: nat)
    ensures
        s.start_n(a + b) == s.start_n(a).start_n(b),
    decreases b,
{
    if b > 0 {
        lemma_start_n_adds(s, a, (b - 1) as nat);
        assert(s.start_n(a + b) == s.start_n((a + b - 1) as nat).start());
    }
}

/// Bounded concurrency: whatever the order of starts and completions, no
/// more downloads run at any time than the limit allows.
pub proof fn lemma_run_bounded(s: Schedule, events: Seq<Event>)
    requires
        s.bounded(),
    ensures
        s.run(events).bounded(),
        s.run(events).climit == s.climit,
        s.run(events).retries == s.retries,
    decreases events.len(),
{
    if events.len() > 0 {
        lemma_run_bounded(s, events.drop_last());
        lemma_step(s.run(events.drop_last()), events.last());
    }
}

/// Ordered assembly: whatever the order of starts and completions, the
/// segments keep their sources, files and keys in the order of the plan, so
/// the files that assembly reads, and their order, are those of the playlist.
pub proof fn lemma_run_keeps_plan(s: Schedule, events: Seq<Event>)
    ensures
        same_plan(s.segments, s.run(events).segments),
        files(s.run(events).segments) == files(s.segments),
    decreases events.len(),
{
    if events.len() > 0 {
        lemma_run_keeps_plan(s, events.drop_last());
        lemma_step(s.run(events.drop_last()), events.last());
    }
    assert(files(s.run(events).segments) =~= files(s.segments));
}

/// A limit of one makes the schedule sequential: over any run at most one
/// download is running at any time.
pub proof fn lemma_single_permit_is_sequential(s: Schedule, events: Seq<Event>)
    requires
        s.bounded(),
        s.climit == 1,
    ensures
        s.run(events).in_flight() <= 1,
{
    lemma_run_bounded(s, events);
}

/// The limit on concurrency has no part in what is assembled: two runs of
/// the same plan, under any two limits and any two orders of events, read
/// the same files in the same order.
pub proof fn lemma_limit_keeps_output(
    a: Schedule,
    b: Schedule,
    events_a: Seq<Event>,
    events_b: Seq<Event>,
)
    requires
        same_plan(a.segments, b.segments),
    ensures
        files(a.run(events_a).segments) == files(b.run(events_b).segments),
{
    lemma_run_keeps_plan(a, events_a);
    lemma_run_keeps_plan(b, events_b);
    assert(files(a.segments) =~= files(b.segments));
}

/// Progress never steps back: over any run the number of finished segments
/// does not drop, a finished segment stays finished, and no retry count drops.
pub proof fn lemma_run_advances(s: Schedule, events: Seq<Event>)
    ensures
        advanced(s.segments, s.run(events).segments),
        s.done() <= s.run(events).done(),
        s.run(events).done() <= s.segments.len(),
    decreases events.len(),
{
    if events.len() > 0 {
        lemma_run_advances(s, events.drop_last());
        lemma_step(s.run(events.drop_last()), events.last());
    }
    lemma_run_keeps_plan(s, events);
    lemma_count_bounds(s.run(events).segments, SegmentState::Done);
}

/// Idempotent resume: where every segment of a fresh plan has a file that is
/// not empty and the cache is not ignored, the preflight finishes every
/// segment, and no run of the scheduler ever starts a download.
pub proof fn lemma_resume_starts_nothing(
    s: Schedule,
    sizes: Seq<Option<u64>>,
    events: Seq<Event>,
)
    requires
        forall|i: int|
            0 <= i < s.segments.len() ==> (#[trigger] s.segments[i]).state == SegmentState::New,
        forall|i: int|
            0 <= i < s.segments.len() ==> reusable(#[trigger] size_at(sizes, i), false),
    ensures
        s.preflight(sizes, false).intact(),
        s.preflight(sizes, false).next() is None,
        s.preflight(sizes, false).run(events) == s.preflight(sizes, false),
    decreases events.len(),
{
    let p = s.preflight(sizes, false);
    assert forall|i: int| 0 <= i < p.segments.len() implies (#[trigger] p.segments[i]).state
        == SegmentState::Done by {
        assert(s.segments[i].state == SegmentState::New);
        assert(reusable(size_at(sizes, i), false));
    }
    assert forall|i: int| !is_pending(p.segments, i) by {
        if 0 <= i < p.segments.len() {
            assert(p.segments[i].state == SegmentState::Done);
        }
    }
    if events.len() > 0 {
        lemma_resume_starts_nothing(s, sizes, events.drop_last());
        match events.last() {
            Event::Start => {},
            Event::Complete { index, ok } => {
                if 0 <= index < p.segments.len() {
                    assert(p.segments[index].state == SegmentState::Done);
                }
            },
        }
    }
}

} // verus!
