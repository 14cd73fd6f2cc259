//! Bookkeeping of GPU timing spans: which timestamp query each span opens
//! and closes with, frame by frame, and which timestamps belong to which
//! span once the queries have been read back.

use vstd::prelude::*;

verus! {

pub fn add(left: u64, right: u64) -> (sum: u64)
    requires
        left + right <= u64::MAX,
    ensures
        sum == left + right,
{
    left + right
}

/// Timestamp queries in the query pool of one frame.
pub const MAX_QUERIES: u32 = 128u32;

/// A span whose two timestamp queries have been written. `S` is the
/// profiler's span.
pub struct ClosedGpuSpan<S> {
    pub span: S,
    pub start_query_id: u32,
    pub end_query_id: u32,
}

impl<S> ClosedGpuSpan<S> {
    pub fn new(span: S, start_query_id: u32, end_query_id: u32) -> (closed: Self)
        ensures
            closed.span == span,
            closed.start_query_id == start_query_id,
            closed.end_query_id == end_query_id,
    {
        ClosedGpuSpan { span, start_query_id, end_query_id }
    }
}

/// The spans of one frame: the next free query, whether the pool has been
/// reset for this frame, and the timestamps last read back.
pub struct FrameSpans<S> {
    pub active_spans: Vec<ClosedGpuSpan<S>>,
    pub max_queries: u32,
    pub query_index: u32,
    pub ready: bool,
    pub data: Vec<i64>,
}

impl<S> FrameSpans<S> {
    /// The timestamp buffer holds one value per query, the query index is
    /// within the pool, and every closed span's end query was allocated.
    pub open spec fn well_formed(&self) -> bool {
        &&& self.data@.len() == self.max_queries
        &&& self.max_queries == MAX_QUERIES
        &&& self.query_index <= self.max_queries
        &&& forall|i: int| 0 <= i < self.active_spans@.len() ==>
            #[trigger] self.active_spans@[i].end_query_id < self.query_index
    }

    /// Every closed span opened at a query of the pool (its start query is
    /// taken as given when it closes, and only read back when flushing).
    pub open spec fn starts_in_pool(&self) -> bool {
        forall|i: int| 0 <= i < self.active_spans@.len() ==>
            #[trigger] self.active_spans@[i].start_query_id < self.max_queries
    }

    /// A frame that has written no query and must be reset before use.
    pub fn new() -> (frame: Self)
        ensures
            frame.well_formed(),
            frame.query_index == 0,
            !frame.ready,
            frame.active_spans@.len() == 0,
            forall|i: int| 0 <= i < frame.data@.len() ==> frame.data@[i] == 0,
    {
        let mut data: Vec<i64> = Vec::new();
        let mut i: u32 = 0;
        while i < MAX_QUERIES
            invariant
                0 <= i <= MAX_QUERIES,
                data@.len() == i,
                forall|j: int| 0 <= j < i ==> data@[j] == 0,
            decreases MAX_QUERIES - i,
        {
            data.push(0);
            i = i + 1;
        }
        FrameSpans { active_spans: Vec::new(), max_queries: MAX_QUERIES, query_index: 0, ready: false, data }
    }

    /// Starts the frame over: no query written, no span closed. Returns how
    /// many queries of the pool to reset, one more than were written.
    pub fn reset(&mut self) -> (reset_count: u32)
        requires
            old(self).well_formed(),
        ensures
            final(self).well_formed(),
            reset_count == old(self).query_index + 1,
            final(self).query_index == 0,
            final(self).active_spans@.len() == 0,
            final(self).ready,
            final(self).data@ == old(self).data@,
    {
        let reset_count = self.query_index + 1;
        self.query_index = 0;
        self.active_spans.clear();
        self.ready = true;
        reset_count
    }

    /// Allocates the query that opens a span and returns it; the caller
    /// writes the timestamp there. The frame must have been reset and must
    /// have a query left.
    pub fn new_gpu_span(&mut self) -> (query_id: u32)
        requires
            old(self).well_formed(),
            old(self).ready,
            old(self).query_index < old(self).max_queries,
        ensures
            final(self).well_formed(),
            query_id == old(self).query_index,
            final(self).query_index == old(self).query_index + 1,
            final(self).active_spans@ == old(self).active_spans@,
            final(self).ready,
            final(self).data@ == old(self).data@,
    {
        let query_id = self.query_index;
        self.query_index = self.query_index + 1;
        query_id
    }

    /// Allocates the query that closes a span opened at `start_query_id`,
    /// records the span, and returns the query; the caller writes the
    /// timestamp there.
    pub fn close_gpu_span(&mut self, span: S, start_query_id: u32) -> (query_id: u32)
        requires
            old(self).well_formed(),
            old(self).ready,
            old(self).query_index < old(self).max_queries,
        ensures
            final(self).well_formed(),
            query_id == old(self).query_index,
            final(self).query_index == old(self).query_index + 1,
            final(self).active_spans@.len() == old(self).active_spans@.len() + 1,
            forall|i: int| 0 <= i < old(self).active_spans@.len() ==> #[trigger] final(self).active_spans@[i] == old(self).active_spans@[i],
            final(self).active_spans@.last().span == span,
            final(self).active_spans@.last().start_query_id == start_query_id,
            final(self).active_spans@.last().end_query_id == query_id,
            final(self).ready,
            final(self).data@ == old(self).data@,
    {
        let query_id = self.query_index;
        self.active_spans.push(ClosedGpuSpan::new(span, start_query_id, query_id));
        self.query_index = self.query_index + 1;
        query_id
    }

    /// Hands out the closed spans, in order, leaving none.
    pub fn take_spans(&mut self) -> (spans: Vec<ClosedGpuSpan<S>>)
        requires
            old(self).well_formed(),
        ensures
            final(self).well_formed(),
            spans@ == old(self).active_spans@,
            final(self).active_spans@.len() == 0,
            final(self).query_index == old(self).query_index,
            final(self).ready == old(self).ready,
            final(self).data@ == old(self).data@,
    {
        let mut spans: Vec<ClosedGpuSpan<S>> = Vec::new();
        std::mem::swap(&mut spans, &mut self.active_spans);
        spans
    }

    /// Takes the timestamps read back for the queries written this frame
    /// (none are read if none were written) and returns, for each closed
    /// span in order, its start and end timestamps. The frame then needs a
    /// reset before new spans. Each closed span must have opened at a query
    /// of the pool.
    pub fn flush(&mut self, results: &Vec<i64>) -> (timestamps: Vec<(i64, i64)>)
        requires
            old(self).well_formed(),
            old(self).starts_in_pool(),
            old(self).query_index > 0 ==> results@.len() == old(self).query_index,
        ensures
            final(self).well_formed(),
            !final(self).ready,
            final(self).query_index == old(self).query_index,
            final(self).active_spans@ == old(self).active_spans@,
            forall|q: int| 0 <= q < final(self).data@.len() ==> #[trigger] final(self).data@[q]
                == if q < old(self).query_index { results@[q] } else { old(self).data@[q] },
            timestamps@.len() == old(self).active_spans@.len(),
            forall|i: int| 0 <= i < timestamps@.len() ==> #[trigger] timestamps@[i] == (
                final(self).data@[old(self).active_spans@[i].start_query_id as int],
                final(self).data@[old(self).active_spans@[i].end_query_id as int]),
    {
        let ghost data0 = self.data@;
        if self.query_index > 0 {
            let mut q: usize = 0;
            let n = self.query_index as usize;
            while q < n
                invariant
                    0 <= q <= n,
                    n == self.query_index,
                    self.well_formed(),
                    self.starts_in_pool(),
                    results@.len() == n,
                    self.data@.len() == data0.len(),
                    self.active_spans@ == old(self).active_spans@,
                    self.query_index == old(self).query_index,
                    self.max_queries == old(self).max_queries,
                    self.ready == old(self).ready,
                    forall|k: int| 0 <= k < self.data@.len() ==> #[trigger] self.data@[k]
                        == if k < q { results@[k] } else { data0[k] },
                decreases n - q,
            {
                self.data.set(q, results[q]);
                q = q + 1;
            }
        }
        let mut timestamps: Vec<(i64, i64)> = Vec::new();
        let mut i: usize = 0;
        while i < self.active_spans.len()
            invariant
                0 <= i <= self.active_spans.len(),
                self.well_formed(),
                self.starts_in_pool(),
                timestamps@.len() == i,
                forall|j: int| 0 <= j < i ==> #[trigger] timestamps@[j] == (
                    self.data@[self.active_spans@[j].start_query_id as int],
                    self.data@[self.active_spans@[j].end_query_id as int]),
            decreases self.active_spans.len() - i,
        {
            assert(self.active_spans@[i as int].end_query_id < self.query_index);
            let start = self.data[self.active_spans[i].start_query_id as usize];
            let end = self.data[self.active_spans[i].end_query_id as usize];
            timestamps.push((start, end));
            i = i + 1;
        }
        self.ready = false;
        timestamps
    }
}

/// The span frames, one per frame in flight, and the frame in use. `C` is
/// the profiler's GPU context.
pub struct GpuSpanManager<S, C> {
    pub frames: Vec<FrameSpans<S>>,
    pub frame_index: usize,
    pub gpu_context: C,
}

impl<S, C> GpuSpanManager<S, C> {
    pub open spec fn well_formed(&self) -> bool {
        &&& self.frames@.len() > 0
        &&& self.frame_index < self.frames@.len()
        &&& forall|i: int| 0 <= i < self.frames@.len() ==> #[trigger] self.frames@[i].well_formed()
    }

    /// A manager over `num_frames` fresh frames, starting at the first.
    pub fn new(num_frames: u32, gpu_context: C) -> (manager: Self)
        requires
            num_frames > 0,
        ensures
            manager.well_formed(),
            manager.frames@.len() == num_frames,
            manager.frame_index == 0,
            manager.gpu_context == gpu_context,
            forall|i: int| 0 <= i < num_frames ==> (#[trigger] manager.frames@[i]).query_index == 0 && !manager.frames@[i].ready
                && manager.frames@[i].active_spans@.len() == 0,
    {
        let mut frames: Vec<FrameSpans<S>> = Vec::new();
        let mut i: u32 = 0;
        while i < num_frames
            invariant
                0 <= i <= num_frames,
                frames@.len() == i,
                forall|j: int| 0 <= j < i ==> (#[trigger] frames@[j]).well_formed() && frames@[j].query_index == 0 && !frames@[j].ready
                    && frames@[j].active_spans@.len() == 0,
            decreases num_frames - i,
        {
            frames.push(FrameSpans::new());
            i = i + 1;
        }
        GpuSpanManager { frames, frame_index: 0, gpu_context }
    }

    /// The frame that comes after the one in use.
    pub fn next_frame_index(&self) -> (next: usize)
        requires
            self.well_formed(),
        ensures
            next == (self.frame_index + 1) % (self.frames@.len() as int),
            next < self.frames@.len(),
    {
        let n = self.frames.len();
        (self.frame_index + 1) % n
    }

    /// Moves on to the next frame: flushes it with the timestamps read back
    /// from its pool and resets it. Returns its closed spans, their start
    /// and end timestamps, and how many of its queries to reset.
    pub fn reset(&mut self, results: &Vec<i64>) -> (outcome: (Vec<ClosedGpuSpan<S>>, Vec<(i64, i64)>, u32))
        requires
            old(self).well_formed(),
            ({
                let next = (old(self).frame_index + 1) % (old(self).frames@.len() as int);
                &&& old(self).frames@[next].query_index > 0 ==> results@.len() == old(self).frames@[next].query_index
                &&& old(self).frames@[next].starts_in_pool()
            }),
        ensures
            final(self).well_formed(),
            final(self).frame_index == (old(self).frame_index + 1) % (old(self).frames@.len() as int),
            final(self).frames@.len() == old(self).frames@.len(),
            outcome.0@ == old(self).frames@[final(self).frame_index as int].active_spans@,
            outcome.1@.len() == old(self).frames@[final(self).frame_index as int].active_spans@.len(),
            forall|i: int| 0 <= i < outcome.1@.len() ==> #[trigger] outcome.1@[i] == (
                final(self).frames@[final(self).frame_index as int].data@[
                    old(self).frames@[final(self).frame_index as int].active_spans@[i].start_query_id as int],
                final(self).frames@[final(self).frame_index as int].data@[
                    old(self).frames@[final(self).frame_index as int].active_spans@[i].end_query_id as int]),
            forall|q: int| 0 <= q < final(self).frames@[final(self).frame_index as int].data@.len() ==> #[trigger]
                final(self).frames@[final(self).frame_index as int].data@[q]
                == if q < old(self).frames@[final(self).frame_index as int].query_index { results@[q] } else {
                    old(self).frames@[final(self).frame_index as int].data@[q] },
            outcome.2 == old(self).frames@[final(self).frame_index as int].query_index + 1,
            final(self).frames@[final(self).frame_index as int].ready,
            final(self).frames@[final(self).frame_index as int].query_index == 0,
            forall|i: int| 0 <= i < final(self).frames@.len() && i != final(self).frame_index
                ==> #[trigger] final(self).frames@[i] == old(self).frames@[i],
    {
        let n = self.frames.len();
        self.frame_index = (self.frame_index + 1) % n;
        let k = self.frame_index;
        let mut frame = self.frames.remove(k);
        let timestamps = frame.flush(results);
        let spans = frame.take_spans();
        let reset_count = frame.reset();
        self.frames.insert(k, frame);
        proof {
            assert forall|i: int| 0 <= i < self.frames@.len() implies #[trigger] self.frames@[i].well_formed() by {
                if i != k {
                    assert(self.frames@[i] == old(self).frames@[i]);
                }
            }
            assert forall|i: int| 0 <= i < self.frames@.len() && i != k implies #[trigger] self.frames@[i] == old(self).frames@[i] by {
            }
        }
        (spans, timestamps, reset_count)
    }

    /// Flushes the frame in use with the timestamps read back from its pool
    /// (see `FrameSpans::flush`) without moving on.
    pub fn flush_current(&mut self, results: &Vec<i64>) -> (timestamps: Vec<(i64, i64)>)
        requires
            old(self).well_formed(),
            old(self).frames@[old(self).frame_index as int].query_index > 0
                ==> results@.len() == old(self).frames@[old(self).frame_index as int].query_index,
            old(self).frames@[old(self).frame_index as int].starts_in_pool(),
        ensures
            final(self).well_formed(),
            final(self).frame_index == old(self).frame_index,
            final(self).frames@.len() == old(self).frames@.len(),
            timestamps@.len() == old(self).frames@[old(self).frame_index as int].active_spans@.len(),
            forall|i: int| 0 <= i < timestamps@.len() ==> #[trigger] timestamps@[i] == (
                final(self).frames@[final(self).frame_index as int].data@[
                    old(self).frames@[old(self).frame_index as int].active_spans@[i].start_query_id as int],
                final(self).frames@[final(self).frame_index as int].data@[
                    old(self).frames@[old(self).frame_index as int].active_spans@[i].end_query_id as int]),
            !final(self).frames@[final(self).frame_index as int].ready,
            forall|i: int| 0 <= i < final(self).frames@.len() && i != final(self).frame_index
                ==> #[trigger] final(self).frames@[i] == old(self).frames@[i],
    {
        let k = self.frame_index;
        let mut frame = self.frames.remove(k);
        let timestamps = frame.flush(results);
        self.frames.insert(k, frame);
        proof {
            assert forall|i: int| 0 <= i < self.frames@.len() implies #[trigger] self.frames@[i].well_formed() by {
                if i != k {
                    assert(self.frames@[i] == old(self).frames@[i]);
                }
            }
            assert forall|i: int| 0 <= i < self.frames@.len() && i != k implies #[trigger] self.frames@[i] == old(self).frames@[i] by {
            }
        }
        timestamps
    }

    /// Opens a span in the frame in use; see `FrameSpans::new_gpu_span`.
    pub fn new_gpu_span(&mut self) -> (query_id: u32)
        requires
            old(self).well_formed(),
            old(self).frames@[old(self).frame_index as int].ready,
            old(self).frames@[old(self).frame_index as int].query_index < MAX_QUERIES,
        ensures
            final(self).well_formed(),
            final(self).frame_index == old(self).frame_index,
            query_id == old(self).frames@[old(self).frame_index as int].query_index,
            final(self).frames@[final(self).frame_index as int].query_index == query_id + 1,
            final(self).frames@[final(self).frame_index as int].active_spans@
                == old(self).frames@[old(self).frame_index as int].active_spans@,
            final(self).frames@[final(self).frame_index as int].ready,
            final(self).frames@.len() == old(self).frames@.len(),
            forall|i: int| 0 <= i < final(self).frames@.len() && i != final(self).frame_index
                ==> #[trigger] final(self).frames@[i] == old(self).frames@[i],
    {
        let k = self.frame_index;
        let mut frame = self.frames.remove(k);
        let query_id = frame.new_gpu_span();
        self.frames.insert(k, frame);
        proof {
            assert forall|i: int| 0 <= i < self.frames@.len() implies #[trigger] self.frames@[i].well_formed() by {
                if i != k {
                    assert(self.frames@[i] == old(self).frames@[i]);
                }
            }
            assert forall|i: int| 0 <= i < self.frames@.len() && i != k implies #[trigger] self.frames@[i] == old(self).frames@[i] by {
            }
        }
        query_id
    }

    /// Closes a span in the frame in use; see `FrameSpans::close_gpu_span`.
    pub fn close_gpu_span(&mut self, span: S, start_query_id: u32) -> (query_id: u32)
        requires
            old(self).well_formed(),
            old(self).frames@[old(self).frame_index as int].ready,
            old(self).frames@[old(self).frame_index as int].query_index < MAX_QUERIES,
        ensures
            final(self).well_formed(),
            final(self).frame_index == old(self).frame_index,
            query_id == old(self).frames@[old(self).frame_index as int].query_index,
            final(self).frames@[final(self).frame_index as int].query_index == query_id + 1,
            final(self).frames@[final(self).frame_index as int].active_spans@.len()
                == old(self).frames@[old(self).frame_index as int].active_spans@.len() + 1,
            final(self).frames@[final(self).frame_index as int].active_spans@.last().start_query_id == start_query_id,
            final(self).frames@[final(self).frame_index as int].active_spans@.last().end_query_id == query_id,
            final(self).frames@[final(self).frame_index as int].ready,
            final(self).frames@.len() == old(self).frames@.len(),
            forall|i: int| 0 <= i < final(self).frames@.len() && i != final(self).frame_index
                ==> #[trigger] final(self).frames@[i] == old(self).frames@[i],
    {
        let k = self.frame_index;
        let mut frame = self.frames.remove(k);
        let query_id = frame.close_gpu_span(span, start_query_id);
        self.frames.insert(k, frame);
        proof {
            assert forall|i: int| 0 <= i < self.frames@.len() implies #[trigger] self.frames@[i].well_formed() by {
                if i != k {
                    assert(self.frames@[i] == old(self).frames@[i]);
                }
            }
            assert forall|i: int| 0 <= i < self.frames@.len() && i != k implies #[trigger] self.frames@[i] == old(self).frames@[i] by {
            }
        }
        query_id
    }
}

} // verus!
