//! The aggregation engine and the flush selector.
//!
//! `CpuAnalyzer` owns one window per observed (pid, tid) pair.
//! `put_event_to_segments` locates or creates the window, rotates it when the
//! incoming sample falls outside it, and merges the sample into every bucket
//! it spans; `send_events` scans the windows of one process for a time range
//! and hands the non-empty buckets to the caller, marking them flushed. Both
//! are proved equal to the spec-level transition functions defined here.

use std::collections::HashMap;

use vstd::prelude::*;
use vstd::std_specs::iter::IteratorSpec;

use crate::circle_queue::CircleQueue;
use crate::event::{key_value_models, le_u64_at, uint_value_of, uint_value_width, KeyValue, KeyValueModel};
use crate::model::{
    default_cpu_event_model, default_java_futex_event_model, empty_segment_model, segment_models,
    segment_not_empty, segment_with_event, CpuEvent, CpuEventModel, JavaFutexEvent,
    JavaFutexEventModel, SampleRecord, SampleRecordModel, Segment, SegmentModel, TimeSegments,
    TimeSegmentsModel,
};
use crate::{MAX_BASE_TIME_SEC, MAX_SEGMENT_SIZE, NANO_TO_SECONDS};

verus! {

/// The second in which an absolute nanosecond timestamp falls.
pub open spec fn sec_of(ns: u64) -> int {
    ns as int / (NANO_TO_SECONDS as int)
}

/// Relies on chrono's `Local::now` and its `Display` rendering: the current
/// local wall-clock time as text. The result depends on the clock and the
/// machine's time zone, so nothing is stated about its value beyond what
/// holds of every rendering: a formatted date and time is never empty.
#[verifier::external_body]
pub fn local_now_string() -> (r: String)
    ensures
        r@.len() > 0,
{
    chrono::Local::now().to_string()
}

/// The model of a fresh empty bucket covering second `base_time + i`.
pub open spec fn fresh_segment_at(base_time: u64, i: int) -> SegmentModel {
    empty_segment_model(
        (((base_time + i) * NANO_TO_SECONDS) as u64),
        (((base_time + i + 1) * NANO_TO_SECONDS) as u64),
    )
}

/// The models of the buckets of a freshly anchored window: bucket `i` is empty
/// and covers second `base_time + i`.
pub open spec fn initial_segment_models(base_time: u64) -> Seq<SegmentModel> {
    Seq::new(MAX_SEGMENT_SIZE as nat, |i: int| fresh_segment_at(base_time, i))
}

/// `s` with `ev` appended to the list matching its kind and its flush mark
/// cleared: every merge makes the bucket eligible for the next flush again.
pub open spec fn merged_segment(s: SegmentModel, ev: SampleRecordModel) -> SegmentModel {
    SegmentModel { is_send: 0, ..segment_with_event(s, ev) }
}

/// One merge pass: every bucket with index in `[lo, hi]` receives the sample;
/// the rest stay as they are.
pub open spec fn merge_pass(
    segs: Seq<SegmentModel>,
    lo: int,
    hi: int,
    ev: SampleRecordModel,
) -> Seq<SegmentModel> {
    Seq::new(
        MAX_SEGMENT_SIZE as nat,
        |i: int|
            if lo <= i && i <= hi {
                merged_segment(segs[i], ev)
            } else {
                segs[i]
            },
    )
}

/// The buckets after a half shift to the new anchor `new_base`: the second
/// half of the old buckets is carried into the first half, each carried copy
/// receiving the triggering sample and losing its flush mark; the freed
/// second half is re-initialized to fresh empty buckets over the newly
/// exposed trailing seconds.
pub open spec fn half_shift_segments(
    segs: Seq<SegmentModel>,
    new_base: u64,
    ev: SampleRecordModel,
) -> Seq<SegmentModel> {
    let clear_size = MAX_SEGMENT_SIZE as int / 2;
    Seq::new(
        MAX_SEGMENT_SIZE as nat,
        |i: int|
            if i < clear_size {
                merged_segment(segs[i + clear_size], ev)
            } else {
                fresh_segment_at(new_base, i)
            },
    )
}

/// The full window transition for one incoming sample: drop, rotate if
/// required (full reset on a large forward jump, half shift otherwise),
/// record the thread name, and merge the sample into every bucket its
/// interval spans.
pub open spec fn ingest_window(
    w: TimeSegmentsModel,
    ev: SampleRecordModel,
    name: Seq<char>,
) -> TimeSegmentsModel {
    let n = MAX_SEGMENT_SIZE as int;
    let start_sec = sec_of(ev.start_time());
    let end_sec = sec_of(ev.end_time());
    if end_sec < w.base_time || start_sec < w.base_time {
        w
    } else {
        let start_offset = start_sec - w.base_time;
        let end_offset = end_sec - w.base_time;
        if !(start_offset >= n || end_offset > n) {
            TimeSegmentsModel {
                thread_name: name,
                segments: merge_pass(
                    w.segments,
                    start_offset,
                    if end_offset <= n - 1 {
                        end_offset
                    } else {
                        n - 1
                    },
                    ev,
                ),
                ..w
            }
        } else if start_offset * 2 >= 3 * n {
            let new_base = start_sec as u64;
            TimeSegmentsModel {
                thread_name: name,
                base_time: new_base,
                segments: merge_pass(
                    initial_segment_models(new_base),
                    0,
                    if end_offset - start_offset <= n - 1 {
                        end_offset - start_offset
                    } else {
                        n - 1
                    },
                    ev,
                ),
                ..w
            }
        } else {
            let new_base = (w.base_time + n / 2) as u64;
            let lo = if start_offset - n / 2 >= 0 {
                start_offset - n / 2
            } else {
                0
            };
            let hi = if end_offset - n / 2 <= n - 1 {
                end_offset - n / 2
            } else {
                n - 1
            };
            TimeSegmentsModel {
                thread_name: name,
                base_time: new_base,
                segments: merge_pass(half_shift_segments(w.segments, new_base, ev), lo, hi, ev),
                ..w
            }
        }
    }
}

/// The window created on the first sample of a (pid, tid) pair: anchored at
/// the sample's start second, all buckets fresh and empty.
pub open spec fn fresh_window_model(
    pid: u32,
    tid: u32,
    name: Seq<char>,
    base_time: u64,
) -> TimeSegmentsModel {
    TimeSegmentsModel {
        pid,
        tid,
        thread_name: name,
        base_time,
        segments: initial_segment_models(base_time),
    }
}

/// Builds the bucket queue of a freshly anchored window.
pub fn create_initial_segments(base_time: u64) -> (res: CircleQueue)
    requires
        base_time <= MAX_BASE_TIME_SEC,
    ensures
        res.wf(),
        res.capacity() == MAX_SEGMENT_SIZE,
        res@ == initial_segment_models(base_time),
{
    let mut segments = CircleQueue::new(MAX_SEGMENT_SIZE);
    for i in 0..MAX_SEGMENT_SIZE
        invariant
            base_time <= MAX_BASE_TIME_SEC,
            segments.wf(),
            segments.capacity() == MAX_SEGMENT_SIZE,
            segments@.len() == MAX_SEGMENT_SIZE,
            forall|j: int| 0 <= j < i ==> segments@[j] == fresh_segment_at(base_time, j),
    {
        let segment = Segment::new(
            (base_time + (i as u64)) * NANO_TO_SECONDS,
            (base_time + (i as u64) + 1) * NANO_TO_SECONDS,
        );
        segments.update_by_index(i, segment);
    }
    proof {
        assert(segments@ =~= initial_segment_models(base_time));
    }
    segments
}

/// Applies the full window transition for one sample to a window in place.
fn ingest_into_window(ts: &mut TimeSegments, thread_name: &str, event: &SampleRecord)
    requires
        old(ts).wf(),
        sec_of(event@.start_time()) <= MAX_BASE_TIME_SEC as int,
        sec_of(event@.end_time()) <= MAX_BASE_TIME_SEC as int,
    ensures
        final(ts).wf(),
        final(ts)@ == ingest_window(old(ts)@, event@, thread_name@),
{
    let ghost w0 = ts@;
    let end_sec = event.end_timestamp() / NANO_TO_SECONDS;
    if end_sec < ts.base_time {
        return ;
    }
    let end_offset_orig: i64 = (end_sec - ts.base_time) as i64;
    let start_sec = event.start_timestamp() / NANO_TO_SECONDS;
    if start_sec < ts.base_time {
        return ;
    }
    let start_offset_orig: i64 = (start_sec - ts.base_time) as i64;

    let mut start_offset = start_offset_orig;
    let mut end_offset = end_offset_orig;
    let should_clear_segments = start_offset >= MAX_SEGMENT_SIZE as i64 || end_offset
        > MAX_SEGMENT_SIZE as i64;

    if should_clear_segments {
        if start_offset * 2 >= 3 * (MAX_SEGMENT_SIZE as i64) {
            ts.segments.clear();
            ts.base_time = start_sec;
            end_offset = end_offset - start_offset;
            start_offset = 0;
            ts.segments = create_initial_segments(ts.base_time);
        } else {
            let clear_size: usize = MAX_SEGMENT_SIZE / 2;
            ts.base_time = ts.base_time + clear_size as u64;
            start_offset = start_offset - clear_size as i64;
            end_offset = end_offset - clear_size as i64;
            if start_offset < 0 {
                start_offset = 0;
            }
            let ghost segs0 = ts.segments@;
            let ghost new_base = ts.base_time;
            for i in 0..clear_size
                invariant
                    ts.wf(),
                    clear_size == MAX_SEGMENT_SIZE / 2,
                    ts.base_time == new_base,
                    new_base <= MAX_BASE_TIME_SEC,
                    ts.pid == old(ts).pid,
                    ts.tid == old(ts).tid,
                    ts.thread_name == old(ts).thread_name,
                    segs0.len() == MAX_SEGMENT_SIZE,
                    forall|j: int|
                        0 <= j < i ==> ts.segments@[j] == merged_segment(
                            segs0[j + clear_size],
                            event@,
                        ),
                    forall|j: int|
                        clear_size <= j < clear_size + i ==> ts.segments@[j] == fresh_segment_at(
                            new_base,
                            j,
                        ),
                    forall|j: int| i <= j < clear_size ==> ts.segments@[j] == segs0[j],
                    forall|j: int|
                        clear_size + i <= j < MAX_SEGMENT_SIZE ==> ts.segments@[j] == segs0[j],
            {
                let moved_index = i + clear_size;
                if let Some(segment) = ts.segments.get_by_index(moved_index) {
                    let mut cloned_segment = segment.clone();
                    CpuAnalyzer::handle_event(event, &mut cloned_segment);
                    cloned_segment.set_is_send(0);
                    ts.segments.update_by_index(i, cloned_segment);
                }
                let segment_tmp = Segment::new(
                    (ts.base_time + (moved_index as u64)) * NANO_TO_SECONDS,
                    (ts.base_time + (moved_index as u64) + 1) * NANO_TO_SECONDS,
                );
                ts.segments.update_by_index(moved_index, segment_tmp);
            }
            proof {
                assert(ts.segments@ =~= half_shift_segments(segs0, new_base, event@));
            }
        }
    }
    ts.update_thread_name(thread_name);

    let ghost segs1 = ts.segments@;
    let ghost base1 = ts.base_time;
    let ghost pid1 = ts.pid;
    let ghost tid1 = ts.tid;
    let ghost name1 = ts.thread_name@;
    let ghost lo = start_offset as int;
    let hi: i64 = if end_offset <= MAX_SEGMENT_SIZE as i64 - 1 {
        end_offset
    } else {
        MAX_SEGMENT_SIZE as i64 - 1
    };
    let mut i: i64 = start_offset;
    while i <= hi
        invariant
            ts.wf(),
            lo <= i,
            i <= hi + 1 || i == lo,
            hi <= MAX_SEGMENT_SIZE as i64 - 1,
            0 <= lo,
            ts.base_time == base1,
            ts.pid == pid1,
            ts.tid == tid1,
            ts.thread_name@ == name1,
            segs1.len() == MAX_SEGMENT_SIZE,
            forall|j: int|
                lo <= j < i && j <= hi ==> ts.segments@[j] == merged_segment(segs1[j], event@),
            forall|j: int| 0 <= j < lo ==> ts.segments@[j] == segs1[j],
            forall|j: int| i <= j < MAX_SEGMENT_SIZE ==> ts.segments@[j] == segs1[j],
        decreases hi + 1 - i,
    {
        if let Some(segment) = ts.segments.get_by_index(i as usize) {
            let mut cloned_segment = segment.clone();
            CpuAnalyzer::handle_event(event, &mut cloned_segment);
            cloned_segment.set_is_send(0);
            ts.segments.update_by_index(i as usize, cloned_segment);
        }
        i = i + 1;
    }
    proof {
        assert(ts.segments@ =~= merge_pass(segs1, lo, hi as int, event@));
        assert(ts@ =~= ingest_window(w0, event@, thread_name@));
    }
}

/// A bucket as it is emitted to the sink: stamped with the flush time, its
/// flush mark still as it was at emission.
pub open spec fn emitted_segment(s: SegmentModel, stamp: Seq<char>) -> SegmentModel {
    SegmentModel { index_timestamp: stamp, ..s }
}

/// A bucket as it is stored after a flush: stamped and marked sent.
pub open spec fn flushed_segment(s: SegmentModel, stamp: Seq<char>) -> SegmentModel {
    SegmentModel { index_timestamp: stamp, is_send: 1, ..s }
}

/// The flush range misses the window entirely.
pub open spec fn flush_skips_window(w: TimeSegmentsModel, start_sec: int, end_sec: int) -> bool {
    end_sec < w.base_time || start_sec > w.base_time + MAX_SEGMENT_SIZE
}

/// First bucket index a flush over `[start_sec, ..]` touches.
pub open spec fn flush_lo(w: TimeSegmentsModel, start_sec: int) -> int {
    if start_sec - w.base_time > 0 {
        start_sec - w.base_time
    } else {
        0
    }
}

/// Last bucket index a flush over `[.., end_sec]` touches; it may equal the
/// capacity, where the bounds-checked read makes that step a no-op.
pub open spec fn flush_hi(w: TimeSegmentsModel, end_sec: int) -> int {
    if end_sec - w.base_time < MAX_SEGMENT_SIZE {
        end_sec - w.base_time
    } else {
        MAX_SEGMENT_SIZE as int
    }
}

/// The window after one flush over the second range `[start_sec, end_sec]`:
/// every non-empty bucket in the covered index range is stamped and marked
/// sent; every other bucket, and every other field, stays as it was.
pub open spec fn flush_window_spec(
    w: TimeSegmentsModel,
    start_sec: int,
    end_sec: int,
    stamp: Seq<char>,
) -> TimeSegmentsModel {
    if flush_skips_window(w, start_sec, end_sec) {
        w
    } else {
        TimeSegmentsModel {
            segments: Seq::new(
                w.segments.len(),
                |i: int|
                    if flush_lo(w, start_sec) <= i && i <= flush_hi(w, end_sec)
                        && segment_not_empty(w.segments[i]) {
                        flushed_segment(w.segments[i], stamp)
                    } else {
                        w.segments[i]
                    },
            ),
            ..w
        }
    }
}

/// The stamped copies of the non-empty buckets with index in `[lo, i)`, in
/// index order.
pub open spec fn window_emission_upto(
    segs: Seq<SegmentModel>,
    lo: int,
    i: int,
    stamp: Seq<char>,
) -> Seq<SegmentModel>
    decreases i - lo,
{
    if i <= lo {
        Seq::empty()
    } else {
        window_emission_upto(segs, lo, i - 1, stamp) + if 0 <= i - 1 < segs.len()
            && segment_not_empty(segs[i - 1]) {
            seq![emitted_segment(segs[i - 1], stamp)]
        } else {
            Seq::empty()
        }
    }
}

/// What the flush of one window emits: stamped copies of its non-empty
/// buckets in the covered range, in index order.
pub open spec fn window_emission(
    w: TimeSegmentsModel,
    start_sec: int,
    end_sec: int,
    stamp: Seq<char>,
) -> Seq<SegmentModel> {
    if flush_skips_window(w, start_sec, end_sec) {
        Seq::empty()
    } else {
        window_emission_upto(w.segments, flush_lo(w, start_sec), flush_hi(w, end_sec) + 1, stamp)
    }
}

/// The emissions of the windows of `tids`, concatenated in that order.
pub open spec fn concat_emissions(
    inner: Map<u32, TimeSegments>,
    tids: Seq<u32>,
    start_sec: int,
    end_sec: int,
    stamp: Seq<char>,
) -> Seq<SegmentModel>
    decreases tids.len(),
{
    if tids.len() == 0 {
        Seq::empty()
    } else {
        concat_emissions(inner, tids.drop_last(), start_sec, end_sec, stamp) + window_emission(
            inner[tids.last()]@,
            start_sec,
            end_sec,
            stamp,
        )
    }
}

/// Flushes one window in place over the second range
/// `[start_time_second, end_time_second]`, appending the emitted buckets to
/// `out`.
fn flush_window(
    ts: &mut TimeSegments,
    start_time_second: u64,
    end_time_second: u64,
    stamp: &str,
    out: &mut Vec<Segment>,
)
    requires
        old(ts).wf(),
    ensures
        final(ts).wf(),
        final(ts)@ == flush_window_spec(
            old(ts)@,
            start_time_second as int,
            end_time_second as int,
            stamp@,
        ),
        segment_models(final(out)@) == segment_models(old(out)@) + window_emission(
            old(ts)@,
            start_time_second as int,
            end_time_second as int,
            stamp@,
        ),
{
    let ghost w0 = ts@;
    let ghost out0 = segment_models(out@);
    if end_time_second < ts.base_time || start_time_second > ts.base_time + (
    MAX_SEGMENT_SIZE as u64) {
        proof {
            assert(segment_models(out@) =~= out0 + window_emission(
                w0,
                start_time_second as int,
                end_time_second as int,
                stamp@,
            ));
        }
        return ;
    }
    let start_index: u64 = if start_time_second > ts.base_time {
        start_time_second - ts.base_time
    } else {
        0
    };
    let end_index: u64 = if end_time_second - ts.base_time < MAX_SEGMENT_SIZE as u64 {
        end_time_second - ts.base_time
    } else {
        MAX_SEGMENT_SIZE as u64
    };
    let mut i: u64 = start_index;
    while i <= end_index
        invariant
            ts.wf(),
            start_index <= i,
            i <= end_index + 1 || i == start_index,
            end_index <= MAX_SEGMENT_SIZE as u64,
            start_index == flush_lo(w0, start_time_second as int),
            end_index == flush_hi(w0, end_time_second as int),
            ts.base_time == w0.base_time,
            ts.pid == w0.pid,
            ts.tid == w0.tid,
            ts.thread_name@ == w0.thread_name,
            w0.segments.len() == MAX_SEGMENT_SIZE,
            ts.segments@.len() == MAX_SEGMENT_SIZE,
            forall|j: int|
                start_index <= j < i && j < MAX_SEGMENT_SIZE && segment_not_empty(w0.segments[j])
                    ==> ts.segments@[j] == flushed_segment(w0.segments[j], stamp@),
            forall|j: int|
                start_index <= j < i && j < MAX_SEGMENT_SIZE && !segment_not_empty(w0.segments[j])
                    ==> ts.segments@[j] == w0.segments[j],
            forall|j: int| 0 <= j < start_index && j < MAX_SEGMENT_SIZE ==> ts.segments@[j]
                == w0.segments[j],
            forall|j: int| i <= j < MAX_SEGMENT_SIZE ==> ts.segments@[j] == w0.segments[j],
            segment_models(out@) == out0 + window_emission_upto(
                w0.segments,
                start_index as int,
                i as int,
                stamp@,
            ),
        decreases end_index + 1 - i,
    {
        let ghost out_prev = segment_models(out@);
        if let Some(segment) = ts.segments.get_by_index(i as usize) {
            if segment.is_not_empty() {
                let mut updated = segment.clone();
                updated.set_index_timestamp(stamp);
                out.push(updated.clone());
                updated.set_is_send(1);
                ts.segments.update_by_index(i as usize, updated);
                proof {
                    assert(segment_models(out@) =~= out_prev + seq![
                        emitted_segment(w0.segments[i as int], stamp@),
                    ]);
                }
            }
        }
        i = i + 1;
    }
    proof {
        assert(ts@ =~= flush_window_spec(
            w0,
            start_time_second as int,
            end_time_second as int,
            stamp@,
        ));
        assert(segment_models(out@) =~= out0 + window_emission(
            w0,
            start_time_second as int,
            end_time_second as int,
            stamp@,
        ));
    }
}

/// The registry: one window per observed (pid, tid) pair, keyed by process
/// id and then by thread id. Windows are created lazily and never removed.
pub struct CpuAnalyzer {
    pub cpu_pid_events: HashMap<u32, HashMap<u32, TimeSegments>>,
}

/// How one ingested sample relates the registry after (`m1`) to the registry
/// before (`m0`): the (pid, tid) window — lazily created and anchored at the
/// sample's start second if it was absent — is transformed by
/// [`ingest_window`]; every other window and every other process is
/// untouched.
pub open spec fn registry_after_ingest(
    m0: Map<u32, HashMap<u32, TimeSegments>>,
    m1: Map<u32, HashMap<u32, TimeSegments>>,
    pid: u32,
    tid: u32,
    ev: SampleRecordModel,
    name: Seq<char>,
) -> bool {
    let prev = if registry_has_window(m0, pid, tid) {
        registry_window(m0, pid, tid)
    } else {
        fresh_window_model(pid, tid, name, (sec_of(ev.start_time()) as u64))
    };
    &&& m1.dom() == m0.dom().insert(pid)
    &&& (forall|p: u32| #![auto] m0.contains_key(p) && p != pid ==> m1[p] == m0[p])
    &&& m1[pid]@.dom() == (if m0.contains_key(pid) {
        m0[pid]@.dom()
    } else {
        Set::<u32>::empty()
    }).insert(tid)
    &&& (forall|t: u32| #![auto]
        m0.contains_key(pid) && m0[pid]@.contains_key(t) && t != tid ==> m1[pid]@[t]
            == m0[pid]@[t])
    &&& registry_window(m1, pid, tid) == ingest_window(prev, ev, name)
}

/// Whether the registry holds a window for the pair.
pub open spec fn registry_has_window(
    m: Map<u32, HashMap<u32, TimeSegments>>,
    pid: u32,
    tid: u32,
) -> bool {
    m.contains_key(pid) && m[pid]@.contains_key(tid)
}

/// The model of the registered window of the pair.
pub open spec fn registry_window(
    m: Map<u32, HashMap<u32, TimeSegments>>,
    pid: u32,
    tid: u32,
) -> TimeSegmentsModel {
    m[pid]@[tid]@
}

impl CpuAnalyzer {
    /// Every registered window is well formed and keyed by its own pid and
    /// tid.
    pub open spec fn wf(&self) -> bool {
        forall|p: u32, t: u32|
            #![auto]
            self.cpu_pid_events@.contains_key(p) && self.cpu_pid_events@[p]@.contains_key(t)
                ==> self.cpu_pid_events@[p]@[t].wf() && self.cpu_pid_events@[p]@[t].pid == p
                && self.cpu_pid_events@[p]@[t].tid == t
    }

    pub fn new() -> (res: Self)
        ensures
            res.wf(),
            res.cpu_pid_events@ == Map::<u32, HashMap<u32, TimeSegments>>::empty(),
    {
        CpuAnalyzer { cpu_pid_events: HashMap::new() }
    }

    /// Merges one sample into one bucket, dispatching on the sample's kind.
    pub fn handle_event(event: &SampleRecord, segment: &mut Segment)
        ensures
            final(segment)@ == segment_with_event(old(segment)@, event@),
    {
        if event.kind() == 0 {
            if let SampleRecord::Cpu(cpu_ev) = event {
                segment.put_cpu_event(cpu_ev.clone());
            }
        } else if event.kind() == 1 {
            if let SampleRecord::JavaFutex(java_futex_ev) = event {
                segment.put_java_futex_event(java_futex_ev.clone());
            }
        }
    }

    /// Ingests one sample: locates or lazily creates the window of
    /// (pid, tid), then applies the window transition [`ingest_window`] to it.
    /// Every other window, and every other process, is left untouched.
    pub fn put_event_to_segments(
        &mut self,
        pid: u32,
        tid: u32,
        thread_name: &str,
        event: SampleRecord,
    )
        requires
            old(self).wf(),
            sec_of(event@.start_time()) <= MAX_BASE_TIME_SEC as int,
            sec_of(event@.end_time()) <= MAX_BASE_TIME_SEC as int,
        ensures
            final(self).wf(),
            registry_after_ingest(
                old(self).cpu_pid_events@,
                final(self).cpu_pid_events@,
                pid,
                tid,
                event@,
                thread_name@,
            ),
    {
        let ghost m0 = self.cpu_pid_events@;
        let mut tid_cpu_events: HashMap<u32, TimeSegments> = match self.cpu_pid_events.remove(
            &pid,
        ) {
            Some(m) => m,
            None => HashMap::new(),
        };
        let ghost inner0 = tid_cpu_events@;
        let mut time_segments: TimeSegments = match tid_cpu_events.remove(&tid) {
            Some(ts) => ts,
            None => {
                let base_time = event.start_timestamp() / NANO_TO_SECONDS;
                let segments = create_initial_segments(base_time);
                TimeSegments::new(pid, tid, thread_name.to_owned(), base_time, segments)
            },
        };
        ingest_into_window(&mut time_segments, thread_name, &event);
        tid_cpu_events.insert(tid, time_segments);
        self.cpu_pid_events.insert(pid, tid_cpu_events);
        proof {
            assert(self.cpu_pid_events@.dom() =~= m0.dom().insert(pid));
            assert(self.cpu_pid_events@[pid]@.dom() =~= (if m0.contains_key(pid) {
                m0[pid]@.dom()
            } else {
                Set::<u32>::empty()
            }).insert(tid));
        }
    }

    /// Debugging hook over the whole registry; intentionally quiet.
    pub fn print_cpu_pid_events(&self) {
    }

    /// Flushes the windows of one process over a nanosecond time range:
    /// every non-empty bucket whose second falls in the range is stamped with
    /// the flush time, marked sent, and a copy of it (stamped, mark as it was
    /// at emission) is returned for the caller to hand to the sink. Buckets
    /// keep their samples; flushing only marks and timestamps.
    pub fn send_events(&mut self, pid: u32, start_time: u64, end_time: u64) -> (flushed: Vec<
        Segment,
    >)
        requires
            old(self).wf(),
        ensures
            final(self).wf(),
            ({
                let m0 = old(self).cpu_pid_events@;
                let m1 = final(self).cpu_pid_events@;
                &&& m1.dom() == m0.dom()
                &&& (forall|p: u32| #![auto]
                    m0.contains_key(p) && p != pid ==> m1[p] == m0[p])
                &&& !m0.contains_key(pid) ==> m1 == m0 && flushed@.len() == 0
                &&& m0.contains_key(pid) ==> {
                    let inner0 = m0[pid]@;
                    let inner1 = m1[pid]@;
                    &&& inner1.dom() == inner0.dom()
                    &&& exists|stamp: Seq<char>|
                        #![auto]
                        stamp.len() > 0 && flush_outcome(
                            inner0,
                            inner1,
                            sec_of(start_time),
                            sec_of(end_time),
                            stamp,
                            segment_models(flushed@),
                        )
                }
            }),
    {
        let ghost m0 = self.cpu_pid_events@;
        let mut flushed: Vec<Segment> = Vec::new();
        let mut tid_cpu_events: HashMap<u32, TimeSegments> = match self.cpu_pid_events.remove(
            &pid,
        ) {
            Some(m) => m,
            None => {
                proof {
                    assert(self.cpu_pid_events@ =~= m0);
                }
                return flushed;
            },
        };
        let ghost inner0 = tid_cpu_events@;

        let start_time_second = start_time / NANO_TO_SECONDS;
        let end_time_second = end_time / NANO_TO_SECONDS;
        let stamp = local_now_string();

        let mut tid_list: Vec<u32> = Vec::new();
        for k in it: tid_cpu_events.keys()
            invariant
                it.seq() == vstd::std_specs::hash::spec_keys_iter(&tid_cpu_events).remaining(),
                tid_list@.len() == it.index(),
                forall|j: int|
                    0 <= j < tid_list@.len() ==> tid_list@[j] == *vstd::std_specs::hash::spec_keys_iter(
                        &tid_cpu_events,
                    ).remaining()[j],
        {
            tid_list.push(*k);
        }
        proof {
            vstd::std_specs::hash::axiom_spec_keys_iter(&tid_cpu_events);
            let full = vstd::std_specs::hash::spec_keys_iter(&tid_cpu_events).remaining();
            assert(tid_list@ =~= full.unref());
            assert(tid_list@.to_set() == inner0.dom());
            assert(tid_list@.len() == inner0.dom().len());
            tid_list@.lemma_no_dup_set_cardinality();
        }

        let mut new_inner: HashMap<u32, TimeSegments> = HashMap::new();
        let n = tid_list.len();
        for idx in 0..n
            invariant
                n == tid_list@.len(),
                tid_list@.no_duplicates(),
                tid_list@.to_set() == inner0.dom(),
                forall|j: int|
                    idx <= j < n ==> tid_cpu_events@.contains_key(tid_list@[j])
                        && tid_cpu_events@[tid_list@[j]] == inner0[tid_list@[j]],
                new_inner@.dom() == tid_list@.take(idx as int).to_set(),
                forall|j: int| #![auto]
                    0 <= j < idx ==> new_inner@.contains_key(tid_list@[j])
                        && new_inner@[tid_list@[j]]@ == flush_window_spec(
                        inner0[tid_list@[j]]@,
                        start_time_second as int,
                        end_time_second as int,
                        stamp@,
                    ),
                forall|j: int| #![auto]
                    0 <= j < idx ==> new_inner@[tid_list@[j]].wf()
                        && new_inner@[tid_list@[j]].pid == inner0[tid_list@[j]].pid
                        && new_inner@[tid_list@[j]].tid == inner0[tid_list@[j]].tid,
                forall|j: int| #![auto]
                    idx <= j < n ==> inner0[tid_list@[j]].wf(),
                segment_models(flushed@) == concat_emissions(
                    inner0,
                    tid_list@.take(idx as int),
                    start_time_second as int,
                    end_time_second as int,
                    stamp@,
                ),
        {
            let tid = tid_list[idx];
            let mut w = tid_cpu_events.remove(&tid).unwrap();
            flush_window(
                &mut w,
                start_time_second,
                end_time_second,
                stamp.as_str(),
                &mut flushed,
            );
            new_inner.insert(tid, w);
            proof {
                assert(tid_list@.take(idx + 1).drop_last() =~= tid_list@.take(idx as int));
                assert(tid_list@.take(idx + 1).last() == tid_list@[idx as int]);
                assert(concat_emissions(
                    inner0,
                    tid_list@.take(idx + 1),
                    start_time_second as int,
                    end_time_second as int,
                    stamp@,
                ) == concat_emissions(
                    inner0,
                    tid_list@.take(idx as int),
                    start_time_second as int,
                    end_time_second as int,
                    stamp@,
                ) + window_emission(
                    inner0[tid_list@[idx as int]]@,
                    start_time_second as int,
                    end_time_second as int,
                    stamp@,
                ));
                assert(new_inner@.dom() =~= tid_list@.take(idx + 1).to_set());
            }
        }
        self.cpu_pid_events.insert(pid, new_inner);
        proof {
            assert(tid_list@.take(n as int) =~= tid_list@);
            assert(self.cpu_pid_events@.dom() =~= m0.dom());
            assert(new_inner@.dom() =~= inner0.dom());
            assert(forall|t: u32| #![auto]
                inner0.contains_key(t) ==> new_inner@.contains_key(t));
            assert(forall|t: u32| #![auto]
                inner0.contains_key(t) ==> {
                    let j = choose|j: int| 0 <= j < n && tid_list@[j] == t;
                    new_inner@[t]@ == flush_window_spec(
                        inner0[t]@,
                        start_time_second as int,
                        end_time_second as int,
                        stamp@,
                    )
                });
            assert(emission_order(
                inner0,
                tid_list@,
                start_time_second as int,
                end_time_second as int,
                stamp@,
                segment_models(flushed@),
            ));
            assert(stamp@.len() > 0 && flush_outcome(
                inner0,
                self.cpu_pid_events@[pid]@,
                sec_of(start_time),
                sec_of(end_time),
                stamp@,
                segment_models(flushed@),
            ));
        }
        flushed
    }
}

/// How one window and the emitted buckets relate to the pre-flush registry of
/// a process, for the flush stamp `stamp`: every window is transformed by
/// [`flush_window_spec`], and the emitted buckets are the windows' emissions
/// concatenated in some order of the thread ids.
pub open spec fn flush_outcome(
    inner0: Map<u32, TimeSegments>,
    inner1: Map<u32, TimeSegments>,
    start_sec: int,
    end_sec: int,
    stamp: Seq<char>,
    emitted: Seq<SegmentModel>,
) -> bool {
    &&& (forall|t: u32| #![auto]
        inner0.contains_key(t) ==> inner1.contains_key(t) && inner1[t]@ == flush_window_spec(
            inner0[t]@,
            start_sec,
            end_sec,
            stamp,
        ))
    &&& exists|tids: Seq<u32>| emission_order(inner0, tids, start_sec, end_sec, stamp, emitted)
}

/// Events whose start timestamp lies below this epoch sanity threshold are
/// rejected before they reach the windows.
pub const EVENT_TIME_SANITY_THRESHOLD_NS: u64 = 1_600_000_000_000_000_000;

/// The little-endian 64-bit integers held in the consecutive 8-byte chunks of
/// `bytes`; a trailing partial chunk is ignored.
pub open spec fn le_u64_seq(bytes: Seq<u8>) -> Seq<u64> {
    Seq::new((bytes.len() / 8) as nat, |i: int| le_u64_at(bytes, 8 * i))
}

/// Relies on byteorder's `LittleEndian::read_u64`: the little-endian integer
/// held in the eight bytes of the slice starting at `offset`.
#[verifier::external_body]
fn read_le_u64_at(val: &[u8], offset: usize) -> (r: u64)
    requires
        offset + 8 <= val@.len(),
    ensures
        r == le_u64_at(val@, offset as int),
{
    <byteorder::LittleEndian as byteorder::ByteOrder>::read_u64(&val[offset..offset + 8])
}

/// Decodes the value bytes of an attribute as a list of little-endian 64-bit
/// integers.
pub fn read_u64_values(val: &[u8]) -> (r: Vec<u64>)
    ensures
        r@ == le_u64_seq(val@),
{
    let count = val.len() / 8;
    let mut values: Vec<u64> = Vec::new();
    for i in 0..count
        invariant
            count == val@.len() / 8,
            val@.len() <= usize::MAX,
            values@.len() == i,
            forall|j: int| 0 <= j < i ==> values@[j] == le_u64_at(val@, 8 * j),
    {
        proof {
            vstd::arithmetic::div_mod::lemma_fundamental_div_mod(val@.len() as int, 8);
            vstd::arithmetic::div_mod::lemma_mod_division_less_than_divisor(val@.len() as int, 8);
        }
        values.push(read_le_u64_at(val, i * 8));
    }
    proof {
        assert(values@ =~= le_u64_seq(val@));
    }
    values
}

/// Copies the value bytes of an attribute as they are.
pub fn read_u8_values(val: &[u8]) -> (r: Vec<u8>)
    ensures
        r@ == val@,
{
    let mut values: Vec<u8> = Vec::new();
    let n = val.len();
    for i in 0..n
        invariant
            n == val@.len(),
            values@.len() == i,
            forall|j: int| 0 <= j < i ==> values@[j] == val@[j],
    {
        values.push(val[i]);
    }
    proof {
        assert(values@ =~= val@);
    }
    values
}

/// The text that lossy UTF-8 decoding produces from the given bytes. The
/// result is a function of the bytes alone.
pub uninterp spec fn lossy_string_of(bytes: Seq<u8>) -> Seq<char>;

/// Relies on std's `String::from_utf8_lossy`: the text decoded from the
/// bytes, with invalid sequences replaced. An empty input decodes to an empty
/// string.
#[verifier::external_body]
fn bytes_to_string_lossy(val: &[u8]) -> (r: String)
    ensures
        r@ == lossy_string_of(val@),
        val@.len() == 0 ==> r@.len() == 0,
{
    String::from_utf8_lossy(val).to_string()
}

/// Decodes the value bytes of an attribute as text; an absent value decodes
/// to the empty string.
pub fn read_string_value(val: Option<&[u8]>) -> (r: String)
    ensures
        r@ == match val {
            Some(b) => lossy_string_of(b@),
            None => Seq::<char>::empty(),
        },
{
    match val {
        Some(b) => bytes_to_string_lossy(b),
        None => String::new(),
    }
}

/// Whether a byte is an ASCII decimal digit.
pub open spec fn is_dec_digit(b: u8) -> bool {
    48 <= b <= 57
}

/// The digit bytes of a decimal rendering: an optional leading `+` sign is
/// skipped.
pub open spec fn dec_digits(bytes: Seq<u8>) -> Seq<u8> {
    if bytes.len() > 0 && bytes[0] == 43 {
        bytes.subrange(1, bytes.len() as int)
    } else {
        bytes
    }
}

/// The non-negative integer the digit bytes spell out.
pub open spec fn dec_value_of(digits: Seq<u8>) -> int
    decreases digits.len(),
{
    if digits.len() == 0 {
        0
    } else {
        dec_value_of(digits.drop_last()) * 10 + (digits.last() - 48)
    }
}

/// Whether the bytes are a decimal rendering of an integer that fits in
/// `u64`: an optional `+` sign, then at least one digit, spelling a value of
/// at most `u64::MAX`.
pub open spec fn is_u64_decimal(bytes: Seq<u8>) -> bool {
    let d = dec_digits(bytes);
    &&& d.len() > 0
    &&& (forall|i: int| 0 <= i < d.len() ==> is_dec_digit(#[trigger] d[i]))
    &&& dec_value_of(d) <= u64::MAX
}

/// The `u64` the bytes spell out in decimal.
pub open spec fn dec_u64_value(bytes: Seq<u8>) -> u64 {
    dec_value_of(dec_digits(bytes)) as u64
}

/// Extending a run of digits never decreases the value it spells.
proof fn lemma_dec_value_monotone(d: Seq<u8>, i: int)
    requires
        0 <= i <= d.len(),
        forall|j: int| 0 <= j < d.len() ==> is_dec_digit(#[trigger] d[j]),
    ensures
        dec_value_of(d) >= dec_value_of(d.take(i)),
        dec_value_of(d) >= 0,
    decreases d.len(),
{
    if d.len() == 0 {
    } else {
        lemma_dec_value_monotone(d.drop_last(), if i <= d.len() - 1 {
            i
        } else {
            i - 1
        });
        if i <= d.len() - 1 {
            assert(d.drop_last().take(i) =~= d.take(i));
        } else {
            assert(d.take(i) =~= d);
        }
    }
}

/// Parses a decimal `u64`, accepting an optional leading `+` sign; anything
/// else, and any value over `u64::MAX`, gives nothing.
pub fn parse_u64_decimal(bytes: &[u8]) -> (r: Option<u64>)
    ensures
        r is Some <==> is_u64_decimal(bytes@),
        r is Some ==> r->0 == dec_u64_value(bytes@),
{
    let ghost d = dec_digits(bytes@);
    let start: usize = if bytes.len() > 0 && bytes[0] == 43 {
        1
    } else {
        0
    };
    if bytes.len() == start {
        return None;
    }
    let mut acc: u64 = 0;
    let n = bytes.len();
    let mut i: usize = start;
    while i < n
        invariant
            start <= i <= n,
            n == bytes@.len(),
            start == 0 || (start == 1 && bytes@[0] == 43),
            start < n,
            d == dec_digits(bytes@),
            d.len() == n - start,
            forall|j: int| 0 <= j < d.len() ==> d[j] == bytes@[start + j],
            forall|j: int| 0 <= j < i - start ==> is_dec_digit(#[trigger] d[j]),
            acc == dec_value_of(d.take(i - start)),
        decreases n - i,
    {
        let b = bytes[i];
        if b < 48 || b > 57 {
            proof {
                assert(d[i - start] == b);
            }
            return None;
        }
        let digit = (b - 48) as u64;
        if acc > (u64::MAX - digit) / 10 {
            proof {
                assert(dec_value_of(d.take(i - start + 1)) == acc * 10 + digit) by {
                    assert(d.take(i - start + 1).drop_last() =~= d.take(i - start));
                };
                assert(acc * 10 + digit > u64::MAX) by (nonlinear_arith)
                    requires
                        acc > (u64::MAX - digit) / 10,
                        digit <= 9,
                ;
                if is_u64_decimal(bytes@) {
                    lemma_dec_value_monotone(d, i - start + 1);
                }
            }
            return None;
        }
        proof {
            assert(d.take(i - start + 1).drop_last() =~= d.take(i - start));
            assert(acc * 10 + digit <= u64::MAX) by (nonlinear_arith)
                requires
                    acc <= (u64::MAX - digit) / 10,
                    digit <= 9,
            ;
        }
        acc = acc * 10 + digit;
        i = i + 1;
    }
    proof {
        assert(d.take(n - start) =~= d);
    }
    Some(acc)
}

/// A CPU-sample attribute is well formed when a timestamp key carries enough
/// value bytes for its wire type; the decoder reads nothing else blindly.
pub open spec fn wf_cpu_attr(kv: KeyValueModel) -> bool {
    (kv.key == "start_time"@ || kv.key == "end_time"@) ==> uint_value_width(kv.value_type)
        <= kv.value.len()
}

/// One attribute folded into a CPU sample under construction: a recognized
/// key overwrites its field, any other key is ignored.
pub open spec fn apply_cpu_attr(ev: CpuEventModel, kv: KeyValueModel) -> CpuEventModel {
    if kv.key == "start_time"@ {
        CpuEventModel { start_time: uint_value_of(kv), ..ev }
    } else if kv.key == "end_time"@ {
        CpuEventModel { end_time: uint_value_of(kv), ..ev }
    } else if kv.key == "time_specs"@ {
        CpuEventModel { type_specs: le_u64_seq(kv.value), ..ev }
    } else if kv.key == "runq_latency"@ {
        CpuEventModel { runq_latency: le_u64_seq(kv.value), ..ev }
    } else if kv.key == "time_type"@ {
        CpuEventModel { time_type: kv.value, ..ev }
    } else if kv.key == "on_info"@ {
        CpuEventModel { on_info: lossy_string_of(kv.value), ..ev }
    } else if kv.key == "off_info"@ {
        CpuEventModel { off_info: lossy_string_of(kv.value), ..ev }
    } else if kv.key == "log"@ {
        CpuEventModel { log: lossy_string_of(kv.value), ..ev }
    } else if kv.key == "stack"@ {
        CpuEventModel { stack: lossy_string_of(kv.value), ..ev }
    } else {
        ev
    }
}

/// The CPU sample the first `n` attributes decode to.
pub open spec fn cpu_event_of_prefix(attrs: Seq<KeyValueModel>, n: int) -> CpuEventModel
    decreases n,
{
    if n <= 0 {
        default_cpu_event_model()
    } else {
        apply_cpu_attr(cpu_event_of_prefix(attrs, n - 1), attrs[n - 1])
    }
}

/// The CPU sample a full attribute list decodes to.
pub open spec fn cpu_event_of_attrs(attrs: Seq<KeyValueModel>) -> CpuEventModel {
    cpu_event_of_prefix(attrs, attrs.len() as int)
}

/// Decodes the attribute list of a captured CPU scheduling event into a
/// [`CpuEvent`].
pub fn build_cpu_event(attrs: &Vec<KeyValue>) -> (ev: CpuEvent)
    requires
        forall|i: int| 0 <= i < attrs@.len() ==> wf_cpu_attr(#[trigger] attrs@[i]@),
    ensures
        ev@ == cpu_event_of_attrs(key_value_models(attrs@)),
{
    let mut ev = CpuEvent::default();
    let key_start_time: String = "start_time".to_owned();
    let key_end_time: String = "end_time".to_owned();
    let key_time_specs: String = "time_specs".to_owned();
    let key_runq_latency: String = "runq_latency".to_owned();
    let key_time_type: String = "time_type".to_owned();
    let key_on_info: String = "on_info".to_owned();
    let key_off_info: String = "off_info".to_owned();
    let key_log: String = "log".to_owned();
    let key_stack: String = "stack".to_owned();
    let n = attrs.len();
    for i in 0..n
        invariant
            n == attrs@.len(),
            forall|j: int| 0 <= j < attrs@.len() ==> wf_cpu_attr(#[trigger] attrs@[j]@),
            key_start_time@ == "start_time"@,
            key_end_time@ == "end_time"@,
            key_time_specs@ == "time_specs"@,
            key_runq_latency@ == "runq_latency"@,
            key_time_type@ == "time_type"@,
            key_on_info@ == "on_info"@,
            key_off_info@ == "off_info"@,
            key_log@ == "log"@,
            key_stack@ == "stack"@,
            ev@ == cpu_event_of_prefix(key_value_models(attrs@), i as int),
    {
        let kv = &attrs[i];
        proof {
            assert(key_value_models(attrs@)[i as int] == kv@);
        }
        if kv.key == key_start_time {
            ev.start_time = kv.get_uint_value();
        } else if kv.key == key_end_time {
            ev.end_time = kv.get_uint_value();
        } else if kv.key == key_time_specs {
            ev.type_specs = read_u64_values(kv.value.as_slice());
        } else if kv.key == key_runq_latency {
            ev.runq_latency = read_u64_values(kv.value.as_slice());
        } else if kv.key == key_time_type {
            ev.time_type = read_u8_values(kv.value.as_slice());
        } else if kv.key == key_on_info {
            ev.on_info = read_string_value(Some(kv.value.as_slice()));
        } else if kv.key == key_off_info {
            ev.off_info = read_string_value(Some(kv.value.as_slice()));
        } else if kv.key == key_log {
            ev.log = read_string_value(Some(kv.value.as_slice()));
        } else if kv.key == key_stack {
            ev.stack = read_string_value(Some(kv.value.as_slice()));
        }
    }
    ev
}

/// Decodes the attributes of a captured CPU scheduling event and ingests the
/// sample, unless its start timestamp fails the epoch sanity threshold, in
/// which case nothing changes.
pub fn consume_cpu_event(
    cca: &mut CpuAnalyzer,
    pid: u32,
    tid: u32,
    thread_name: &str,
    attrs: &Vec<KeyValue>,
)
    requires
        old(cca).wf(),
        forall|i: int| 0 <= i < attrs@.len() ==> wf_cpu_attr(#[trigger] attrs@[i]@),
        sec_of(cpu_event_of_attrs(key_value_models(attrs@)).start_time) <= MAX_BASE_TIME_SEC
            as int,
        sec_of(cpu_event_of_attrs(key_value_models(attrs@)).end_time) <= MAX_BASE_TIME_SEC as int,
    ensures
        final(cca).wf(),
        ({
            let evm = cpu_event_of_attrs(key_value_models(attrs@));
            if evm.start_time < EVENT_TIME_SANITY_THRESHOLD_NS {
                final(cca).cpu_pid_events@ == old(cca).cpu_pid_events@
            } else {
                registry_after_ingest(
                    old(cca).cpu_pid_events@,
                    final(cca).cpu_pid_events@,
                    pid,
                    tid,
                    SampleRecordModel::Cpu(evm),
                    thread_name@,
                )
            }
        }),
{
    let ev = build_cpu_event(attrs);
    if ev.start_time < EVENT_TIME_SANITY_THRESHOLD_NS {
        return ;
    }
    cca.put_event_to_segments(pid, tid, thread_name, SampleRecord::Cpu(ev));
}

/// A futex-sample attribute is well formed when an `end_time` key carries a
/// decimal `u64` rendering, which is what the decoder parses.
pub open spec fn wf_futex_attr(kv: KeyValueModel) -> bool {
    kv.key == "end_time"@ ==> is_u64_decimal(kv.value)
}

/// One attribute folded into a futex sample under construction.
pub open spec fn apply_futex_attr(ev: JavaFutexEventModel, kv: KeyValueModel) -> JavaFutexEventModel {
    if kv.key == "end_time"@ {
        JavaFutexEventModel { end_time: dec_u64_value(kv.value), ..ev }
    } else if kv.key == "data"@ {
        JavaFutexEventModel { data_val: lossy_string_of(kv.value), ..ev }
    } else {
        ev
    }
}

/// The futex sample the first `n` attributes decode to, starting from the
/// event's capture timestamp.
pub open spec fn futex_event_of_prefix(
    timestamp: u64,
    attrs: Seq<KeyValueModel>,
    n: int,
) -> JavaFutexEventModel
    decreases n,
{
    if n <= 0 {
        JavaFutexEventModel { start_time: timestamp, ..default_java_futex_event_model() }
    } else {
        apply_futex_attr(futex_event_of_prefix(timestamp, attrs, n - 1), attrs[n - 1])
    }
}

/// The futex sample a full attribute list decodes to.
pub open spec fn futex_event_of_attrs(
    timestamp: u64,
    attrs: Seq<KeyValueModel>,
) -> JavaFutexEventModel {
    futex_event_of_prefix(timestamp, attrs, attrs.len() as int)
}

/// Decodes the attribute list of a captured Java futex-wait event into a
/// [`JavaFutexEvent`] starting at the event's capture timestamp.
pub fn build_java_futex_event(timestamp: u64, attrs: &Vec<KeyValue>) -> (ev: JavaFutexEvent)
    requires
        forall|i: int| 0 <= i < attrs@.len() ==> wf_futex_attr(#[trigger] attrs@[i]@),
    ensures
        ev@ == futex_event_of_attrs(timestamp, key_value_models(attrs@)),
{
    let mut ev = JavaFutexEvent::default();
    ev.start_time = timestamp;
    let key_end_time: String = "end_time".to_owned();
    let key_data: String = "data".to_owned();
    let n = attrs.len();
    for i in 0..n
        invariant
            n == attrs@.len(),
            forall|j: int| 0 <= j < attrs@.len() ==> wf_futex_attr(#[trigger] attrs@[j]@),
            key_end_time@ == "end_time"@,
            key_data@ == "data"@,
            ev@ == futex_event_of_prefix(timestamp, key_value_models(attrs@), i as int),
    {
        let kv = &attrs[i];
        proof {
            assert(key_value_models(attrs@)[i as int] == kv@);
        }
        if kv.key == key_end_time {
            ev.end_time = parse_u64_decimal(kv.value.as_slice()).unwrap();
        } else if kv.key == key_data {
            ev.data_val = read_string_value(Some(kv.value.as_slice()));
        }
    }
    ev
}

/// Decodes the attributes of a captured Java futex-wait event and ingests
/// the sample.
pub fn consume_java_futex_event(
    cca: &mut CpuAnalyzer,
    pid: u32,
    tid: u32,
    thread_name: &str,
    timestamp: u64,
    attrs: &Vec<KeyValue>,
)
    requires
        old(cca).wf(),
        forall|i: int| 0 <= i < attrs@.len() ==> wf_futex_attr(#[trigger] attrs@[i]@),
        sec_of(timestamp) <= MAX_BASE_TIME_SEC as int,
        sec_of(futex_event_of_attrs(timestamp, key_value_models(attrs@)).end_time)
            <= MAX_BASE_TIME_SEC as int,
    ensures
        final(cca).wf(),
        registry_after_ingest(
            old(cca).cpu_pid_events@,
            final(cca).cpu_pid_events@,
            pid,
            tid,
            SampleRecordModel::JavaFutex(
                futex_event_of_attrs(timestamp, key_value_models(attrs@)),
            ),
            thread_name@,
        ),
{
    let ev = build_java_futex_event(timestamp, attrs);
    proof {
        assert(ev@.start_time == timestamp) by {
            futex_start_time_is_timestamp(timestamp, key_value_models(attrs@), attrs@.len() as int);
        };
    }
    cca.put_event_to_segments(pid, tid, thread_name, SampleRecord::JavaFutex(ev));
}

/// Decoding never changes a futex sample's start timestamp: it stays the
/// event's capture timestamp.
proof fn futex_start_time_is_timestamp(timestamp: u64, attrs: Seq<KeyValueModel>, n: int)
    ensures
        futex_event_of_prefix(timestamp, attrs, n).start_time == timestamp,
    decreases n,
{
    if n > 0 {
        futex_start_time_is_timestamp(timestamp, attrs, n - 1);
    }
}

/// `tids` enumerates the registered thread ids exactly once, and `emitted` is
/// the concatenation of the windows' emissions in that order.
pub open spec fn emission_order(
    inner0: Map<u32, TimeSegments>,
    tids: Seq<u32>,
    start_sec: int,
    end_sec: int,
    stamp: Seq<char>,
    emitted: Seq<SegmentModel>,
) -> bool {
    &&& tids.no_duplicates()
    &&& tids.to_set() == inner0.dom()
    &&& emitted == concat_emissions(inner0, tids, start_sec, end_sec, stamp)
}

} // verus!
