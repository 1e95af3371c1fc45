//! Properties of the window transition and of the flush selector, stated
//! over the spec-level models and proved once and for all.

use vstd::prelude::*;

use crate::cpu_analyzer::{
    flush_hi, flush_lo, flush_window_spec, fresh_segment_at, ingest_window, merged_segment,
    sec_of, window_emission, window_emission_upto,
};
use crate::model::{segment_not_empty, SampleRecordModel, SegmentModel, TimeSegmentsModel};
use crate::{MAX_BASE_TIME_SEC, MAX_SEGMENT_SIZE};

verus! {

/// A window's anchor never moves backward: whatever sample is ingested, the
/// anchor after the transition is at least the anchor before it. In
/// particular, over any run of samples for one (pid, tid) — with increasing
/// start times or not — `base_time` is non-decreasing.
pub proof fn lemma_anchor_never_moves_backward(
    w: TimeSegmentsModel,
    ev: SampleRecordModel,
    name: Seq<char>,
)
    requires
        w.base_time <= MAX_BASE_TIME_SEC,
    ensures
        ingest_window(w, ev, name).base_time >= w.base_time,
{
}

/// A sample that lies entirely before the current anchor — or that starts
/// before it — is dropped without touching the window: no bucket receives
/// it, the anchor and the thread name stay as they were, and ingesting it
/// again drops it again.
pub proof fn lemma_stale_sample_dropped(
    w: TimeSegmentsModel,
    ev: SampleRecordModel,
    name: Seq<char>,
)
    requires
        sec_of(ev.end_time()) < w.base_time || sec_of(ev.start_time()) < w.base_time,
    ensures
        ingest_window(w, ev, name) == w,
{
}

/// After a full reset, the new anchor equals the triggering sample's start
/// second, and every bucket is a fresh empty bucket of the new anchor except
/// those the merge pass touches, which hold exactly the triggering sample.
pub proof fn lemma_full_reset(w: TimeSegmentsModel, ev: SampleRecordModel, name: Seq<char>)
    requires
        sec_of(ev.start_time()) >= w.base_time,
        sec_of(ev.end_time()) >= w.base_time,
        sec_of(ev.start_time()) - w.base_time >= MAX_SEGMENT_SIZE || sec_of(ev.end_time())
            - w.base_time > MAX_SEGMENT_SIZE,
        (sec_of(ev.start_time()) - w.base_time) * 2 >= 3 * (MAX_SEGMENT_SIZE as int),
    ensures
        ({
            let r = ingest_window(w, ev, name);
            let hi = sec_of(ev.end_time()) - sec_of(ev.start_time());
            &&& r.base_time == sec_of(ev.start_time())
            &&& r.segments.len() == MAX_SEGMENT_SIZE
            &&& forall|i: int|
                0 <= i < MAX_SEGMENT_SIZE && !(i <= hi) ==> r.segments[i] == fresh_segment_at(
                    r.base_time,
                    i,
                )
            &&& forall|i: int|
                0 <= i < MAX_SEGMENT_SIZE && i <= hi ==> r.segments[i] == merged_segment(
                    fresh_segment_at(r.base_time, i),
                    ev,
                )
        }),
{
}

/// A half shift never loses samples: each bucket carried from index
/// `i + clear_size` to index `i` keeps its whole sample lists as a prefix —
/// the old samples are retained, with the triggering sample appended, and
/// appended once more where the merge pass touches the carried index.
pub proof fn lemma_half_shift_preserves_samples(
    w: TimeSegmentsModel,
    ev: SampleRecordModel,
    name: Seq<char>,
)
    requires
        w.segments.len() == MAX_SEGMENT_SIZE,
        sec_of(ev.start_time()) >= w.base_time,
        sec_of(ev.end_time()) >= w.base_time,
        sec_of(ev.start_time()) - w.base_time >= MAX_SEGMENT_SIZE || sec_of(ev.end_time())
            - w.base_time > MAX_SEGMENT_SIZE,
        (sec_of(ev.start_time()) - w.base_time) * 2 < 3 * (MAX_SEGMENT_SIZE as int),
    ensures
        ({
            let r = ingest_window(w, ev, name);
            let clear_size = MAX_SEGMENT_SIZE as int / 2;
            forall|i: int|
                0 <= i < clear_size ==> (#[trigger] w.segments[i
                    + clear_size]).cpu_events.is_prefix_of(r.segments[i].cpu_events)
                    && w.segments[i + clear_size].java_futex_event.is_prefix_of(
                    r.segments[i].java_futex_event,
                )
        }),
{
    let r = ingest_window(w, ev, name);
    let clear_size = MAX_SEGMENT_SIZE as int / 2;
    assert forall|i: int| 0 <= i < clear_size implies (#[trigger] w.segments[i
        + clear_size]).cpu_events.is_prefix_of(r.segments[i].cpu_events) && w.segments[i
        + clear_size].java_futex_event.is_prefix_of(r.segments[i].java_futex_event) by {
        let s0 = w.segments[i + clear_size];
        let s1 = r.segments[i];
        assert(s0.cpu_events =~= s0.cpu_events.push(ev->Cpu_0).subrange(
            0,
            s0.cpu_events.len() as int,
        ));
        assert(s0.cpu_events =~= s0.cpu_events.push(ev->Cpu_0).push(ev->Cpu_0).subrange(
            0,
            s0.cpu_events.len() as int,
        ));
        assert(s0.java_futex_event =~= s0.java_futex_event.push(ev->JavaFutex_0).subrange(
            0,
            s0.java_futex_event.len() as int,
        ));
        assert(s0.java_futex_event =~= s0.java_futex_event.push(ev->JavaFutex_0).push(
            ev->JavaFutex_0,
        ).subrange(0, s0.java_futex_event.len() as int));
        assert(s0.cpu_events.is_prefix_of(s1.cpu_events));
        assert(s0.java_futex_event.is_prefix_of(s1.java_futex_event));
    }
}

/// Flushing a range in which every covered bucket is empty emits nothing and
/// mutates nothing: no flush mark, no timestamp, no field of the window.
pub proof fn lemma_flush_empty_range_is_noop(
    w: TimeSegmentsModel,
    start_sec: int,
    end_sec: int,
    stamp: Seq<char>,
)
    requires
        forall|i: int|
            flush_lo(w, start_sec) <= i <= flush_hi(w, end_sec) && 0 <= i < w.segments.len()
                ==> !segment_not_empty(#[trigger] w.segments[i]),
    ensures
        flush_window_spec(w, start_sec, end_sec, stamp) == w,
        window_emission(w, start_sec, end_sec, stamp) == Seq::<SegmentModel>::empty(),
{
    assert(flush_window_spec(w, start_sec, end_sec, stamp).segments =~= w.segments);
    assert(flush_window_spec(w, start_sec, end_sec, stamp) =~= w);
    lemma_emission_of_empty_buckets(
        w.segments,
        flush_lo(w, start_sec),
        flush_hi(w, end_sec) + 1,
        stamp,
    );
}

/// A range of empty buckets emits nothing.
proof fn lemma_emission_of_empty_buckets(
    segs: Seq<SegmentModel>,
    lo: int,
    i: int,
    stamp: Seq<char>,
)
    requires
        forall|j: int|
            lo <= j < i && 0 <= j < segs.len() ==> !segment_not_empty(#[trigger] segs[j]),
    ensures
        window_emission_upto(segs, lo, i, stamp) == Seq::<SegmentModel>::empty(),
    decreases i - lo,
{
    if i > lo {
        lemma_emission_of_empty_buckets(segs, lo, i - 1, stamp);
        assert(window_emission_upto(segs, lo, i, stamp) =~= Seq::<SegmentModel>::empty());
    }
}

/// The emissions over two bucket queues with identical sample content have
/// identical sample content, bucket for bucket.
proof fn lemma_emission_same_content(
    segs1: Seq<SegmentModel>,
    segs2: Seq<SegmentModel>,
    lo: int,
    i: int,
    stamp1: Seq<char>,
    stamp2: Seq<char>,
)
    requires
        segs1.len() == segs2.len(),
        forall|j: int|
            0 <= j < segs1.len() ==> (#[trigger] segs2[j]).cpu_events == segs1[j].cpu_events
                && segs2[j].java_futex_event == segs1[j].java_futex_event,
    ensures
        ({
            let e1 = window_emission_upto(segs1, lo, i, stamp1);
            let e2 = window_emission_upto(segs2, lo, i, stamp2);
            &&& e1.len() == e2.len()
            &&& forall|k: int|
                0 <= k < e1.len() ==> (#[trigger] e2[k]).cpu_events == e1[k].cpu_events
                    && e2[k].java_futex_event == e1[k].java_futex_event
        }),
    decreases i - lo,
{
    if i > lo {
        lemma_emission_same_content(segs1, segs2, lo, i - 1, stamp1, stamp2);
    }
}

/// Flushing the same range twice is idempotent in sample content: the second
/// flush re-emits the same buckets with the same sample lists, in the same
/// order, and no bucket of the window gains or loses a sample.
pub proof fn lemma_flush_twice_idempotent(
    w: TimeSegmentsModel,
    start_sec: int,
    end_sec: int,
    stamp1: Seq<char>,
    stamp2: Seq<char>,
)
    ensures
        ({
            let w1 = flush_window_spec(w, start_sec, end_sec, stamp1);
            let w2 = flush_window_spec(w1, start_sec, end_sec, stamp2);
            let e1 = window_emission(w, start_sec, end_sec, stamp1);
            let e2 = window_emission(w1, start_sec, end_sec, stamp2);
            &&& w2.segments.len() == w.segments.len()
            &&& forall|i: int|
                0 <= i < w.segments.len() ==> (#[trigger] w2.segments[i]).cpu_events
                    == w.segments[i].cpu_events && w2.segments[i].java_futex_event
                    == w.segments[i].java_futex_event
            &&& e1.len() == e2.len()
            &&& forall|k: int|
                0 <= k < e1.len() ==> (#[trigger] e2[k]).cpu_events == e1[k].cpu_events
                    && e2[k].java_futex_event == e1[k].java_futex_event
        }),
{
    let w1 = flush_window_spec(w, start_sec, end_sec, stamp1);
    if !(end_sec < w.base_time || start_sec > w.base_time + MAX_SEGMENT_SIZE) {
        lemma_emission_same_content(
            w.segments,
            w1.segments,
            flush_lo(w, start_sec),
            flush_hi(w, end_sec) + 1,
            stamp1,
            stamp2,
        );
    }
}

} // verus!
