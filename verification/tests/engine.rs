use kindling_core::cpu_analyzer::CpuAnalyzer;
use kindling_core::model::{CpuEvent, SampleRecord, TimeSegments};

const NS: u64 = 1_000_000_000;

fn cpu_sample(start_sec: u64, end_sec: u64) -> SampleRecord {
    let mut ev = CpuEvent::default();
    ev.start_time = start_sec * NS;
    ev.end_time = end_sec * NS;
    SampleRecord::Cpu(ev)
}

fn window(ca: &CpuAnalyzer, pid: u32, tid: u32) -> &TimeSegments {
    ca.cpu_pid_events.get(&pid).unwrap().get(&tid).unwrap()
}

fn cpu_count(ts: &TimeSegments, index: usize) -> usize {
    ts.segments.get_by_index(index).unwrap().cpu_events().len()
}

#[test]
fn first_event_creates_window_anchored_at_start_second() {
    let mut ca = CpuAnalyzer::new();
    ca.put_event_to_segments(1, 1, "worker", cpu_sample(100, 100));

    let ts = window(&ca, 1, 1);
    assert_eq!(ts.pid, 1);
    assert_eq!(ts.tid, 1);
    assert_eq!(ts.thread_name, "worker");
    assert_eq!(ts.base_time, 100);
    assert_eq!(cpu_count(ts, 0), 1);
    for i in 1..40 {
        assert_eq!(cpu_count(ts, i), 0);
    }
    let bucket = ts.segments.get_by_index(0).unwrap();
    assert_eq!(bucket.start_time(), 100 * NS);
    assert_eq!(bucket.end_time(), 101 * NS);
    assert_eq!(bucket.cpu_events()[0].start_time, 100 * NS);
}

#[test]
fn event_inside_window_fills_every_spanned_bucket() {
    let mut ca = CpuAnalyzer::new();
    ca.put_event_to_segments(1, 1, "worker", cpu_sample(100, 100));
    ca.put_event_to_segments(1, 1, "worker", cpu_sample(105, 106));

    let ts = window(&ca, 1, 1);
    assert_eq!(ts.base_time, 100, "offsets 5 and 6 need no rotation");
    assert_eq!(cpu_count(ts, 0), 1);
    assert_eq!(cpu_count(ts, 5), 1);
    assert_eq!(cpu_count(ts, 6), 1);
    for i in [1, 2, 3, 4, 7, 8, 39] {
        assert_eq!(cpu_count(ts, i), 0);
    }
}

#[test]
fn moderate_jump_half_shifts_the_window() {
    let mut ca = CpuAnalyzer::new();
    ca.put_event_to_segments(1, 1, "worker", cpu_sample(100, 100));
    ca.put_event_to_segments(1, 1, "worker", cpu_sample(105, 106));
    // start_offset = 45 >= 40, and 45 * 2 = 90 < 3 * 40 = 120: half shift.
    ca.put_event_to_segments(1, 1, "worker", cpu_sample(145, 146));

    let ts = window(&ca, 1, 1);
    assert_eq!(ts.base_time, 120);
    // The carried second half was empty, so each carried bucket holds exactly
    // the one copy of the triggering sample merged during the shift.
    for i in 0..20 {
        assert_eq!(cpu_count(ts, i), 1, "carried bucket {i}");
        assert_eq!(
            ts.segments.get_by_index(i).unwrap().cpu_events()[0].start_time,
            145 * NS
        );
    }
    // The merge pass then fills the fresh buckets at the new offsets 25 and 26.
    assert_eq!(cpu_count(ts, 25), 1);
    assert_eq!(cpu_count(ts, 26), 1);
    for i in [20, 21, 22, 23, 24, 27, 30, 39] {
        assert_eq!(cpu_count(ts, i), 0, "fresh bucket {i}");
    }
    // Fresh buckets cover the newly exposed trailing seconds.
    let fresh = ts.segments.get_by_index(20).unwrap();
    assert_eq!(fresh.start_time(), 140 * NS);
    assert_eq!(fresh.end_time(), 141 * NS);
}

#[test]
fn half_shift_carries_accumulated_samples_forward() {
    let mut ca = CpuAnalyzer::new();
    ca.put_event_to_segments(1, 1, "worker", cpu_sample(100, 100));
    ca.put_event_to_segments(1, 1, "worker", cpu_sample(125, 126));
    ca.put_event_to_segments(1, 1, "worker", cpu_sample(145, 146));

    let ts = window(&ca, 1, 1);
    assert_eq!(ts.base_time, 120);
    // Old buckets 25 and 26 (seconds 125 and 126) are carried to indices 5
    // and 6, keeping their sample and receiving the triggering one.
    for i in [5, 6] {
        let bucket = ts.segments.get_by_index(i).unwrap();
        assert_eq!(bucket.cpu_events().len(), 2, "carried bucket {i}");
        assert_eq!(bucket.cpu_events()[0].start_time, 125 * NS);
        assert_eq!(bucket.cpu_events()[1].start_time, 145 * NS);
    }
    // Every other carried bucket was empty and holds only the triggering
    // sample; the sample of second 100 fell out of the window.
    for i in [0, 1, 4, 7, 19] {
        assert_eq!(cpu_count(ts, i), 1, "carried bucket {i}");
    }
}

#[test]
fn triggering_sample_is_merged_twice_where_pass_and_shift_overlap() {
    let mut ca = CpuAnalyzer::new();
    ca.put_event_to_segments(1, 1, "worker", cpu_sample(100, 100));
    // end_offset = 41 > 40 forces a rotation; 35 * 2 = 70 < 120 keeps it a
    // half shift. The shifted offsets are 15 and 21, so the merge pass walks
    // carried indices 15..=19 a second time.
    ca.put_event_to_segments(1, 1, "worker", cpu_sample(135, 141));

    let ts = window(&ca, 1, 1);
    assert_eq!(ts.base_time, 120);
    for i in 0..15 {
        assert_eq!(cpu_count(ts, i), 1, "shift-only bucket {i}");
    }
    for i in 15..20 {
        assert_eq!(cpu_count(ts, i), 2, "double-merged bucket {i}");
    }
    for i in 20..22 {
        assert_eq!(cpu_count(ts, i), 1, "fresh bucket {i} filled by the pass");
    }
    for i in 22..40 {
        assert_eq!(cpu_count(ts, i), 0, "fresh bucket {i}");
    }
}

#[test]
fn large_jump_fully_resets_the_window() {
    let mut ca = CpuAnalyzer::new();
    ca.put_event_to_segments(1, 1, "worker", cpu_sample(100, 100));
    ca.put_event_to_segments(1, 1, "worker", cpu_sample(105, 106));
    ca.put_event_to_segments(1, 1, "worker", cpu_sample(145, 146));
    // Anchor is 120; start_offset = 380, and 380 * 2 >= 120: full reset.
    ca.put_event_to_segments(1, 1, "worker", cpu_sample(500, 501));

    let ts = window(&ca, 1, 1);
    assert_eq!(ts.base_time, 500);
    assert_eq!(cpu_count(ts, 0), 1);
    assert_eq!(cpu_count(ts, 1), 1, "the sample spans seconds 500 and 501");
    for i in 2..40 {
        assert_eq!(cpu_count(ts, i), 0, "cleared bucket {i}");
    }
    let bucket = ts.segments.get_by_index(0).unwrap();
    assert_eq!(bucket.start_time(), 500 * NS);
    assert_eq!(bucket.cpu_events()[0].start_time, 500 * NS);
}

#[test]
fn stale_sample_is_dropped_without_any_mutation() {
    let mut ca = CpuAnalyzer::new();
    ca.put_event_to_segments(1, 1, "worker", cpu_sample(100, 100));
    ca.put_event_to_segments(1, 1, "renamed", cpu_sample(90, 91));

    let ts = window(&ca, 1, 1);
    assert_eq!(ts.base_time, 100);
    assert_eq!(
        ts.thread_name, "worker",
        "the drop path returns before the name update"
    );
    assert_eq!(cpu_count(ts, 0), 1);
    for i in 1..40 {
        assert_eq!(cpu_count(ts, i), 0);
    }
}

#[test]
fn anchor_never_decreases_over_increasing_start_times() {
    let mut ca = CpuAnalyzer::new();
    let mut last_anchor = 0;
    for (s, e) in [(100, 100), (105, 106), (139, 141), (145, 146), (500, 501), (505, 505)] {
        ca.put_event_to_segments(1, 1, "worker", cpu_sample(s, e));
        let anchor = window(&ca, 1, 1).base_time;
        assert!(anchor >= last_anchor, "anchor moved backward: {last_anchor} -> {anchor}");
        last_anchor = anchor;
    }
}

#[test]
fn windows_are_kept_per_pid_and_tid() {
    let mut ca = CpuAnalyzer::new();
    ca.put_event_to_segments(1, 1, "a", cpu_sample(100, 100));
    ca.put_event_to_segments(1, 2, "b", cpu_sample(200, 200));
    ca.put_event_to_segments(7, 1, "c", cpu_sample(300, 300));

    assert_eq!(window(&ca, 1, 1).base_time, 100);
    assert_eq!(window(&ca, 1, 2).base_time, 200);
    assert_eq!(window(&ca, 7, 1).base_time, 300);
    assert_eq!(ca.cpu_pid_events.len(), 2);
    assert_eq!(ca.cpu_pid_events.get(&1).unwrap().len(), 2);
}

#[test]
fn thread_name_is_updated_on_every_merged_event() {
    let mut ca = CpuAnalyzer::new();
    ca.put_event_to_segments(1, 1, "old-name", cpu_sample(100, 100));
    ca.put_event_to_segments(1, 1, "new-name", cpu_sample(101, 101));
    assert_eq!(window(&ca, 1, 1).thread_name, "new-name");
}

#[test]
fn flush_emits_only_non_empty_buckets_and_marks_them() {
    let mut ca = CpuAnalyzer::new();
    ca.put_event_to_segments(1, 1, "worker", cpu_sample(100, 100));
    ca.put_event_to_segments(1, 1, "worker", cpu_sample(105, 106));

    let flushed = ca.send_events(1, 100 * NS, 107 * NS);
    assert_eq!(flushed.len(), 3);
    let mut starts: Vec<u64> = flushed.iter().map(|s| s.start_time()).collect();
    starts.sort();
    assert_eq!(starts, vec![100 * NS, 105 * NS, 106 * NS]);
    for s in &flushed {
        assert_eq!(s.is_send, 0, "the emitted copy is taken before marking");
        assert!(!s.index_timestamp.is_empty(), "the emitted copy is stamped");
    }

    let ts = window(&ca, 1, 1);
    for i in [0, 5, 6] {
        let bucket = ts.segments.get_by_index(i).unwrap();
        assert_eq!(bucket.is_send, 1);
        assert!(!bucket.index_timestamp.is_empty());
        assert_eq!(bucket.cpu_events().len(), 1, "flushing keeps the samples");
    }
    let empty_bucket = ts.segments.get_by_index(3).unwrap();
    assert_eq!(empty_bucket.is_send, 0, "the empty bucket is skipped");
    assert!(empty_bucket.index_timestamp.is_empty());
}

#[test]
fn flush_of_unknown_pid_emits_nothing() {
    let mut ca = CpuAnalyzer::new();
    ca.put_event_to_segments(1, 1, "worker", cpu_sample(100, 100));
    let flushed = ca.send_events(2, 100 * NS, 107 * NS);
    assert!(flushed.is_empty());
    assert_eq!(window(&ca, 1, 1).segments.get_by_index(0).unwrap().is_send, 0);
}

#[test]
fn flush_outside_the_window_range_mutates_no_flags() {
    let mut ca = CpuAnalyzer::new();
    ca.put_event_to_segments(1, 1, "worker", cpu_sample(100, 100));
    let flushed = ca.send_events(1, 300 * NS, 310 * NS);
    assert!(flushed.is_empty());
    let ts = window(&ca, 1, 1);
    for i in 0..40 {
        let bucket = ts.segments.get_by_index(i).unwrap();
        assert_eq!(bucket.is_send, 0);
        assert!(bucket.index_timestamp.is_empty());
    }
}

#[test]
fn flushing_twice_re_emits_without_duplicating_samples() {
    let mut ca = CpuAnalyzer::new();
    ca.put_event_to_segments(1, 1, "worker", cpu_sample(100, 100));
    ca.put_event_to_segments(1, 1, "worker", cpu_sample(105, 106));

    let first = ca.send_events(1, 100 * NS, 107 * NS);
    let second = ca.send_events(1, 100 * NS, 107 * NS);

    assert_eq!(first.len(), 3);
    assert_eq!(second.len(), 3, "already-flushed buckets are re-emitted");
    let mut first_starts: Vec<u64> = first.iter().map(|s| s.start_time()).collect();
    let mut second_starts: Vec<u64> = second.iter().map(|s| s.start_time()).collect();
    first_starts.sort();
    second_starts.sort();
    assert_eq!(first_starts, second_starts);
    for s in &second {
        assert_eq!(s.is_send, 1, "the second emission sees the mark of the first");
        assert_eq!(s.cpu_events().len(), 1, "no sample was duplicated or dropped");
    }
    let ts = window(&ca, 1, 1);
    for i in [0, 5, 6] {
        assert_eq!(ts.segments.get_by_index(i).unwrap().cpu_events().len(), 1);
    }
}
