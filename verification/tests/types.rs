use kindling_core::circle_queue::CircleQueue;
use kindling_core::event::{Category, Source, ValueType};
use kindling_core::model::{CpuEvent, JavaFutexEvent, SampleRecord, Segment};
use kindling_core::time_event::TimedEvent;

#[test]
fn circle_queue_reads_and_writes_are_bounds_checked() {
    let mut q = CircleQueue::new(3);
    assert!(q.get_by_index(0).is_some());
    assert!(q.get_by_index(2).is_some());
    assert!(q.get_by_index(3).is_none());

    q.update_by_index(1, Segment::new(10, 20));
    assert_eq!(q.get_by_index(1).unwrap().start_time(), 10);
    assert_eq!(q.get_by_index(1).unwrap().end_time(), 20);

    // An out-of-range write is silently ignored.
    q.update_by_index(3, Segment::new(99, 100));
    assert!(q.get_by_index(3).is_none());

    q.clear();
    assert_eq!(q.get_by_index(1).unwrap().start_time(), 0);
    assert!(q.get_by_index(3).is_none(), "clear preserves the capacity");
}

#[test]
fn segment_collects_samples_by_kind() {
    let mut seg = Segment::new(0, 1_000_000_000);
    assert!(!seg.is_not_empty());

    let mut cpu = CpuEvent::default();
    cpu.start_time = 7;
    seg.put_cpu_event(cpu);
    assert!(seg.is_not_empty());
    assert_eq!(seg.cpu_events().len(), 1);
    assert_eq!(seg.java_futex_events().len(), 0);

    let mut futex = JavaFutexEvent::new();
    futex.data_val = "w".to_string();
    seg.put_java_futex_event(futex);
    assert_eq!(seg.java_futex_events().len(), 1);
}

#[test]
fn a_bucket_with_only_futex_samples_counts_as_non_empty() {
    let mut seg = Segment::new(0, 1);
    seg.put_java_futex_event(JavaFutexEvent::new());
    assert!(seg.is_not_empty());
}

#[test]
fn put_timed_event_dispatches_on_the_kind() {
    let mut seg = Segment::new(0, 1);
    seg.put_timed_event(&SampleRecord::Cpu(CpuEvent::default()));
    seg.put_timed_event(&SampleRecord::JavaFutex(JavaFutexEvent::new()));
    assert_eq!(seg.cpu_events().len(), 1);
    assert_eq!(seg.java_futex_events().len(), 1);
}

#[test]
fn segment_timestamps_can_be_stamped() {
    let mut seg = Segment::new(0, 1);
    seg.set_index_timestamp("2024-01-01 00:00:00");
    assert_eq!(seg.index_timestamp, "2024-01-01 00:00:00");
    seg.update_index_timestamp();
    assert!(!seg.index_timestamp.is_empty());
}

#[test]
fn sample_records_expose_their_timestamps_and_kind() {
    let mut cpu = CpuEvent::default();
    cpu.start_time = 3;
    cpu.end_time = 5;
    assert_eq!(cpu.start_timestamp(), 3);
    assert_eq!(cpu.end_timestamp(), 5);
    assert_eq!(cpu.kind(), 0);

    let mut futex = JavaFutexEvent::new();
    futex.start_time = 11;
    futex.end_time = 13;
    assert_eq!(futex.start_timestamp(), 11);
    assert_eq!(futex.end_timestamp(), 13);
    assert_eq!(futex.kind(), 1);

    let record = SampleRecord::Cpu(cpu);
    assert_eq!(record.start_timestamp(), 3);
    assert_eq!(record.end_timestamp(), 5);
    assert_eq!(record.kind(), 0);
    let record = SampleRecord::JavaFutex(futex);
    assert_eq!(record.kind(), 1);
}

#[test]
fn enum_codes_round_trip() {
    assert_eq!(Source::default().code(), 0);
    assert_eq!(Source::Tracepoint.code(), 3);
    assert_eq!(Source::Uretprobe.code(), 7);
    assert_eq!(Source::Tracepoint.name(), "TRACEPOINT");
    assert_eq!(Source::SourceUnknown.name(), "SOURCE_UNKNOWN");

    assert_eq!(Category::default().code(), 0);
    assert_eq!(Category::CatScheduler.code(), 10);
    assert_eq!(Category::CatSystem.code(), 13);
    assert_eq!(Category::CatScheduler.name(), "CAT_SCHEDULER");
    assert_eq!(ValueType::UInt64.name(), "UINT64");
    assert_eq!(ValueType::NoneValue.name(), "NONE");

    assert_eq!(ValueType::default().code(), 0);
    for code in 0..=13u32 {
        assert_eq!(ValueType::from_code(code).code(), code);
    }
    assert_eq!(ValueType::from_code(200), ValueType::NoneValue);
    assert_eq!(ValueType::UInt64.code(), 8);
}

#[test]
fn cloned_events_keep_their_fields() {
    let mut cpu = CpuEvent::default();
    cpu.start_time = 1;
    cpu.type_specs = vec![4, 5];
    cpu.on_info = "abc".to_string();
    let copy = cpu.clone();
    assert_eq!(copy.start_time, 1);
    assert_eq!(copy.type_specs, vec![4, 5]);
    assert_eq!(copy.on_info, "abc");

    let mut seg = Segment::new(2, 3);
    seg.put_cpu_event(cpu);
    let seg_copy = seg.clone();
    assert_eq!(seg_copy.start_time(), 2);
    assert_eq!(seg_copy.cpu_events().len(), 1);
    assert_eq!(seg_copy.cpu_events()[0].type_specs, vec![4, 5]);
}
