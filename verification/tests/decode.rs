use kindling_core::cpu_analyzer::{
    build_cpu_event, build_java_futex_event, consume_cpu_event, consume_java_futex_event,
    parse_u64_decimal, read_string_value, read_u64_values, read_u8_values, CpuAnalyzer,
};
use kindling_core::event::{KeyValue, ValueType};

const NS: u64 = 1_000_000_000;

fn attr(key: &str, value_type: ValueType, value: Vec<u8>) -> KeyValue {
    KeyValue { key: key.to_string(), value_type, value }
}

fn uint64_attr(key: &str, v: u64) -> KeyValue {
    attr(key, ValueType::UInt64, v.to_le_bytes().to_vec())
}

#[test]
fn read_u64_values_decodes_little_endian_chunks() {
    let mut bytes = vec![0x78, 0x56, 0x34, 0x12, 0, 0, 0, 0];
    bytes.extend_from_slice(&[2, 0, 0, 0, 0, 0, 0, 0]);
    assert_eq!(read_u64_values(&bytes), vec![0x12345678, 2]);
}

#[test]
fn read_u64_values_ignores_a_trailing_partial_chunk() {
    let bytes = [1u8, 0, 0, 0, 0, 0, 0, 0, 0xAA, 0xBB];
    assert_eq!(read_u64_values(&bytes), vec![1]);
    assert_eq!(read_u64_values(&[]), Vec::<u64>::new());
}

#[test]
fn read_u8_values_copies_the_bytes() {
    assert_eq!(read_u8_values(&[1, 2, 3]), vec![1, 2, 3]);
    assert_eq!(read_u8_values(&[]), Vec::<u8>::new());
}

#[test]
fn read_string_value_decodes_utf8() {
    assert_eq!(read_string_value(Some(b"abc")), "abc");
    assert_eq!(read_string_value(None), "");
    assert_eq!(read_string_value(Some(&[])), "");
    // Invalid UTF-8 is replaced, not dropped.
    assert_eq!(read_string_value(Some(&[0x61, 0xFF])), "a\u{FFFD}");
}

#[test]
fn parse_u64_decimal_accepts_digits_and_a_plus_sign() {
    assert_eq!(parse_u64_decimal(b"0"), Some(0));
    assert_eq!(parse_u64_decimal(b"123456"), Some(123456));
    assert_eq!(parse_u64_decimal(b"+42"), Some(42));
    assert_eq!(parse_u64_decimal(b"0009"), Some(9));
    assert_eq!(parse_u64_decimal(b"18446744073709551615"), Some(u64::MAX));
}

#[test]
fn parse_u64_decimal_rejects_everything_else() {
    assert_eq!(parse_u64_decimal(b""), None);
    assert_eq!(parse_u64_decimal(b"+"), None);
    assert_eq!(parse_u64_decimal(b"12a3"), None);
    assert_eq!(parse_u64_decimal(b"-1"), None);
    assert_eq!(parse_u64_decimal(b" 1"), None);
    assert_eq!(parse_u64_decimal(b"18446744073709551616"), None);
    assert_eq!(parse_u64_decimal(b"99999999999999999999999"), None);
}

#[test]
fn uint_values_follow_the_wire_type_width() {
    assert_eq!(attr("k", ValueType::UInt8, vec![0xFE]).get_uint_value(), 0xFE);
    assert_eq!(attr("k", ValueType::UInt16, vec![0x34, 0x12]).get_uint_value(), 0x1234);
    assert_eq!(
        attr("k", ValueType::UInt32, vec![0x78, 0x56, 0x34, 0x12]).get_uint_value(),
        0x12345678
    );
    assert_eq!(
        attr("k", ValueType::UInt64, 0xDEAD_BEEF_0102_0304u64.to_le_bytes().to_vec())
            .get_uint_value(),
        0xDEAD_BEEF_0102_0304
    );
    // A non-unsigned wire type reads as 0.
    assert_eq!(attr("k", ValueType::Charbuf, vec![9, 9]).get_uint_value(), 0);
}

#[test]
fn int_values_are_two_s_complement() {
    assert_eq!(attr("k", ValueType::Int8, vec![0xFF]).get_int_value(), -1);
    assert_eq!(attr("k", ValueType::Int8, vec![0x7F]).get_int_value(), 127);
    assert_eq!(attr("k", ValueType::Int16, vec![0x00, 0x80]).get_int_value(), -32768);
    assert_eq!(
        attr("k", ValueType::Int32, vec![0, 0, 0, 0x80]).get_int_value(),
        i32::MIN as i64
    );
    assert_eq!(
        attr("k", ValueType::Int64, (-2i64).to_le_bytes().to_vec()).get_int_value(),
        -2
    );
    assert_eq!(
        attr("k", ValueType::Int64, i64::MIN.to_le_bytes().to_vec()).get_int_value(),
        i64::MIN
    );
    assert_eq!(attr("k", ValueType::Bool, vec![1]).get_int_value(), 0);
}

#[test]
fn build_cpu_event_fills_every_recognized_key() {
    let mut specs = Vec::new();
    specs.extend_from_slice(&7u64.to_le_bytes());
    specs.extend_from_slice(&9u64.to_le_bytes());
    let mut latencies = Vec::new();
    latencies.extend_from_slice(&11u64.to_le_bytes());
    latencies.extend_from_slice(&13u64.to_le_bytes());
    let attrs = vec![
        uint64_attr("start_time", 1_700_000_000 * NS),
        uint64_attr("end_time", 1_700_000_001 * NS),
        attr("time_specs", ValueType::Bytebuf, specs),
        attr("runq_latency", ValueType::Bytebuf, latencies),
        attr("time_type", ValueType::Bytebuf, vec![0, 1]),
        attr("on_info", ValueType::Charbuf, b"on".to_vec()),
        attr("off_info", ValueType::Charbuf, b"off".to_vec()),
        attr("log", ValueType::Charbuf, b"log-line".to_vec()),
        attr("stack", ValueType::Charbuf, b"frame".to_vec()),
        attr("unknown", ValueType::Charbuf, b"ignored".to_vec()),
    ];
    let ev = build_cpu_event(&attrs);
    assert_eq!(ev.start_time, 1_700_000_000 * NS);
    assert_eq!(ev.end_time, 1_700_000_001 * NS);
    assert_eq!(ev.type_specs, vec![7, 9]);
    assert_eq!(ev.runq_latency, vec![11, 13]);
    assert_eq!(ev.time_type, vec![0, 1]);
    assert_eq!(ev.on_info, "on");
    assert_eq!(ev.off_info, "off");
    assert_eq!(ev.log, "log-line");
    assert_eq!(ev.stack, "frame");
}

#[test]
fn a_later_attribute_overwrites_an_earlier_one() {
    let attrs = vec![uint64_attr("start_time", 5 * NS), uint64_attr("start_time", 9 * NS)];
    assert_eq!(build_cpu_event(&attrs).start_time, 9 * NS);
}

#[test]
fn build_java_futex_event_parses_end_time_and_data() {
    let end = 1_700_000_002 * NS;
    let attrs = vec![
        attr("end_time", ValueType::Charbuf, end.to_string().into_bytes()),
        attr("data", ValueType::Charbuf, b"wait-info".to_vec()),
    ];
    let ev = build_java_futex_event(1_700_000_000 * NS, &attrs);
    assert_eq!(ev.start_time, 1_700_000_000 * NS);
    assert_eq!(ev.end_time, end);
    assert_eq!(ev.data_val, "wait-info");
}

#[test]
fn consume_cpu_event_rejects_events_below_the_sanity_threshold() {
    let mut ca = CpuAnalyzer::new();
    let attrs = vec![uint64_attr("start_time", 100 * NS), uint64_attr("end_time", 100 * NS)];
    consume_cpu_event(&mut ca, 1, 1, "worker", &attrs);
    assert!(ca.cpu_pid_events.is_empty(), "a pre-epoch event never reaches the windows");
}

#[test]
fn consume_cpu_event_ingests_a_valid_event() {
    let mut ca = CpuAnalyzer::new();
    let start = 1_700_000_000u64;
    let attrs = vec![
        uint64_attr("start_time", start * NS),
        uint64_attr("end_time", start * NS),
        attr("on_info", ValueType::Charbuf, b"running".to_vec()),
    ];
    consume_cpu_event(&mut ca, 4, 9, "jvm", &attrs);
    let ts = ca.cpu_pid_events.get(&4).unwrap().get(&9).unwrap();
    assert_eq!(ts.base_time, start);
    assert_eq!(ts.thread_name, "jvm");
    let bucket = ts.segments.get_by_index(0).unwrap();
    assert_eq!(bucket.cpu_events().len(), 1);
    assert_eq!(bucket.cpu_events()[0].on_info, "running");
    assert_eq!(bucket.java_futex_events().len(), 0);
}

#[test]
fn consume_java_futex_event_ingests_the_parsed_interval() {
    let mut ca = CpuAnalyzer::new();
    let start = 1_700_000_000u64;
    let end = start + 1;
    let attrs = vec![
        attr("end_time", ValueType::Charbuf, (end * NS).to_string().into_bytes()),
        attr("data", ValueType::Charbuf, b"lock-17".to_vec()),
    ];
    consume_java_futex_event(&mut ca, 4, 9, "jvm", start * NS, &attrs);
    let ts = ca.cpu_pid_events.get(&4).unwrap().get(&9).unwrap();
    assert_eq!(ts.base_time, start);
    let first = ts.segments.get_by_index(0).unwrap();
    let second = ts.segments.get_by_index(1).unwrap();
    assert_eq!(first.java_futex_events().len(), 1, "the wait spans both seconds");
    assert_eq!(second.java_futex_events().len(), 1);
    assert_eq!(first.java_futex_events()[0].data_val, "lock-17");
    assert_eq!(first.cpu_events().len(), 0);
}
