//! Sample records and time buckets.
//!
//! A `SampleRecord` is one decoded sample: either a CPU scheduling sample or a
//! Java-level futex-wait sample. A `Segment` is one one-second time bucket that
//! accumulates the samples merged into it, together with flush bookkeeping.
//! Each executable type has a ghost model (`CpuEventModel`, `SegmentModel`, ...)
//! that contracts speak about through `View`.

use vstd::prelude::*;

use crate::circle_queue::CircleQueue;
use crate::time_event::TimedEvent;

verus! {

/// Mathematical model of a [`CpuEvent`].
#[verifier::ext_equal]
pub ghost struct CpuEventModel {
    pub start_time: u64,
    pub end_time: u64,
    pub type_specs: Seq<u64>,
    pub runq_latency: Seq<u64>,
    pub time_type: Seq<u8>,
    pub on_info: Seq<char>,
    pub off_info: Seq<char>,
    pub log: Seq<char>,
    pub stack: Seq<char>,
}

/// A CPU scheduling sample: on/off-CPU interval with a breakdown of the
/// off-CPU causes and run-queue latencies, plus free-form diagnostic text.
#[derive(Debug)]
pub struct CpuEvent {
    pub start_time: u64,
    pub end_time: u64,
    pub type_specs: Vec<u64>,
    pub runq_latency: Vec<u64>,
    pub time_type: Vec<u8>,
    pub on_info: String,
    pub off_info: String,
    pub log: String,
    pub stack: String,
}

impl View for CpuEvent {
    type V = CpuEventModel;

    open spec fn view(&self) -> CpuEventModel {
        CpuEventModel {
            start_time: self.start_time,
            end_time: self.end_time,
            type_specs: self.type_specs@,
            runq_latency: self.runq_latency@,
            time_type: self.time_type@,
            on_info: self.on_info@,
            off_info: self.off_info@,
            log: self.log@,
            stack: self.stack@,
        }
    }
}

/// The model of a freshly initialized [`CpuEvent`].
pub open spec fn default_cpu_event_model() -> CpuEventModel {
    CpuEventModel {
        start_time: 0,
        end_time: 0,
        type_specs: Seq::empty(),
        runq_latency: Seq::empty(),
        time_type: Seq::empty(),
        on_info: Seq::empty(),
        off_info: Seq::empty(),
        log: Seq::empty(),
        stack: Seq::empty(),
    }
}

/// Copies a vector of plain (`Copy`) values element by element.
fn copy_vec<T: Copy>(v: &Vec<T>) -> (r: Vec<T>)
    ensures
        r@ == v@,
{
    let mut r: Vec<T> = Vec::new();
    let n = v.len();
    for i in 0..n
        invariant
            n == v@.len(),
            r@ =~= v@.subrange(0, i as int),
    {
        r.push(v[i]);
    }
    proof {
        assert(r@ =~= v@);
    }
    r
}

impl Clone for CpuEvent {
    fn clone(&self) -> (res: Self)
        ensures
            res@ == self@,
    {
        CpuEvent {
            start_time: self.start_time,
            end_time: self.end_time,
            type_specs: copy_vec(&self.type_specs),
            runq_latency: copy_vec(&self.runq_latency),
            time_type: copy_vec(&self.time_type),
            on_info: self.on_info.clone(),
            off_info: self.off_info.clone(),
            log: self.log.clone(),
            stack: self.stack.clone(),
        }
    }
}

impl Default for CpuEvent {
    fn default() -> (res: Self)
        ensures
            res@ == default_cpu_event_model(),
    {
        CpuEvent {
            start_time: 0,
            end_time: 0,
            type_specs: Vec::new(),
            runq_latency: Vec::new(),
            time_type: Vec::new(),
            on_info: String::new(),
            off_info: String::new(),
            log: String::new(),
            stack: String::new(),
        }
    }
}

impl TimedEvent for CpuEvent {
    open spec fn spec_start_timestamp(&self) -> u64 {
        self.start_time
    }

    open spec fn spec_end_timestamp(&self) -> u64 {
        self.end_time
    }

    open spec fn spec_kind(&self) -> i32 {
        0
    }

    fn start_timestamp(&self) -> u64 {
        self.start_time
    }

    fn end_timestamp(&self) -> u64 {
        self.end_time
    }

    fn kind(&self) -> i32 {
        0
    }
}

/// Mathematical model of a [`JavaFutexEvent`].
#[verifier::ext_equal]
pub ghost struct JavaFutexEventModel {
    pub start_time: u64,
    pub end_time: u64,
    pub data_val: Seq<char>,
}

/// A Java-level futex-wait sample with an opaque textual payload.
#[derive(Debug)]
pub struct JavaFutexEvent {
    pub start_time: u64,
    pub end_time: u64,
    pub data_val: String,
}

impl View for JavaFutexEvent {
    type V = JavaFutexEventModel;

    open spec fn view(&self) -> JavaFutexEventModel {
        JavaFutexEventModel {
            start_time: self.start_time,
            end_time: self.end_time,
            data_val: self.data_val@,
        }
    }
}

/// The model of a freshly initialized [`JavaFutexEvent`].
pub open spec fn default_java_futex_event_model() -> JavaFutexEventModel {
    JavaFutexEventModel { start_time: 0, end_time: 0, data_val: Seq::empty() }
}

impl Clone for JavaFutexEvent {
    fn clone(&self) -> (res: Self)
        ensures
            res@ == self@,
    {
        JavaFutexEvent {
            start_time: self.start_time,
            end_time: self.end_time,
            data_val: self.data_val.clone(),
        }
    }
}

impl Default for JavaFutexEvent {
    fn default() -> (res: Self)
        ensures
            res@ == default_java_futex_event_model(),
    {
        JavaFutexEvent { start_time: 0, end_time: 0, data_val: String::new() }
    }
}

impl JavaFutexEvent {
    pub fn new() -> (res: Self)
        ensures
            res@ == default_java_futex_event_model(),
    {
        JavaFutexEvent { start_time: 0, end_time: 0, data_val: String::new() }
    }
}

impl TimedEvent for JavaFutexEvent {
    open spec fn spec_start_timestamp(&self) -> u64 {
        self.start_time
    }

    open spec fn spec_end_timestamp(&self) -> u64 {
        self.end_time
    }

    open spec fn spec_kind(&self) -> i32 {
        1
    }

    fn start_timestamp(&self) -> u64 {
        self.start_time
    }

    fn end_timestamp(&self) -> u64 {
        self.end_time
    }

    fn kind(&self) -> i32 {
        1
    }
}

/// Mathematical model of a [`SampleRecord`].
#[verifier::ext_equal]
pub ghost enum SampleRecordModel {
    Cpu(CpuEventModel),
    JavaFutex(JavaFutexEventModel),
}

impl SampleRecordModel {
    /// Absolute start timestamp in nanoseconds.
    pub open spec fn start_time(self) -> u64 {
        match self {
            SampleRecordModel::Cpu(e) => e.start_time,
            SampleRecordModel::JavaFutex(e) => e.start_time,
        }
    }

    /// Absolute end timestamp in nanoseconds.
    pub open spec fn end_time(self) -> u64 {
        match self {
            SampleRecordModel::Cpu(e) => e.end_time,
            SampleRecordModel::JavaFutex(e) => e.end_time,
        }
    }
}

/// One decoded sample, as a closed sum over the two known kinds.
#[derive(Debug)]
pub enum SampleRecord {
    Cpu(CpuEvent),
    JavaFutex(JavaFutexEvent),
}

impl View for SampleRecord {
    type V = SampleRecordModel;

    open spec fn view(&self) -> SampleRecordModel {
        match self {
            SampleRecord::Cpu(e) => SampleRecordModel::Cpu(e@),
            SampleRecord::JavaFutex(e) => SampleRecordModel::JavaFutex(e@),
        }
    }
}

impl SampleRecord {
    /// Absolute start timestamp in nanoseconds.
    pub fn start_timestamp(&self) -> (r: u64)
        ensures
            r == self@.start_time(),
    {
        match self {
            SampleRecord::Cpu(e) => e.start_time,
            SampleRecord::JavaFutex(e) => e.start_time,
        }
    }

    /// Absolute end timestamp in nanoseconds.
    pub fn end_timestamp(&self) -> (r: u64)
        ensures
            r == self@.end_time(),
    {
        match self {
            SampleRecord::Cpu(e) => e.end_time,
            SampleRecord::JavaFutex(e) => e.end_time,
        }
    }

    /// Kind discriminant: 0 for a CPU sample, 1 for a Java futex sample.
    pub fn kind(&self) -> (r: i32)
        ensures
            r == 0 <==> self@ is Cpu,
            r == 1 <==> self@ is JavaFutex,
    {
        match self {
            SampleRecord::Cpu(_) => 0,
            SampleRecord::JavaFutex(_) => 1,
        }
    }
}

/// Mathematical model of a [`Segment`].
#[verifier::ext_equal]
pub ghost struct SegmentModel {
    pub start_time: u64,
    pub end_time: u64,
    pub cpu_events: Seq<CpuEventModel>,
    pub java_futex_event: Seq<JavaFutexEventModel>,
    pub is_send: i32,
    pub index_timestamp: Seq<char>,
}

/// An empty bucket covering `[start_time, end_time)` nanoseconds.
pub open spec fn empty_segment_model(start_time: u64, end_time: u64) -> SegmentModel {
    SegmentModel {
        start_time,
        end_time,
        cpu_events: Seq::empty(),
        java_futex_event: Seq::empty(),
        is_send: 0,
        index_timestamp: Seq::empty(),
    }
}

/// `s` with `ev` appended to the list matching its kind; flush bookkeeping
/// untouched.
pub open spec fn segment_with_event(s: SegmentModel, ev: SampleRecordModel) -> SegmentModel {
    match ev {
        SampleRecordModel::Cpu(e) => SegmentModel { cpu_events: s.cpu_events.push(e), ..s },
        SampleRecordModel::JavaFutex(e) => SegmentModel {
            java_futex_event: s.java_futex_event.push(e),
            ..s
        },
    }
}

/// A bucket holds at least one sample of either kind.
pub open spec fn segment_not_empty(s: SegmentModel) -> bool {
    s.cpu_events.len() > 0 || s.java_futex_event.len() > 0
}

/// The models of a sequence of CPU samples.
pub open spec fn cpu_event_models(s: Seq<CpuEvent>) -> Seq<CpuEventModel> {
    Seq::new(s.len(), |i: int| s[i]@)
}

/// The models of a sequence of Java futex samples.
pub open spec fn java_futex_event_models(s: Seq<JavaFutexEvent>) -> Seq<JavaFutexEventModel> {
    Seq::new(s.len(), |i: int| s[i]@)
}

/// The models of a sequence of buckets.
pub open spec fn segment_models(s: Seq<Segment>) -> Seq<SegmentModel> {
    Seq::new(s.len(), |i: int| s[i]@)
}

/// One one-second time bucket: the samples merged into it, in arrival order,
/// plus the flush mark and the time of the last flush.
#[derive(Debug)]
pub struct Segment {
    start_time: u64,
    end_time: u64,
    cpu_events: Vec<CpuEvent>,
    java_futex_event: Vec<JavaFutexEvent>,
    pub is_send: i32,
    pub index_timestamp: String,
}

impl View for Segment {
    type V = SegmentModel;

    closed spec fn view(&self) -> SegmentModel {
        SegmentModel {
            start_time: self.start_time,
            end_time: self.end_time,
            cpu_events: cpu_event_models(self.cpu_events@),
            java_futex_event: java_futex_event_models(self.java_futex_event@),
            is_send: self.is_send,
            index_timestamp: self.index_timestamp@,
        }
    }
}

impl Clone for Segment {
    fn clone(&self) -> (res: Self)
        ensures
            res@ == self@,
    {
        let res = Segment {
            start_time: self.start_time,
            end_time: self.end_time,
            cpu_events: self.cpu_events.clone(),
            java_futex_event: self.java_futex_event.clone(),
            is_send: self.is_send,
            index_timestamp: self.index_timestamp.clone(),
        };
        proof {
            assert(cpu_event_models(res.cpu_events@) =~= cpu_event_models(self.cpu_events@));
            assert(java_futex_event_models(res.java_futex_event@) =~= java_futex_event_models(
                self.java_futex_event@,
            ));
        }
        res
    }
}

impl Default for Segment {
    fn default() -> (res: Self)
        ensures
            res@ == empty_segment_model(0, 0),
    {
        Segment::new(0, 0)
    }
}

impl Segment {
    pub fn new(start_time: u64, end_time: u64) -> (res: Self)
        ensures
            res@ == empty_segment_model(start_time, end_time),
    {
        let res = Segment {
            start_time,
            end_time,
            cpu_events: Vec::new(),
            java_futex_event: Vec::new(),
            is_send: 0,
            index_timestamp: String::new(),
        };
        proof {
            assert(res@ =~= empty_segment_model(start_time, end_time));
        }
        res
    }

    /// Start of the second this bucket covers, in nanoseconds.
    pub fn start_time(&self) -> (r: u64)
        ensures
            r == self@.start_time,
    {
        self.start_time
    }

    /// End of the second this bucket covers, in nanoseconds.
    pub fn end_time(&self) -> (r: u64)
        ensures
            r == self@.end_time,
    {
        self.end_time
    }

    /// The CPU samples merged into this bucket, in arrival order.
    pub fn cpu_events(&self) -> (r: &Vec<CpuEvent>)
        ensures
            cpu_event_models(r@) == self@.cpu_events,
    {
        &self.cpu_events
    }

    /// The Java futex samples merged into this bucket, in arrival order.
    pub fn java_futex_events(&self) -> (r: &Vec<JavaFutexEvent>)
        ensures
            java_futex_event_models(r@) == self@.java_futex_event,
    {
        &self.java_futex_event
    }

    pub fn put_cpu_event(&mut self, event: CpuEvent)
        ensures
            final(self)@ == (SegmentModel {
                cpu_events: old(self)@.cpu_events.push(event@),
                ..old(self)@
            }),
    {
        self.cpu_events.push(event);
        proof {
            assert(cpu_event_models(self.cpu_events@) =~= old(self)@.cpu_events.push(event@));
        }
    }

    pub fn put_java_futex_event(&mut self, event: JavaFutexEvent)
        ensures
            final(self)@ == (SegmentModel {
                java_futex_event: old(self)@.java_futex_event.push(event@),
                ..old(self)@
            }),
    {
        self.java_futex_event.push(event);
        proof {
            assert(java_futex_event_models(self.java_futex_event@) =~= old(
                self,
            )@.java_futex_event.push(event@));
        }
    }

    /// Appends a copy of `event` to the list matching its kind.
    pub fn put_timed_event(&mut self, event: &SampleRecord)
        ensures
            final(self)@ == segment_with_event(old(self)@, event@),
    {
        match event {
            SampleRecord::Cpu(e) => self.put_cpu_event(e.clone()),
            SampleRecord::JavaFutex(e) => self.put_java_futex_event(e.clone()),
        }
    }

    /// Whether at least one sample of either kind has been merged in.
    pub fn is_not_empty(&self) -> (r: bool)
        ensures
            r == segment_not_empty(self@),
    {
        !self.cpu_events.is_empty() || !self.java_futex_event.is_empty()
    }

    /// Overwrites the flush mark, leaving every other field as it was.
    pub fn set_is_send(&mut self, is_send: i32)
        ensures
            final(self)@ == (SegmentModel { is_send, ..old(self)@ }),
    {
        self.is_send = is_send;
    }

    /// Overwrites the flush timestamp with the given value, leaving every
    /// other field as it was.
    pub fn set_index_timestamp(&mut self, stamp: &str)
        ensures
            final(self)@ == (SegmentModel { index_timestamp: stamp@, ..old(self)@ }),
    {
        self.index_timestamp = stamp.to_owned();
    }

    /// Overwrites the flush timestamp with the current local wall-clock time,
    /// leaving every other field as it was. The new stamp is never empty.
    pub fn update_index_timestamp(&mut self)
        ensures
            final(self)@ == (SegmentModel {
                index_timestamp: final(self)@.index_timestamp,
                ..old(self)@
            }),
            final(self)@.index_timestamp.len() > 0,
    {
        let stamp = crate::cpu_analyzer::local_now_string();
        self.index_timestamp = stamp;
    }
}

/// Mathematical model of a [`TimeSegments`].
#[verifier::ext_equal]
pub ghost struct TimeSegmentsModel {
    pub pid: u32,
    pub tid: u32,
    pub thread_name: Seq<char>,
    pub base_time: u64,
    pub segments: Seq<SegmentModel>,
}

/// The sliding window of one thread: the anchor second `base_time`, the owning
/// bucket queue (index `i` covers second `base_time + i`), and the thread's
/// display name.
#[derive(Debug)]
pub struct TimeSegments {
    pub pid: u32,
    pub tid: u32,
    pub thread_name: String,
    pub base_time: u64,
    pub segments: CircleQueue,
}

impl View for TimeSegments {
    type V = TimeSegmentsModel;

    open spec fn view(&self) -> TimeSegmentsModel {
        TimeSegmentsModel {
            pid: self.pid,
            tid: self.tid,
            thread_name: self.thread_name@,
            base_time: self.base_time,
            segments: self.segments@,
        }
    }
}

impl TimeSegments {
    /// The queue holds exactly [`crate::MAX_SEGMENT_SIZE`] buckets and the
    /// anchor is low enough for every bucket boundary to fit in `u64`
    /// nanoseconds.
    pub open spec fn wf(&self) -> bool {
        &&& self.segments.wf()
        &&& self.segments.capacity() == crate::MAX_SEGMENT_SIZE
        &&& self.segments@.len() == crate::MAX_SEGMENT_SIZE
        &&& self.base_time <= crate::MAX_BASE_TIME_SEC
    }

    pub fn new(pid: u32, tid: u32, thread_name: String, base_time: u64, segments: CircleQueue) -> (res: Self)
        ensures
            res@ == (TimeSegmentsModel {
                pid,
                tid,
                thread_name: thread_name@,
                base_time,
                segments: segments@,
            }),
            res.segments == segments,
    {
        TimeSegments { pid, tid, thread_name, base_time, segments }
    }

    /// Overwrites the stored display name with the incoming one.
    pub fn update_thread_name(&mut self, thread_name: &str)
        ensures
            final(self)@ == (TimeSegmentsModel { thread_name: thread_name@, ..old(self)@ }),
            final(self).segments == old(self).segments,
    {
        self.thread_name = thread_name.to_owned();
    }
}

} // verus!
