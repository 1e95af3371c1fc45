//! The decoded-event model handed in by the capture boundary: plain,
//! lifetime-independent value types with no foreign pointers.

use vstd::prelude::*;

verus! {

/// Where a captured event came from.
#[derive(Debug, Clone, Copy, PartialEq, Eq, Structural)]
pub enum Source {
    SourceUnknown,
    SyscallEnter,
    SyscallExit,
    Tracepoint,
    Kprobe,
    Kretprobe,
    Uprobe,
    Uretprobe,
}

impl Source {
    /// The numeric code of each source in the capture protocol.
    pub open spec fn spec_code(self) -> u32 {
        match self {
            Source::SourceUnknown => 0,
            Source::SyscallEnter => 1,
            Source::SyscallExit => 2,
            Source::Tracepoint => 3,
            Source::Kprobe => 4,
            Source::Kretprobe => 5,
            Source::Uprobe => 6,
            Source::Uretprobe => 7,
        }
    }

    pub fn code(self) -> (r: u32)
        ensures
            r == self.spec_code(),
    {
        match self {
            Source::SourceUnknown => 0,
            Source::SyscallEnter => 1,
            Source::SyscallExit => 2,
            Source::Tracepoint => 3,
            Source::Kprobe => 4,
            Source::Kretprobe => 5,
            Source::Uprobe => 6,
            Source::Uretprobe => 7,
        }
    }

    /// The display name of each source.
    pub fn name(self) -> (r: &'static str)
        ensures
            self == Source::SourceUnknown ==> r@ == "SOURCE_UNKNOWN"@,
            self == Source::SyscallEnter ==> r@ == "SYSCALL_ENTER"@,
            self == Source::SyscallExit ==> r@ == "SYSCALL_EXIT"@,
            self == Source::Tracepoint ==> r@ == "TRACEPOINT"@,
            self == Source::Kprobe ==> r@ == "KRPOBE"@,
            self == Source::Kretprobe ==> r@ == "KRETPROBE"@,
            self == Source::Uprobe ==> r@ == "UPROBE"@,
            self == Source::Uretprobe ==> r@ == "URETPROBE"@,
    {
        match self {
            Source::SourceUnknown => "SOURCE_UNKNOWN",
            Source::SyscallEnter => "SYSCALL_ENTER",
            Source::SyscallExit => "SYSCALL_EXIT",
            Source::Tracepoint => "TRACEPOINT",
            Source::Kprobe => "KRPOBE",
            Source::Kretprobe => "KRETPROBE",
            Source::Uprobe => "UPROBE",
            Source::Uretprobe => "URETPROBE",
        }
    }
}

impl Default for Source {
    fn default() -> (r: Self)
        ensures
            r == Source::SourceUnknown,
    {
        Source::SourceUnknown
    }
}

/// Broad category of a captured event.
#[derive(Debug, Clone, Copy, PartialEq, Eq, Structural)]
pub enum Category {
    CatNone,
    CatOther,
    CatFile,
    CatNet,
    CatIpc,
    CatWait,
    CatSignal,
    CatSleep,
    CatTime,
    CatProcess,
    CatScheduler,
    CatMemory,
    CatUser,
    CatSystem,
}

impl Category {
    /// The numeric code of each category in the capture protocol.
    pub open spec fn spec_code(self) -> u32 {
        match self {
            Category::CatNone => 0,
            Category::CatOther => 1,
            Category::CatFile => 2,
            Category::CatNet => 3,
            Category::CatIpc => 4,
            Category::CatWait => 5,
            Category::CatSignal => 6,
            Category::CatSleep => 7,
            Category::CatTime => 8,
            Category::CatProcess => 9,
            Category::CatScheduler => 10,
            Category::CatMemory => 11,
            Category::CatUser => 12,
            Category::CatSystem => 13,
        }
    }

    pub fn code(self) -> (r: u32)
        ensures
            r == self.spec_code(),
    {
        match self {
            Category::CatNone => 0,
            Category::CatOther => 1,
            Category::CatFile => 2,
            Category::CatNet => 3,
            Category::CatIpc => 4,
            Category::CatWait => 5,
            Category::CatSignal => 6,
            Category::CatSleep => 7,
            Category::CatTime => 8,
            Category::CatProcess => 9,
            Category::CatScheduler => 10,
            Category::CatMemory => 11,
            Category::CatUser => 12,
            Category::CatSystem => 13,
        }
    }

    /// The display name of each category.
    pub fn name(self) -> (r: &'static str)
        ensures
            self == Category::CatNone ==> r@ == "CAT_NONE"@,
            self == Category::CatOther ==> r@ == "CAT_OTHER"@,
            self == Category::CatFile ==> r@ == "CAT_FILE"@,
            self == Category::CatNet ==> r@ == "CAT_NET"@,
            self == Category::CatIpc ==> r@ == "CAT_IPC"@,
            self == Category::CatWait ==> r@ == "CAT_WAIT"@,
            self == Category::CatSignal ==> r@ == "CAT_SIGNAL"@,
            self == Category::CatSleep ==> r@ == "CAT_SLEEP"@,
            self == Category::CatTime ==> r@ == "CAT_TIME"@,
            self == Category::CatProcess ==> r@ == "CAT_PROCESS"@,
            self == Category::CatScheduler ==> r@ == "CAT_SCHEDULER"@,
            self == Category::CatMemory ==> r@ == "CAT_MEMORY"@,
            self == Category::CatUser ==> r@ == "CAT_USER"@,
            self == Category::CatSystem ==> r@ == "CAT_SYSTEM"@,
    {
        match self {
            Category::CatNone => "CAT_NONE",
            Category::CatOther => "CAT_OTHER",
            Category::CatFile => "CAT_FILE",
            Category::CatNet => "CAT_NET",
            Category::CatIpc => "CAT_IPC",
            Category::CatWait => "CAT_WAIT",
            Category::CatSignal => "CAT_SIGNAL",
            Category::CatSleep => "CAT_SLEEP",
            Category::CatTime => "CAT_TIME",
            Category::CatProcess => "CAT_PROCESS",
            Category::CatScheduler => "CAT_SCHEDULER",
            Category::CatMemory => "CAT_MEMORY",
            Category::CatUser => "CAT_USER",
            Category::CatSystem => "CAT_SYSTEM",
        }
    }
}

impl Default for Category {
    fn default() -> (r: Self)
        ensures
            r == Category::CatNone,
    {
        Category::CatNone
    }
}

/// Wire type of one attribute value.
#[derive(Debug, Clone, Copy, PartialEq, Eq, Structural)]
pub enum ValueType {
    NoneValue,
    Int8,
    Int16,
    Int32,
    Int64,
    UInt8,
    UInt16,
    UInt32,
    UInt64,
    Charbuf,
    Bytebuf,
    Float,
    Double,
    Bool,
}

impl ValueType {
    /// The numeric code of each value type in the capture protocol.
    pub open spec fn spec_code(self) -> u32 {
        match self {
            ValueType::NoneValue => 0,
            ValueType::Int8 => 1,
            ValueType::Int16 => 2,
            ValueType::Int32 => 3,
            ValueType::Int64 => 4,
            ValueType::UInt8 => 5,
            ValueType::UInt16 => 6,
            ValueType::UInt32 => 7,
            ValueType::UInt64 => 8,
            ValueType::Charbuf => 9,
            ValueType::Bytebuf => 10,
            ValueType::Float => 11,
            ValueType::Double => 12,
            ValueType::Bool => 13,
        }
    }

    pub fn code(self) -> (r: u32)
        ensures
            r == self.spec_code(),
    {
        match self {
            ValueType::NoneValue => 0,
            ValueType::Int8 => 1,
            ValueType::Int16 => 2,
            ValueType::Int32 => 3,
            ValueType::Int64 => 4,
            ValueType::UInt8 => 5,
            ValueType::UInt16 => 6,
            ValueType::UInt32 => 7,
            ValueType::UInt64 => 8,
            ValueType::Charbuf => 9,
            ValueType::Bytebuf => 10,
            ValueType::Float => 11,
            ValueType::Double => 12,
            ValueType::Bool => 13,
        }
    }

    /// The display name of each value type.
    pub fn name(self) -> (r: &'static str)
        ensures
            self == ValueType::NoneValue ==> r@ == "NONE"@,
            self == ValueType::Int8 ==> r@ == "INT8"@,
            self == ValueType::Int16 ==> r@ == "INT16"@,
            self == ValueType::Int32 ==> r@ == "INT32"@,
            self == ValueType::Int64 ==> r@ == "INT64"@,
            self == ValueType::UInt8 ==> r@ == "UINT8"@,
            self == ValueType::UInt16 ==> r@ == "UINT16"@,
            self == ValueType::UInt32 ==> r@ == "UINT32"@,
            self == ValueType::UInt64 ==> r@ == "UINT64"@,
            self == ValueType::Charbuf ==> r@ == "CHARBUF"@,
            self == ValueType::Bytebuf ==> r@ == "BYTEBUF"@,
            self == ValueType::Float ==> r@ == "FLOAT"@,
            self == ValueType::Double ==> r@ == "DOUBLE"@,
            self == ValueType::Bool ==> r@ == "BOOL"@,
    {
        match self {
            ValueType::NoneValue => "NONE",
            ValueType::Int8 => "INT8",
            ValueType::Int16 => "INT16",
            ValueType::Int32 => "INT32",
            ValueType::Int64 => "INT64",
            ValueType::UInt8 => "UINT8",
            ValueType::UInt16 => "UINT16",
            ValueType::UInt32 => "UINT32",
            ValueType::UInt64 => "UINT64",
            ValueType::Charbuf => "CHARBUF",
            ValueType::Bytebuf => "BYTEBUF",
            ValueType::Float => "FLOAT",
            ValueType::Double => "DOUBLE",
            ValueType::Bool => "BOOL",
        }
    }

    /// The value type whose protocol code is `code`; unknown codes map to
    /// `NoneValue`.
    pub fn from_code(code: u32) -> (r: Self)
        ensures
            r.spec_code() == if code <= 13 {
                code
            } else {
                0
            },
    {
        match code {
            1 => ValueType::Int8,
            2 => ValueType::Int16,
            3 => ValueType::Int32,
            4 => ValueType::Int64,
            5 => ValueType::UInt8,
            6 => ValueType::UInt16,
            7 => ValueType::UInt32,
            8 => ValueType::UInt64,
            9 => ValueType::Charbuf,
            10 => ValueType::Bytebuf,
            11 => ValueType::Float,
            12 => ValueType::Double,
            13 => ValueType::Bool,
            _ => ValueType::NoneValue,
        }
    }
}

impl Default for ValueType {
    fn default() -> (r: Self)
        ensures
            r == ValueType::NoneValue,
    {
        ValueType::NoneValue
    }
}

/// Mathematical model of a [`KeyValue`].
#[verifier::ext_equal]
pub ghost struct KeyValueModel {
    pub key: Seq<char>,
    pub value_type: ValueType,
    pub value: Seq<u8>,
}

/// One decoded attribute of a captured event: a key, the wire type of its
/// value, and the raw value bytes.
#[derive(Debug)]
pub struct KeyValue {
    pub key: String,
    pub value_type: ValueType,
    pub value: Vec<u8>,
}

impl View for KeyValue {
    type V = KeyValueModel;

    open spec fn view(&self) -> KeyValueModel {
        KeyValueModel { key: self.key@, value_type: self.value_type, value: self.value@ }
    }
}

/// The models of a sequence of attributes.
pub open spec fn key_value_models(s: Seq<KeyValue>) -> Seq<KeyValueModel> {
    Seq::new(s.len(), |i: int| s[i]@)
}

/// The little-endian 64-bit integer held in `bytes[off .. off + 8]`.
pub open spec fn le_u64_at(bytes: Seq<u8>, off: int) -> u64 {
    (bytes[off] + bytes[off + 1] * 0x100 + bytes[off + 2] * 0x1_0000 + bytes[off + 3] * 0x100_0000
        + bytes[off + 4] * 0x1_0000_0000 + bytes[off + 5] * 0x100_0000_0000 + bytes[off + 6]
        * 0x1_0000_0000_0000 + bytes[off + 7] * 0x100_0000_0000_0000) as u64
}

/// How many value bytes an unsigned wire type reads.
pub open spec fn uint_value_width(vt: ValueType) -> int {
    match vt {
        ValueType::UInt8 => 1,
        ValueType::UInt16 => 2,
        ValueType::UInt32 => 4,
        ValueType::UInt64 => 8,
        _ => 0,
    }
}

/// The unsigned integer an attribute holds: its value bytes read
/// little-endian at the width of its wire type; 0 for a non-unsigned type.
pub open spec fn uint_value_of(kv: KeyValueModel) -> u64 {
    match kv.value_type {
        ValueType::UInt8 => kv.value[0] as u64,
        ValueType::UInt16 => (kv.value[0] + kv.value[1] * 0x100) as u64,
        ValueType::UInt32 => (kv.value[0] + kv.value[1] * 0x100 + kv.value[2] * 0x1_0000
            + kv.value[3] * 0x100_0000) as u64,
        ValueType::UInt64 => le_u64_at(kv.value, 0),
        _ => 0,
    }
}

/// How many value bytes a signed wire type reads.
pub open spec fn int_value_width(vt: ValueType) -> int {
    match vt {
        ValueType::Int8 => 1,
        ValueType::Int16 => 2,
        ValueType::Int32 => 4,
        ValueType::Int64 => 8,
        _ => 0,
    }
}

/// The signed integer an attribute holds: its value bytes read little-endian
/// two's-complement at the width of its wire type; 0 for a non-signed type.
pub open spec fn int_value_of(kv: KeyValueModel) -> i64 {
    match kv.value_type {
        ValueType::Int8 => {
            let u = kv.value[0] as int;
            (if u >= 0x80 {
                u - 0x100
            } else {
                u
            }) as i64
        },
        ValueType::Int16 => {
            let u = kv.value[0] + kv.value[1] * 0x100;
            (if u >= 0x8000 {
                u - 0x1_0000
            } else {
                u
            }) as i64
        },
        ValueType::Int32 => {
            let u = kv.value[0] + kv.value[1] * 0x100 + kv.value[2] * 0x1_0000 + kv.value[3]
                * 0x100_0000;
            (if u >= 0x8000_0000 {
                u - 0x1_0000_0000
            } else {
                u
            }) as i64
        },
        ValueType::Int64 => {
            let u = le_u64_at(kv.value, 0) as int;
            (if u >= 0x8000_0000_0000_0000 {
                u - 0x1_0000_0000_0000_0000
            } else {
                u
            }) as i64
        },
        _ => 0,
    }
}

/// The value-byte count of an unsigned wire type, for callers that must
/// check an attribute before decoding it.
pub fn uint_width(vt: ValueType) -> (r: usize)
    ensures
        r == uint_value_width(vt),
{
    match vt {
        ValueType::UInt8 => 1,
        ValueType::UInt16 => 2,
        ValueType::UInt32 => 4,
        ValueType::UInt64 => 8,
        _ => 0,
    }
}

/// The value-byte count of a signed wire type, for callers that must check
/// an attribute before decoding it.
pub fn int_width(vt: ValueType) -> (r: usize)
    ensures
        r == int_value_width(vt),
{
    match vt {
        ValueType::Int8 => 1,
        ValueType::Int16 => 2,
        ValueType::Int32 => 4,
        ValueType::Int64 => 8,
        _ => 0,
    }
}

impl KeyValue {
    /// Reads the attribute's value as an unsigned integer of its wire type's
    /// width.
    pub fn get_uint_value(&self) -> (r: u64)
        requires
            uint_value_width(self@.value_type) <= self@.value.len(),
        ensures
            r == uint_value_of(self@),
    {
        match self.value_type {
            ValueType::UInt8 => self.value[0] as u64,
            ValueType::UInt16 => (self.value[0] as u64) + (self.value[1] as u64) * 0x100,
            ValueType::UInt32 => (self.value[0] as u64) + (self.value[1] as u64) * 0x100 + (
            self.value[2] as u64) * 0x1_0000 + (self.value[3] as u64) * 0x100_0000,
            ValueType::UInt64 => (self.value[0] as u64) + (self.value[1] as u64) * 0x100 + (
            self.value[2] as u64) * 0x1_0000 + (self.value[3] as u64) * 0x100_0000 + (
            self.value[4] as u64) * 0x1_0000_0000 + (self.value[5] as u64) * 0x100_0000_0000 + (
            self.value[6] as u64) * 0x1_0000_0000_0000 + (self.value[7] as u64)
                * 0x100_0000_0000_0000,
            _ => 0,
        }
    }

    /// Reads the attribute's value as a signed two's-complement integer of
    /// its wire type's width.
    pub fn get_int_value(&self) -> (r: i64)
        requires
            int_value_width(self@.value_type) <= self@.value.len(),
        ensures
            r == int_value_of(self@),
    {
        match self.value_type {
            ValueType::Int8 => {
                let u = self.value[0] as i64;
                if u >= 0x80 {
                    u - 0x100
                } else {
                    u
                }
            },
            ValueType::Int16 => {
                let u = (self.value[0] as i64) + (self.value[1] as i64) * 0x100;
                if u >= 0x8000 {
                    u - 0x1_0000
                } else {
                    u
                }
            },
            ValueType::Int32 => {
                let u = (self.value[0] as i64) + (self.value[1] as i64) * 0x100 + (
                self.value[2] as i64) * 0x1_0000 + (self.value[3] as i64) * 0x100_0000;
                if u >= 0x8000_0000 {
                    u - 0x1_0000_0000
                } else {
                    u
                }
            },
            ValueType::Int64 => {
                let u = (self.value[0] as u64) + (self.value[1] as u64) * 0x100 + (
                self.value[2] as u64) * 0x1_0000 + (self.value[3] as u64) * 0x100_0000 + (
                self.value[4] as u64) * 0x1_0000_0000 + (self.value[5] as u64) * 0x100_0000_0000
                    + (self.value[6] as u64) * 0x1_0000_0000_0000 + (self.value[7] as u64)
                    * 0x100_0000_0000_0000;
                if u >= 0x8000_0000_0000_0000 {
                    -((u64::MAX - u) as i64) - 1
                } else {
                    u as i64
                }
            },
            _ => 0,
        }
    }
}

/// Identity of the thread an event was captured on.
#[derive(Debug)]
pub struct Thread {
    pub pid: u32,
    pub tid: u32,
    pub uid: u32,
    pub gid: u32,
    pub comm: String,
    pub container_id: String,
}

/// Identity of the file descriptor an event acted on.
#[derive(Debug)]
pub struct Fd {
    pub num: i32,
    pub filename: String,
    pub directory: String,
    pub role: bool,
    pub sport: u32,
    pub dport: u32,
    pub source: u64,
    pub destination: u64,
}

/// The context a captured event carries.
#[derive(Debug)]
pub struct Context {
    pub thread_info: Option<Thread>,
    pub fd_info: Option<Fd>,
}

/// One fully decoded captured event.
#[derive(Debug)]
pub struct KindlingEvent {
    pub source: Source,
    pub timestamp: u64,
    pub name: String,
    pub category: Category,
    pub params_number: u16,
    pub latency: u64,
    pub ctx: Context,
}

} // verus!
