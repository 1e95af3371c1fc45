//! The capability set every sample kind exposes: start timestamp, end
//! timestamp, and a kind discriminant.

use vstd::prelude::*;

verus! {

pub trait TimedEvent {
    /// Absolute start timestamp in nanoseconds.
    spec fn spec_start_timestamp(&self) -> u64;

    /// Absolute end timestamp in nanoseconds.
    spec fn spec_end_timestamp(&self) -> u64;

    /// Kind discriminant: 0 for a CPU sample, 1 for a Java futex sample.
    spec fn spec_kind(&self) -> i32;

    fn start_timestamp(&self) -> (r: u64)
        ensures
            r == self.spec_start_timestamp(),
    ;

    fn end_timestamp(&self) -> (r: u64)
        ensures
            r == self.spec_end_timestamp(),
    ;

    fn kind(&self) -> (r: i32)
        ensures
            r == self.spec_kind(),
    ;
}

} // verus!
