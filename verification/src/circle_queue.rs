//! Fixed-capacity, index-addressed container of time buckets.
//!
//! There is no implicit wraparound: out-of-range reads return nothing and
//! out-of-range writes are ignored. All sliding and rotation is driven by the
//! owning window.

use vstd::prelude::*;
use vstd::pervasive::VecAdditionalExecFns;

use crate::model::{empty_segment_model, Segment, SegmentModel};

verus! {

#[derive(Debug)]
pub struct CircleQueue {
    length: usize,
    data: Vec<Segment>,
}

impl View for CircleQueue {
    type V = Seq<SegmentModel>;

    closed spec fn view(&self) -> Seq<SegmentModel> {
        Seq::new(self.data@.len(), |i: int| self.data@[i]@)
    }
}

impl CircleQueue {
    /// The fixed capacity this queue was constructed with.
    pub closed spec fn capacity(&self) -> usize {
        self.length
    }

    /// The cell vector always holds exactly `capacity` buckets.
    pub closed spec fn wf(&self) -> bool {
        self.data@.len() == self.length
    }

    pub fn new(length: usize) -> (res: Self)
        ensures
            res.wf(),
            res.capacity() == length,
            res@ == Seq::new(length as nat, |i: int| empty_segment_model(0, 0)),
    {
        let mut data: Vec<Segment> = Vec::new();
        for i in 0..length
            invariant
                data@.len() == i,
                forall|j: int| 0 <= j < i ==> data@[j]@ == empty_segment_model(0, 0),
        {
            data.push(Segment::default());
        }
        let res = CircleQueue { length, data };
        proof {
            assert(res@ =~= Seq::new(length as nat, |i: int| empty_segment_model(0, 0)));
        }
        res
    }

    /// Bounds-checked read: nothing comes back for an out-of-range index.
    pub fn get_by_index(&self, index: usize) -> (res: Option<&Segment>)
        ensures
            match res {
                Some(s) => index < self@.len() && s@ == self@[index as int],
                None => index >= self@.len(),
            },
    {
        if index < self.data.len() {
            Some(&self.data[index])
        } else {
            None
        }
    }

    /// Bounds-checked write: an out-of-range index is ignored.
    pub fn update_by_index(&mut self, index: usize, val: Segment)
        requires
            old(self).wf(),
        ensures
            final(self).wf(),
            final(self).capacity() == old(self).capacity(),
            final(self)@ == if index < old(self)@.len() {
                old(self)@.update(index as int, val@)
            } else {
                old(self)@
            },
    {
        if index < self.length {
            self.data.set(index, val);
            proof {
                assert(self@ =~= old(self)@.update(index as int, val@));
            }
        } else {
            proof {
                assert(self@ =~= old(self)@);
            }
        }
    }

    /// Resets every cell to an empty default bucket, preserving capacity.
    pub fn clear(&mut self)
        requires
            old(self).wf(),
        ensures
            final(self).wf(),
            final(self).capacity() == old(self).capacity(),
            final(self)@ == Seq::new(
                old(self).capacity() as nat,
                |i: int| empty_segment_model(0, 0),
            ),
    {
        let mut data: Vec<Segment> = Vec::new();
        let length = self.length;
        for i in 0..length
            invariant
                data@.len() == i,
                forall|j: int| 0 <= j < i ==> data@[j]@ == empty_segment_model(0, 0),
        {
            data.push(Segment::default());
        }
        self.data = data;
        proof {
            assert(self@ =~= Seq::new(self.length as nat, |i: int| empty_segment_model(0, 0)));
        }
    }
}

} // verus!
