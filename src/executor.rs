use vstd::prelude::*;
use crate::pipeline::ExecutorError;

verus! {

/// How many blocking tasks may be pending or running at once by default.
pub const DEFAULT_TASK_LIMIT: usize = 64;

/// The admission state of the blocking executor.
pub struct SlotsView {
    pub capacity: nat,
    pub in_flight: nat,
}

/// A bound on the blocking tasks that are pending or running, so that a
/// saturated executor answers at once instead of queueing without end.
#[derive(Debug)]
pub struct TaskSlots {
    capacity: usize,
    in_flight: usize,
}

impl View for TaskSlots {
    type V = SlotsView;

    closed spec fn view(&self) -> SlotsView {
        SlotsView { capacity: self.capacity as nat, in_flight: self.in_flight as nat }
    }
}

impl TaskSlots {
    /// Never more tasks in flight than the capacity allows.
    pub open spec fn wf(&self) -> bool {
        self@.in_flight <= self@.capacity
    }

    pub fn new(capacity: usize) -> (r: TaskSlots)
        ensures
            r@.capacity == capacity,
            r@.in_flight == 0,
            r.wf(),
    {
        TaskSlots { capacity, in_flight: 0 }
    }

    pub fn capacity(&self) -> (r: usize)
        ensures
            r == self@.capacity,
    {
        self.capacity
    }

    pub fn in_flight(&self) -> (r: usize)
        ensures
            r == self@.in_flight,
    {
        self.in_flight
    }

    /// Gives back the slot of a finished task.
    pub fn release(&mut self)
        requires
            old(self).wf(),
        ensures
            final(self).wf(),
            final(self)@.capacity == old(self)@.capacity,
            final(self)@.in_flight == if old(self)@.in_flight > 0 {
                old(self)@.in_flight - 1
            } else {
                0
            },
    {
        if self.in_flight > 0 {
            self.in_flight = self.in_flight - 1;
        }
    }

    /// Takes a slot for one task before it is submitted. `Ok` holds a slot
    /// that is released when the task ends; a saturated executor is an
    /// `ExecutorError`, which the routes answer with 500.
    pub fn reserve(&mut self) -> (r: Result<(), ExecutorError>)
        requires
            old(self).wf(),
        ensures
            final(self).wf(),
            final(self)@.capacity == old(self)@.capacity,
            r is Ok <==> old(self)@.in_flight < old(self)@.capacity,
            r is Ok ==> final(self)@.in_flight == old(self)@.in_flight + 1,
            r is Err ==> final(self)@.in_flight == old(self)@.in_flight,
    {
        if self.in_flight < self.capacity {
            self.in_flight = self.in_flight + 1;
            Ok(())
        } else {
            Err(ExecutorError {})
        }
    }
}

} // verus!
