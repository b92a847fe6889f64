use vstd::prelude::*;

verus! {

/// The counting admission gate that bounds how many jobs transfer at once.
///
/// Every job takes one unit before its retry controller starts and gives it
/// back, on every exit path, when the controller reaches a terminal state.
/// The number of held units never exceeds the configured bound.
pub struct Limiter {
    bound: usize,
    active: usize,
}

impl Limiter {
    /// The configured concurrency bound.
    pub closed spec fn bound(&self) -> usize {
        self.bound
    }

    /// How many units are currently held.
    pub closed spec fn active(&self) -> usize {
        self.active
    }

    /// Validity: the held units never exceed the bound.
    pub open spec fn wf(&self) -> bool {
        self.active() <= self.bound()
    }

    /// A fresh limiter with no unit held.
    pub fn new(bound: usize) -> (r: Limiter)
        ensures
            r.wf(),
            r.bound() == bound,
            r.active() == 0,
    {
        Limiter { bound, active: 0 }
    }

    /// Tries to admit one more job: succeeds exactly while the bound is not
    /// yet reached, taking one unit; otherwise changes nothing.
    pub fn try_acquire(&mut self) -> (admitted: bool)
        requires
            old(self).wf(),
        ensures
            final(self).wf(),
            final(self).bound() == old(self).bound(),
            admitted == (old(self).active() < old(self).bound()),
            admitted ==> final(self).active() == old(self).active() + 1,
            !admitted ==> final(self).active() == old(self).active(),
    {
        if self.active < self.bound {
            self.active = self.active + 1;
            true
        } else {
            false
        }
    }

    /// Gives one held unit back.
    pub fn release(&mut self)
        requires
            old(self).wf(),
            old(self).active() >= 1,
        ensures
            final(self).wf(),
            final(self).bound() == old(self).bound(),
            final(self).active() == old(self).active() - 1,
    {
        self.active = self.active - 1;
    }

    /// How many units are held right now.
    pub fn in_use(&self) -> (r: usize)
        ensures
            r == self.active(),
    {
        self.active
    }

    /// The configured bound.
    pub fn capacity(&self) -> (r: usize)
        ensures
            r == self.bound(),
    {
        self.bound
    }
}

} // verus!
