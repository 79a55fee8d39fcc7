//! The admission controller: a fixed number of permits, one per running
//! subprocess.

use vstd::prelude::*;

verus! {

/// Mathematical value of an [`AdmissionController`].
pub struct AdmissionView {
    /// How many subprocesses may run at once.
    pub capacity: nat,
    /// How many permits are out.
    pub in_use: nat,
}

impl AdmissionView {
    /// Never more permits are out than the controller has.
    pub open spec fn wf(self) -> bool {
        self.in_use <= self.capacity
    }

    /// A permit is free.
    pub open spec fn has_room(self) -> bool {
        self.in_use < self.capacity
    }

    /// The controller after a request: one more permit is out if one was free.
    pub open spec fn after_request(self) -> AdmissionView {
        if self.has_room() {
            AdmissionView { capacity: self.capacity, in_use: self.in_use + 1 }
        } else {
            self
        }
    }

    /// The controller after a permit came back.
    pub open spec fn after_release(self) -> AdmissionView {
        if self.in_use > 0 {
            AdmissionView { capacity: self.capacity, in_use: (self.in_use - 1) as nat }
        } else {
            self
        }
    }

    /// The controller after `count` requests in a row.
    pub open spec fn after_requests(self, count: nat) -> AdmissionView
        decreases count,
    {
        if count == 0 {
            self
        } else {
            self.after_requests((count - 1) as nat).after_request()
        }
    }
}

/// A counter of permits, of which there is a fixed number.
pub struct AdmissionController {
    capacity: usize,
    in_use: usize,
}

impl View for AdmissionController {
    type V = AdmissionView;

    closed spec fn view(&self) -> AdmissionView {
        AdmissionView { capacity: self.capacity as nat, in_use: self.in_use as nat }
    }
}

impl AdmissionController {
    #[verifier::type_invariant]
    spec fn bounded(self) -> bool {
        self.in_use <= self.capacity
    }

    /// A controller with `capacity` permits, all of them free.
    pub fn new(capacity: usize) -> (controller: AdmissionController)
        ensures
            controller@ == (AdmissionView { capacity: capacity as nat, in_use: 0 }),
    {
        AdmissionController { capacity, in_use: 0 }
    }

    /// How many subprocesses may run at once.
    pub fn capacity(&self) -> (capacity: usize)
        ensures
            capacity == self@.capacity,
    {
        self.capacity
    }

    /// How many permits are out.
    pub fn in_use(&self) -> (in_use: usize)
        ensures
            in_use == self@.in_use,
            self@.wf(),
    {
        proof {
            use_type_invariant(self);
        }
        self.in_use
    }

    /// How many permits are free.
    pub fn available(&self) -> (free: usize)
        ensures
            free == self@.capacity - self@.in_use,
            self@.wf(),
    {
        proof {
            use_type_invariant(self);
        }
        self.capacity - self.in_use
    }

    /// Takes a permit if one is free and says whether it did. It never
    /// waits: a caller that is refused asks again after a release.
    pub fn try_acquire(&mut self) -> (granted: bool)
        ensures
            old(self)@.wf(),
            final(self)@.wf(),
            granted == old(self)@.has_room(),
            final(self)@ == old(self)@.after_request(),
    {
        proof {
            use_type_invariant(&*self);
        }
        if self.in_use < self.capacity {
            self.in_use = self.in_use + 1;
            true
        } else {
            false
        }
    }

    /// Gives a permit back. On a controller with no permit out it does nothing.
    pub fn release(&mut self)
        ensures
            old(self)@.wf(),
            final(self)@.wf(),
            final(self)@ == old(self)@.after_release(),
    {
        proof {
            use_type_invariant(&*self);
        }
        if self.in_use > 0 {
            self.in_use = self.in_use - 1;
        }
    }
}

} // verus!
