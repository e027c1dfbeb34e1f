//! Progress through a fixed number of startup loading steps.
//!
//! A host shell that loads resources at startup counts the completed
//! steps here and shows a progress indicator until every step is done.

use vstd::prelude::*;

verus! {

/// A counter of completed loading steps out of a fixed total.
pub struct LoadingStatus {
    current: u32,
    total: u32,
}

impl LoadingStatus {
    /// Never more steps completed than there are steps.
    #[verifier::type_invariant]
    pub closed spec fn inv(self) -> bool {
        self.current <= self.total
    }

    /// The number of completed steps.
    pub closed spec fn spec_current(self) -> u32 {
        self.current
    }

    /// The total number of steps.
    pub closed spec fn spec_total(self) -> u32 {
        self.total
    }

    /// A fresh status: none of the given steps completed yet.
    pub fn with_total(total: u32) -> (r: Self)
        ensures
            r.spec_current() == 0,
            r.spec_total() == total,
    {
        LoadingStatus { current: 0, total }
    }

    /// Whether every step has completed.
    pub fn done(&self) -> (r: bool)
        ensures
            r == (self.spec_current() == self.spec_total()),
    {
        self.current == self.total
    }

    /// Record one more completed step; all steps must not already be
    /// done.
    pub fn increment(&mut self)
        requires
            old(self).spec_current() != old(self).spec_total(),
        ensures
            final(self).spec_current() == old(self).spec_current() + 1,
            final(self).spec_total() == old(self).spec_total(),
    {
        proof {
            use_type_invariant(&*self);
        }
        self.current = self.current + 1;
    }
}

} // verus!
