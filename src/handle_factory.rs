use vstd::prelude::*;

verus! {

/// Hands out strictly positive 32-bit handles, wrapping back to 1 after
/// `i32::MAX`.
pub struct HandleFactory {
    current: i32,
}

impl HandleFactory {
    #[verifier::type_invariant]
    spec fn positive(&self) -> bool {
        self.current >= 1
    }

    /// The handle most recently handed out (or the seed, before any).
    pub closed spec fn last(&self) -> i32 {
        self.current
    }

    pub fn new() -> (r: Self)
        ensures
            r.last() == 1,
    {
        HandleFactory { current: 1 }
    }

    /// The handle after the last one, or 1 after `i32::MAX`.
    pub fn next(&mut self) -> (r: i32)
        ensures
            r == final(self).last(),
            r >= 1,
            r == (if old(self).last() == i32::MAX { 1 } else { old(self).last() + 1 }),
    {
        proof {
            use_type_invariant(&*self);
        }
        if self.current >= i32::MAX {
            self.current = 1;
        } else {
            self.current = self.current + 1;
        }
        self.current
    }
}

} // verus!
