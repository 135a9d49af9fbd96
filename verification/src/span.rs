use vstd::prelude::*;

verus! {

/// A length of time, in nanoseconds.
#[derive(Clone, Copy, Debug, PartialEq, Eq, Structural)]
pub struct Span {
    pub nanos: u128,
}

impl Span {
    /// A span of `millis` milliseconds.
    pub fn from_millis(millis: u64) -> (s: Span)
        ensures
            s.nanos == millis * 1_000_000,
    {
        let wide: u128 = millis as u128;
        assert(wide * 1_000_000 <= u128::MAX) by (nonlinear_arith)
            requires
                wide <= u64::MAX,
        ;
        Span { nanos: wide * 1_000_000 }
    }

    /// Whether `self` is strictly longer than `limit`.
    pub fn exceeds(&self, limit: &Span) -> (r: bool)
        ensures
            r == (self.nanos > limit.nanos),
    {
        self.nanos > limit.nanos
    }

    /// `self`, cut down to `cap` where there is one and `self` is longer.
    pub open spec fn capped(self, cap: Option<Span>) -> Span {
        match cap {
            Some(c) => if self.nanos > c.nanos {
                c
            } else {
                self
            },
            None => self,
        }
    }

    /// `self`, cut down to `cap` where there is one and `self` is longer.
    pub fn cap(self, cap: Option<Span>) -> (r: Span)
        ensures
            r == self.capped(cap),
            r.nanos <= self.nanos,
            cap matches Some(c) ==> r.nanos <= c.nanos,
    {
        match cap {
            Some(c) => if self.nanos > c.nanos {
                c
            } else {
                self
            },
            None => self,
        }
    }
}

} // verus!
