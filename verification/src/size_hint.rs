//! Advisory bounds on the number of data bytes a body has yet to yield.

use vstd::prelude::*;

verus! {

/// A best-effort `(lower, optional upper)` bound on the data bytes remaining
/// in a body. The bound is advisory; it is exact only when the lower and the
/// upper bound coincide.
#[derive(Clone, Copy, Debug)]
pub struct SizeHint {
    lower: u64,
    upper: Option<u64>,
}

impl SizeHint {
    /// The lower bound, as contracts see it.
    pub closed spec fn spec_lower(&self) -> u64 {
        self.lower
    }

    /// The upper bound, as contracts see it; `None` means unbounded.
    pub closed spec fn spec_upper(&self) -> Option<u64> {
        self.upper
    }

    /// Well-formedness: when an upper bound is present it is at least the
    /// lower bound.
    pub open spec fn wf(&self) -> bool {
        self.spec_upper() matches Some(u) ==> self.spec_lower() <= u
    }

    /// A hint that promises nothing: lower bound zero, no upper bound.
    pub fn new() -> (r: SizeHint)
        ensures
            r.spec_lower() == 0,
            r.spec_upper() is None,
            r.wf(),
    {
        SizeHint { lower: 0, upper: None }
    }

    /// A hint that promises exactly `n` remaining data bytes.
    pub fn with_exact(n: u64) -> (r: SizeHint)
        ensures
            r.spec_lower() == n,
            r.spec_upper() == Some(n),
            r.wf(),
    {
        SizeHint { lower: n, upper: Some(n) }
    }

    /// The lower bound.
    pub fn lower(&self) -> (r: u64)
        ensures
            r == self.spec_lower(),
    {
        self.lower
    }

    /// The upper bound, if one is known.
    pub fn upper(&self) -> (r: Option<u64>)
        ensures
            r == self.spec_upper(),
    {
        self.upper
    }

    /// The exact remaining byte count, when the two bounds coincide.
    pub fn exact(&self) -> (r: Option<u64>)
        ensures
            r == (if self.spec_upper() == Some(self.spec_lower()) {
                self.spec_upper()
            } else {
                None::<u64>
            }),
    {
        match self.upper {
            Some(u) if u == self.lower => Some(u),
            _ => None,
        }
    }

    /// Set both bounds to `n`, marking the hint exact.
    pub fn set_exact(&mut self, n: u64)
        ensures
            final(self).spec_lower() == n,
            final(self).spec_upper() == Some(n),
            final(self).wf(),
    {
        self.lower = n;
        self.upper = Some(n);
    }

    /// Raise the lower bound to `n`. The new bound may not exceed a present
    /// upper bound.
    pub fn set_lower(&mut self, n: u64)
        requires
            old(self).spec_upper() matches Some(u) ==> n <= u,
        ensures
            final(self).spec_lower() == n,
            final(self).spec_upper() == old(self).spec_upper(),
            final(self).wf(),
    {
        self.lower = n;
    }

    /// Bound the remaining bytes from above by `n`. The new bound may not
    /// undercut the lower bound.
    pub fn set_upper(&mut self, n: u64)
        requires
            old(self).spec_lower() <= n,
        ensures
            final(self).spec_lower() == old(self).spec_lower(),
            final(self).spec_upper() == Some(n),
            final(self).wf(),
    {
        self.upper = Some(n);
    }
}

} // verus!
