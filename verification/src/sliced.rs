use vstd::prelude::*;

use core::ops::Range;

verus! {

/// Access to the contiguous range of the index space a parameter value works
/// over.  The range-distributing composite reads the range, clones the
/// parameters per child and overwrites each clone's range with a sub-range.
pub trait Sliced: Sized {
    /// The start of the range.  An implementation outside the verifier's
    /// reach may leave these defaults, which describe a degenerate empty
    /// range at the origin; an implementation meant for verified callers
    /// overrides them with its real range.
    open spec fn spec_start(&self) -> int {
        0
    }

    /// The end of the range, which may exceed what a machine word holds.
    open spec fn spec_end(&self) -> int {
        0
    }

    /// The range is ordered and fits the machine: reading it back gives
    /// exactly the endpoints.
    open spec fn range_wf(&self) -> bool {
        true
    }

    /// Everything of the value except its range is the same in `other`.
    open spec fn same_rest(&self, other: &Self) -> bool {
        true
    }

    /// Returns the current range.  An end beyond the machine's address
    /// range is clamped.
    fn range(&self) -> (r: Range<usize>)
        ensures
            r.start == self.spec_start(),
            r.end == if self.spec_end() <= usize::MAX {
                self.spec_end()
            } else {
                usize::MAX as int
            },
            self.range_wf() ==> r.start <= r.end,
    ;

    /// Overwrites the range, leaving the rest of the value unchanged.
    fn set_range(&mut self, range: Range<usize>)
        requires
            range.start <= range.end,
        ensures
            final(self).spec_start() == range.start,
            final(self).spec_end() == range.end,
            final(self).range_wf(),
            old(self).same_rest(final(self)),
    ;
}

/// The end of the range clamped to the machine's address range.
pub open spec fn clamped_end<T: Sliced>(params: T) -> int {
    if params.spec_end() <= usize::MAX {
        params.spec_end()
    } else {
        usize::MAX as int
    }
}

/// The number of indices in the range, after clamping; an inverted range is
/// empty.
pub open spec fn spec_total<T: Sliced>(params: T) -> int {
    if clamped_end(params) >= params.spec_start() {
        clamped_end(params) - params.spec_start()
    } else {
        0
    }
}

/// A plain index range is its own parameter value.
impl Sliced for Range<usize> {
    open spec fn spec_start(&self) -> int {
        self.start as int
    }

    open spec fn spec_end(&self) -> int {
        self.end as int
    }

    open spec fn range_wf(&self) -> bool {
        self.start <= self.end
    }

    open spec fn same_rest(&self, other: &Self) -> bool {
        true
    }

    fn range(&self) -> (r: Range<usize>) {
        self.start..self.end
    }

    fn set_range(&mut self, range: Range<usize>) {
        *self = range.start..range.end;
    }
}

} // verus!
