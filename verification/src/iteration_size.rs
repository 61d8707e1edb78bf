use vstd::prelude::*;

verus! {

/// The declared size of one slice of a distributed composite: either a
/// fixed element count, or a proportional weight on the space left after
/// all fixed counts are taken out.  Weights only matter relative to each
/// other; a weight ought to be positive, a zero weight receives nothing
/// unless it is the last proportional entry.
#[derive(Debug, Clone, Copy)]
pub enum IterationSize {
    /// A fixed number of elements.
    Count(usize),
    /// A proportional weight.
    Proportional(u32),
}

/// A bare number is a fixed count.
impl From<usize> for IterationSize {
    fn from(size: usize) -> (r: IterationSize) {
        IterationSize::Count(size)
    }
}

impl vstd::std_specs::convert::FromSpecImpl<usize> for IterationSize {
    open spec fn obeys_from_spec() -> bool {
        true
    }

    open spec fn from_spec(v: usize) -> IterationSize {
        IterationSize::Count(v)
    }
}

} // verus!
