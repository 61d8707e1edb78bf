use vstd::prelude::*;

verus! {

/// Direction of optimization: whether a smaller or a larger fitness value
/// counts as better.
#[derive(Clone, Copy, Debug)]
pub enum OptimizationDirection {
    /// Find the smallest possible fitness value.
    Minimize,
    /// Find the largest possible fitness value.
    Maximize,
}

impl OptimizationDirection {
    /// Returns true if the direction is to minimize the fitness function.
    pub fn is_minimize(&self) -> (r: bool)
        ensures
            r == (self is Minimize),
    {
        matches!(self, OptimizationDirection::Minimize)
    }

    /// Returns true if the direction is to maximize the fitness function.
    pub fn is_maximize(&self) -> (r: bool)
        ensures
            r == (self is Maximize),
    {
        matches!(self, OptimizationDirection::Maximize)
    }
}

} // verus!
