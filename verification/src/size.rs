use vstd::prelude::*;

verus! {

/// The dimensions of a dispatch grid or of a buffer's element count:
/// width, height and depth of a three-dimensional region.
#[derive(Clone, Copy, Debug)]
pub struct Size {
    /// The width (X dimension).
    pub width: usize,
    /// The height (Y dimension).
    pub height: usize,
    /// The depth (Z dimension).
    pub depth: usize,
}

impl Size {
    /// The total number of elements in the region, as a mathematical integer.
    pub open spec fn spec_len(self) -> int {
        self.width * self.height * self.depth
    }

    /// Creates a new `Size` from a value that can be converted to a `Size`.
    pub fn new<T>(size: T) -> (r: Self) where Self: From<T>
        ensures
            <Self as vstd::std_specs::convert::FromSpec<T>>::obeys_from_spec()
                ==> r == <Self as vstd::std_specs::convert::FromSpec<T>>::from_spec(size),
    {
        Self::from(size)
    }

    /// Returns the total number of elements in the region (width * height * depth).
    pub fn len(&self) -> (r: usize)
        requires
            self.spec_len() <= usize::MAX,
        ensures
            r == self.spec_len(),
    {
        if self.width == 0 || self.height == 0 || self.depth == 0 {
            proof {
                assert(self.spec_len() == 0) by (nonlinear_arith)
                    requires
                        self.width == 0 || self.height == 0 || self.depth == 0,
                {}
            }
            0
        } else {
            proof {
                assert(self.width * self.height <= self.width * self.height * self.depth)
                    by (nonlinear_arith)
                    requires
                        self.width >= 1,
                        self.height >= 1,
                        self.depth >= 1,
                {}
            }
            (self.width * self.height) * self.depth
        }
    }

    /// Returns true if every dimension is zero.
    pub fn is_empty(&self) -> (r: bool)
        ensures
            r == (self.width == 0 && self.height == 0 && self.depth == 0),
    {
        self.width == 0 && self.height == 0 && self.depth == 0
    }
}

/// A single value gives the width; height and depth are 1.
impl From<usize> for Size {
    fn from(size: usize) -> (r: Size) {
        Size { width: size, height: 1, depth: 1 }
    }
}

impl vstd::std_specs::convert::FromSpecImpl<usize> for Size {
    open spec fn obeys_from_spec() -> bool {
        true
    }

    open spec fn from_spec(v: usize) -> Size {
        Size { width: v, height: 1, depth: 1 }
    }
}

/// A pair gives width and height; depth is 1.
impl From<(usize, usize)> for Size {
    fn from(size: (usize, usize)) -> (r: Size) {
        Size { width: size.0, height: size.1, depth: 1 }
    }
}

impl vstd::std_specs::convert::FromSpecImpl<(usize, usize)> for Size {
    open spec fn obeys_from_spec() -> bool {
        true
    }

    open spec fn from_spec(v: (usize, usize)) -> Size {
        Size { width: v.0, height: v.1, depth: 1 }
    }
}

/// A triple gives width, height and depth.
impl From<(usize, usize, usize)> for Size {
    fn from(size: (usize, usize, usize)) -> (r: Size) {
        Size { width: size.0, height: size.1, depth: size.2 }
    }
}

impl vstd::std_specs::convert::FromSpecImpl<(usize, usize, usize)> for Size {
    open spec fn obeys_from_spec() -> bool {
        true
    }

    open spec fn from_spec(v: (usize, usize, usize)) -> Size {
        Size { width: v.0, height: v.1, depth: v.2 }
    }
}

} // verus!
