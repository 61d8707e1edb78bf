use vstd::prelude::*;

verus! {

/// The ways an operation of this library fails.  Every failure reflects either
/// a resource limit or a misuse of the interface; none is transient, and none
/// is retried.
#[derive(Debug, PartialEq, Eq)]
pub enum Error {
    /// A write was attempted with no data.
    EmptyData,
    /// Offset or length arithmetic would overflow the address space.
    Overflow,
    /// An access would reach beyond the end of a buffer.
    OutOfBounds,
    /// `evaluate` was called before any parameters were bound, or a shader
    /// was executed with no resource-binding set.
    NotBound,
    /// An operation was called on the placeholder leaf; the payload is its
    /// configured message.
    NotImplemented(String),
    /// The sum of the fixed sizes exceeds the total that was to be distributed.
    Infeasible,
    /// The device rejected a poll for completion.
    Device,
}

impl Error {
    /// A short description of the failure, for reporting at the point where
    /// the caller gives up.
    pub fn message(&self) -> (r: String)
        ensures
            self is EmptyData ==> r@ == "cannot update buffer with empty data"@,
            self is Overflow ==> r@ == "offset or length arithmetic overflow"@,
            self is OutOfBounds ==> r@ == "access beyond buffer bounds"@,
            self is NotBound ==> r@ == "evaluate called before bind"@,
            self matches Error::NotImplemented(m) ==> r@ == m@,
            self is Infeasible ==> r@ == "total size is less than the sum of fixed sizes"@,
            self is Device ==> r@ == "device poll failed"@,
    {
        match self {
            Error::EmptyData => "cannot update buffer with empty data".to_string(),
            Error::Overflow => "offset or length arithmetic overflow".to_string(),
            Error::OutOfBounds => "access beyond buffer bounds".to_string(),
            Error::NotBound => "evaluate called before bind".to_string(),
            Error::NotImplemented(m) => m.clone(),
            Error::Infeasible => "total size is less than the sum of fixed sizes".to_string(),
            Error::Device => "device poll failed".to_string(),
        }
    }
}

} // verus!
