use vstd::prelude::*;

verus! {

/// Why an operation on the tray or on one of its drops was skipped.
///
/// Every failure is local: the operation that reports it has left every drop
/// as it was, and the caller may go on with the next one.
#[derive(Clone, Copy, Debug, PartialEq, Eq, Structural)]
pub enum InkError {
    /// The geometry of the input has no answer: a point that lies on the
    /// centre it is to be pushed away from, a comb without direction, or a
    /// sharpness that is not greater than zero.
    Degenerate,
    /// A shape of fewer than three points cannot be filled with triangles.
    TooFewPoints,
    /// Adding perimeter points to a drop is not supported.
    Unsupported,
}

} // verus!
