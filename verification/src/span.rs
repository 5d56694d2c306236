//! Source spans attached to host values, used to point error reports at the
//! offending argument.

use vstd::prelude::*;

verus! {

/// A half-open byte range into the host's source text.
#[derive(Clone, Copy, PartialEq, Eq, Structural, Debug)]
pub struct Span {
    pub start: usize,
    pub end: usize,
}

impl Span {
    /// The span used when no source location is known.
    pub open spec fn spec_unknown() -> Span {
        Span { start: 0, end: 0 }
    }

    #[verifier::when_used_as_spec(spec_unknown)]
    pub fn unknown() -> (s: Span)
        ensures
            s == Span::spec_unknown(),
    {
        Span { start: 0, end: 0 }
    }

    pub fn new(start: usize, end: usize) -> (s: Span)
        ensures
            s == (Span { start, end }),
    {
        Span { start, end }
    }
}

} // verus!
