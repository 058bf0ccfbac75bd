use vstd::prelude::*;

verus! {

/// Marks a handle's payload type as "any".
///
/// Zero-sized: it carries no data and exists only so that handles over
/// different payload types can share one static type.
#[derive(Debug)]
pub struct EmAny;

impl EmAny {
    /// The marker. All values of this type are equal.
    #[inline]
    pub fn new() -> (marker: Self)
        ensures
            marker == EmAny,
    {
        EmAny
    }
}

} // verus!
