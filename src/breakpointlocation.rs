use vstd::prelude::*;

verus! {

/// One resolved location of a breakpoint.
///
/// A breakpoint may resolve to many locations, one per address; each has
/// its own enabled flag and ignore count and refers back to the breakpoint
/// that made it. `R` is the native reference type; a wrapper owns the
/// release of its reference and is neither `Clone` nor `Copy`.
pub struct SBBreakpointLocation<R> {
    /// The underlying native reference.
    pub raw: R,
}

impl<R> SBBreakpointLocation<R> {
    /// Wraps a reference obtained from the native side. No validity check
    /// is made.
    pub fn wrap(raw: R) -> (r: SBBreakpointLocation<R>)
        ensures
            r.raw == raw,
    {
        SBBreakpointLocation { raw }
    }

    /// Wraps a reference if the native side reports it valid (`valid`),
    /// and gives nothing otherwise.
    pub fn maybe_wrap(raw: R, valid: bool) -> (r: Option<SBBreakpointLocation<R>>)
        ensures
            r == (if valid { Some(SBBreakpointLocation { raw }) } else { None }),
    {
        if valid {
            Some(SBBreakpointLocation { raw })
        } else {
            None
        }
    }
}

} // verus!
