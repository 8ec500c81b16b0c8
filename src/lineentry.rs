use vstd::prelude::*;

verus! {

/// An entry of a line table: a start and an end address, a file, and a
/// 1-based line and column, where 0 means that nothing is known.
///
/// `R` is the native reference type; a wrapper owns the release of its
/// reference and is neither `Clone` nor `Copy`.
pub struct SBLineEntry<R> {
    /// The underlying native reference.
    pub raw: R,
}

impl<R> SBLineEntry<R> {
    /// Wraps a reference obtained from the native side. No validity check
    /// is made.
    pub fn wrap(raw: R) -> (r: SBLineEntry<R>)
        ensures
            r.raw == raw,
    {
        SBLineEntry { raw }
    }

    /// Wraps a reference if the native side reports it valid (`valid`),
    /// and gives nothing otherwise.
    pub fn maybe_wrap(raw: R, valid: bool) -> (r: Option<SBLineEntry<R>>)
        ensures
            r == (if valid { Some(SBLineEntry { raw }) } else { None }),
    {
        if valid {
            Some(SBLineEntry { raw })
        } else {
            None
        }
    }
}

} // verus!
