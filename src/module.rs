use vstd::prelude::*;

verus! {

/// A module: an executable or shared library loaded into a target.
///
/// A module refers to two file specifications, the file on the host that
/// runs the debugger and the file as the debugged platform knows it; the
/// two differ under remote debugging. `R` is the native reference type; a
/// wrapper owns the release of its reference and is neither `Clone` nor
/// `Copy`.
pub struct SBModule<R> {
    /// The underlying native reference.
    pub raw: R,
}

impl<R> SBModule<R> {
    /// Wraps a reference obtained from the native side. No validity check
    /// is made.
    pub fn wrap(raw: R) -> (r: SBModule<R>)
        ensures
            r.raw == raw,
    {
        SBModule { raw }
    }

    /// Wraps a reference if the native side reports it valid (`valid`),
    /// and gives nothing otherwise.
    pub fn maybe_wrap(raw: R, valid: bool) -> (r: Option<SBModule<R>>)
        ensures
            r == (if valid { Some(SBModule { raw }) } else { None }),
    {
        if valid {
            Some(SBModule { raw })
        } else {
            None
        }
    }
}

} // verus!
