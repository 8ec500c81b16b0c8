use vstd::prelude::*;

verus! {

/// A file specification that divides a path into a directory and a
/// base name.
///
/// The native side keeps both strings in uniqued pools, so comparisons
/// between file specifications are made there. `R` is the native
/// reference type; a wrapper owns the release of its reference and is
/// neither `Clone` nor `Copy`.
pub struct SBFileSpec<R> {
    /// The underlying native reference.
    pub raw: R,
}

impl<R> SBFileSpec<R> {
    /// Wraps a reference obtained from the native side. No validity check
    /// is made.
    pub fn wrap(raw: R) -> (r: SBFileSpec<R>)
        ensures
            r.raw == raw,
    {
        SBFileSpec { raw }
    }

    /// Wraps a reference if the native side reports it valid (`valid`),
    /// and gives nothing otherwise.
    pub fn maybe_wrap(raw: R, valid: bool) -> (r: Option<SBFileSpec<R>>)
        ensures
            r == (if valid { Some(SBFileSpec { raw }) } else { None }),
    {
        if valid {
            Some(SBFileSpec { raw })
        } else {
            None
        }
    }
}

} // verus!
