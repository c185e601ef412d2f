use vstd::prelude::*;

verus! {

/// Failures surfaced at the native-engine boundary.
///
/// `FFI` reports a string that cannot legally cross the native call boundary
/// (an embedded terminator byte) or a call-ordering violation at that
/// boundary; `Animation` reports animation content or a source path that the
/// engine side could not use. Both arise once, at the triggering operation;
/// neither is retried.
#[derive(Clone, Debug)]
pub enum Error {
    FFI(String),
    Animation(String),
}

impl Error {
    /// The human-readable message carried by the error.
    pub fn message(&self) -> (r: &String)
        ensures
            (*self matches Error::FFI(m) ==> r@ == m@),
            (*self matches Error::Animation(m) ==> r@ == m@),
    {
        match self {
            Error::FFI(m) => m,
            Error::Animation(m) => m,
        }
    }
}

} // verus!
