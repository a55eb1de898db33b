use vstd::prelude::*;

verus! {

/// A call into the upscaling runtime that did not succeed.
///
/// The runtime reports every call's outcome as a status code. The host keeps
/// the code of a failed call in this type and hands it on untouched; what a
/// given code means is the runtime's business.
#[derive(Clone, Copy, Debug, PartialEq, Eq, Structural)]
pub struct DlssError {
    /// The status code as the runtime returned it.
    pub status: u32,
}

} // verus!
