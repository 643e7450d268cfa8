use vstd::prelude::*;

verus! {

/// Failures that the library reports instead of proceeding.
#[derive(Clone, Copy, Debug, PartialEq, Eq, Structural)]
pub enum Error {
    /// A frame buffer was asked for with a negative width or height.
    InvalidDimension,
    /// The console mode could not be read, so it cannot be saved for restoration.
    ModeQueryFailure,
}

} // verus!
