//! What can go wrong while switching scenes.
use vstd::prelude::*;

verus! {

/// An error of the switcher, or one that the broadcasting software answered
/// with.
#[derive(Debug, PartialEq, Eq, Clone, Copy, Structural)]
pub enum Error {
    /// No broadcasting software is set.
    NoSoftwareSet,
    /// There is no scene for this switch type.
    SwitchTypeNotSupported,
    /// The broadcasting software does not know the source.
    NoSourceFound,
    /// The request did not get through to the broadcasting software.
    RequestFailed,
}

} // verus!
