//! Why an image was not booted.
use vstd::prelude::*;

verus! {

/// The reason for which a boot attempt was aborted.
#[derive(Clone, Copy, Debug, PartialEq, Eq, Structural)]
pub enum BootError {
    /// Slot is not defined.
    SlotUnknown,
    /// Image is too large to fit.
    TooLarge,
    /// Image cannot possibly be this small.
    TooSmall,
    /// Image did not contain the correct markers.
    Markers,
    /// Image requested to be copied into a disallowed memory region.
    MemoryRegion,
    /// What was copied from the NVM seems to have changed after the initial read.
    ///
    /// Indicates a possible man-in-the-middle attack on the NVM.
    ChangeAfterRead,
    /// Image failed to authenticate.
    Authenticate,
    /// The underlying NVM threw an error.
    IO,
    /// Hashing error, such as an unsupported configuration or a failure in the hashing
    /// peripheral.
    Hash,
}

} // verus!
