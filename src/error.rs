use vstd::prelude::*;

verus! {

/// Why a time could not be read as whole seconds since the epoch.
#[derive(Debug, Clone, Copy, PartialEq, Eq, Structural)]
pub enum UtilError {
    /// A modification time lies before the epoch.
    ModifiedBeforeEpoch,
    /// The system clock reads a time before the epoch.
    ClockBeforeEpoch,
}

} // verus!
