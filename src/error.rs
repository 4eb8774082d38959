use vstd::prelude::*;

verus! {

/// What can go wrong in the picker's core.
#[derive(Clone, Copy, Debug, PartialEq, Eq, Structural)]
pub enum PickerError {
    /// The picker was configured with values it cannot work with (a grid of
    /// zero columns).
    ConfigurationError,
}

} // verus!
