//! Errors reported by the window layer.

use vstd::prelude::*;

verus! {

/// Everything that can go wrong while describing displays or placing windows.
#[derive(Debug, PartialEq, Eq, Clone, Copy, Structural)]
pub enum WindowError {
    /// A window handle does not name any window of the manager.
    InvalidWindowHandle,
    /// No window manager is available on the system.
    NoWindowManager,
    /// The system window manager is not supported.
    WindowManagerNotSupported,
    /// A relative position resolves to a place outside the desktop.
    WindowRelativePositionOOB,
    /// A window size is not between the minimum and the maximum size.
    WindowSizeOOB,
    /// The minimum size is not within the maximum size.
    WindowMinSizeBiggerThanMax,
    /// A window was asked to become its own parent.
    WindowParentSelf,
    /// Setting the parent would make a window its own ancestor.
    WindowParentLoop,
    /// The display enumeration could not be read as a topology.
    DisplayInformationError,
    /// A display handle does not name any display of the topology.
    DisplayInvalidHandle,
}

} // verus!
