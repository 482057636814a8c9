//! How a child window behaves toward its parent.

use vstd::prelude::*;
use crate::window::WindowPosition;

verus! {

/// Anchors that dock a child window to its parent. To dock without resizing, set the top left
/// anchor only.
pub struct WindowChildAnchor {
    pub bottom_left: Option<WindowPosition>,
    pub bottom_right: Option<WindowPosition>,
    pub top_left: Option<WindowPosition>,
    pub top_right: Option<WindowPosition>,
}

/// Behaviour of a window as the child of its parent.
pub struct WindowChildBehaviour {
    /// Anchors that dock the window to its parent.
    pub anchors: WindowChildAnchor,
    /// True if the window, while visible, blocks its parent: a modal window.
    pub block_parent_until_closed: bool,
    /// True if the window is minimized when its parent is.
    pub minimize_with_parent: bool,
    /// True if the window is restored when its parent is.
    pub restore_with_parent: bool,
    /// True if the window is shown when its parent is.
    pub show_with_parent: bool,
    /// True if the window is hidden when its parent is.
    pub hide_with_parent: bool,
    /// True if the window is closed when its parent is.
    pub close_with_parent: bool,
}

} // verus!
