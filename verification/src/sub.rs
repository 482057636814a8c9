//! Properties of a window as the child of another: how it follows its parent.

use vstd::prelude::*;
use crate::window::WindowPosition;

verus! {

/// Whether a new child window blocks its parent while shown.
pub const BLOCK_PARENT: bool = false;

/// Whether a new child window is minimized with its parent.
pub const MIN_WPARENT: bool = true;

/// Whether a new child window is restored with its parent.
pub const RES_WPARENT: bool = true;

/// Whether a new child window is shown with its parent.
pub const SHOW_WPARENT: bool = false;

/// Whether a new child window is hidden with its parent.
pub const HIDE_WPARENT: bool = true;

/// Whether a new child window is closed with its parent.
pub const CLOSE_WPARENT: bool = true;

/// Each anchor of a new child window.
pub const ANCHOR: Option<WindowPosition> = None;

/// Anchors that dock a window to its parent. To dock without resizing, set the top left
/// anchor only.
#[derive(Debug, PartialEq, Eq, Clone, Copy, Structural)]
pub struct SubWindowAnchor {
    pub bottom_left: Option<WindowPosition>,
    pub bottom_right: Option<WindowPosition>,
    pub top_left: Option<WindowPosition>,
    pub top_right: Option<WindowPosition>,
}

/// The anchors of a window that is not docked: none is set.
pub open spec fn no_anchors() -> SubWindowAnchor {
    SubWindowAnchor { bottom_left: None, bottom_right: None, top_left: None, top_right: None }
}

impl SubWindowAnchor {
    /// Anchors with none set.
    pub fn new() -> (out: SubWindowAnchor)
        ensures
            out == no_anchors(),
    {
        SubWindowAnchor {
            bottom_left: ANCHOR,
            bottom_right: ANCHOR,
            top_left: ANCHOR,
            top_right: ANCHOR,
        }
    }

    /// Sets all four anchors at once.
    pub fn set(
        &mut self,
        bottom_left: Option<WindowPosition>,
        bottom_right: Option<WindowPosition>,
        top_left: Option<WindowPosition>,
        top_right: Option<WindowPosition>,
    )
        ensures
            *final(self) == (SubWindowAnchor { bottom_left, bottom_right, top_left, top_right }),
    {
        self.bottom_left = bottom_left;
        self.bottom_right = bottom_right;
        self.top_left = top_left;
        self.top_right = top_right;
    }

    /// Clears all four anchors.
    pub fn clear(&mut self)
        ensures
            *final(self) == no_anchors(),
    {
        self.bottom_left = ANCHOR;
        self.bottom_right = ANCHOR;
        self.top_left = ANCHOR;
        self.top_right = ANCHOR;
    }
}

/// Properties of a window as the child of its parent.
#[derive(Debug, PartialEq, Eq, Clone, Copy, Structural)]
pub struct SubWindow {
    /// Anchors that dock the window to its parent.
    pub anchors: SubWindowAnchor,
    /// True if the window, while shown, blocks its parent: a modal window.
    pub block_parent_until_closed: bool,
    /// True if the window is minimized when its parent is.
    pub minimize_with_parent: bool,
    /// True if the window is restored when its parent is.
    pub restore_with_parent: bool,
    /// True if the window is shown when its parent is.
    pub show_with_parent: bool,
    /// True if the window is hidden when its parent is.
    pub hide_with_parent: bool,
    /// True if the window is closed when its parent is.
    pub close_with_parent: bool,
}

impl SubWindow {
    /// Properties of a new child window: not docked, not modal; minimized, restored, hidden
    /// and closed with its parent, but not shown with it.
    pub fn new() -> (out: SubWindow)
        ensures
            out == (SubWindow {
                anchors: no_anchors(),
                block_parent_until_closed: false,
                minimize_with_parent: true,
                restore_with_parent: true,
                show_with_parent: false,
                hide_with_parent: true,
                close_with_parent: true,
            }),
    {
        SubWindow {
            anchors: SubWindowAnchor::new(),
            block_parent_until_closed: BLOCK_PARENT,
            minimize_with_parent: MIN_WPARENT,
            restore_with_parent: RES_WPARENT,
            show_with_parent: SHOW_WPARENT,
            hide_with_parent: HIDE_WPARENT,
            close_with_parent: CLOSE_WPARENT,
        }
    }

    /// Puts every property but the anchors back to what it is for a new child window.
    pub fn reset(&mut self)
        ensures
            *final(self) == (SubWindow {
                anchors: old(self).anchors,
                block_parent_until_closed: false,
                minimize_with_parent: true,
                restore_with_parent: true,
                show_with_parent: false,
                hide_with_parent: true,
                close_with_parent: true,
            }),
    {
        self.block_parent_until_closed = BLOCK_PARENT;
        self.minimize_with_parent = MIN_WPARENT;
        self.restore_with_parent = RES_WPARENT;
        self.show_with_parent = SHOW_WPARENT;
        self.hide_with_parent = HIDE_WPARENT;
        self.close_with_parent = CLOSE_WPARENT;
    }
}

} // verus!
