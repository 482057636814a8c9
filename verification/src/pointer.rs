//! Pointer and cursor properties of a window.

use vstd::prelude::*;

verus! {

/// Cursor shown when the pointer is over a window.
#[derive(Debug, PartialEq, Eq, Clone, Copy, Structural)]
pub enum WindowCursor {
    /// Arrow pointing to the top left.
    Normal,
    /// Text selection.
    Select,
    /// The program is working.
    Working,
    /// The program is working in the background.
    WorkingInBackground,
    /// Moving an object.
    Move,
    /// Precision cross.
    Cross,
    /// Hand, usually over a link.
    Hand,
    /// Something is forbidden.
    Unavailable,
    /// Pencil, for editing.
    Pencil,
    /// Arrow pointing up, usually for selecting a column.
    UpArrow,
    /// Diagonal resize from top left to bottom right.
    DiagonalResizeTLBR,
    /// Diagonal resize from bottom left to top right.
    DiagonalResizeBLTR,
    /// Horizontal resize.
    HorizontalResize,
    /// Vertical resize.
    VerticalResize,
}

/// What pointer events of a window report.
#[derive(Debug, PartialEq, Eq, Clone, Copy, Structural)]
pub enum WindowPointerMode {
    /// The position of the cursor on the window.
    Cursor,
    /// The acceleration of the pointer instead of its position.
    Acceleration,
}

/// Pointer mode of a new window.
pub const WP_DEFAULT_MODE: WindowPointerMode = WindowPointerMode::Cursor;

/// Whether the pointer of a new window is visible.
pub const WP_DEFAULT_VISIBILITY: bool = true;

/// Whether the pointer of a new window is confined to it.
pub const WP_DEFAULT_CONFINED: bool = false;

/// Cursor of a new window.
pub const WP_DEFAULT_CURSOR: WindowCursor = WindowCursor::Normal;

/// Position of the pointer on a window.
#[derive(Debug, PartialEq, Eq, Clone, Copy, Structural)]
pub struct WindowPointerPosition {
    pub x: u32,
    pub y: u32,
}

/// Pointer properties of a window.
#[derive(Debug, PartialEq, Eq, Clone, Copy, Structural)]
pub struct WindowPointer {
    /// What pointer events report.
    pub mode: WindowPointerMode,
    /// True if the cursor is visible.
    pub visible: bool,
    /// True if the pointer is confined to the window.
    pub confined: bool,
    /// Cursor shown on the window.
    pub cursor: WindowCursor,
}

impl WindowPointer {
    /// Pointer properties of a new window: cursor mode, visible, not confined, normal cursor.
    pub fn new() -> (out: WindowPointer)
        ensures
            out == (WindowPointer {
                mode: WindowPointerMode::Cursor,
                visible: true,
                confined: false,
                cursor: WindowCursor::Normal,
            }),
    {
        WindowPointer {
            mode: WP_DEFAULT_MODE,
            visible: WP_DEFAULT_VISIBILITY,
            confined: WP_DEFAULT_CONFINED,
            cursor: WP_DEFAULT_CURSOR,
        }
    }

    /// The pointer mode.
    pub fn mode(&self) -> (out: WindowPointerMode)
        ensures
            out == self.mode,
    {
        self.mode
    }

    /// Sets the pointer mode. Returns true if the mode changed.
    pub fn set_mode(&mut self, mode: WindowPointerMode) -> (changed: bool)
        ensures
            *final(self) == (WindowPointer { mode, ..*old(self) }),
            changed == (old(self).mode != mode),
    {
        let changed = self.mode != mode;
        self.mode = mode;
        changed
    }

    /// True if the cursor is visible.
    pub fn visible(&self) -> (out: bool)
        ensures
            out == self.visible,
    {
        self.visible
    }

    /// Makes the cursor visible. Returns true if that is a change.
    pub fn show(&mut self) -> (changed: bool)
        ensures
            *final(self) == (WindowPointer { visible: true, ..*old(self) }),
            changed == !old(self).visible,
    {
        let changed = !self.visible;
        self.visible = true;
        changed
    }

    /// Makes the cursor invisible. Returns true if that is a change.
    pub fn set_hidden(&mut self) -> (changed: bool)
        ensures
            *final(self) == (WindowPointer { visible: false, ..*old(self) }),
            changed == old(self).visible,
    {
        let changed = self.visible;
        self.visible = false;
        changed
    }

    /// True if the pointer is confined to the window.
    pub fn confined(&self) -> (out: bool)
        ensures
            out == self.confined,
    {
        self.confined
    }

    /// Confines the pointer to the window. Returns true if that is a change.
    pub fn confine(&mut self) -> (changed: bool)
        ensures
            *final(self) == (WindowPointer { confined: true, ..*old(self) }),
            changed == !old(self).confined,
    {
        let changed = !self.confined;
        self.confined = true;
        changed
    }

    /// Lets the pointer leave the window. Returns true if that is a change.
    pub fn release(&mut self) -> (changed: bool)
        ensures
            *final(self) == (WindowPointer { confined: false, ..*old(self) }),
            changed == old(self).confined,
    {
        let changed = self.confined;
        self.confined = false;
        changed
    }

    /// The cursor shown on the window.
    pub fn cursor(&self) -> (out: WindowCursor)
        ensures
            out == self.cursor,
    {
        self.cursor
    }

    /// Sets the cursor shown on the window. Returns true if the cursor changed.
    pub fn set_cursor(&mut self, cursor: WindowCursor) -> (changed: bool)
        ensures
            *final(self) == (WindowPointer { cursor, ..*old(self) }),
            changed == (old(self).cursor != cursor),
    {
        let changed = self.cursor != cursor;
        self.cursor = cursor;
        changed
    }
}

} // verus!
