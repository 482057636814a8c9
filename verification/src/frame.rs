//! Properties of the frame: the border that surrounds a window.

use vstd::prelude::*;

verus! {

/// What a button of the frame does.
#[derive(Debug, PartialEq, Eq, Clone, Copy, Structural)]
pub enum WindowFrameButtonMode {
    /// Shown and acting as the system has it.
    Default,
    /// Not shown.
    Hidden,
    /// Shown, but doing nothing.
    Disable,
    /// Shown, and reported as an event instead of acting.
    Overriden,
}

/// Whether the frame of a new window is visible.
pub const WF_DEFAULT_VISIBILITY: bool = true;

/// Whether the frame of a new window lets the user resize it.
pub const WF_DEFAULT_RESIZABLE: bool = true;

/// Mode of every button of the frame of a new window.
pub const WF_DEFAULT_BUTTON: WindowFrameButtonMode = WindowFrameButtonMode::Default;

/// Properties of the frame of a window.
#[derive(Debug, PartialEq, Eq, Clone, Copy, Structural)]
pub struct WindowFrame {
    /// True if the frame is visible.
    pub visible: bool,
    /// True if the frame can be used to resize the window.
    pub resizable: bool,
    /// Mode of the minimize button.
    pub min_button: WindowFrameButtonMode,
    /// Mode of the maximize button.
    pub max_button: WindowFrameButtonMode,
    /// Mode of the close button.
    pub close_button: WindowFrameButtonMode,
}

/// The frame of a new window: visible, resizable, every button as the system has it.
pub open spec fn default_frame() -> WindowFrame {
    WindowFrame {
        visible: true,
        resizable: true,
        min_button: WindowFrameButtonMode::Default,
        max_button: WindowFrameButtonMode::Default,
        close_button: WindowFrameButtonMode::Default,
    }
}

impl WindowFrame {
    /// The frame of a new window.
    pub fn new() -> (out: WindowFrame)
        ensures
            out == default_frame(),
    {
        WindowFrame {
            visible: WF_DEFAULT_VISIBILITY,
            resizable: WF_DEFAULT_RESIZABLE,
            min_button: WF_DEFAULT_BUTTON,
            max_button: WF_DEFAULT_BUTTON,
            close_button: WF_DEFAULT_BUTTON,
        }
    }

    /// True if the frame is visible around the window.
    pub fn visible(&self) -> (out: bool)
        ensures
            out == self.visible,
    {
        self.visible
    }

    /// Shows the frame. Returns true if that is a change.
    pub fn show(&mut self) -> (changed: bool)
        ensures
            *final(self) == (WindowFrame { visible: true, ..*old(self) }),
            changed == !old(self).visible,
    {
        let changed = !self.visible;
        self.visible = true;
        changed
    }

    /// Hides the frame. Returns true if that is a change.
    pub fn set_hidden(&mut self) -> (changed: bool)
        ensures
            *final(self) == (WindowFrame { visible: false, ..*old(self) }),
            changed == old(self).visible,
    {
        let changed = self.visible;
        self.visible = false;
        changed
    }

    /// True if the frame can be used to resize the window.
    pub fn resizable(&self) -> (out: bool)
        ensures
            out == self.resizable,
    {
        self.resizable
    }

    /// Stops the user from resizing the window by its frame. Returns true if that is a change.
    pub fn lock(&mut self) -> (changed: bool)
        ensures
            *final(self) == (WindowFrame { resizable: false, ..*old(self) }),
            changed == old(self).resizable,
    {
        let changed = self.resizable;
        self.resizable = false;
        changed
    }

    /// Lets the user resize the window by its frame. Returns true if that is a change.
    pub fn unlock(&mut self) -> (changed: bool)
        ensures
            *final(self) == (WindowFrame { resizable: true, ..*old(self) }),
            changed == !old(self).resizable,
    {
        let changed = !self.resizable;
        self.resizable = true;
        changed
    }

    /// Mode of the minimize button.
    pub fn button_min(&self) -> (out: WindowFrameButtonMode)
        ensures
            out == self.min_button,
    {
        self.min_button
    }

    /// Sets the mode of the minimize button. Returns true if the mode changed.
    pub fn set_button_min(&mut self, mode: WindowFrameButtonMode) -> (changed: bool)
        ensures
            *final(self) == (WindowFrame { min_button: mode, ..*old(self) }),
            changed == (old(self).min_button != mode),
    {
        let changed = self.min_button != mode;
        self.min_button = mode;
        changed
    }

    /// Mode of the maximize button.
    pub fn button_max(&self) -> (out: WindowFrameButtonMode)
        ensures
            out == self.max_button,
    {
        self.max_button
    }

    /// Sets the mode of the maximize button. Returns true if the mode changed.
    pub fn set_button_max(&mut self, mode: WindowFrameButtonMode) -> (changed: bool)
        ensures
            *final(self) == (WindowFrame { max_button: mode, ..*old(self) }),
            changed == (old(self).max_button != mode),
    {
        let changed = self.max_button != mode;
        self.max_button = mode;
        changed
    }

    /// Mode of the close button.
    pub fn button_close(&self) -> (out: WindowFrameButtonMode)
        ensures
            out == self.close_button,
    {
        self.close_button
    }

    /// Sets the mode of the close button. Returns true if the mode changed.
    pub fn set_button_close(&mut self, mode: WindowFrameButtonMode) -> (changed: bool)
        ensures
            *final(self) == (WindowFrame { close_button: mode, ..*old(self) }),
            changed == (old(self).close_button != mode),
    {
        let changed = self.close_button != mode;
        self.close_button = mode;
        changed
    }

    /// Puts the frame back to what the frame of a new window is.
    pub fn reset(&mut self)
        ensures
            *final(self) == default_frame(),
    {
        self.visible = WF_DEFAULT_VISIBILITY;
        self.resizable = WF_DEFAULT_RESIZABLE;
        self.min_button = WF_DEFAULT_BUTTON;
        self.max_button = WF_DEFAULT_BUTTON;
        self.close_button = WF_DEFAULT_BUTTON;
    }
}

} // verus!
