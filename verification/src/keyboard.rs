//! Keyboard properties of a window.

use vstd::prelude::*;

verus! {

/// How a window receives keyboard input.
#[derive(Debug, PartialEq, Eq, Clone, Copy, Structural)]
pub enum WindowKeyboardMode {
    /// Key up and key down events: the faster mode, suited to games.
    Direct,
    /// Key press events with what text entry needs: the slower mode.
    Text,
}

/// Keyboard mode of a new window.
pub const WKB_DEFAULT_MODE: WindowKeyboardMode = WindowKeyboardMode::Direct;

/// Whether a new window repeats a key that is held down.
pub const WKB_DEFAULT_REPEAT: bool = false;

/// Keyboard properties of a window.
#[derive(Debug, PartialEq, Eq, Clone, Copy, Structural)]
pub struct WindowKeyboard {
    /// How the window receives keyboard input.
    pub mode: WindowKeyboardMode,
    /// True if a key that is held down is repeated.
    pub auto_repeat: bool,
}

impl WindowKeyboard {
    /// Keyboard properties of a new window: direct mode, no repeat.
    pub fn new() -> (out: WindowKeyboard)
        ensures
            out == (WindowKeyboard { mode: WindowKeyboardMode::Direct, auto_repeat: false }),
    {
        WindowKeyboard { mode: WKB_DEFAULT_MODE, auto_repeat: WKB_DEFAULT_REPEAT }
    }

    /// The keyboard mode.
    pub fn mode(&self) -> (out: WindowKeyboardMode)
        ensures
            out == self.mode,
    {
        self.mode
    }

    /// Sets the keyboard mode. Returns true if the mode changed.
    pub fn set_mode(&mut self, mode: WindowKeyboardMode) -> (changed: bool)
        ensures
            *final(self) == (WindowKeyboard { mode, ..*old(self) }),
            changed == (old(self).mode != mode),
    {
        let changed = self.mode != mode;
        self.mode = mode;
        changed
    }

    /// True if a key that is held down is repeated.
    pub fn repeat(&self) -> (out: bool)
        ensures
            out == self.auto_repeat,
    {
        self.auto_repeat
    }

    /// Makes a key that is held down repeat. Returns true if that is a change.
    pub fn enable_repeat(&mut self) -> (changed: bool)
        ensures
            *final(self) == (WindowKeyboard { auto_repeat: true, ..*old(self) }),
            changed == !old(self).auto_repeat,
    {
        let changed = !self.auto_repeat;
        self.auto_repeat = true;
        changed
    }

    /// Stops a key that is held down from repeating. Returns true if that is a change.
    pub fn disable_repeat(&mut self) -> (changed: bool)
        ensures
            *final(self) == (WindowKeyboard { auto_repeat: false, ..*old(self) }),
            changed == old(self).auto_repeat,
    {
        let changed = self.auto_repeat;
        self.auto_repeat = false;
        changed
    }
}

} // verus!
