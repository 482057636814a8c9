//! Events that a window manager hands out.

use vstd::prelude::*;
use crate::window::{WindowHandle, WindowPosition, WindowSize};

verus! {

/// Code of a key of the keyboard.
pub type KeyCode = u32;

/// Number of a button of the pointer.
pub type PointerButton = u32;

/// Place on a window where an event occurred.
#[derive(Debug, PartialEq, Eq, Clone, Copy, Structural)]
pub struct WindowCoordinate {
    pub x: i32,
    pub y: i32,
}

/// Acceleration of the pointer along the x and y axes.
#[derive(Debug, PartialEq, Eq, Clone, Copy, Structural)]
pub struct PointerAcceleration {
    pub x: i32,
    pub y: i32,
}

/// Events of the keyboard.
#[derive(Debug, PartialEq, Eq, Clone, Copy, Structural)]
pub enum WindowKeyboardEvent {
    /// A key went down, in direct mode.
    KeyDown(KeyCode),
    /// A key went up, in direct mode.
    KeyUp(KeyCode),
}

/// Events of the pointer.
#[derive(Debug, PartialEq, Eq, Clone, Copy, Structural)]
pub enum WindowPointerEvent {
    /// The pointer moved to a new position. Only in cursor mode.
    Move(WindowCoordinate),
    /// The pointer accelerated. Only in acceleration mode.
    Acceleration(PointerAcceleration),
    /// A button went down at a position.
    ButtonDown(PointerButton, WindowCoordinate),
    /// A button went up at a position.
    ButtonUp(PointerButton, WindowCoordinate),
}

/// Events of a window.
#[derive(Debug, PartialEq, Eq, Clone, Copy, Structural)]
pub enum WindowEvent {
    /// An event of the keyboard.
    Keyboard(WindowKeyboardEvent),
    /// An event of the pointer.
    Pointer(WindowPointerEvent),
    /// The window was created.
    Created,
    /// The window was shown.
    Shown,
    /// The window was hidden.
    Hidden,
    /// A region of the window, given by position and size, must be drawn again.
    Exposed(WindowCoordinate, WindowSize),
    /// The window moved to a new position.
    Moved(WindowPosition),
    /// The window moved and changed size.
    MovedResized(WindowPosition, WindowSize),
    /// The window changed size.
    Resized(WindowSize),
    /// The window was minimized.
    Minimized,
    /// The window was maximized.
    Maximized,
    /// The window was made fullscreen.
    Fullscreen,
    /// The window was restored from minimized, maximized or fullscreen.
    Restored,
    /// The pointer entered the window.
    PointerEnter,
    /// The pointer left the window.
    PointerLeave,
    /// The window gained focus.
    Focus,
    /// The window lost focus.
    Blur,
    /// The user pressed an overriden close button.
    CloseButtonPressed,
    /// The user pressed an overriden minimize button.
    MinimizeButtonPressed,
    /// The user pressed an overriden maximize button.
    MaximizeButtonPressed,
    /// The window was closed.
    Closed,
    /// A child window was closed.
    ChildWindowClosed,
    /// A modal child window was shown.
    ModalShowed,
    /// A modal child window was closed.
    ModalClosed,
}

/// An event together with the window it is about.
#[derive(Debug, PartialEq, Eq, Clone, Copy, Structural)]
pub struct WindowManagerEvent {
    /// Handle of the window the event is about.
    pub window: WindowHandle,
    /// The event that occurred.
    pub event: WindowEvent,
}

} // verus!
