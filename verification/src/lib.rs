//! Window placement over a multi-display desktop.
//!
//! The library reads a textual display enumeration into a topology of displays, and turns a
//! symbolic request for a window position (centered on a display, relative to a parent, on the
//! primary display, ...) into an absolute position on the desktop.

pub mod builder;
pub mod child;
pub mod display;
pub mod error;
pub mod event;
pub mod frame;
pub mod keyboard;
pub mod manager;
pub mod order;
pub mod placement;
pub mod pointer;
pub mod sub;
pub mod text;
pub mod topology;
pub mod window;

pub use builder::WindowBuilder;
pub use error::WindowError;
pub use manager::WindowManager;
pub use window::{
    Window, WindowFullScreenMode, WindowHandle, WindowPosition, WindowRelativePosition, WindowSize,
};
