//! The builder that gathers the properties of a window before it is made.

use vstd::prelude::*;
use crate::error::WindowError;
use crate::frame::{default_frame, WindowFrame};
use crate::keyboard::{WindowKeyboard, WindowKeyboardMode};
use crate::manager::{
    build_outcome, created, placeable, rebuild_outcome, relinked, replaceable, with_child,
    WindowManager, WindowManagerModel,
};
use crate::pointer::{WindowCursor, WindowPointer, WindowPointerMode};
use crate::sub::{no_anchors, SubWindow};
use crate::window::{
    WindowFullScreenMode, WindowHandle, WindowRelativePosition, WindowSize,
};

verus! {

/// Title of a new window.
pub const WB_DEFAULT_TITLE: &'static str = "New window";

/// Width of a new window.
pub const WB_DEFAULT_WIDTH: u32 = 640;

/// Height of a new window.
pub const WB_DEFAULT_HEIGHT: u32 = 480;

/// Smallest width the user can give a new window.
pub const WB_DEFAULT_MIN_WIDTH: u32 = 320;

/// Smallest height the user can give a new window.
pub const WB_DEFAULT_MIN_HEIGHT: u32 = 240;

/// Largest width and height the user can give a new window.
pub const WB_DEFAULT_MAX_EXTENT: u32 = 65535;

/// Position of a new window.
pub const WB_DEFAULT_POSITION: WindowRelativePosition = WindowRelativePosition::PrimaryCenter;

/// Parent of a new window.
pub const WB_DEFAULT_PARENT: Option<WindowHandle> = None;

/// Fullscreen mode of a new window.
pub const WB_DEFAULT_FSMODE: Option<WindowFullScreenMode> = None;

/// Whether a new window is minimized.
pub const WB_DEFAULT_MINIMIZED: bool = false;

/// Whether a new window is maximized.
pub const WB_DEFAULT_MAXIMIZED: bool = false;

/// Whether a new window is visible.
pub const WB_DEFAULT_VISIBLE: bool = true;

/// Whether a new window is shown in the taskbar.
pub const WB_DEFAULT_TASKBAR: bool = true;

/// Gathers the properties of a window, to make a new one or to remake an existing one.
pub struct WindowBuilder {
    /// Bytes of the icon of the window, if it has one of its own.
    pub icon: Option<Vec<u8>>,
    /// Title of the window.
    pub title: String,
    /// Smallest size the user can give the window.
    pub min_size: WindowSize,
    /// Largest size the user can give the window.
    pub max_size: WindowSize,
    /// Size of the window.
    pub size: WindowSize,
    /// Where the window goes.
    pub position: WindowRelativePosition,
    /// Parent of the window.
    pub parent: Option<WindowHandle>,
    /// How the window follows its parent.
    pub sub: SubWindow,
    /// Frame properties of the window.
    pub frame: WindowFrame,
    /// Keyboard properties of the window.
    pub keyboard: WindowKeyboard,
    /// Pointer properties of the window.
    pub pointer: WindowPointer,
    /// Fullscreen mode of the window, if it is to be fullscreen.
    pub fsmode: Option<WindowFullScreenMode>,
    /// True if the window is to be minimized.
    pub minimized: bool,
    /// True if the window is to be maximized.
    pub maximized: bool,
    /// True if the window is to be visible.
    pub visible: bool,
    /// True if the window is to be shown in the taskbar.
    pub taskbar: bool,
}

/// Mathematical model of a [`WindowBuilder`].
pub struct WindowBuilderModel {
    pub icon: Option<Seq<u8>>,
    pub title: Seq<char>,
    pub min_size: WindowSize,
    pub max_size: WindowSize,
    pub size: WindowSize,
    pub position: WindowRelativePosition,
    pub parent: Option<WindowHandle>,
    pub sub: SubWindow,
    pub frame: WindowFrame,
    pub keyboard: WindowKeyboard,
    pub pointer: WindowPointer,
    pub fsmode: Option<WindowFullScreenMode>,
    pub minimized: bool,
    pub maximized: bool,
    pub visible: bool,
    pub taskbar: bool,
}

/// The bytes that an optional buffer holds.
pub open spec fn bytes_of(buffer: Option<Vec<u8>>) -> Option<Seq<u8>> {
    match buffer {
        Some(bytes) => Some(bytes@),
        None => None,
    }
}

/// The properties of a builder that nothing was set on.
pub open spec fn default_builder() -> WindowBuilderModel {
    WindowBuilderModel {
        icon: None,
        title: "New window"@,
        min_size: WindowSize { width: 320, height: 240 },
        max_size: WindowSize { width: 65535, height: 65535 },
        size: WindowSize { width: 640, height: 480 },
        position: WindowRelativePosition::PrimaryCenter,
        parent: None,
        sub: SubWindow {
            anchors: no_anchors(),
            block_parent_until_closed: false,
            minimize_with_parent: true,
            restore_with_parent: true,
            show_with_parent: false,
            hide_with_parent: true,
            close_with_parent: true,
        },
        frame: default_frame(),
        keyboard: WindowKeyboard { mode: WindowKeyboardMode::Direct, auto_repeat: false },
        pointer: WindowPointer {
            mode: WindowPointerMode::Cursor,
            visible: true,
            confined: false,
            cursor: WindowCursor::Normal,
        },
        fsmode: None,
        minimized: false,
        maximized: false,
        visible: true,
        taskbar: true,
    }
}

impl View for WindowBuilder {
    type V = WindowBuilderModel;

    open spec fn view(&self) -> WindowBuilderModel {
        WindowBuilderModel {
            icon: bytes_of(self.icon),
            title: self.title@,
            min_size: self.min_size,
            max_size: self.max_size,
            size: self.size,
            position: self.position,
            parent: self.parent,
            sub: self.sub,
            frame: self.frame,
            keyboard: self.keyboard,
            pointer: self.pointer,
            fsmode: self.fsmode,
            minimized: self.minimized,
            maximized: self.maximized,
            visible: self.visible,
            taskbar: self.taskbar,
        }
    }
}

impl WindowBuilder {
    /// A builder with the properties of a new window.
    pub fn new() -> (out: WindowBuilder)
        ensures
            out@ == default_builder(),
    {
        WindowBuilder {
            icon: None,
            title: WB_DEFAULT_TITLE.to_owned(),
            min_size: WindowSize { width: WB_DEFAULT_MIN_WIDTH, height: WB_DEFAULT_MIN_HEIGHT },
            max_size: WindowSize { width: WB_DEFAULT_MAX_EXTENT, height: WB_DEFAULT_MAX_EXTENT },
            size: WindowSize { width: WB_DEFAULT_WIDTH, height: WB_DEFAULT_HEIGHT },
            position: WB_DEFAULT_POSITION,
            parent: WB_DEFAULT_PARENT,
            sub: SubWindow::new(),
            frame: WindowFrame::new(),
            keyboard: WindowKeyboard::new(),
            pointer: WindowPointer::new(),
            fsmode: WB_DEFAULT_FSMODE,
            minimized: WB_DEFAULT_MINIMIZED,
            maximized: WB_DEFAULT_MAXIMIZED,
            visible: WB_DEFAULT_VISIBLE,
            taskbar: WB_DEFAULT_TASKBAR,
        }
    }

    /// Sets the title of the window.
    pub fn title(&mut self, title: &str) -> (ret: &mut Self)
        ensures
            ret@ == (WindowBuilderModel { title: title@, ..old(self)@ }),
            *final(self) == *final(ret),
    {
        self.title = title.to_owned();
        self
    }

    /// Sets the smallest size the user can give the window.
    pub fn size_min(&mut self, size: WindowSize) -> (ret: &mut Self)
        ensures
            ret@ == (WindowBuilderModel { min_size: size, ..old(self)@ }),
            *final(self) == *final(ret),
    {
        self.min_size = size;
        self
    }

    /// Sets the largest size the user can give the window.
    pub fn size_max(&mut self, size: WindowSize) -> (ret: &mut Self)
        ensures
            ret@ == (WindowBuilderModel { max_size: size, ..old(self)@ }),
            *final(self) == *final(ret),
    {
        self.max_size = size;
        self
    }

    /// Sets the size of the window.
    pub fn size(&mut self, size: WindowSize) -> (ret: &mut Self)
        ensures
            ret@ == (WindowBuilderModel { size, ..old(self)@ }),
            *final(self) == *final(ret),
    {
        self.size = size;
        self
    }

    /// Sets where the window goes.
    pub fn position(&mut self, position: WindowRelativePosition) -> (ret: &mut Self)
        ensures
            ret@ == (WindowBuilderModel { position, ..old(self)@ }),
            *final(self) == *final(ret),
    {
        self.position = position;
        self
    }

    /// Sets the pointer properties of the window.
    pub fn pointer(&mut self, pointer: WindowPointer) -> (ret: &mut Self)
        ensures
            ret@ == (WindowBuilderModel { pointer, ..old(self)@ }),
            *final(self) == *final(ret),
    {
        self.pointer = pointer;
        self
    }

    /// Sets the keyboard properties of the window.
    pub fn keyboard(&mut self, keyboard: WindowKeyboard) -> (ret: &mut Self)
        ensures
            ret@ == (WindowBuilderModel { keyboard, ..old(self)@ }),
            *final(self) == *final(ret),
    {
        self.keyboard = keyboard;
        self
    }

    /// Sets the frame properties of the window.
    pub fn frame(&mut self, frame: WindowFrame) -> (ret: &mut Self)
        ensures
            ret@ == (WindowBuilderModel { frame, ..old(self)@ }),
            *final(self) == *final(ret),
    {
        self.frame = frame;
        self
    }

    /// Sets the parent of the window.
    pub fn parent(&mut self, parent: Option<WindowHandle>) -> (ret: &mut Self)
        ensures
            ret@ == (WindowBuilderModel { parent, ..old(self)@ }),
            *final(self) == *final(ret),
    {
        self.parent = parent;
        self
    }

    /// Sets how the window follows its parent.
    pub fn subwindow(&mut self, sub: SubWindow) -> (ret: &mut Self)
        ensures
            ret@ == (WindowBuilderModel { sub, ..old(self)@ }),
            *final(self) == *final(ret),
    {
        self.sub = sub;
        self
    }

    /// Sets the fullscreen mode of the window; `None` for a window that is not fullscreen.
    pub fn fullscreen(&mut self, fsmode: Option<WindowFullScreenMode>) -> (ret: &mut Self)
        ensures
            ret@ == (WindowBuilderModel { fsmode, ..old(self)@ }),
            *final(self) == *final(ret),
    {
        self.fsmode = fsmode;
        self
    }

    /// The window is to be minimized.
    pub fn minimize(&mut self) -> (ret: &mut Self)
        ensures
            ret@ == (WindowBuilderModel { minimized: true, ..old(self)@ }),
            *final(self) == *final(ret),
    {
        self.minimized = true;
        self
    }

    /// The window is to be maximized.
    pub fn maximize(&mut self) -> (ret: &mut Self)
        ensures
            ret@ == (WindowBuilderModel { maximized: true, ..old(self)@ }),
            *final(self) == *final(ret),
    {
        self.maximized = true;
        self
    }

    /// The window is not to be visible once made. A window is visible unless this is asked.
    pub fn set_hidden(&mut self) -> (ret: &mut Self)
        ensures
            ret@ == (WindowBuilderModel { visible: false, ..old(self)@ }),
            *final(self) == *final(ret),
    {
        self.visible = false;
        self
    }

    /// Sets whether the window is shown in the taskbar.
    pub fn taskbar(&mut self, show: bool) -> (ret: &mut Self)
        ensures
            ret@ == (WindowBuilderModel { taskbar: show, ..old(self)@ }),
            *final(self) == *final(ret),
    {
        self.taskbar = show;
        self
    }

    /// Sets the icon of the window from its bytes; `None` for the icon the system gives.
    pub fn icon(&mut self, icon: Option<Vec<u8>>) -> (ret: &mut Self)
        ensures
            ret@ == (WindowBuilderModel { icon: bytes_of(icon), ..old(self)@ }),
            *final(self) == *final(ret),
    {
        self.icon = icon;
        self
    }

    /// Puts every property back to what it is for a new window.
    pub fn reset(&mut self) -> (ret: &mut Self)
        ensures
            ret@ == default_builder(),
            *final(self) == *final(ret),
    {
        self.icon = None;
        self.title = WB_DEFAULT_TITLE.to_owned();
        self.min_size = WindowSize { width: WB_DEFAULT_MIN_WIDTH, height: WB_DEFAULT_MIN_HEIGHT };
        self.max_size = WindowSize { width: WB_DEFAULT_MAX_EXTENT, height: WB_DEFAULT_MAX_EXTENT };
        self.size = WindowSize { width: WB_DEFAULT_WIDTH, height: WB_DEFAULT_HEIGHT };
        self.position = WB_DEFAULT_POSITION;
        self.parent = WB_DEFAULT_PARENT;
        self.sub = SubWindow::new();
        self.frame = WindowFrame::new();
        self.keyboard = WindowKeyboard::new();
        self.pointer = WindowPointer::new();
        self.fsmode = WB_DEFAULT_FSMODE;
        self.minimized = WB_DEFAULT_MINIMIZED;
        self.maximized = WB_DEFAULT_MAXIMIZED;
        self.visible = WB_DEFAULT_VISIBLE;
        self.taskbar = WB_DEFAULT_TASKBAR;
        self
    }

    /// Builds the window that the builder describes within the manager `wm`, and returns its
    /// handle: see [`WindowManager::build`].
    pub fn build(&mut self, wm: &mut WindowManager) -> (out: Result<WindowHandle, WindowError>)
        requires
            placeable(old(wm)@, old(self)@),
        ensures
            *final(self) == *old(self),
            match build_outcome(old(wm)@, old(self)@) {
                Ok(window) => out == Ok::<WindowHandle, WindowError>(window.handle) && final(wm)@
                    == (WindowManagerModel {
                    windows: with_child(old(wm)@.windows, old(self)@.parent, window.handle).push(
                        window,
                    ),
                    events: old(wm)@.events.push(created(window.handle)),
                    ..old(wm)@
                }),
                Err(e) => out == Err::<WindowHandle, WindowError>(e) && final(wm)@ == old(wm)@,
            },
    {
        wm.build(self)
    }

    /// Remakes the window `window` of the manager `wm` from the properties of the builder, and
    /// returns its handle: see [`WindowManager::rebuild`].
    pub fn rebuild(
        &mut self,
        wm: &mut WindowManager,
        window: WindowHandle,
    ) -> (out: Result<WindowHandle, WindowError>)
        requires
            replaceable(old(wm)@, window, old(self)@),
        ensures
            *final(self) == *old(self),
            match rebuild_outcome(old(wm)@, window, old(self)@) {
                Ok(remade) => out == Ok::<WindowHandle, WindowError>(remade.handle) && final(wm)@
                    == (WindowManagerModel {
                    windows: relinked(
                        old(wm)@.windows.update(window as int, remade),
                        window,
                        old(wm)@.windows[window as int].parent,
                        old(self)@.parent,
                    ),
                    ..old(wm)@
                }),
                Err(e) => out == Err::<WindowHandle, WindowError>(e) && final(wm)@ == old(wm)@,
            },
    {
        wm.rebuild(window, self)
    }
}

} // verus!
