//! Windows: their size, their position and how a relative position becomes an absolute one.

use std::rc::Rc;
use vstd::prelude::*;
use crate::builder::{bytes_of, WindowBuilder, WindowBuilderModel};
use crate::display::{
    lemma_first_primary, Desktop, DisplayHandle, DisplayResolution, Displays, DisplaysModel,
};
use crate::error::WindowError;
use crate::frame::WindowFrame;
use crate::keyboard::WindowKeyboard;
use crate::pointer::WindowPointer;
use crate::sub::SubWindow;
use crate::placement::{
    bounds_of, centered, desktop_center, display_center, on_display, position_resolvable,
    raw_position, resolution, resolved_position, within_desktop,
};

verus! {

/// Handle of a window within its manager.
pub type WindowHandle = usize;

/// Size of a window as width and height.
#[derive(Debug, PartialEq, Eq, Clone, Copy, Structural)]
pub struct WindowSize {
    pub width: u32,
    pub height: u32,
}

/// Position of a window along the x and y axes.
#[derive(Debug, PartialEq, Eq, Clone, Copy, Structural)]
pub struct WindowPosition {
    pub x: i32,
    pub y: i32,
}

/// The ways to say where a window should go.
#[derive(Debug, PartialEq, Eq, Clone, Copy, Structural)]
pub enum WindowRelativePosition {
    /// At an absolute position of the desktop.
    Desktop(WindowPosition),
    /// Centered on the desktop.
    DesktopCenter,
    /// At a position relative to the origin of a display.
    Display(DisplayHandle, WindowPosition),
    /// Centered on a display.
    DisplayCenter(DisplayHandle),
    /// At a position relative to the origin of the parent window.
    Parent(WindowPosition),
    /// Centered within the parent window.
    ParentCenter,
    /// At a position relative to the origin of the primary display.
    Primary(WindowPosition),
    /// Centered on the primary display.
    PrimaryCenter,
}

/// The ways a window can be made fullscreen.
#[derive(Debug, PartialEq, Eq, Clone, Copy, Structural)]
pub enum WindowFullScreenMode {
    /// Fullscreen on the display the window is currently on.
    Current,
    /// Fullscreen on the primary display.
    Primary,
    /// Fullscreen over the whole desktop, which can span several displays.
    Desktop,
    /// Fullscreen on the given display.
    Display(DisplayHandle),
}

impl WindowSize {
    /// A size from width and height.
    pub fn new(width: u32, height: u32) -> (out: WindowSize)
        ensures
            out == (WindowSize { width, height }),
    {
        WindowSize { width, height }
    }

    /// True if `self` is no larger than `other` in both dimensions.
    pub open spec fn fits_in(self, other: WindowSize) -> bool {
        self.width <= other.width && self.height <= other.height
    }

    /// True if `self` is no larger than `other` in both dimensions.
    pub fn is_within(&self, other: &WindowSize) -> (out: bool)
        ensures
            out == self.fits_in(*other),
    {
        self.width <= other.width && self.height <= other.height
    }
}

impl WindowPosition {
    /// A position from x and y.
    pub fn new(x: i32, y: i32) -> (out: WindowPosition)
        ensures
            out == (WindowPosition { x, y }),
    {
        WindowPosition { x, y }
    }
}

/// True if a window of `size` placed at `position` lies wholly within the current resolution of
/// `desktop`. Holds for every position and size: nothing overflows.
pub fn is_within_desktop(position: WindowPosition, size: WindowSize, desktop: &Desktop) -> (out:
    bool)
    ensures
        out == within_desktop(position.x as int, position.y as int, size, *desktop),
{
    exact_within(position.x as i128, position.y as i128, size, desktop)
}

/// True if a span of `length` that starts at `start` lies within a span of `room` that starts
/// at 0.
fn span_within(start: i128, length: u32, room: usize) -> (out: bool)
    ensures
        out == (0 <= start && start + length <= room),
{
    start >= 0 && start <= room as i128 && length as i128 <= room as i128 - start
}

/// True if a window of `size` placed at the exact coordinates `(x, y)` lies wholly within the
/// current resolution of `desktop`.
fn exact_within(x: i128, y: i128, size: WindowSize, desktop: &Desktop) -> (out: bool)
    ensures
        out == within_desktop(x as int, y as int, size, *desktop),
{
    span_within(x, size.width, desktop.current.width) && span_within(
        y,
        size.height,
        desktop.current.height,
    )
}

/// True if an exact computation gave what the model says: the same coordinates or the same error.
spec fn same_outcome(
    out: Result<(i128, i128), WindowError>,
    model: Result<(int, int), WindowError>,
) -> bool {
    match (out, model) {
        (Ok(v), Ok(q)) => v.0 == q.0 && v.1 == q.1,
        (Err(a), Err(b)) => a == b,
        _ => false,
    }
}

/// Offset that centers a span of `inner` within a span of `outer`.
fn center_offset(outer: usize, inner: u32) -> (out: i128)
    ensures
        out == centered(outer as int, inner as int),
{
    let outer_wide: u128 = outer as u128;
    let inner_wide: u128 = inner as u128;
    if outer_wide >= inner_wide {
        ((outer_wide - inner_wide) / 2) as i128
    } else {
        -(((inner_wide - outer_wide) / 2) as i128)
    }
}

/// Exact coordinates that center a window of `size` on the desktop.
fn exact_desktop_center(size: WindowSize, displays: &Displays) -> (out: (i128, i128))
    ensures
        (out.0 as int, out.1 as int) == desktop_center(size, displays@),
{
    match &displays.desktop {
        Some(desktop) => (
            center_offset(desktop.current.width, size.width),
            center_offset(desktop.current.height, size.height),
        ),
        None => (0, 0),
    }
}

/// Exact coordinates of `p` taken relative to the display `handle`.
fn exact_on_display(displays: &Displays, handle: DisplayHandle, p: WindowPosition) -> (out: Result<
    (i128, i128),
    WindowError,
>)
    ensures
        same_outcome(out, on_display(displays@, handle, p)),
{
    if handle < displays.list.len() {
        let display = &displays.list[handle];
        Ok((p.x as i128 + display.position.x as i128, p.y as i128 + display.position.y as i128))
    } else {
        Err(WindowError::DisplayInvalidHandle)
    }
}

/// Exact coordinates that center a window of `size` on the display `handle`.
fn exact_display_center(size: WindowSize, displays: &Displays, handle: DisplayHandle) -> (out:
    Result<(i128, i128), WindowError>)
    ensures
        same_outcome(out, display_center(size, displays@, handle)),
{
    if handle < displays.list.len() {
        let display = &displays.list[handle];
        let x = center_offset(display.resolution.width, size.width);
        let y = center_offset(display.resolution.height, size.height);
        Ok((x + display.position.x as i128, y + display.position.y as i128))
    } else {
        Err(WindowError::DisplayInvalidHandle)
    }
}

/// The desktop against which bounds are checked: an empty one when the topology has none.
fn bounds(displays: &Displays) -> (out: Desktop)
    ensures
        out == bounds_of(displays@.desktop),
{
    match &displays.desktop {
        Some(desktop) => *desktop,
        None => Desktop {
            min: DisplayResolution { width: 0, height: 0 },
            max: DisplayResolution { width: 0, height: 0 },
            current: DisplayResolution { width: 0, height: 0 },
        },
    }
}

/// Exact coordinates of the raw position of a request.
fn exact_raw_position(
    size: WindowSize,
    displays: &Displays,
    request: WindowRelativePosition,
    parent: Option<(WindowPosition, WindowSize)>,
) -> (out: Result<(i128, i128), WindowError>)
    ensures
        same_outcome(out, raw_position(size, displays@, request, parent)),
{
    proof {
        lemma_first_primary(displays@.list);
    }
    match request {
        WindowRelativePosition::Desktop(p) => Ok((p.x as i128, p.y as i128)),
        WindowRelativePosition::DesktopCenter => Ok(exact_desktop_center(size, displays)),
        WindowRelativePosition::Display(handle, p) => exact_on_display(displays, handle, p),
        WindowRelativePosition::DisplayCenter(handle) => exact_display_center(
            size,
            displays,
            handle,
        ),
        WindowRelativePosition::Parent(p) => match parent {
            Some(rect) => Ok((p.x as i128 + rect.0.x as i128, p.y as i128 + rect.0.y as i128)),
            None => Ok((p.x as i128, p.y as i128)),
        },
        WindowRelativePosition::ParentCenter => match parent {
            Some(rect) => {
                let x = center_offset(rect.1.width as usize, size.width);
                let y = center_offset(rect.1.height as usize, size.height);
                Ok((x + rect.0.x as i128, y + rect.0.y as i128))
            },
            None => Ok(exact_desktop_center(size, displays)),
        },
        WindowRelativePosition::PrimaryCenter => match displays.primary() {
            Some(display) => exact_display_center(size, displays, display.handle),
            None => Ok(exact_desktop_center(size, displays)),
        },
        WindowRelativePosition::Primary(p) => match displays.primary() {
            Some(display) => exact_on_display(displays, display.handle, p),
            None => Ok((p.x as i128, p.y as i128)),
        },
    }
}

/// A window: its properties, and the topology it is placed on.
///
/// The window keeps what it was told; showing, moving and drawing it on the screen is left to
/// whoever owns the native window. Each method that changes a property says in its result
/// whether anything changed, which is when the native window has to follow.
///
/// Only the manager of a window gives it a parent or remakes it from a builder, because only
/// the manager knows the other windows: see [`crate::manager::WindowManager::set_parent`] and
/// [`crate::manager::WindowManager::rebuild`].
#[derive(Debug)]
pub struct Window {
    displays: Rc<Displays>,
    handle: WindowHandle,
    parent: Option<WindowHandle>,
    childs: Vec<WindowHandle>,
    sub: Option<SubWindow>,
    frame: WindowFrame,
    keyboard: WindowKeyboard,
    pointer: WindowPointer,
    icon: Option<Vec<u8>>,
    title: String,
    size: WindowSize,
    min_size: WindowSize,
    max_size: WindowSize,
    desktop_position: WindowPosition,
    fullscreen: Option<WindowFullScreenMode>,
    minimized: bool,
    maximized: bool,
    visible: bool,
    taskbar: bool,
    closed: bool,
}

/// Mathematical model of a [`Window`].
pub struct WindowModel {
    /// The topology the window is placed on.
    pub displays: DisplaysModel,
    /// Handle of the window.
    pub handle: WindowHandle,
    /// Handle of the parent of the window.
    pub parent: Option<WindowHandle>,
    /// Handles of the children of the window.
    pub childs: Seq<WindowHandle>,
    /// How the window follows its parent, if it has one.
    pub sub: Option<SubWindow>,
    pub frame: WindowFrame,
    pub keyboard: WindowKeyboard,
    pub pointer: WindowPointer,
    /// Bytes of the icon of the window, if it has one of its own.
    pub icon: Option<Seq<u8>>,
    pub title: Seq<char>,
    pub size: WindowSize,
    pub min_size: WindowSize,
    pub max_size: WindowSize,
    /// Position of the window on the desktop.
    pub desktop_position: WindowPosition,
    /// Fullscreen mode of the window, when it is fullscreen.
    pub fullscreen: Option<WindowFullScreenMode>,
    pub minimized: bool,
    pub maximized: bool,
    pub visible: bool,
    pub taskbar: bool,
    /// True once the window was closed.
    pub closed: bool,
}

impl View for Window {
    type V = WindowModel;

    closed spec fn view(&self) -> WindowModel {
        WindowModel {
            displays: self.displays@,
            handle: self.handle,
            parent: self.parent,
            childs: self.childs@,
            sub: self.sub,
            frame: self.frame,
            keyboard: self.keyboard,
            pointer: self.pointer,
            icon: bytes_of(self.icon),
            title: self.title@,
            size: self.size,
            min_size: self.min_size,
            max_size: self.max_size,
            desktop_position: self.desktop_position,
            fullscreen: self.fullscreen,
            minimized: self.minimized,
            maximized: self.maximized,
            visible: self.visible,
            taskbar: self.taskbar,
            closed: self.closed,
        }
    }
}

/// What is wrong with the sizes of a window, if anything: the minimum has to be within the
/// maximum, and the size between the two, each in both dimensions.
pub open spec fn size_fault(min: WindowSize, size: WindowSize, max: WindowSize) -> Option<
    WindowError,
> {
    if !min.fits_in(max) {
        Some(WindowError::WindowMinSizeBiggerThanMax)
    } else if !(min.fits_in(size) && size.fits_in(max)) {
        Some(WindowError::WindowSizeOOB)
    } else {
        None
    }
}

/// The window that a builder describes, on the topology `displays`, under the handle `handle`
/// and at the position `position`. It has no child yet and is not closed.
pub open spec fn window_of(
    builder: WindowBuilderModel,
    displays: DisplaysModel,
    handle: WindowHandle,
    position: WindowPosition,
) -> WindowModel {
    WindowModel {
        displays,
        handle,
        parent: builder.parent,
        childs: Seq::empty(),
        sub: if builder.parent is Some {
            Some(builder.sub)
        } else {
            None
        },
        frame: builder.frame,
        keyboard: builder.keyboard,
        pointer: builder.pointer,
        icon: builder.icon,
        title: builder.title,
        size: builder.size,
        min_size: builder.min_size,
        max_size: builder.max_size,
        desktop_position: position,
        fullscreen: builder.fsmode,
        minimized: builder.minimized,
        maximized: builder.maximized,
        visible: builder.visible,
        taskbar: builder.taskbar,
        closed: false,
    }
}

/// The rectangle of the parent that counts when a window is placed: the one given, as long as
/// the window is to have a parent.
pub open spec fn parent_in_use(
    parent: Option<WindowHandle>,
    rect: Option<(WindowPosition, WindowSize)>,
) -> Option<(WindowPosition, WindowSize)> {
    if parent is Some {
        rect
    } else {
        None
    }
}

/// A window remade from a builder at the position `position`: it has the properties of the
/// builder, and keeps its handle, its topology, its children and whether it is closed.
pub open spec fn remade_at(
    window: WindowModel,
    builder: WindowBuilderModel,
    position: WindowPosition,
) -> WindowModel {
    WindowModel {
        childs: window.childs,
        closed: window.closed,
        ..window_of(builder, window.displays, window.handle, position)
    }
}

/// A copy of an optional buffer of bytes.
pub fn copy_bytes(buffer: &Option<Vec<u8>>) -> (out: Option<Vec<u8>>)
    ensures
        bytes_of(out) == bytes_of(*buffer),
{
    match buffer {
        Some(bytes) => {
            let mut copy: Vec<u8> = Vec::new();
            let mut i: usize = 0;
            while i < bytes.len()
                invariant
                    i <= bytes@.len(),
                    copy@ == bytes@.take(i as int),
                decreases bytes@.len() - i,
            {
                copy.push(bytes[i]);
                i += 1;
            }
            Some(copy)
        },
        None => None,
    }
}

/// `handles` without any occurrence of `handle`.
pub open spec fn without_handle(handles: Seq<WindowHandle>, handle: WindowHandle) -> Seq<
    WindowHandle,
>
    decreases handles.len(),
{
    if handles.len() == 0 {
        handles
    } else if handles.last() == handle {
        without_handle(handles.drop_last(), handle)
    } else {
        without_handle(handles.drop_last(), handle).push(handles.last())
    }
}

/// A copy of a list of window handles, without any occurrence of `handle`.
pub fn remove_handle(handles: &Vec<WindowHandle>, handle: WindowHandle) -> (out: Vec<WindowHandle>)
    ensures
        out@ == without_handle(handles@, handle),
{
    let mut out: Vec<WindowHandle> = Vec::new();
    let mut i: usize = 0;
    while i < handles.len()
        invariant
            i <= handles@.len(),
            out@ == without_handle(handles@.take(i as int), handle),
        decreases handles@.len() - i,
    {
        assert(handles@.take(i + 1).drop_last() =~= handles@.take(i as int));
        if handles[i] != handle {
            out.push(handles[i]);
        }
        i += 1;
    }
    assert(handles@.take(handles@.len() as int) =~= handles@);
    out
}

/// A copy of a list of window handles.
pub fn copy_handles(handles: &Vec<WindowHandle>) -> (out: Vec<WindowHandle>)
    ensures
        out@ == handles@,
{
    let mut copy: Vec<WindowHandle> = Vec::new();
    let mut i: usize = 0;
    while i < handles.len()
        invariant
            i <= handles@.len(),
            copy@ == handles@.take(i as int),
        decreases handles@.len() - i,
    {
        copy.push(handles[i]);
        i += 1;
    }
    copy
}

/// Checks the sizes of a window against each other.
pub fn check_sizes(min: WindowSize, size: WindowSize, max: WindowSize) -> (out: Result<
    (),
    WindowError,
>)
    ensures
        match size_fault(min, size, max) {
            Some(e) => out == Err::<(), WindowError>(e),
            None => out is Ok,
        },
{
    if !min.is_within(&max) {
        Err(WindowError::WindowMinSizeBiggerThanMax)
    } else if !(min.is_within(&size) && size.is_within(&max)) {
        Err(WindowError::WindowSizeOOB)
    } else {
        Ok(())
    }
}

impl Window {
    /// Makes the window that `builder` describes, under the handle `handle` and at `position`.
    pub(crate) fn create(
        builder: &WindowBuilder,
        displays: Rc<Displays>,
        handle: WindowHandle,
        position: WindowPosition,
    ) -> (out: Window)
        ensures
            out@ == window_of(builder@, displays@, handle, position),
    {
        Window {
            displays,
            handle,
            parent: builder.parent,
            childs: Vec::new(),
            sub: if builder.parent.is_some() {
                Some(builder.sub)
            } else {
                None
            },
            frame: builder.frame,
            keyboard: builder.keyboard,
            pointer: builder.pointer,
            icon: copy_bytes(&builder.icon),
            title: builder.title.clone(),
            size: builder.size,
            min_size: builder.min_size,
            max_size: builder.max_size,
            desktop_position: position,
            fullscreen: builder.fsmode,
            minimized: builder.minimized,
            maximized: builder.maximized,
            visible: builder.visible,
            taskbar: builder.taskbar,
            closed: false,
        }
    }

    /// Remakes the window from the properties of `builder`, at the position `position`, and
    /// returns its handle. Its handle, topology, children and closed state stay. The manager
    /// checks sizes, parent and position before.
    pub(crate) fn rebuild(&mut self, builder: &WindowBuilder, position: WindowPosition) -> (out:
        WindowHandle)
        ensures
            final(self)@ == remade_at(old(self)@, builder@, position),
            out == old(self)@.handle,
    {
        let remade = Window {
            displays: self.displays.clone(),
            handle: self.handle,
            parent: builder.parent,
            childs: copy_handles(&self.childs),
            sub: if builder.parent.is_some() {
                Some(builder.sub)
            } else {
                None
            },
            frame: builder.frame,
            keyboard: builder.keyboard,
            pointer: builder.pointer,
            icon: copy_bytes(&builder.icon),
            title: builder.title.clone(),
            size: builder.size,
            min_size: builder.min_size,
            max_size: builder.max_size,
            desktop_position: position,
            fullscreen: builder.fsmode,
            minimized: builder.minimized,
            maximized: builder.maximized,
            visible: builder.visible,
            taskbar: builder.taskbar,
            closed: self.closed,
        };
        *self = remade;
        self.handle
    }

    /// The handle of the window.
    pub fn handle(&self) -> (out: WindowHandle)
        ensures
            out == self@.handle,
    {
        self.handle
    }

    /// The topology the window is placed on.
    pub fn displays(&self) -> (out: &Displays)
        ensures
            out@ == self@.displays,
    {
        &self.displays
    }

    /// The topology the window is placed on, shared with the window.
    pub(crate) fn shared_displays(&self) -> (out: Rc<Displays>)
        ensures
            out@ == self@.displays,
    {
        self.displays.clone()
    }

    /// The handles of the children of the window.
    pub fn childs(&self) -> (out: &Vec<WindowHandle>)
        ensures
            out@ == self@.childs,
    {
        &self.childs
    }

    /// Records `child` as a child of the window.
    pub(crate) fn adopt(&mut self, child: WindowHandle)
        ensures
            final(self)@ == (WindowModel { childs: old(self)@.childs.push(child), ..old(self)@ }),
    {
        self.childs.push(child);
    }

    /// Takes `child` off the children of the window.
    pub(crate) fn disown(&mut self, child: WindowHandle)
        ensures
            final(self)@ == (WindowModel {
                childs: without_handle(old(self)@.childs, child),
                ..old(self)@
            }),
    {
        self.childs = remove_handle(&self.childs, child);
    }

    /// The handle of the parent of the window, if it has one.
    pub fn parent(&self) -> (out: Option<WindowHandle>)
        ensures
            out == self@.parent,
    {
        self.parent
    }

    /// Gives the window the parent `parent`, or none. Returns true if that is a change. The
    /// manager checks before that the parent is an open window other than this one, of which
    /// this one is no ancestor: see [`crate::manager::WindowManager::set_parent`].
    pub(crate) fn set_parent(&mut self, parent: Option<WindowHandle>) -> (changed: bool)
        ensures
            final(self)@ == (WindowModel { parent, ..old(self)@ }),
            changed == (old(self)@.parent != parent),
    {
        let changed = match (self.parent, parent) {
            (Some(before), Some(after)) => before != after,
            (None, None) => false,
            _ => true,
        };
        self.parent = parent;
        changed
    }

    /// The title of the window.
    pub fn title(&self) -> (out: &str)
        ensures
            out@ == self@.title,
    {
        self.title.as_str()
    }

    /// Sets the title of the window. Returns `Ok(true)` if the title changed.
    pub fn set_title(&mut self, title: &str) -> (out: Result<bool, WindowError>)
        ensures
            final(self)@ == (WindowModel { title: title@, ..old(self)@ }),
            out == Ok::<bool, WindowError>(old(self)@.title != title@),
    {
        let new_title = title.to_owned();
        let changed = !(self.title == new_title);
        self.title = new_title;
        Ok(changed)
    }

    /// The size of the window.
    pub fn size(&self) -> (out: WindowSize)
        ensures
            out == self@.size,
    {
        self.size
    }

    /// Sets the size of the window. Returns `Ok(true)` if the size changed.
    ///
    /// Fails with [`WindowError::WindowSizeOOB`], and changes nothing, when `size` is not
    /// between the minimum and the maximum size in both dimensions.
    pub fn set_size(&mut self, size: WindowSize) -> (out: Result<bool, WindowError>)
        ensures
            if old(self)@.min_size.fits_in(size) && size.fits_in(old(self)@.max_size) {
                out == Ok::<bool, WindowError>(old(self)@.size != size) && final(self)@ == (
                WindowModel { size, ..old(self)@ })
            } else {
                out == Err::<bool, WindowError>(WindowError::WindowSizeOOB)
                    && final(self)@ == old(self)@
            },
    {
        if self.min_size.is_within(&size) && size.is_within(&self.max_size) {
            let changed = self.size != size;
            self.size = size;
            Ok(changed)
        } else {
            Err(WindowError::WindowSizeOOB)
        }
    }

    /// The smallest size the user can give the window.
    pub fn size_min(&self) -> (out: WindowSize)
        ensures
            out == self@.min_size,
    {
        self.min_size
    }

    /// Sets the smallest size the user can give the window. Returns `Ok(true)` if it changed.
    ///
    /// Fails with [`WindowError::WindowMinSizeBiggerThanMax`], and changes nothing, when `size`
    /// is not within the maximum size in both dimensions.
    pub fn set_size_min(&mut self, size: WindowSize) -> (out: Result<bool, WindowError>)
        ensures
            if size.fits_in(old(self)@.max_size) {
                out == Ok::<bool, WindowError>(old(self)@.min_size != size) && final(self)@ == (
                WindowModel { min_size: size, ..old(self)@ })
            } else {
                out == Err::<bool, WindowError>(WindowError::WindowMinSizeBiggerThanMax)
                    && final(self)@ == old(self)@
            },
    {
        if size.is_within(&self.max_size) {
            let changed = self.min_size != size;
            self.min_size = size;
            Ok(changed)
        } else {
            Err(WindowError::WindowMinSizeBiggerThanMax)
        }
    }

    /// The largest size the user can give the window.
    pub fn size_max(&self) -> (out: WindowSize)
        ensures
            out == self@.max_size,
    {
        self.max_size
    }

    /// Sets the largest size the user can give the window. Returns `Ok(true)` if it changed.
    ///
    /// Fails with [`WindowError::WindowMinSizeBiggerThanMax`], and changes nothing, when the
    /// minimum size is not within `size` in both dimensions.
    pub fn set_size_max(&mut self, size: WindowSize) -> (out: Result<bool, WindowError>)
        ensures
            if old(self)@.min_size.fits_in(size) {
                out == Ok::<bool, WindowError>(old(self)@.max_size != size) && final(self)@ == (
                WindowModel { max_size: size, ..old(self)@ })
            } else {
                out == Err::<bool, WindowError>(WindowError::WindowMinSizeBiggerThanMax)
                    && final(self)@ == old(self)@
            },
    {
        if self.min_size.is_within(&size) {
            let changed = self.max_size != size;
            self.max_size = size;
            Ok(changed)
        } else {
            Err(WindowError::WindowMinSizeBiggerThanMax)
        }
    }

    /// The bytes of the icon of the window, if it has one of its own.
    pub fn icon(&self) -> (out: &Option<Vec<u8>>)
        ensures
            bytes_of(*out) == self@.icon,
    {
        &self.icon
    }

    /// Sets the icon of the window from its bytes; `None` for the icon the system gives.
    pub fn set_icon(&mut self, icon: Option<Vec<u8>>)
        ensures
            final(self)@ == (WindowModel { icon: bytes_of(icon), ..old(self)@ }),
    {
        self.icon = icon;
    }

    /// True if the window is shown in the taskbar.
    pub fn taskbar(&self) -> (out: bool)
        ensures
            out == self@.taskbar,
    {
        self.taskbar
    }

    /// Sets whether the window is shown in the taskbar. Returns true if that is a change.
    pub fn set_taskbar(&mut self, show: bool) -> (changed: bool)
        ensures
            final(self)@ == (WindowModel { taskbar: show, ..old(self)@ }),
            changed == (old(self)@.taskbar != show),
    {
        let changed = self.taskbar != show;
        self.taskbar = show;
        changed
    }

    /// True if the window is visible.
    pub fn visible(&self) -> (out: bool)
        ensures
            out == self@.visible,
    {
        self.visible
    }

    /// Takes the window out of minimized, maximized and fullscreen. Returns true if it was in
    /// any of them.
    pub fn restore(&mut self) -> (changed: bool)
        ensures
            final(self)@ == (WindowModel {
                fullscreen: None,
                minimized: false,
                maximized: false,
                ..old(self)@
            }),
            changed == (old(self)@.fullscreen is Some || old(self)@.minimized
                || old(self)@.maximized),
    {
        let changed = self.fullscreen.is_some() || self.minimized || self.maximized;
        self.fullscreen = None;
        self.minimized = false;
        self.maximized = false;
        changed
    }

    /// Shows the window. Returns true if that is a change.
    pub fn show(&mut self) -> (changed: bool)
        ensures
            final(self)@ == (WindowModel { visible: true, ..old(self)@ }),
            changed == !old(self)@.visible,
    {
        let changed = !self.visible;
        self.visible = true;
        changed
    }

    /// Hides the window. Returns true if that is a change.
    pub fn set_hidden(&mut self) -> (changed: bool)
        ensures
            final(self)@ == (WindowModel { visible: false, ..old(self)@ }),
            changed == old(self)@.visible,
    {
        let changed = self.visible;
        self.visible = false;
        changed
    }

    /// True once the window was closed.
    pub fn closed(&self) -> (out: bool)
        ensures
            out == self@.closed,
    {
        self.closed
    }

    /// Closes the window: it is no longer visible, and its handle no longer names a window.
    /// Returns true if the window was not closed before.
    pub fn close(&mut self) -> (changed: bool)
        ensures
            final(self)@ == (WindowModel { visible: false, closed: true, ..old(self)@ }),
            changed == !old(self)@.closed,
    {
        let changed = !self.closed;
        self.visible = false;
        self.closed = true;
        changed
    }

    /// The position of the window on the desktop.
    pub fn position(&self) -> (out: WindowPosition)
        ensures
            out == self@.desktop_position,
    {
        self.desktop_position
    }

    /// Moves the window to the desktop position that `position` resolves to, with or without
    /// the bounds check. `rect` is the position and size of the parent of the window.
    fn set_window_position(
        &mut self,
        position: WindowRelativePosition,
        rect: Option<(WindowPosition, WindowSize)>,
        check_oob: bool,
    ) -> (out: Result<WindowPosition, WindowError>)
        requires
            position_resolvable(
                old(self)@.size,
                old(self)@.displays,
                position,
                parent_in_use(old(self)@.parent, rect),
                check_oob,
            ),
        ensures
            out == resolution(
                old(self)@.size,
                old(self)@.displays,
                position,
                parent_in_use(old(self)@.parent, rect),
                check_oob,
            ),
            match out {
                Ok(p) => final(self)@ == (WindowModel { desktop_position: p, ..old(self)@ }),
                Err(_) => final(self)@ == old(self)@,
            },
    {
        let rect = self.rect_in_use(rect);
        match Window::get_window_desktop_position(
            self.size,
            self.displays.clone(),
            position,
            rect,
            check_oob,
        ) {
            Ok(resolved) => {
                self.move_to(resolved);
                Ok(resolved)
            },
            Err(e) => Err(e),
        }
    }

    /// The rectangle of the parent that counts when the window is placed.
    fn rect_in_use(
        &self,
        rect: Option<(WindowPosition, WindowSize)>,
    ) -> (out: Option<(WindowPosition, WindowSize)>)
        ensures
            out == parent_in_use(self@.parent, rect),
    {
        if self.parent.is_some() {
            rect
        } else {
            None
        }
    }

    /// Records `position` as the position of the window on the desktop.
    fn move_to(&mut self, position: WindowPosition)
        ensures
            final(self)@ == (WindowModel { desktop_position: position, ..old(self)@ }),
    {
        self.desktop_position = position;
    }

    /// Moves the window to the desktop position that `position` resolves to, which must lie
    /// within the desktop. `rect` is the position and size of the parent of the window; it
    /// counts only if the window has a parent.
    ///
    /// Returns the new position, which the native window is to take. Fails with
    /// [`WindowError::WindowRelativePositionOOB`] when the window would not lie wholly within
    /// the desktop and with [`WindowError::DisplayInvalidHandle`] when `position` names a
    /// display the topology does not have; the window then stays where it was.
    pub fn set_position(
        &mut self,
        position: WindowRelativePosition,
        rect: Option<(WindowPosition, WindowSize)>,
    ) -> (out: Result<WindowPosition, WindowError>)
        requires
            position_resolvable(
                old(self)@.size,
                old(self)@.displays,
                position,
                parent_in_use(old(self)@.parent, rect),
                true,
            ),
        ensures
            out == resolution(
                old(self)@.size,
                old(self)@.displays,
                position,
                parent_in_use(old(self)@.parent, rect),
                true,
            ),
            match out {
                Ok(p) => final(self)@ == (WindowModel { desktop_position: p, ..old(self)@ }),
                Err(_) => final(self)@ == old(self)@,
            },
    {
        self.set_window_position(position, rect, true)
    }

    /// Moves the window to the desktop position that `position` resolves to, wherever that is.
    /// `rect` is the position and size of the parent of the window; it counts only if the
    /// window has a parent.
    ///
    /// Returns the new position, which the native window is to take. Fails with
    /// [`WindowError::DisplayInvalidHandle`] when `position` names a display the topology does
    /// not have; the window then stays where it was.
    pub fn set_position_unchecked(
        &mut self,
        position: WindowRelativePosition,
        rect: Option<(WindowPosition, WindowSize)>,
    ) -> (out: Result<WindowPosition, WindowError>)
        requires
            position_resolvable(
                old(self)@.size,
                old(self)@.displays,
                position,
                parent_in_use(old(self)@.parent, rect),
                false,
            ),
        ensures
            out == resolution(
                old(self)@.size,
                old(self)@.displays,
                position,
                parent_in_use(old(self)@.parent, rect),
                false,
            ),
            match out {
                Ok(p) => final(self)@ == (WindowModel { desktop_position: p, ..old(self)@ }),
                Err(_) => final(self)@ == old(self)@,
            },
    {
        self.set_window_position(position, rect, false)
    }

    /// The frame properties of the window.
    pub fn frame(&self) -> (out: &WindowFrame)
        ensures
            *out == self@.frame,
    {
        &self.frame
    }

    /// The frame properties of the window, to change them.
    pub fn frame_mut(&mut self) -> (ret: &mut WindowFrame)
        ensures
            *ret == old(self)@.frame,
            final(self)@ == (WindowModel { frame: *final(ret), ..old(self)@ }),
    {
        &mut self.frame
    }

    /// The keyboard properties of the window.
    pub fn keyboard(&self) -> (out: &WindowKeyboard)
        ensures
            *out == self@.keyboard,
    {
        &self.keyboard
    }

    /// The keyboard properties of the window, to change them.
    pub fn keyboard_mut(&mut self) -> (ret: &mut WindowKeyboard)
        ensures
            *ret == old(self)@.keyboard,
            final(self)@ == (WindowModel { keyboard: *final(ret), ..old(self)@ }),
    {
        &mut self.keyboard
    }

    /// The pointer properties of the window.
    pub fn pointer(&self) -> (out: &WindowPointer)
        ensures
            *out == self@.pointer,
    {
        &self.pointer
    }

    /// The pointer properties of the window, to change them.
    pub fn pointer_mut(&mut self) -> (ret: &mut WindowPointer)
        ensures
            *ret == old(self)@.pointer,
            final(self)@ == (WindowModel { pointer: *final(ret), ..old(self)@ }),
    {
        &mut self.pointer
    }

    /// True if the window is fullscreen.
    pub fn fullscreen(&self) -> (out: bool)
        ensures
            out == self@.fullscreen is Some,
    {
        self.fullscreen.is_some()
    }

    /// Makes the window fullscreen in the mode `fsmode`, unless it is fullscreen already.
    /// Returns true if that is a change. [`Window::restore`] ends fullscreen.
    pub fn set_fullscreen(&mut self, fsmode: WindowFullScreenMode) -> (changed: bool)
        ensures
            changed == old(self)@.fullscreen is None,
            final(self)@ == (WindowModel {
                fullscreen: if changed {
                    Some(fsmode)
                } else {
                    old(self)@.fullscreen
                },
                ..old(self)@
            }),
    {
        if self.fullscreen.is_none() {
            self.fullscreen = Some(fsmode);
            true
        } else {
            false
        }
    }

    /// True if the window is minimized.
    pub fn minimized(&self) -> (out: bool)
        ensures
            out == self@.minimized,
    {
        self.minimized
    }

    /// Minimizes the window. Returns true if that is a change.
    pub fn minimize(&mut self) -> (changed: bool)
        ensures
            final(self)@ == (WindowModel { minimized: true, ..old(self)@ }),
            changed == !old(self)@.minimized,
    {
        let changed = !self.minimized;
        self.minimized = true;
        changed
    }

    /// True if the window is maximized.
    pub fn maximized(&self) -> (out: bool)
        ensures
            out == self@.maximized,
    {
        self.maximized
    }

    /// Maximizes the window. Returns true if that is a change.
    pub fn maximize(&mut self) -> (changed: bool)
        ensures
            final(self)@ == (WindowModel { maximized: true, ..old(self)@ }),
            changed == !old(self)@.maximized,
    {
        let changed = !self.maximized;
        self.maximized = true;
        changed
    }

    /// True if a request can be resolved: if its raw position fits the coordinates of a
    /// [`WindowPosition`], or if `check_oob` is set and the window would not lie within the
    /// desktop, so that the request is rejected whatever its raw position.
    ///
    /// [`Window::get_window_desktop_position`] asks this of its arguments.
    pub fn position_is_resolvable(
        size: WindowSize,
        displays: &Displays,
        request: WindowRelativePosition,
        parent: Option<(WindowPosition, WindowSize)>,
        check_oob: bool,
    ) -> (out: bool)
        ensures
            out == position_resolvable(size, displays@, request, parent, check_oob),
    {
        match exact_raw_position(size, displays, request, parent) {
            Ok(p) => {
                let fits = -2147483648 <= p.0 && p.0 <= 2147483647 && -2147483648 <= p.1 && p.1
                    <= 2147483647;
                fits || (check_oob && !exact_within(p.0, p.1, size, &bounds(displays)))
            },
            Err(_) => true,
        }
    }

    /// Resolves a relative position request into an absolute position on the desktop.
    ///
    /// `parent` is the absolute position and the size of the parent window, if there is one.
    /// With `check_oob` the position is rejected with
    /// [`WindowError::WindowRelativePositionOOB`] when the window would not lie wholly within
    /// the desktop; without it the raw position is returned as it is. A request that names a
    /// display the topology does not have fails with [`WindowError::DisplayInvalidHandle`]
    /// either way.
    ///
    /// The result depends on the arguments alone: the same arguments give the same result.
    pub fn get_window_desktop_position(
        size: WindowSize,
        displays: Rc<Displays>,
        position: WindowRelativePosition,
        pps: Option<(WindowPosition, WindowSize)>,
        check_oob: bool,
    ) -> (out: Result<WindowPosition, WindowError>)
        requires
            position_resolvable(size, displays@, position, pps, check_oob),
        ensures
            out == resolution(size, displays@, position, pps, check_oob),
            out matches Ok(p) ==> resolved_position(size, displays@, position, pps, check_oob)
                == Ok::<(int, int), WindowError>((p.x as int, p.y as int)),
    {
        match exact_raw_position(size, &displays, position, pps) {
            Ok(p) => {
                if check_oob && !exact_within(p.0, p.1, size, &bounds(&displays)) {
                    Err(WindowError::WindowRelativePositionOOB)
                } else {
                    Ok(WindowPosition { x: p.0 as i32, y: p.1 as i32 })
                }
            },
            Err(e) => Err(e),
        }
    }
}

} // verus!
