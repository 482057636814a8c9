//! The window manager: the windows that were built, the topology they are placed on and the
//! events that wait to be handed out.

use std::rc::Rc;
use vstd::prelude::*;
use crate::builder::{WindowBuilder, WindowBuilderModel};
use crate::display::{Displays, DisplaysModel};
use crate::error::WindowError;
use crate::event::{WindowEvent, WindowManagerEvent};
use crate::placement::{position_resolvable, resolution};
use crate::topology::{build_topology, topology_of};
use crate::window::{
    check_sizes, remade_at, size_fault, window_of, without_handle, Window, WindowHandle,
    WindowModel, WindowPosition, WindowSize,
};

verus! {

/// Builds windows and keeps them, together with the topology they are placed on and the events
/// about them. The handle of a window is its index among the windows of its manager.
pub struct WindowManager {
    displays: Rc<Displays>,
    windows: Vec<Window>,
    queue: Vec<WindowManagerEvent>,
}

/// Mathematical model of a [`WindowManager`].
pub struct WindowManagerModel {
    /// The topology the windows are placed on.
    pub displays: DisplaysModel,
    /// The windows that were built, each at the index that is its handle.
    pub windows: Seq<WindowModel>,
    /// The events that wait to be handed out, oldest first.
    pub events: Seq<WindowManagerEvent>,
}

impl View for WindowManager {
    type V = WindowManagerModel;

    closed spec fn view(&self) -> WindowManagerModel {
        WindowManagerModel {
            displays: self.displays@,
            windows: Seq::new(self.windows@.len(), |i: int| self.windows@[i]@),
            events: self.queue@,
        }
    }
}

/// True if `handle` names a window that was built and not closed since.
pub open spec fn is_open(windows: Seq<WindowModel>, handle: WindowHandle) -> bool {
    handle < windows.len() && !windows[handle as int].closed
}

/// Position and size of the parent named by `parent`, if it names a window that is open.
pub open spec fn rect_in(windows: Seq<WindowModel>, parent: Option<WindowHandle>) -> Option<
    (WindowPosition, WindowSize),
> {
    match parent {
        Some(handle) => if is_open(windows, handle) {
            Some((windows[handle as int].desktop_position, windows[handle as int].size))
        } else {
            None
        },
        None => None,
    }
}

/// The windows once `child` was recorded as a child of the window named by `parent`.
pub open spec fn with_child(
    windows: Seq<WindowModel>,
    parent: Option<WindowHandle>,
    child: WindowHandle,
) -> Seq<WindowModel> {
    match parent {
        Some(handle) => if handle < windows.len() {
            windows.update(
                handle as int,
                WindowModel {
                    childs: windows[handle as int].childs.push(child),
                    ..windows[handle as int]
                },
            )
        } else {
            windows
        },
        None => windows,
    }
}

/// The window that building from `builder` gives, or the reason why none can be built.
///
/// The sizes are checked first: the minimum has to be within the maximum, and the size between
/// the two. Then the parent, which has to be an open window. Then the position, which is
/// resolved against the topology and the parent, and has to lie within the desktop. The handle
/// of the window is the number of windows built before it.
pub open spec fn build_outcome(manager: WindowManagerModel, builder: WindowBuilderModel) -> Result<
    WindowModel,
    WindowError,
> {
    match size_fault(builder.min_size, builder.size, builder.max_size) {
        Some(e) => Err(e),
        None => if builder.parent is Some && rect_in(manager.windows, builder.parent) is None {
            Err(WindowError::InvalidWindowHandle)
        } else {
            match resolution(
                builder.size,
                manager.displays,
                builder.position,
                rect_in(manager.windows, builder.parent),
                true,
            ) {
                Ok(p) => Ok(
                    window_of(builder, manager.displays, manager.windows.len() as usize, p),
                ),
                Err(e) => Err(e),
            }
        },
    }
}

/// True if going from the window `from` to its parent, and on to the parent of that one, at
/// most `steps` times, comes by the window `target`.
pub open spec fn reaches(
    windows: Seq<WindowModel>,
    from: WindowHandle,
    target: WindowHandle,
    steps: nat,
) -> bool
    decreases steps,
{
    from == target || (steps > 0 && from < windows.len() && match windows[from as int].parent {
        Some(up) => reaches(windows, up, target, (steps - 1) as nat),
        None => false,
    })
}

/// Why the window `window` cannot get the parent `parent`, if it cannot: both have to be open
/// windows, a window is not its own parent, and the window must not be among the ancestors of
/// its parent.
pub open spec fn parent_fault(
    windows: Seq<WindowModel>,
    window: WindowHandle,
    parent: Option<WindowHandle>,
) -> Option<WindowError> {
    if !is_open(windows, window) {
        Some(WindowError::InvalidWindowHandle)
    } else {
        match parent {
            Some(up) => if up == window {
                Some(WindowError::WindowParentSelf)
            } else if !is_open(windows, up) {
                Some(WindowError::InvalidWindowHandle)
            } else if reaches(windows, up, window, windows.len()) {
                Some(WindowError::WindowParentLoop)
            } else {
                None
            },
            None => None,
        }
    }
}

/// The windows once `child` was taken off the children of the window named by `parent`.
pub open spec fn without_child(
    windows: Seq<WindowModel>,
    parent: Option<WindowHandle>,
    child: WindowHandle,
) -> Seq<WindowModel> {
    match parent {
        Some(handle) => if handle < windows.len() {
            windows.update(
                handle as int,
                WindowModel {
                    childs: without_handle(windows[handle as int].childs, child),
                    ..windows[handle as int]
                },
            )
        } else {
            windows
        },
        None => windows,
    }
}

/// The windows once the window `window` got the parent `parent`: it is taken off the children
/// of the parent it had and recorded as a child of the new one.
pub open spec fn reparented(
    windows: Seq<WindowModel>,
    window: WindowHandle,
    parent: Option<WindowHandle>,
) -> Seq<WindowModel> {
    let before = windows[window as int];
    let moved = windows.update(window as int, WindowModel { parent, ..before });
    with_child(without_child(moved, before.parent, window), parent, window)
}

/// True if building from `builder` is within what a position can hold: where the sizes and the
/// parent are in order, the position of the builder can be resolved.
pub open spec fn placeable(manager: WindowManagerModel, builder: WindowBuilderModel) -> bool {
    size_fault(builder.min_size, builder.size, builder.max_size) is None && !(builder.parent
        is Some && rect_in(manager.windows, builder.parent) is None) ==> position_resolvable(
        builder.size,
        manager.displays,
        builder.position,
        rect_in(manager.windows, builder.parent),
        true,
    )
}

/// Why the window `window` cannot be remade from `builder`, before its position is looked at:
/// the window has to be open, the sizes of the builder in order, and the parent of the builder
/// one that the window can get.
pub open spec fn rebuild_fault(
    manager: WindowManagerModel,
    window: WindowHandle,
    builder: WindowBuilderModel,
) -> Option<WindowError> {
    if !is_open(manager.windows, window) {
        Some(WindowError::InvalidWindowHandle)
    } else {
        match size_fault(builder.min_size, builder.size, builder.max_size) {
            Some(e) => Some(e),
            None => parent_fault(manager.windows, window, builder.parent),
        }
    }
}

/// The window that remaking the window `window` from `builder` gives, or the reason why it
/// cannot be remade.
///
/// The window has to be open. Then the sizes are checked, then the parent, as when a parent is
/// set. Then the position, which is resolved against the topology of the window and the parent,
/// and has to lie within the desktop.
pub open spec fn rebuild_outcome(
    manager: WindowManagerModel,
    window: WindowHandle,
    builder: WindowBuilderModel,
) -> Result<WindowModel, WindowError> {
    match rebuild_fault(manager, window, builder) {
        Some(e) => Err(e),
        None => match resolution(
            builder.size,
            manager.windows[window as int].displays,
            builder.position,
            rect_in(manager.windows, builder.parent),
            true,
        ) {
            Ok(p) => Ok(remade_at(manager.windows[window as int], builder, p)),
            Err(e) => Err(e),
        },
    }
}

/// True if remaking the window `window` from `builder` is within what a position can hold:
/// where window, sizes and parent are in order, the position of the builder can be resolved.
pub open spec fn replaceable(
    manager: WindowManagerModel,
    window: WindowHandle,
    builder: WindowBuilderModel,
) -> bool {
    rebuild_fault(manager, window, builder) is None ==> position_resolvable(
        builder.size,
        manager.windows[window as int].displays,
        builder.position,
        rect_in(manager.windows, builder.parent),
        true,
    )
}

/// The windows once the children lists follow a change of the parent of the window `window`
/// from `before` to `after`: nothing changes when the two are the same.
pub open spec fn relinked(
    windows: Seq<WindowModel>,
    window: WindowHandle,
    before: Option<WindowHandle>,
    after: Option<WindowHandle>,
) -> Seq<WindowModel> {
    if before == after {
        windows
    } else {
        with_child(without_child(windows, before, window), after, window)
    }
}

/// The event that says the window `handle` was created.
pub open spec fn created(handle: WindowHandle) -> WindowManagerEvent {
    WindowManagerEvent { window: handle, event: WindowEvent::Created }
}

impl WindowManager {
    /// A manager without windows or events, for the topology that the display enumeration
    /// report `report` describes.
    ///
    /// Fails with [`WindowError::DisplayInformationError`] when the report cannot be read.
    pub fn new(report: &str) -> (out: Result<WindowManager, WindowError>)
        ensures
            match topology_of(report@) {
                Some(topology) => out is Ok && out->Ok_0@ == (WindowManagerModel {
                    displays: topology,
                    windows: Seq::empty(),
                    events: Seq::empty(),
                }),
                None => out is Err && out->Err_0 == WindowError::DisplayInformationError,
            },
    {
        match build_topology(report) {
            Ok(displays) => Ok(WindowManager::with_displays(displays)),
            Err(e) => Err(e),
        }
    }

    /// A manager without windows or events, for the topology `displays`.
    pub fn with_displays(displays: Displays) -> (out: WindowManager)
        ensures
            out@ == (WindowManagerModel {
                displays: displays@,
                windows: Seq::empty(),
                events: Seq::empty(),
            }),
    {
        let out = WindowManager {
            displays: Rc::new(displays),
            windows: Vec::new(),
            queue: Vec::new(),
        };
        assert(out@.windows =~= Seq::empty());
        out
    }

    /// The topology the windows are placed on.
    pub fn displays(&self) -> (out: &Displays)
        ensures
            out@ == self@.displays,
    {
        &self.displays
    }

    /// The number of windows that were built, closed ones included.
    pub fn window_count(&self) -> (out: usize)
        ensures
            out == self@.windows.len(),
    {
        self.windows.len()
    }

    /// The window that `window` names.
    ///
    /// Fails with [`WindowError::InvalidWindowHandle`] when `window` names no window that was
    /// built, or one that was closed.
    pub fn window(&self, window: WindowHandle) -> (out: Result<&Window, WindowError>)
        ensures
            if is_open(self@.windows, window) {
                out is Ok && out->Ok_0@ == self@.windows[window as int]
            } else {
                out is Err && out->Err_0 == WindowError::InvalidWindowHandle
            },
    {
        if window < self.windows.len() && !self.windows[window].closed() {
            Ok(&self.windows[window])
        } else {
            Err(WindowError::InvalidWindowHandle)
        }
    }

    /// The oldest event that waits, which is taken off the queue; `None` if none waits.
    pub fn event(&mut self) -> (out: Option<WindowManagerEvent>)
        ensures
            if old(self)@.events.len() > 0 {
                out == Some(old(self)@.events[0]) && final(self)@ == (WindowManagerModel {
                    events: old(self)@.events.skip(1),
                    ..old(self)@
                })
            } else {
                out is None && final(self)@ == old(self)@
            },
    {
        if self.queue.len() > 0 {
            let event = self.queue.remove(0);
            Some(event)
        } else {
            None
        }
    }

    /// True if an event waits.
    pub fn has_event(&self) -> (out: bool)
        ensures
            out == (self@.events.len() > 0),
    {
        self.queue.len() > 0
    }

    /// The oldest event that waits, which is taken off the queue. Whoever feeds the manager
    /// waits until there is one.
    pub fn event_wait(&mut self) -> (out: WindowManagerEvent)
        requires
            old(self)@.events.len() > 0,
        ensures
            out == old(self)@.events[0],
            final(self)@ == (WindowManagerModel {
                events: old(self)@.events.skip(1),
                ..old(self)@
            }),
    {
        let event = self.queue.remove(0);
        event
    }

    /// Puts an event at the end of the queue.
    pub fn push_event(&mut self, event: WindowManagerEvent)
        ensures
            final(self)@ == (WindowManagerModel {
                events: old(self)@.events.push(event),
                ..old(self)@
            }),
    {
        self.queue.push(event);
    }

    /// The window that `window` names, to change it.
    ///
    /// Fails with [`WindowError::InvalidWindowHandle`] when `window` names no window that was
    /// built, or one that was closed.
    pub fn window_mut(&mut self, window: WindowHandle) -> (out: Result<&mut Window, WindowError>)
        ensures
            match out {
                Ok(found) => is_open(old(self)@.windows, window)
                    && found@ == old(self)@.windows[window as int]
                    && final(self)@ == (WindowManagerModel {
                    windows: old(self)@.windows.update(window as int, final(found)@),
                    ..old(self)@
                }),
                Err(e) => !is_open(old(self)@.windows, window) && e
                    == WindowError::InvalidWindowHandle && final(self)@ == old(self)@,
            },
    {
        if window < self.windows.len() && !self.windows[window].closed() {
            let found = &mut self.windows[window];
            proof {
                assert(Seq::new(
                    old(self).windows@.len(),
                    |i: int| old(self).windows@.update(window as int, *final(found))[i]@,
                ) =~= old(self)@.windows.update(window as int, final(found)@));
            }
            Ok(found)
        } else {
            Err(WindowError::InvalidWindowHandle)
        }
    }

    /// Builds the window that `builder` describes and returns its handle. The window is
    /// recorded as a child of its parent, and the event that it was created waits after those
    /// that waited already.
    ///
    /// Fails, and changes nothing, with
    /// - [`WindowError::WindowMinSizeBiggerThanMax`] when the minimum size of the builder is not
    ///   within its maximum size;
    /// - [`WindowError::WindowSizeOOB`] when its size is not between the two;
    /// - [`WindowError::InvalidWindowHandle`] when its parent is not an open window;
    /// - [`WindowError::DisplayInvalidHandle`] when its position names a display the topology
    ///   does not have;
    /// - [`WindowError::WindowRelativePositionOOB`] when the window would not lie wholly within
    ///   the desktop.
    pub fn build(&mut self, builder: &WindowBuilder) -> (out: Result<WindowHandle, WindowError>)
        requires
            placeable(old(self)@, builder@),
        ensures
            match build_outcome(old(self)@, builder@) {
                Ok(window) => out == Ok::<WindowHandle, WindowError>(window.handle) && final(self)@
                    == (WindowManagerModel {
                    windows: with_child(old(self)@.windows, builder@.parent, window.handle).push(
                        window,
                    ),
                    events: old(self)@.events.push(created(window.handle)),
                    ..old(self)@
                }),
                Err(e) => out == Err::<WindowHandle, WindowError>(e) && final(self)@ == old(self)@,
            },
    {
        match check_sizes(builder.min_size, builder.size, builder.max_size) {
            Err(e) => {
                return Err(e);
            },
            Ok(_) => {},
        }
        let rect = match builder.parent {
            Some(parent) => {
                match self.window(parent) {
                    Ok(found) => Some((found.position(), found.size())),
                    Err(e) => {
                        return Err(e);
                    },
                }
            },
            None => None,
        };
        match Window::get_window_desktop_position(
            builder.size,
            self.displays.clone(),
            builder.position,
            rect,
            true,
        ) {
            Ok(position) => {
                let handle = self.windows.len();
                let window = Window::create(builder, self.displays.clone(), handle, position);
                match builder.parent {
                    Some(parent) => {
                        self.windows[parent].adopt(handle);
                    },
                    None => {},
                }
                self.windows.push(window);
                self.queue.push(WindowManagerEvent { window: handle, event: WindowEvent::Created });
                assert(self@.windows =~= with_child(
                    old(self)@.windows,
                    builder@.parent,
                    handle,
                ).push(window@));
                Ok(handle)
            },
            Err(e) => Err(e),
        }
    }

    /// True if `handle` names a window that was built and not closed since.
    pub fn is_window(&self, handle: WindowHandle) -> (out: bool)
        ensures
            out == is_open(self@.windows, handle),
    {
        handle < self.windows.len() && !self.windows[handle].closed()
    }

    /// True if the window `target` is the window `from` or one of its ancestors.
    fn is_ancestor(&self, from: WindowHandle, target: WindowHandle) -> (out: bool)
        ensures
            out == reaches(self@.windows, from, target, self@.windows.len()),
    {
        let mut at: WindowHandle = from;
        let mut steps: usize = self.windows.len();
        loop
            invariant
                steps <= self.windows@.len(),
                reaches(self@.windows, at, target, steps as nat) == reaches(
                    self@.windows,
                    from,
                    target,
                    self@.windows.len(),
                ),
            decreases steps,
        {
            if at == target {
                return true;
            }
            if steps == 0 || at >= self.windows.len() {
                return false;
            }
            match self.windows[at].parent() {
                Some(up) => {
                    at = up;
                    steps -= 1;
                },
                None => {
                    return false;
                },
            }
        }
    }

    /// Why the window `window` cannot get the parent `parent`, if it cannot.
    fn parent_check(
        &self,
        window: WindowHandle,
        parent: Option<WindowHandle>,
    ) -> (out: Option<WindowError>)
        ensures
            out == parent_fault(self@.windows, window, parent),
    {
        if !self.is_window(window) {
            return Some(WindowError::InvalidWindowHandle);
        }
        match parent {
            Some(up) => {
                if up == window {
                    Some(WindowError::WindowParentSelf)
                } else if !self.is_window(up) {
                    Some(WindowError::InvalidWindowHandle)
                } else if self.is_ancestor(up, window) {
                    Some(WindowError::WindowParentLoop)
                } else {
                    None
                }
            },
            None => None,
        }
    }

    /// Position and size of the parent named by `parent`, if it names a window that is open.
    fn parent_rect(
        &self,
        parent: Option<WindowHandle>,
    ) -> (out: Option<(WindowPosition, WindowSize)>)
        ensures
            out == rect_in(self@.windows, parent),
    {
        match parent {
            Some(up) => {
                if self.is_window(up) {
                    Some((self.windows[up].position(), self.windows[up].size()))
                } else {
                    None
                }
            },
            None => None,
        }
    }

    /// Makes the children lists follow a change of the parent of the window `window` from
    /// `before` to `after`.
    fn relink(
        &mut self,
        window: WindowHandle,
        before: Option<WindowHandle>,
        after: Option<WindowHandle>,
    )
        requires
            after matches Some(up) ==> up < old(self)@.windows.len(),
        ensures
            final(self)@ == (WindowManagerModel {
                windows: relinked(old(self)@.windows, window, before, after),
                ..old(self)@
            }),
    {
        let same = match (before, after) {
            (Some(a), Some(b)) => a == b,
            (None, None) => true,
            _ => false,
        };
        if same {
            return;
        }
        match before {
            Some(left) => {
                if left < self.windows.len() {
                    self.windows[left].disown(window);
                }
            },
            None => {},
        }
        assert(Seq::new(self.windows@.len(), |i: int| self.windows@[i]@) =~= without_child(
            old(self)@.windows,
            before,
            window,
        ));
        let ghost released = Seq::new(self.windows@.len(), |i: int| self.windows@[i]@);
        match after {
            Some(up) => {
                self.windows[up].adopt(window);
            },
            None => {},
        }
        assert(Seq::new(self.windows@.len(), |i: int| self.windows@[i]@) =~= with_child(
            released,
            after,
            window,
        ));
    }

    /// Gives the window `window` the parent `parent`, or none. Returns `Ok(true)` if the parent
    /// changed and `Ok(false)` if it was that one already. The window is taken off the
    /// children of the parent it had and recorded as a child of the new one.
    ///
    /// Fails, and changes nothing, with
    /// - [`WindowError::InvalidWindowHandle`] when `window` or `parent` is not an open window;
    /// - [`WindowError::WindowParentSelf`] when `parent` is `window` itself;
    /// - [`WindowError::WindowParentLoop`] when `window` is among the ancestors of `parent`.
    pub fn set_parent(&mut self, window: WindowHandle, parent: Option<WindowHandle>) -> (out:
        Result<bool, WindowError>)
        ensures
            match parent_fault(old(self)@.windows, window, parent) {
                Some(e) => out == Err::<bool, WindowError>(e) && final(self)@ == old(self)@,
                None => if old(self)@.windows[window as int].parent == parent {
                    out == Ok::<bool, WindowError>(false) && final(self)@ == old(self)@
                } else {
                    out == Ok::<bool, WindowError>(true) && final(self)@ == (WindowManagerModel {
                        windows: reparented(old(self)@.windows, window, parent),
                        ..old(self)@
                    })
                },
            },
    {
        match self.parent_check(window, parent) {
            Some(e) => {
                return Err(e);
            },
            None => {},
        }
        let before = self.windows[window].parent();
        let same = match (before, parent) {
            (Some(a), Some(b)) => a == b,
            (None, None) => true,
            _ => false,
        };
        if same {
            return Ok(false);
        }
        self.windows[window].set_parent(parent);
        assert(Seq::new(self.windows@.len(), |i: int| self.windows@[i]@) =~= old(
            self,
        )@.windows.update(
            window as int,
            WindowModel { parent, ..old(self)@.windows[window as int] },
        ));
        self.relink(window, before, parent);
        Ok(true)
    }

    /// True if [`WindowManager::build`] can be called with `builder`: if, where its sizes and
    /// its parent are in order, its position can be resolved.
    pub fn can_build(&self, builder: &WindowBuilder) -> (out: bool)
        ensures
            out == placeable(self@, builder@),
    {
        if check_sizes(builder.min_size, builder.size, builder.max_size).is_err() {
            return true;
        }
        let rect = self.parent_rect(builder.parent);
        if builder.parent.is_some() && rect.is_none() {
            return true;
        }
        Window::position_is_resolvable(builder.size, &self.displays, builder.position, rect, true)
    }

    /// True if [`WindowManager::rebuild`] can be called for the window `window` with `builder`:
    /// if, where the window, the sizes and the parent are in order, the position of the builder
    /// can be resolved.
    pub fn can_rebuild(&self, window: WindowHandle, builder: &WindowBuilder) -> (out: bool)
        ensures
            out == replaceable(self@, window, builder@),
    {
        if !self.is_window(window) {
            return true;
        }
        if check_sizes(builder.min_size, builder.size, builder.max_size).is_err() {
            return true;
        }
        if self.parent_check(window, builder.parent).is_some() {
            return true;
        }
        let rect = self.parent_rect(builder.parent);
        Window::position_is_resolvable(
            builder.size,
            self.windows[window].displays(),
            builder.position,
            rect,
            true,
        )
    }

    /// Remakes the window `window` from the properties of `builder` and returns its handle. The
    /// window keeps its handle, its topology and its children. Where the parent changes, the
    /// window is taken off the children of the parent it had and recorded as a child of the
    /// new one.
    ///
    /// Fails, and changes nothing, with
    /// - [`WindowError::InvalidWindowHandle`] when `window` is not an open window;
    /// - [`WindowError::WindowMinSizeBiggerThanMax`] when the minimum size of the builder is not
    ///   within its maximum size;
    /// - [`WindowError::WindowSizeOOB`] when its size is not between the two;
    /// - [`WindowError::WindowParentSelf`] when its parent is `window` itself;
    /// - [`WindowError::InvalidWindowHandle`] when its parent is not an open window;
    /// - [`WindowError::WindowParentLoop`] when `window` is among the ancestors of its parent;
    /// - [`WindowError::DisplayInvalidHandle`] when its position names a display the topology
    ///   does not have;
    /// - [`WindowError::WindowRelativePositionOOB`] when the window would not lie wholly within
    ///   the desktop.
    pub fn rebuild(
        &mut self,
        window: WindowHandle,
        builder: &WindowBuilder,
    ) -> (out: Result<WindowHandle, WindowError>)
        requires
            replaceable(old(self)@, window, builder@),
        ensures
            match rebuild_outcome(old(self)@, window, builder@) {
                Ok(remade) => out == Ok::<WindowHandle, WindowError>(remade.handle) && final(self)@
                    == (WindowManagerModel {
                    windows: relinked(
                        old(self)@.windows.update(window as int, remade),
                        window,
                        old(self)@.windows[window as int].parent,
                        builder@.parent,
                    ),
                    ..old(self)@
                }),
                Err(e) => out == Err::<WindowHandle, WindowError>(e) && final(self)@ == old(self)@,
            },
    {
        if !self.is_window(window) {
            return Err(WindowError::InvalidWindowHandle);
        }
        match check_sizes(builder.min_size, builder.size, builder.max_size) {
            Err(e) => {
                return Err(e);
            },
            Ok(_) => {},
        }
        match self.parent_check(window, builder.parent) {
            Some(e) => {
                return Err(e);
            },
            None => {},
        }
        let rect = self.parent_rect(builder.parent);
        let displays = self.windows[window].shared_displays();
        match Window::get_window_desktop_position(
            builder.size,
            displays,
            builder.position,
            rect,
            true,
        ) {
            Ok(position) => {
                let before = self.windows[window].parent();
                let handle = self.windows[window].rebuild(builder, position);
                assert(Seq::new(self.windows@.len(), |i: int| self.windows@[i]@) =~= old(
                    self,
                )@.windows.update(
                    window as int,
                    remade_at(old(self)@.windows[window as int], builder@, position),
                ));
                self.relink(window, before, builder.parent);
                Ok(handle)
            },
            Err(e) => Err(e),
        }
    }
}

} // verus!
