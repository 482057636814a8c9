//! What a relative position request means: the mathematical side of window placement.
//!
//! Positions are computed over unbounded integers here. The executable resolver in
//! [`crate::window`] is proved to compute these functions.

use vstd::prelude::*;
use crate::display::{first_primary, Desktop, DisplayHandle, DisplayResolution, DisplaysModel};
use crate::error::WindowError;
use crate::window::{WindowPosition, WindowRelativePosition, WindowSize};

verus! {

/// Offset that centers a span of `inner` within a span of `outer`: half the difference, rounded
/// toward zero.
pub open spec fn centered(outer: int, inner: int) -> int {
    if outer >= inner {
        (outer - inner) / 2
    } else {
        -((inner - outer) / 2)
    }
}

/// Position that centers a window of `size` on the desktop: the origin when no desktop is known.
pub open spec fn desktop_center(size: WindowSize, displays: DisplaysModel) -> (int, int) {
    match displays.desktop {
        Some(desktop) => (
            centered(desktop.current.width as int, size.width as int),
            centered(desktop.current.height as int, size.height as int),
        ),
        None => (0, 0),
    }
}

/// Position `p` taken relative to the origin of the display `handle`.
pub open spec fn on_display(
    displays: DisplaysModel,
    handle: DisplayHandle,
    p: WindowPosition,
) -> Result<(int, int), WindowError> {
    if handle < displays.list.len() {
        let origin = displays.list[handle as int].position;
        Ok((p.x + origin.x, p.y + origin.y))
    } else {
        Err(WindowError::DisplayInvalidHandle)
    }
}

/// Position that centers a window of `size` on the display `handle`.
pub open spec fn display_center(
    size: WindowSize,
    displays: DisplaysModel,
    handle: DisplayHandle,
) -> Result<(int, int), WindowError> {
    if handle < displays.list.len() {
        let display = displays.list[handle as int];
        Ok(
            (
                centered(display.resolution.width as int, size.width as int) + display.position.x,
                centered(display.resolution.height as int, size.height as int) + display.position.y,
            ),
        )
    } else {
        Err(WindowError::DisplayInvalidHandle)
    }
}

/// The position a request stands for, before any bounds check.
///
/// A request relative to a parent falls back to the desktop when there is no parent, and one
/// relative to the primary display falls back to the desktop when no display is primary.
pub open spec fn raw_position(
    size: WindowSize,
    displays: DisplaysModel,
    request: WindowRelativePosition,
    parent: Option<(WindowPosition, WindowSize)>,
) -> Result<(int, int), WindowError> {
    match request {
        WindowRelativePosition::Desktop(p) => Ok((p.x as int, p.y as int)),
        WindowRelativePosition::DesktopCenter => Ok(desktop_center(size, displays)),
        WindowRelativePosition::Display(handle, p) => on_display(displays, handle, p),
        WindowRelativePosition::DisplayCenter(handle) => display_center(size, displays, handle),
        WindowRelativePosition::Parent(p) => match parent {
            Some(rect) => Ok((p.x + rect.0.x, p.y + rect.0.y)),
            None => Ok((p.x as int, p.y as int)),
        },
        WindowRelativePosition::ParentCenter => match parent {
            Some(rect) => Ok(
                (
                    centered(rect.1.width as int, size.width as int) + rect.0.x,
                    centered(rect.1.height as int, size.height as int) + rect.0.y,
                ),
            ),
            None => Ok(desktop_center(size, displays)),
        },
        WindowRelativePosition::PrimaryCenter => match first_primary(displays.list) {
            Some(i) => display_center(size, displays, displays.list[i].handle),
            None => Ok(desktop_center(size, displays)),
        },
        WindowRelativePosition::Primary(p) => match first_primary(displays.list) {
            Some(i) => on_display(displays, displays.list[i].handle, p),
            None => Ok((p.x as int, p.y as int)),
        },
    }
}

/// The desktop against which bounds are checked: an empty one when none is known.
pub open spec fn bounds_of(desktop: Option<Desktop>) -> Desktop {
    match desktop {
        Some(desktop) => desktop,
        None => Desktop {
            min: DisplayResolution { width: 0, height: 0 },
            max: DisplayResolution { width: 0, height: 0 },
            current: DisplayResolution { width: 0, height: 0 },
        },
    }
}

/// True if a window of `size` placed at `(x, y)` lies wholly within the current desktop.
pub open spec fn within_desktop(x: int, y: int, size: WindowSize, desktop: Desktop) -> bool {
    &&& 0 <= x
    &&& x + size.width <= desktop.current.width
    &&& 0 <= y
    &&& y + size.height <= desktop.current.height
}

/// The outcome of resolving a request: the raw position, rejected in checked mode when the
/// window would not lie within the desktop.
pub open spec fn resolved_position(
    size: WindowSize,
    displays: DisplaysModel,
    request: WindowRelativePosition,
    parent: Option<(WindowPosition, WindowSize)>,
    check_oob: bool,
) -> Result<(int, int), WindowError> {
    match raw_position(size, displays, request, parent) {
        Ok(p) => if check_oob && !within_desktop(p.0, p.1, size, bounds_of(displays.desktop)) {
            Err(WindowError::WindowRelativePositionOOB)
        } else {
            Ok(p)
        },
        Err(e) => Err(e),
    }
}

/// True if the raw position of a request, where it has one, can be held by a [`WindowPosition`].
pub open spec fn position_representable(
    size: WindowSize,
    displays: DisplaysModel,
    request: WindowRelativePosition,
    parent: Option<(WindowPosition, WindowSize)>,
) -> bool {
    match raw_position(size, displays, request, parent) {
        Ok(p) => i32::MIN <= p.0 <= i32::MAX && i32::MIN <= p.1 <= i32::MAX,
        Err(_) => true,
    }
}

/// True if a request can be resolved: if its raw position can be held by a
/// [`WindowPosition`], or if checked mode rejects it anyway because the window would not lie
/// within the desktop.
pub open spec fn position_resolvable(
    size: WindowSize,
    displays: DisplaysModel,
    request: WindowRelativePosition,
    parent: Option<(WindowPosition, WindowSize)>,
    check_oob: bool,
) -> bool {
    position_representable(size, displays, request, parent) || (check_oob && match raw_position(
        size,
        displays,
        request,
        parent,
    ) {
        Ok(p) => !within_desktop(p.0, p.1, size, bounds_of(displays.desktop)),
        Err(_) => false,
    })
}

/// On a desktop whose current resolution fits the coordinates of a [`WindowPosition`], and
/// without a desktop, every request can be resolved in checked mode.
pub proof fn lemma_checked_resolvable(
    size: WindowSize,
    displays: DisplaysModel,
    request: WindowRelativePosition,
    parent: Option<(WindowPosition, WindowSize)>,
)
    requires
        bounds_of(displays.desktop).current.width <= i32::MAX,
        bounds_of(displays.desktop).current.height <= i32::MAX,
    ensures
        position_resolvable(size, displays, request, parent, true),
{
}

/// The window position that holds the coordinates `p`.
pub open spec fn as_window_position(p: (int, int)) -> WindowPosition {
    WindowPosition { x: p.0 as i32, y: p.1 as i32 }
}

/// The result of resolving a request: the resolved position as a [`WindowPosition`], or the
/// error.
pub open spec fn resolution(
    size: WindowSize,
    displays: DisplaysModel,
    request: WindowRelativePosition,
    parent: Option<(WindowPosition, WindowSize)>,
    check_oob: bool,
) -> Result<WindowPosition, WindowError> {
    match resolved_position(size, displays, request, parent, check_oob) {
        Ok(p) => Ok(as_window_position(p)),
        Err(e) => Err(e),
    }
}

/// Resolving the same request against the same size, topology and parent, in the same mode,
/// gives the same result every time: any two results that the resolver may give for them are
/// the same position or the same error.
pub proof fn lemma_resolution_repeats(
    size: WindowSize,
    displays: DisplaysModel,
    request: WindowRelativePosition,
    parent: Option<(WindowPosition, WindowSize)>,
    check_oob: bool,
    first: Result<WindowPosition, WindowError>,
    second: Result<WindowPosition, WindowError>,
)
    requires
        first == resolution(size, displays, request, parent, check_oob),
        second == resolution(size, displays, request, parent, check_oob),
    ensures
        first == second,
{
}

/// Checked mode rejects exactly the requests whose raw position leaves the window partly
/// outside the desktop, or at a negative coordinate; the same request unchecked gives the raw
/// position. A request that names a display the topology does not have fails in both modes.
pub proof fn lemma_checked_against_unchecked(
    size: WindowSize,
    displays: DisplaysModel,
    request: WindowRelativePosition,
    parent: Option<(WindowPosition, WindowSize)>,
)
    ensures
        resolved_position(size, displays, request, parent, false) == raw_position(
            size,
            displays,
            request,
            parent,
        ),
        match raw_position(size, displays, request, parent) {
            Ok(p) => {
                let inside = within_desktop(p.0, p.1, size, bounds_of(displays.desktop));
                &&& inside ==> resolved_position(size, displays, request, parent, true) == Ok::<
                    (int, int),
                    WindowError,
                >(p)
                &&& !inside ==> resolved_position(size, displays, request, parent, true) == Err::<
                    (int, int),
                    WindowError,
                >(WindowError::WindowRelativePositionOOB)
                &&& !inside <==> (p.0 < 0 || p.0 + size.width > bounds_of(
                    displays.desktop,
                ).current.width || p.1 < 0 || p.1 + size.height > bounds_of(
                    displays.desktop,
                ).current.height)
            },
            Err(e) => resolved_position(size, displays, request, parent, true) == Err::<
                (int, int),
                WindowError,
            >(e),
        },
        raw_position(size, displays, request, parent) is Ok ==> resolution(
            size,
            displays,
            request,
            parent,
            false,
        ) is Ok,
        resolution(size, displays, request, parent, true) is Ok ==> resolution(
            size,
            displays,
            request,
            parent,
            true,
        ) == resolution(size, displays, request, parent, false),
{
}

/// Without any display and without a desktop: a request that names a display fails with
/// [`WindowError::DisplayInvalidHandle`] in both modes; every other request resolves unchecked,
/// the centered ones without a parent to the origin and the others to the position they
/// carry, offset by the parent where there is one; and checked mode accepts only an empty window
/// at the origin.
pub proof fn lemma_empty_topology(
    size: WindowSize,
    request: WindowRelativePosition,
    parent: Option<(WindowPosition, WindowSize)>,
    check_oob: bool,
)
    ensures
        match request {
            WindowRelativePosition::Display(_, _) | WindowRelativePosition::DisplayCenter(_) => {
                resolved_position(size, empty_displays(), request, parent, check_oob) == Err::<
                    (int, int),
                    WindowError,
                >(WindowError::DisplayInvalidHandle)
            },
            WindowRelativePosition::Desktop(p) | WindowRelativePosition::Primary(p) => {
                raw_position(size, empty_displays(), request, parent) == Ok::<
                    (int, int),
                    WindowError,
                >((p.x as int, p.y as int))
            },
            WindowRelativePosition::DesktopCenter | WindowRelativePosition::PrimaryCenter => {
                raw_position(size, empty_displays(), request, parent) == Ok::<
                    (int, int),
                    WindowError,
                >((0, 0))
            },
            WindowRelativePosition::Parent(p) => {
                raw_position(size, empty_displays(), request, parent) == Ok::<
                    (int, int),
                    WindowError,
                >(
                    match parent {
                        Some(rect) => (p.x + rect.0.x, p.y + rect.0.y),
                        None => (p.x as int, p.y as int),
                    },
                )
            },
            WindowRelativePosition::ParentCenter => {
                parent is None ==> raw_position(size, empty_displays(), request, parent) == Ok::<
                    (int, int),
                    WindowError,
                >((0, 0))
            },
        },
        raw_position(size, empty_displays(), request, parent) matches Ok(p) ==> (resolved_position(
            size,
            empty_displays(),
            request,
            parent,
            true,
        ) is Ok <==> p == (0int, 0int) && size.width == 0 && size.height == 0),
{
}

/// The topology without any display or desktop.
pub open spec fn empty_displays() -> DisplaysModel {
    DisplaysModel { list: Seq::empty(), desktop: None }
}

} // verus!
