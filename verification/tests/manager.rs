use nswindow::display::Displays;
use nswindow::event::{WindowEvent, WindowManagerEvent};
use nswindow::{
    WindowBuilder, WindowError, WindowHandle, WindowManager, WindowPosition,
    WindowRelativePosition, WindowSize,
};

/// Two connected displays of 1920x1080, the primary one below the other, and one that is not
/// connected, on a desktop of 1920x2160.
const REPORT: &str = "Screen 0: minimum 320 x 200, current 1920 x 2160, maximum 16384 x 16384
eDP-1 connected primary 1920x1080+0+1080 (normal left inverted right x axis y axis) 344mm x 194mm
   1920x1080     60.03*+  60.01    59.97
   1680x1050     60.00    59.95
HDMI-1 connected 1920x1080+0+0 (normal left inverted right x axis y axis) 510mm x 290mm
   1920x1080     60.00*+  50.00    59.94
DP-1 disconnected (normal left inverted right x axis y axis)
";

/// WindowManager::build() unit test
#[test]
fn window_manager_ut_build() {
    match WindowManager::new(REPORT) {
        Ok(mut wm) => {
            match WindowBuilder::new().build(&mut wm) {
                Ok(_) => {},
                Err(err) => panic!("{:?}", err),
            }
        },
        Err(err) => assert!(false, "{:?}", err),
    }
}

/// WindowManager::event() unit test
#[test]
fn window_manager_ut_event() {
    match WindowManager::new(REPORT) {
        Ok(mut wm) => {
            wm.event();
        },
        Err(err) => assert!(false, "{:?}", err),
    }
}

/// WindowManager::window() and WindowManager::window_mut() unit test
#[test]
fn window_manager_ut_window() {
    match WindowManager::new(REPORT) {
        Ok(mut wm) => {
            match WindowBuilder::new().build(&mut wm) {
                Ok(wh) => {
                    match wm.window(wh) {
                        Ok(_) => {},
                        Err(err) => panic!("{:?}", err),
                    }

                    match wm.window_mut(wh) {
                        Ok(_) => {},
                        Err(err) => panic!("{:?}", err),
                    }
                },
                Err(err) => panic!("{:?}", err),
            }
        },
        Err(err) => assert!(false, "{:?}", err),
    }
}

/// WindowManager::displays() unit test
#[test]
fn window_manager_ut_displays() {
    match WindowManager::new(REPORT) {
        Ok(wm) => {
            wm.displays();
        },
        Err(err) => assert!(false, "{:?}", err),
    }
}

/// WindowManager::build() error unit tests
#[test]
fn window_manager_ut_build_error() {
    match WindowManager::new(REPORT) {
        Ok(mut wm) => {
            let invalid_handle: WindowHandle = 0;

            // WindowRelativePositionOOB
            match WindowBuilder::new().set_hidden()
                .position(WindowRelativePosition::Desktop(WindowPosition { x: i32::MAX, y: i32::MAX }))
                .build(&mut wm) {
                Ok(_) => panic!("WindowRelativePositionOOB expected"),
                Err(err) => assert!(err == WindowError::WindowRelativePositionOOB),
            }

            // WindowSizeOOB
            match WindowBuilder::new().set_hidden()
                .size(WindowSize { width: u32::MAX, height: u32::MAX })
                .build(&mut wm) {
                Ok(_) => panic!("WindowSizeOOB expected"),
                Err(err) => assert!(err == WindowError::WindowSizeOOB),
            }

            // WindowMinSizeBiggerThanMax
            match WindowBuilder::new().set_hidden()
                .size_min(WindowSize { width: u32::MAX, height: u32::MAX })
                .build(&mut wm) {
                Ok(_) => panic!("WindowMinSizeBiggerThanMax expected"),
                Err(err) => assert!(err == WindowError::WindowMinSizeBiggerThanMax),
            }

            // InvalidWindowHandle for parent
            match WindowBuilder::new().set_hidden()
                .parent(Some(invalid_handle))
                .build(&mut wm) {
                Ok(_) => panic!("InvalidWindowHandle expected"),
                Err(err) => assert!(err == WindowError::InvalidWindowHandle),
            }

            // Nothing was built
            assert!(wm.window_count() == 0);
            assert!(!wm.has_event());
        },
        Err(err) => assert!(false, "{:?}", err),
    }
}

/// WindowManager::window() and window_mut() error unit tests
#[test]
fn window_manager_ut_window_error() {
    match WindowManager::new(REPORT) {
        Ok(mut wm) => {
            let invalid_handle: WindowHandle = 0;
            assert!(wm.window(invalid_handle).expect_err("InvalidWindowHandle expected!") == WindowError::InvalidWindowHandle);
            assert!(wm.window_mut(invalid_handle).expect_err("InvalidWindowHandle expected!") == WindowError::InvalidWindowHandle);
        },
        Err(err) => assert!(false, "{:?}", err),
    }
}

#[test]
fn manager_refuses_unreadable_report() {
    match WindowManager::new("eDP-1 connected primary 1920x10a0+0+1080 (normal) 344mm x 194mm") {
        Ok(_) => panic!("DisplayInformationError expected"),
        Err(err) => assert!(err == WindowError::DisplayInformationError),
    }
}

#[test]
fn manager_builds_window_at_primary_center() {
    let mut wm = WindowManager::new(REPORT).unwrap();
    let handle = WindowBuilder::new().title("first").build(&mut wm).unwrap();
    assert!(handle == 0);
    assert!(wm.window_count() == 1);
    assert!(wm.is_window(handle));
    assert!(!wm.is_window(1));
    let window = wm.window(handle).unwrap();
    assert!(window.handle() == 0);
    assert!(window.title() == "first");
    // (1920 - 640) / 2 and (1080 - 480) / 2, on the display at (0, 1080)
    assert!(window.position() == WindowPosition::new(640, 1380));
    assert!(window.size() == WindowSize::new(640, 480));
    assert!(window.size_min() == WindowSize::new(320, 240));
    assert!(window.size_max() == WindowSize::new(65535, 65535));
    assert!(window.parent() == None);
    assert!(window.childs().is_empty());
    assert!(window.visible());
    assert!(window.taskbar());
    assert!(!window.fullscreen());
    assert!(!window.minimized());
    assert!(!window.maximized());
    assert!(!window.closed());
    assert!(window.icon().is_none());
    assert!(window.displays().list.len() == 2);
}

#[test]
fn manager_queues_created_event_and_hands_events_out_in_order() {
    let mut wm = WindowManager::new(REPORT).unwrap();
    assert!(!wm.has_event());
    assert!(wm.event() == None);
    let handle = WindowBuilder::new().build(&mut wm).unwrap();
    wm.push_event(WindowManagerEvent { window: handle, event: WindowEvent::Shown });
    wm.push_event(WindowManagerEvent { window: handle, event: WindowEvent::Focus });
    assert!(wm.has_event());
    assert!(wm.event() == Some(WindowManagerEvent { window: handle, event: WindowEvent::Created }));
    assert!(wm.event_wait() == WindowManagerEvent { window: handle, event: WindowEvent::Shown });
    assert!(wm.event() == Some(WindowManagerEvent { window: handle, event: WindowEvent::Focus }));
    assert!(wm.event() == None);
    assert!(!wm.has_event());
}

#[test]
fn manager_places_child_relative_to_parent() {
    let mut wm = WindowManager::new(REPORT).unwrap();
    let parent = WindowBuilder::new()
        .position(WindowRelativePosition::Desktop(WindowPosition::new(400, 150)))
        .size(WindowSize::new(1024, 768))
        .build(&mut wm)
        .unwrap();
    let child = WindowBuilder::new()
        .parent(Some(parent))
        .position(WindowRelativePosition::ParentCenter)
        .size(WindowSize::new(800, 600))
        .build(&mut wm)
        .unwrap();
    assert!(child == 1);
    assert!(wm.window(child).unwrap().position() == WindowPosition::new(512, 234));
    assert!(wm.window(child).unwrap().parent() == Some(parent));
    assert!(wm.window(parent).unwrap().childs() == &vec![child]);
}

#[test]
fn manager_set_parent_detects_self_and_loops() {
    let mut wm = WindowManager::new(REPORT).unwrap();
    let a = WindowBuilder::new().build(&mut wm).unwrap();
    let b = WindowBuilder::new().parent(Some(a)).build(&mut wm).unwrap();
    let c = WindowBuilder::new().parent(Some(b)).build(&mut wm).unwrap();

    assert!(wm.set_parent(a, Some(a)) == Err(WindowError::WindowParentSelf));
    assert!(wm.set_parent(a, Some(c)) == Err(WindowError::WindowParentLoop));
    assert!(wm.set_parent(a, Some(b)) == Err(WindowError::WindowParentLoop));
    assert!(wm.set_parent(a, Some(9)) == Err(WindowError::InvalidWindowHandle));
    assert!(wm.set_parent(9, Some(a)) == Err(WindowError::InvalidWindowHandle));
    assert!(wm.set_parent(c, Some(b)) == Ok(false));
    assert!(wm.set_parent(a, None) == Ok(false));

    // c moves from b to a
    assert!(wm.set_parent(c, Some(a)) == Ok(true));
    assert!(wm.window(c).unwrap().parent() == Some(a));
    assert!(wm.window(b).unwrap().childs().is_empty());
    assert!(wm.window(a).unwrap().childs() == &vec![b, c]);

    // b has no parent any more, and can then take c as its parent's sibling
    assert!(wm.set_parent(b, None) == Ok(true));
    assert!(wm.window(a).unwrap().childs() == &vec![c]);
    assert!(wm.set_parent(a, Some(b)) == Ok(true));
    assert!(wm.set_parent(b, Some(c)) == Err(WindowError::WindowParentLoop));
}

#[test]
fn manager_closed_window_is_no_window() {
    let mut wm = WindowManager::new(REPORT).unwrap();
    let handle = WindowBuilder::new().build(&mut wm).unwrap();
    assert!(wm.window_mut(handle).unwrap().close());
    assert!(!wm.is_window(handle));
    assert!(wm.window(handle).expect_err("closed") == WindowError::InvalidWindowHandle);
    match WindowBuilder::new().parent(Some(handle)).build(&mut wm) {
        Ok(_) => panic!("InvalidWindowHandle expected"),
        Err(err) => assert!(err == WindowError::InvalidWindowHandle),
    }
}

#[test]
fn manager_with_displays_keeps_topology() {
    let wm = WindowManager::with_displays(Displays { list: Vec::new(), desktop: None });
    assert!(wm.displays().list.is_empty());
    assert!(wm.displays().desktop.is_none());
    assert!(wm.window_count() == 0);
}

#[test]
fn window_changes_through_manager() {
    let mut wm = WindowManager::new(REPORT).unwrap();
    let handle = WindowBuilder::new().build(&mut wm).unwrap();
    {
        let window = wm.window_mut(handle).unwrap();
        assert!(window.set_title("renamed") == Ok(true));
        assert!(window.set_title("renamed") == Ok(false));
        assert!(window.frame_mut().lock());
        assert!(window.keyboard_mut().enable_repeat());
        assert!(window.pointer_mut().confine());
    }
    let window = wm.window(handle).unwrap();
    assert!(window.title() == "renamed");
    assert!(!window.frame().resizable());
    assert!(window.keyboard().repeat());
    assert!(window.pointer().confined());
}
