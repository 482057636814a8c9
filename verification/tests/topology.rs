use nswindow::display::{
    Desktop, Display, DisplayDesktopPosition, DisplayResolution, DisplaySizeMM,
    DisplaySupportedResolution, Displays,
};
use nswindow::topology::{
    build_topology, fetch_desktop, fetch_display, fetch_supported, line_kind, LineKind,
};
use nswindow::WindowError;

const REPORT: &str = "Screen 0: minimum 320 x 200, current 1920 x 2160, maximum 16384 x 16384
eDP-1 connected primary 1920x1080+0+1080 (normal left inverted right x axis y axis) 344mm x 194mm
   1920x1080     60.03*+  60.01    59.97    59.96    59.93  
   1680x1050     60.00    59.95  
   1280x1024     60.02  
HDMI-1 connected 1920x1080+0+0 (normal left inverted right x axis y axis) 510mm x 290mm
   1920x1080     60.00*+  50.00    59.94  
   1920x1080i    60.00    50.00    59.94  
DP-1 disconnected (normal left inverted right x axis y axis)
";

fn chars(text: &str) -> Vec<char> {
    text.chars().collect()
}

#[test]
fn screen_x11screens_fetch() {
    match build_topology(REPORT) {
        Ok(screens) => {
            println!("Screens : {:?}", screens);
        },
        Err(_) => assert!(false, "Error!"),
    }
}

#[test]
fn display_x11screens_fetch() {
    let displays = build_topology(REPORT);

    println!("Display={:?}", displays);
    assert!(displays.is_ok());
}

#[test]
fn topology_of_report() {
    let displays: Displays = build_topology(REPORT).unwrap();
    assert!(displays.desktop == Some(Desktop {
        min: DisplayResolution { width: 320, height: 200 },
        max: DisplayResolution { width: 16384, height: 16384 },
        current: DisplayResolution { width: 1920, height: 2160 },
    }));
    assert!(displays.list.len() == 2);

    let first = &displays.list[0];
    assert!(first.handle == 0);
    assert!(first.identifier == "eDP-1");
    assert!(first.primary);
    assert!(first.size == DisplaySizeMM { width: 344, height: 194 });
    assert!(first.position == DisplayDesktopPosition { x: 0, y: 1080 });
    assert!(first.resolution == DisplayResolution { width: 1920, height: 1080 });
    assert!(first.refresh_rate == 6003);
    assert!(first.supported.len() == 3);
    assert!(first.supported[0] == DisplaySupportedResolution {
        resolution: DisplayResolution { width: 1920, height: 1080 },
        interlaced: false,
        refresh_rates: vec![6003, 6001, 5997, 5996, 5993],
    });
    assert!(first.supported[1].refresh_rates == vec![6000, 5995]);
    assert!(first.supported[2].resolution == DisplayResolution { width: 1280, height: 1024 });
    assert!(first.supported[2].refresh_rates == vec![6002]);

    let second = &displays.list[1];
    assert!(second.handle == 1);
    assert!(second.identifier == "HDMI-1");
    assert!(!second.primary);
    assert!(second.size == DisplaySizeMM { width: 510, height: 290 });
    assert!(second.position == DisplayDesktopPosition { x: 0, y: 0 });
    assert!(second.refresh_rate == 6000);
    assert!(second.supported.len() == 2);
    assert!(!second.supported[0].interlaced);
    assert!(second.supported[1].interlaced);
    assert!(second.supported[1].resolution == DisplayResolution { width: 1920, height: 1080 });
    assert!(second.supported[1].refresh_rates == vec![6000, 5000, 5994]);

    assert!(displays.primary().unwrap().identifier == "eDP-1");
}

#[test]
fn topology_lists_repeated_rate_once() {
    let text = "HDMI-1 connected 1920x1080+0+0 (normal) 510mm x 290mm\n   1920x1080     60.00*+  50.00    60.00    59.94   50.00  60.00\n";
    let displays = build_topology(text).unwrap();
    assert!(displays.list[0].supported[0].refresh_rates == vec![6000, 5000, 5994]);
    assert!(displays.list[0].refresh_rate == 6000);
}

#[test]
fn topology_of_empty_text_is_empty() {
    let displays = build_topology("").unwrap();
    assert!(displays.list.is_empty());
    assert!(displays.desktop.is_none());
    assert!(displays.primary().is_none());

    let displays = build_topology("\n   \n\t\n").unwrap();
    assert!(displays.list.is_empty());
}

#[test]
fn topology_without_primary_and_with_negative_origin() {
    let text = "DP-2 connected 2560x1440+-2560+-120 (normal) 597mm x 336mm\n   2560x1440     59.95*+\n";
    let displays = build_topology(text).unwrap();
    assert!(displays.desktop.is_none());
    assert!(displays.primary().is_none());
    assert!(displays.list[0].position == DisplayDesktopPosition { x: -2560, y: -120 });
    assert!(displays.list[0].resolution == DisplayResolution { width: 2560, height: 1440 });
    assert!(displays.list[0].refresh_rate == 5995);
}

#[test]
fn topology_fails_as_a_whole() {
    // a mode line before any display was opened
    assert!(build_topology("   1920x1080     60.00*+\n").unwrap_err() == WindowError::DisplayInformationError);
    // a rate that is no number, after lines that can be read
    let text = "Screen 0: minimum 320 x 200, current 1920 x 2160, maximum 16384 x 16384\nHDMI-1 connected 1920x1080+0+0 (normal) 510mm x 290mm\n   1920x1080     60.00*+  fast\n";
    assert!(build_topology(text).unwrap_err() == WindowError::DisplayInformationError);
    // a summary line that lacks its last number
    assert!(build_topology("Screen 0: minimum 320 x 200, current 1920 x 2160, maximum 16384 x\n").unwrap_err() == WindowError::DisplayInformationError);
    // a header without the physical size
    assert!(build_topology("HDMI-1 connected 1920x1080+0+0 (normal)\n").unwrap_err() == WindowError::DisplayInformationError);
    // a header without closing parenthesis
    assert!(build_topology("HDMI-1 connected 1920x1080+0+0 510mm x 290mm\n").unwrap_err() == WindowError::DisplayInformationError);
}

#[test]
fn kinds_of_lines() {
    assert!(line_kind(&chars("Screen 0: minimum 320 x 200, current 1920 x 2160, maximum 16384 x 16384")) == LineKind::Desktop);
    assert!(line_kind(&chars("eDP-1 connected primary 1920x1080+0+1080 (normal) 344mm x 194mm")) == LineKind::Header);
    assert!(line_kind(&chars("DP-1 disconnected (normal left inverted right x axis y axis)")) == LineKind::Ignored);
    assert!(line_kind(&chars("   1920x1080     60.03*+  60.01")) == LineKind::Mode);
    assert!(line_kind(&chars("")) == LineKind::Ignored);
    assert!(line_kind(&chars("  \t ")) == LineKind::Ignored);
}

#[test]
fn desktop_line() {
    assert!(fetch_desktop("Screen 0: minimum 8 x 8, current 3840 x 1080, maximum 32767 x 32767") == Ok(Desktop {
        min: DisplayResolution { width: 8, height: 8 },
        max: DisplayResolution { width: 32767, height: 32767 },
        current: DisplayResolution { width: 3840, height: 1080 },
    }));
    assert!(fetch_desktop("Screen 0: minimum 8 x 8, current 3840 x ten, maximum 32767 x 32767") == Err(WindowError::DisplayInformationError));
    assert!(fetch_desktop("Screen 0: minimum 8 x 8, current -3840 x 1080, maximum 32767 x 32767") == Err(WindowError::DisplayInformationError));
    assert!(fetch_desktop("Screen 0: minimum 8 x 8, current 99999999999999999999999 x 1080, maximum 32767 x 32767") == Err(WindowError::DisplayInformationError));
    assert!(fetch_desktop("Screen") == Err(WindowError::DisplayInformationError));
}

#[test]
fn header_line() {
    let display: Display = fetch_display("eDP-1 connected primary 1920x1080+0+1080 (normal left inverted right x axis y axis) 344mm x 194mm", 4).unwrap();
    assert!(display == Display {
        handle: 4,
        identifier: "eDP-1".to_string(),
        size: DisplaySizeMM { width: 344, height: 194 },
        position: DisplayDesktopPosition { x: 0, y: 1080 },
        resolution: DisplayResolution { width: 1920, height: 1080 },
        refresh_rate: 0,
        primary: true,
        supported: Vec::new(),
    });
    let display = fetch_display("HDMI-1 connected 1280x720+1920+0 (normal) 510 x 290mm", 0).unwrap();
    assert!(!display.primary);
    assert!(display.size == DisplaySizeMM { width: 510, height: 290 });
    assert!(display.position == DisplayDesktopPosition { x: 1920, y: 0 });
    assert!(display.resolution == DisplayResolution { width: 1280, height: 720 });

    assert!(fetch_display("HDMI-1 connected 1280x720+1920 (normal) 510mm x 290mm", 0).unwrap_err() == WindowError::DisplayInformationError);
    assert!(fetch_display("HDMI-1 connected 1280x720+1920+99999999999 (normal) 510mm x 290mm", 0).unwrap_err() == WindowError::DisplayInformationError);
    assert!(fetch_display("HDMI-1 connected 1280x720+1920+0 (normal) 5mm10mm x 290mm", 0).unwrap_err() == WindowError::DisplayInformationError);
    assert!(fetch_display("HDMI-1 connected", 0).unwrap_err() == WindowError::DisplayInformationError);
}

#[test]
fn mode_line() {
    let mut display = fetch_display("HDMI-1 connected 1280x720+0+0 (normal) 510mm x 290mm", 0).unwrap();
    assert!(fetch_supported(&mut display, "   1280x720      60.00 +  59.94*   50.00  ") == Err(WindowError::DisplayInformationError));
    assert!(display.supported.is_empty());
    assert!(display.refresh_rate == 0);

    assert!(fetch_supported(&mut display, "   1280x720      60.00+   59.94*   50.00  ") == Ok(()));
    assert!(display.refresh_rate == 5994);
    assert!(display.supported.len() == 1);
    assert!(display.supported[0] == DisplaySupportedResolution {
        resolution: DisplayResolution { width: 1280, height: 720 },
        interlaced: false,
        refresh_rates: vec![6000, 5994, 5000],
    });

    // no rate is marked: the refresh rate stays
    assert!(fetch_supported(&mut display, "720x576i 50.00") == Ok(()));
    assert!(display.refresh_rate == 5994);
    assert!(display.supported[1].interlaced);
    assert!(display.supported[1].resolution == DisplayResolution { width: 720, height: 576 });

    // a resolution alone lists no rate
    assert!(fetch_supported(&mut display, "640x480") == Ok(()));
    assert!(display.supported[2].refresh_rates.is_empty());

    assert!(fetch_supported(&mut display, "640 60.00") == Err(WindowError::DisplayInformationError));
    assert!(fetch_supported(&mut display, "64ix480 60.00") == Err(WindowError::DisplayInformationError));
    assert!(fetch_supported(&mut display, "640x480 99999999999") == Err(WindowError::DisplayInformationError));
    assert!(display.supported.len() == 3);
}

#[test]
fn supported_resolution_keeps_each_rate_once() {
    let mut supported = DisplaySupportedResolution::new(DisplayResolution { width: 800, height: 600 }, false);
    assert!(supported.refresh_rates.is_empty());
    assert!(!supported.interlaced);
    supported.add_refresh_rate(6000);
    supported.add_refresh_rate(7500);
    supported.add_refresh_rate(6000);
    supported.add_refresh_rate(5600);
    supported.add_refresh_rate(7500);
    assert!(supported.refresh_rates == vec![6000, 7500, 5600]);
}

#[test]
fn primary_is_the_first_flagged() {
    let mut displays = build_topology(REPORT).unwrap();
    displays.list[1].primary = true;
    assert!(displays.primary().unwrap().handle == 0);
    displays.list[0].primary = false;
    assert!(displays.primary().unwrap().handle == 1);
    displays.list[1].primary = false;
    assert!(displays.primary().is_none());
    let made = Displays::create(Vec::new(), None);
    assert!(made.list.is_empty() && made.desktop.is_none());
}
