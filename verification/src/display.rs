//! Hardware display information: the displays of a desktop and what they support.

use vstd::prelude::*;

verus! {

/// Handle of a display: its index in the list of the topology it belongs to.
pub type DisplayHandle = usize;

/// Refresh rate of a display, in hundredths of a hertz (60.03 Hz is 6003).
pub type DisplayRefreshRate = u32;

/// Resolution expressed as width and height, in pixels.
#[derive(Debug, PartialEq, Eq, Clone, Copy, Structural)]
pub struct DisplayResolution {
    /// Width in pixels.
    pub width: usize,
    /// Height in pixels.
    pub height: usize,
}

/// Physical size of a display, in millimeters.
#[derive(Debug, PartialEq, Eq, Clone, Copy, Structural)]
pub struct DisplaySizeMM {
    /// Width in millimeters.
    pub width: usize,
    /// Height in millimeters.
    pub height: usize,
}

/// Origin of a display on the extended desktop.
#[derive(Debug, PartialEq, Eq, Clone, Copy, Structural)]
pub struct DisplayDesktopPosition {
    /// Horizontal position of the display.
    pub x: i32,
    /// Vertical position of the display.
    pub y: i32,
}

/// Bounds of the whole extended desktop, independent of the individual displays.
#[derive(Debug, PartialEq, Eq, Clone, Copy, Structural)]
pub struct Desktop {
    /// Smallest resolution the desktop supports.
    pub min: DisplayResolution,
    /// Largest resolution the desktop supports.
    pub max: DisplayResolution,
    /// Current resolution of the desktop.
    pub current: DisplayResolution,
}

/// A resolution a display supports, with the refresh rates available in it.
///
/// The refresh rates keep the order in which they were added and hold no rate twice.
#[derive(Debug, PartialEq, Clone)]
pub struct DisplaySupportedResolution {
    /// Resolution supported by the display.
    pub resolution: DisplayResolution,
    /// True if the resolution is interlaced and not progressive.
    pub interlaced: bool,
    /// Refresh rates supported in that resolution.
    pub refresh_rates: Vec<DisplayRefreshRate>,
}

/// Mathematical model of a [`DisplaySupportedResolution`].
pub struct SupportedResolutionModel {
    pub resolution: DisplayResolution,
    pub interlaced: bool,
    pub refresh_rates: Seq<DisplayRefreshRate>,
}

/// Details of one display.
#[derive(Debug, PartialEq, Clone)]
pub struct Display {
    /// Handle of that display.
    pub handle: DisplayHandle,
    /// Identifier of that display.
    pub identifier: String,
    /// Physical size of the display in millimeters.
    pub size: DisplaySizeMM,
    /// Origin of that display on the extended desktop.
    pub position: DisplayDesktopPosition,
    /// Current resolution of that display.
    pub resolution: DisplayResolution,
    /// Current refresh rate of that display.
    pub refresh_rate: DisplayRefreshRate,
    /// True if this is the primary display.
    pub primary: bool,
    /// Resolutions the display supports, with their refresh rates.
    pub supported: Vec<DisplaySupportedResolution>,
}

/// Mathematical model of a [`Display`].
pub struct DisplayModel {
    pub handle: DisplayHandle,
    pub identifier: Seq<char>,
    pub size: DisplaySizeMM,
    pub position: DisplayDesktopPosition,
    pub resolution: DisplayResolution,
    pub refresh_rate: DisplayRefreshRate,
    pub primary: bool,
    pub supported: Seq<SupportedResolutionModel>,
}

/// The displays available to show a window on, and the desktop they span.
#[derive(Debug)]
pub struct Displays {
    /// The displays, in enumeration order.
    pub list: Vec<Display>,
    /// Desktop information, if the platform reported any.
    pub desktop: Option<Desktop>,
}

/// Mathematical model of a [`Displays`] snapshot.
pub struct DisplaysModel {
    pub list: Seq<DisplayModel>,
    pub desktop: Option<Desktop>,
}

/// `rates` with `rate` added at the end, unless it is already there.
pub open spec fn with_rate(rates: Seq<DisplayRefreshRate>, rate: DisplayRefreshRate) -> Seq<
    DisplayRefreshRate,
> {
    if rates.contains(rate) {
        rates
    } else {
        rates.push(rate)
    }
}

/// Index of the first display flagged primary, if there is one.
pub open spec fn first_primary(list: Seq<DisplayModel>) -> Option<int>
    decreases list.len(),
{
    if list.len() == 0 {
        None
    } else if list[0].primary {
        Some(0)
    } else {
        match first_primary(list.drop_first()) {
            Some(i) => Some(i + 1),
            None => None,
        }
    }
}

/// `first_primary` names a primary display before which none is primary, or says that none is.
pub proof fn lemma_first_primary(list: Seq<DisplayModel>)
    ensures
        match first_primary(list) {
            Some(i) => 0 <= i < list.len() && list[i].primary && forall|j: int|
                0 <= j < i ==> !(#[trigger] list[j]).primary,
            None => forall|j: int| 0 <= j < list.len() ==> !(#[trigger] list[j]).primary,
        },
    decreases list.len(),
{
    if list.len() > 0 && !list[0].primary {
        let rest = list.drop_first();
        lemma_first_primary(rest);
        match first_primary(rest) {
            Some(i) => {
                assert forall|j: int| 0 <= j < i + 1 implies !(#[trigger] list[j]).primary by {
                    if j > 0 {
                        assert(list[j] == rest[j - 1]);
                    }
                }
            },
            None => {
                assert forall|j: int| 0 <= j < list.len() implies !(#[trigger] list[j]).primary by {
                    if j > 0 {
                        assert(list[j] == rest[j - 1]);
                    }
                }
            },
        }
    }
}

impl View for DisplaySupportedResolution {
    type V = SupportedResolutionModel;

    open spec fn view(&self) -> SupportedResolutionModel {
        SupportedResolutionModel {
            resolution: self.resolution,
            interlaced: self.interlaced,
            refresh_rates: self.refresh_rates@,
        }
    }
}

impl View for Display {
    type V = DisplayModel;

    open spec fn view(&self) -> DisplayModel {
        DisplayModel {
            handle: self.handle,
            identifier: self.identifier@,
            size: self.size,
            position: self.position,
            resolution: self.resolution,
            refresh_rate: self.refresh_rate,
            primary: self.primary,
            supported: Seq::new(self.supported@.len(), |i: int| self.supported@[i]@),
        }
    }
}

impl View for Displays {
    type V = DisplaysModel;

    open spec fn view(&self) -> DisplaysModel {
        DisplaysModel {
            list: Seq::new(self.list@.len(), |i: int| self.list@[i]@),
            desktop: self.desktop,
        }
    }
}

impl DisplaySupportedResolution {
    /// True if no refresh rate is listed twice. A resolution made by
    /// [`DisplaySupportedResolution::new`] and filled by
    /// [`DisplaySupportedResolution::add_refresh_rate`] is well formed.
    pub open spec fn well_formed(&self) -> bool {
        self.refresh_rates@.no_duplicates()
    }

    /// A supported resolution without any refresh rate yet.
    pub fn new(resolution: DisplayResolution, interlaced: bool) -> (out: DisplaySupportedResolution)
        ensures
            out@ == (SupportedResolutionModel {
                resolution,
                interlaced,
                refresh_rates: Seq::empty(),
            }),
            out.well_formed(),
    {
        DisplaySupportedResolution { resolution, interlaced, refresh_rates: Vec::new() }
    }

    /// Adds a refresh rate to the resolution; a rate that is already there is not added again.
    pub fn add_refresh_rate(&mut self, rate: DisplayRefreshRate)
        ensures
            final(self)@ == (SupportedResolutionModel {
                refresh_rates: with_rate(old(self)@.refresh_rates, rate),
                ..old(self)@
            }),
            old(self).well_formed() ==> final(self).well_formed(),
    {
        let mut i: usize = 0;
        while i < self.refresh_rates.len()
            invariant
                *self == *old(self),
                i <= self.refresh_rates@.len(),
                forall|j: int| 0 <= j < i ==> self.refresh_rates@[j] != rate,
            decreases self.refresh_rates@.len() - i,
        {
            if self.refresh_rates[i] == rate {
                return;
            }
            i += 1;
        }
        self.refresh_rates.push(rate);
    }
}

impl Displays {
    /// A topology made of a list of displays and the desktop information.
    pub fn create(list: Vec<Display>, desktop: Option<Desktop>) -> (out: Displays)
        ensures
            out.list == list,
            out.desktop == desktop,
    {
        Displays { list, desktop }
    }

    /// The primary display: the first one flagged primary, or `None` if no display is.
    pub fn primary(&self) -> (out: Option<&Display>)
        ensures
            match first_primary(self@.list) {
                Some(i) => out == Some(&self.list@[i]),
                None => out is None,
            },
    {
        let mut i: usize = 0;
        while i < self.list.len()
            invariant
                i <= self.list@.len(),
                forall|j: int| 0 <= j < i ==> !(#[trigger] self@.list[j]).primary,
            decreases self.list@.len() - i,
        {
            if self.list[i].primary {
                proof {
                    lemma_first_primary(self@.list);
                    assert(self@.list[i as int].primary);
                }
                return Some(&self.list[i]);
            }
            i += 1;
        }
        proof {
            lemma_first_primary(self@.list);
        }
        None
    }
}

} // verus!
