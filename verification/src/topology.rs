//! Reading a display enumeration report into a topology.
//!
//! The report is made of lines of three kinds: one that summarises the desktop, one that opens
//! a display, and one that lists a resolution the last opened display supports together with
//! its refresh rates. The lines are read in order; a report with a line that cannot be read
//! gives no topology at all.

use vstd::prelude::*;
use vstd::string::StrSliceExecFns;
use crate::display::{
    with_rate, Desktop, Display, DisplayDesktopPosition, DisplayHandle, DisplayModel,
    DisplayRefreshRate, DisplayResolution, DisplaySizeMM, DisplaySupportedResolution, Displays,
    DisplaysModel, SupportedResolutionModel,
};
use crate::error::WindowError;
use crate::text::{
    blank, contains, contains_chars, copy_range, has_char, is_blank, lemma_split_nonempty, pieces,
    read_signed, read_unsigned, remove_char, replace_char, replaced, signed_of, split, split_chars,
    split_ranges, squeeze_spaces, squeezed, strip_suffix, to_chars, trim, trimmed, unsigned_of,
    without, without_suffix,
};

verus! {

/// What a line of the report is.
#[derive(Debug, PartialEq, Eq, Clone, Copy, Structural)]
pub enum LineKind {
    /// The summary of the whole desktop.
    Desktop,
    /// The header that opens a connected display.
    Header,
    /// A resolution supported by the last opened display.
    Mode,
    /// A blank line, or the header of a display that is not connected.
    Ignored,
}

/// A supported resolution as a line of the report gives it, with the refresh rate that the line
/// marks as the current one, if it marks any.
pub struct ModeLine {
    pub mode: SupportedResolutionModel,
    pub current: Option<DisplayRefreshRate>,
}

/// A supported resolution as read from a line of the report.
pub struct SupportedLine {
    /// The resolution with its refresh rates.
    pub mode: DisplaySupportedResolution,
    /// The refresh rate marked as the current one, if any is.
    pub current: Option<DisplayRefreshRate>,
}

impl View for SupportedLine {
    type V = ModeLine;

    open spec fn view(&self) -> ModeLine {
        ModeLine { mode: self.mode@, current: self.current }
    }
}

/// The kind of a line of the report.
pub open spec fn kind_of(line: Seq<char>) -> LineKind {
    if contains(line, "Screen"@) {
        LineKind::Desktop
    } else if contains(line, "disconnected"@) {
        LineKind::Ignored
    } else if contains(line, "connected"@) {
        LineKind::Header
    } else if is_blank(line) {
        LineKind::Ignored
    } else {
        LineKind::Mode
    }
}

/// The unsigned number, at most `max`, written by the piece at index `i`, if there is such a
/// piece and it writes one.
pub open spec fn number_at(tokens: Seq<Seq<char>>, i: int, max: nat) -> Option<nat> {
    if 0 <= i < tokens.len() {
        unsigned_of(tokens[i], max)
    } else {
        None
    }
}

/// The desktop that a summary line describes.
///
/// Once the commas are taken out and the line is cut at each space, the minimum resolution is
/// written by the pieces 3 and 5, the current one by the pieces 7 and 9 and the maximum one by
/// the pieces 11 and 13.
pub open spec fn desktop_of(line: Seq<char>) -> Option<Desktop> {
    let tokens = split(without(line, ','), ' ');
    let max = usize::MAX as nat;
    match (
        number_at(tokens, 3, max),
        number_at(tokens, 5, max),
        number_at(tokens, 7, max),
        number_at(tokens, 9, max),
        number_at(tokens, 11, max),
        number_at(tokens, 13, max),
    ) {
        (Some(a), Some(b), Some(c), Some(d), Some(e), Some(f)) => Some(
            Desktop {
                min: DisplayResolution { width: a as usize, height: b as usize },
                max: DisplayResolution { width: e as usize, height: f as usize },
                current: DisplayResolution { width: c as usize, height: d as usize },
            },
        ),
        _ => None,
    }
}

/// Index of the first piece, from index `from` on, that holds the character `c`; the number of
/// pieces when there is none.
pub open spec fn next_with(tokens: Seq<Seq<char>>, c: char, from: int) -> int
    decreases tokens.len() - from,
{
    if from < 0 || from >= tokens.len() {
        tokens.len() as int
    } else if tokens[from].contains(c) {
        from
    } else {
        next_with(tokens, c, from + 1)
    }
}

/// The length in millimeters written by the piece at index `i`: a number, with or without `mm`
/// behind it.
pub open spec fn millimeters_at(tokens: Seq<Seq<char>>, i: int) -> Option<nat> {
    if 0 <= i < tokens.len() {
        unsigned_of(without_suffix(tokens[i], "mm"@), usize::MAX as nat)
    } else {
        None
    }
}

/// Index of the piece of a header line that holds resolution and position together.
pub open spec fn geometry_index(line: Seq<char>) -> int {
    if contains(line, "primary"@) {
        3
    } else {
        2
    }
}

/// The display that a header line opens, under the handle `handle`.
///
/// The line is cut at each space. The first piece is the identifier. The piece after the word
/// that says the display is connected, or after the word that marks it primary, holds
/// `WxH+X+Y`: resolution and position. The physical size is written by the first and the third
/// piece behind the first later piece that holds a closing parenthesis.
pub open spec fn display_of(line: Seq<char>, handle: DisplayHandle) -> Option<DisplayModel> {
    let tokens = split(line, ' ');
    let at = geometry_index(line);
    if at >= tokens.len() {
        None
    } else {
        let block = split(replaced(tokens[at], '+', 'x'), 'x');
        let closing = next_with(tokens, ')', at + 1);
        let max = usize::MAX as nat;
        if block.len() < 4 {
            None
        } else {
            match (
                unsigned_of(block[0], max),
                unsigned_of(block[1], max),
                signed_of(block[2]),
                signed_of(block[3]),
                millimeters_at(tokens, closing + 1),
                millimeters_at(tokens, closing + 3),
            ) {
                (Some(w), Some(h), Some(x), Some(y), Some(mw), Some(mh)) => Some(
                    DisplayModel {
                        handle,
                        identifier: tokens[0],
                        size: DisplaySizeMM { width: mw as usize, height: mh as usize },
                        position: DisplayDesktopPosition { x: x as i32, y: y as i32 },
                        resolution: DisplayResolution { width: w as usize, height: h as usize },
                        refresh_rate: 0,
                        primary: contains(line, "primary"@),
                        supported: Seq::empty(),
                    },
                ),
                _ => None,
            }
        }
    }
}

/// The resolution written by the first piece of a mode line, and whether it is interlaced:
/// `WxH`, with an `i` behind it for an interlaced one.
pub open spec fn resolution_of(token: Seq<char>) -> Option<(DisplayResolution, bool)> {
    let interlaced = token.len() > 0 && token.last() == 'i';
    let body = if interlaced {
        token.drop_last()
    } else {
        token
    };
    let parts = split(body, 'x');
    let max = usize::MAX as nat;
    if parts.len() < 2 {
        None
    } else {
        match (unsigned_of(parts[0], max), unsigned_of(parts[1], max)) {
            (Some(w), Some(h)) => Some(
                (DisplayResolution { width: w as usize, height: h as usize }, interlaced),
            ),
            _ => None,
        }
    }
}

/// The refresh rate written by a piece of a mode line, once its marks `*` and `+` are taken out.
pub open spec fn rate_of(token: Seq<char>) -> Option<DisplayRefreshRate> {
    match unsigned_of(without(without(token, '*'), '+'), u32::MAX as nat) {
        Some(v) => Some(v as u32),
        None => None,
    }
}

/// The refresh rates written by the pieces from index `from` on, added in order to `rates`, and
/// the last of them that is marked with `*`, or `current` when none is.
pub open spec fn rates_from(
    tokens: Seq<Seq<char>>,
    from: int,
    rates: Seq<DisplayRefreshRate>,
    current: Option<DisplayRefreshRate>,
) -> Option<(Seq<DisplayRefreshRate>, Option<DisplayRefreshRate>)>
    decreases tokens.len() - from,
{
    if from < 0 || from >= tokens.len() {
        Some((rates, current))
    } else {
        match rate_of(tokens[from]) {
            Some(rate) => rates_from(
                tokens,
                from + 1,
                with_rate(rates, rate),
                if tokens[from].contains('*') {
                    Some(rate)
                } else {
                    current
                },
            ),
            None => None,
        }
    }
}

/// The pieces of a mode line: the line without the blanks around it and without any `.`, every
/// run of spaces reduced to one space, cut at each space.
pub open spec fn mode_tokens(line: Seq<char>) -> Seq<Seq<char>> {
    split(squeezed(without(trimmed(line), '.')), ' ')
}

/// The supported resolution that a mode line describes.
///
/// The first piece writes the resolution; each piece after it writes a refresh rate in
/// hundredths of a hertz. A rate is listed once, however often the line repeats it.
pub open spec fn mode_of(line: Seq<char>) -> Option<ModeLine> {
    let tokens = mode_tokens(line);
    match resolution_of(tokens[0]) {
        Some(found) => match rates_from(tokens, 1, Seq::empty(), None) {
            Some(read) => Some(
                ModeLine {
                    mode: SupportedResolutionModel {
                        resolution: found.0,
                        interlaced: found.1,
                        refresh_rates: read.0,
                    },
                    current: read.1,
                },
            ),
            None => None,
        },
        None => None,
    }
}

/// A display once a mode line was read for it: the resolution is added to those it supports,
/// and the rate that the line marks as current becomes its refresh rate.
pub open spec fn with_mode(display: DisplayModel, line: ModeLine) -> DisplayModel {
    DisplayModel {
        supported: display.supported.push(line.mode),
        refresh_rate: match line.current {
            Some(rate) => rate,
            None => display.refresh_rate,
        },
        ..display
    }
}

/// The topology once one more line was read, or `None` if the line cannot be read.
///
/// A mode line belongs to the display opened last: before any display is opened it cannot be
/// read.
pub open spec fn after_line(state: DisplaysModel, line: Seq<char>) -> Option<DisplaysModel> {
    match kind_of(line) {
        LineKind::Desktop => match desktop_of(line) {
            Some(desktop) => Some(DisplaysModel { desktop: Some(desktop), ..state }),
            None => None,
        },
        LineKind::Header => match display_of(line, state.list.len() as usize) {
            Some(display) => if state.list.len() < usize::MAX {
                Some(DisplaysModel { list: state.list.push(display), ..state })
            } else {
                None
            },
            None => None,
        },
        LineKind::Mode => match mode_of(line) {
            Some(mode) => if state.list.len() > 0 {
                let last = state.list.len() - 1;
                Some(
                    DisplaysModel {
                        list: state.list.update(last, with_mode(state.list[last], mode)),
                        ..state
                    },
                )
            } else {
                None
            },
            None => None,
        },
        LineKind::Ignored => Some(state),
    }
}

/// The topology once the lines from index `from` on were read in order.
pub open spec fn after_lines(state: DisplaysModel, lines: Seq<Seq<char>>, from: int) -> Option<
    DisplaysModel,
>
    decreases lines.len() - from,
{
    if from < 0 || from >= lines.len() {
        Some(state)
    } else {
        match after_line(state, lines[from]) {
            Some(next) => after_lines(next, lines, from + 1),
            None => None,
        }
    }
}

/// The topology without any display or desktop.
pub open spec fn empty_topology() -> DisplaysModel {
    DisplaysModel { list: Seq::empty(), desktop: None }
}

/// The topology that a report describes, or `None` if one of its lines cannot be read.
pub open spec fn topology_of(text: Seq<char>) -> Option<DisplaysModel> {
    after_lines(empty_topology(), split(text, '\n'), 0)
}

/// True if no supported resolution of the topology lists a refresh rate twice.
pub open spec fn rates_unique(topology: DisplaysModel) -> bool {
    forall|i: int, j: int|
        0 <= i < topology.list.len() && 0 <= j < topology.list[i].supported.len() ==> (
        #[trigger] topology.list[i].supported[j]).refresh_rates.no_duplicates()
}

/// True if the handle of every display of the topology is its index in the list.
pub open spec fn handles_indexed(topology: DisplaysModel) -> bool {
    forall|i: int| 0 <= i < topology.list.len() ==> (#[trigger] topology.list[i]).handle == i
}

/// Reading lines leaves the handle of every display its index in the list.
pub proof fn lemma_after_lines_indexed(state: DisplaysModel, lines: Seq<Seq<char>>, from: int)
    requires
        handles_indexed(state),
    ensures
        after_lines(state, lines, from) matches Some(end) ==> handles_indexed(end),
    decreases lines.len() - from,
{
    if 0 <= from < lines.len() {
        match after_line(state, lines[from]) {
            Some(next) => {
                lemma_after_lines_indexed(next, lines, from + 1);
            },
            None => {},
        }
    }
}

/// In the topology that a report describes, the handle of every display is its index in the
/// list of displays.
pub proof fn lemma_topology_handles_indexed(text: Seq<char>)
    ensures
        topology_of(text) matches Some(topology) ==> handles_indexed(topology),
{
    lemma_after_lines_indexed(empty_topology(), split(text, '\n'), 0);
}

/// Adding a rate to rates that are all different leaves them all different.
pub proof fn lemma_with_rate_unique(rates: Seq<DisplayRefreshRate>, rate: DisplayRefreshRate)
    requires
        rates.no_duplicates(),
    ensures
        with_rate(rates, rate).no_duplicates(),
{
}

/// The rates read from a line are all different when those read before were.
pub proof fn lemma_rates_from_unique(
    tokens: Seq<Seq<char>>,
    from: int,
    rates: Seq<DisplayRefreshRate>,
    current: Option<DisplayRefreshRate>,
)
    requires
        rates.no_duplicates(),
    ensures
        rates_from(tokens, from, rates, current) matches Some(read) ==> read.0.no_duplicates(),
    decreases tokens.len() - from,
{
    if 0 <= from < tokens.len() {
        match rate_of(tokens[from]) {
            Some(rate) => {
                lemma_with_rate_unique(rates, rate);
                lemma_rates_from_unique(
                    tokens,
                    from + 1,
                    with_rate(rates, rate),
                    if tokens[from].contains('*') {
                        Some(rate)
                    } else {
                        current
                    },
                );
            },
            None => {},
        }
    }
}

/// Reading one more line leaves the refresh rates of every supported resolution all different.
pub proof fn lemma_after_line_unique(state: DisplaysModel, line: Seq<char>)
    requires
        rates_unique(state),
    ensures
        after_line(state, line) matches Some(next) ==> rates_unique(next),
{
    if kind_of(line) == LineKind::Mode {
        lemma_rates_from_unique(mode_tokens(line), 1, Seq::empty(), None);
    }
}

/// Reading lines leaves the refresh rates of every supported resolution all different.
pub proof fn lemma_after_lines_unique(state: DisplaysModel, lines: Seq<Seq<char>>, from: int)
    requires
        rates_unique(state),
    ensures
        after_lines(state, lines, from) matches Some(end) ==> rates_unique(end),
    decreases lines.len() - from,
{
    if 0 <= from < lines.len() {
        lemma_after_line_unique(state, lines[from]);
        match after_line(state, lines[from]) {
            Some(next) => {
                lemma_after_lines_unique(next, lines, from + 1);
            },
            None => {},
        }
    }
}

/// In the topology that a report describes, no supported resolution lists a refresh rate twice,
/// however often the report repeats a rate for a resolution.
pub proof fn lemma_topology_rates_unique(text: Seq<char>)
    ensures
        topology_of(text) matches Some(topology) ==> rates_unique(topology),
{
    lemma_after_lines_unique(empty_topology(), split(text, '\n'), 0);
}

/// The kind of a line of the report.
pub fn line_kind(line: &Vec<char>) -> (out: LineKind)
    ensures
        out == kind_of(line@),
{
    let desktop_mark = to_chars("Screen");
    let absent_mark = to_chars("disconnected");
    let present_mark = to_chars("connected");
    if contains_chars(line, &desktop_mark) {
        LineKind::Desktop
    } else if contains_chars(line, &absent_mark) {
        LineKind::Ignored
    } else if contains_chars(line, &present_mark) {
        LineKind::Header
    } else if blank(line) {
        LineKind::Ignored
    } else {
        LineKind::Mode
    }
}

/// Reads the piece at index `i` as a number of pixels.
fn read_size_at(tokens: &Vec<Vec<char>>, i: usize) -> (out: Option<usize>)
    ensures
        match number_at(pieces(tokens@), i as int, usize::MAX as nat) {
            Some(v) => out == Some(v as usize) && v == v as usize,
            None => out is None,
        },
{
    if i < tokens.len() {
        match read_unsigned(&tokens[i], usize::MAX as u64) {
            Some(v) => Some(v as usize),
            None => None,
        }
    } else {
        None
    }
}

/// Reads the piece at index `i` as a length in millimeters.
fn read_millimeters_at(tokens: &Vec<Vec<char>>, i: usize) -> (out: Option<usize>)
    ensures
        match millimeters_at(pieces(tokens@), i as int) {
            Some(v) => out == Some(v as usize) && v == v as usize,
            None => out is None,
        },
{
    if i < tokens.len() {
        let unit = to_chars("mm");
        let number = strip_suffix(&tokens[i], &unit);
        match read_unsigned(&number, usize::MAX as u64) {
            Some(v) => Some(v as usize),
            None => None,
        }
    } else {
        None
    }
}

/// Index of the first piece, from index `from` on, that holds the character `c`.
fn find_with(tokens: &Vec<Vec<char>>, c: char, from: usize) -> (out: usize)
    ensures
        out == next_with(pieces(tokens@), c, from as int),
        out <= tokens@.len(),
{
    if from >= tokens.len() {
        return tokens.len();
    }
    let mut i: usize = from;
    while i < tokens.len()
        invariant
            from <= i <= tokens@.len(),
            next_with(pieces(tokens@), c, from as int) == next_with(pieces(tokens@), c, i as int),
        decreases tokens@.len() - i,
    {
        if has_char(&tokens[i], c) {
            return i;
        }
        i += 1;
    }
    i
}

/// Reads a summary line.
fn desktop_from(line: &Vec<char>) -> (out: Option<Desktop>)
    ensures
        out == desktop_of(line@),
{
    let cleaned = remove_char(line, ',');
    let tokens = split_chars(&cleaned, ' ');
    let min_width = read_size_at(&tokens, 3);
    let min_height = read_size_at(&tokens, 5);
    let width = read_size_at(&tokens, 7);
    let height = read_size_at(&tokens, 9);
    let max_width = read_size_at(&tokens, 11);
    let max_height = read_size_at(&tokens, 13);
    match (min_width, min_height, width, height, max_width, max_height) {
        (Some(a), Some(b), Some(c), Some(d), Some(e), Some(f)) => Some(
            Desktop {
                min: DisplayResolution { width: a, height: b },
                max: DisplayResolution { width: e, height: f },
                current: DisplayResolution { width: c, height: d },
            },
        ),
        _ => None,
    }
}

/// Reads a header line, whose characters are `chars`.
fn display_from(line: &str, chars: &Vec<char>, handle: DisplayHandle) -> (out: Option<Display>)
    requires
        chars@ == line@,
    ensures
        match display_of(line@, handle) {
            Some(display) => out is Some && out->0@ == display,
            None => out is None,
        },
{
    let primary_mark = to_chars("primary");
    let primary = contains_chars(chars, &primary_mark);
    let at: usize = if primary {
        3
    } else {
        2
    };
    let tokens = split_chars(chars, ' ');
    if at >= tokens.len() {
        return None;
    }
    let joined = replace_char(&tokens[at], '+', 'x');
    let block = split_chars(&joined, 'x');
    if block.len() < 4 {
        return None;
    }
    let closing = find_with(&tokens, ')', at + 1);
    let width = read_size_at(&block, 0);
    let height = read_size_at(&block, 1);
    let x = read_signed(&block[2]);
    let y = read_signed(&block[3]);
    if closing >= tokens.len() || tokens.len() - closing <= 3 {
        return None;
    }
    let size_width = read_millimeters_at(&tokens, closing + 1);
    let size_height = read_millimeters_at(&tokens, closing + 3);
    match (width, height, x, y, size_width, size_height) {
        (Some(w), Some(h), Some(x), Some(y), Some(mw), Some(mh)) => {
            let ranges = split_ranges(chars, ' ');
            proof {
                lemma_split_nonempty(chars@, ' ');
            }
            let first = ranges[0];
            let identifier = line.substring_char(first.0, first.1).to_owned();
            let display = Display {
                handle,
                identifier,
                size: DisplaySizeMM { width: mw, height: mh },
                position: DisplayDesktopPosition { x, y },
                resolution: DisplayResolution { width: w, height: h },
                refresh_rate: 0,
                primary,
                supported: Vec::new(),
            };
            assert(display@.supported =~= Seq::empty());
            Some(display)
        },
        _ => None,
    }
}

/// Reads the first piece of a mode line.
fn resolution_from(token: &Vec<char>) -> (out: Option<(DisplayResolution, bool)>)
    ensures
        out == resolution_of(token@),
{
    let interlaced = token.len() > 0 && token[token.len() - 1] == 'i';
    let body = if interlaced {
        copy_range(token, 0, token.len() - 1)
    } else {
        copy_range(token, 0, token.len())
    };
    assert(body@ =~= if interlaced {
        token@.drop_last()
    } else {
        token@
    });
    let parts = split_chars(&body, 'x');
    if parts.len() < 2 {
        return None;
    }
    match (read_size_at(&parts, 0), read_size_at(&parts, 1)) {
        (Some(w), Some(h)) => Some((DisplayResolution { width: w, height: h }, interlaced)),
        _ => None,
    }
}

/// Reads a piece of a mode line as a refresh rate.
fn rate_from(token: &Vec<char>) -> (out: Option<DisplayRefreshRate>)
    ensures
        out == rate_of(token@),
{
    let unstarred = remove_char(token, '*');
    let bare = remove_char(&unstarred, '+');
    match read_unsigned(&bare, 4294967295) {
        Some(v) => Some(v as u32),
        None => None,
    }
}

/// Reads a mode line.
fn mode_from(line: &Vec<char>) -> (out: Option<SupportedLine>)
    ensures
        match mode_of(line@) {
            Some(read) => out is Some && out->0@ == read,
            None => out is None,
        },
{
    let stripped = trim(line);
    let undotted = remove_char(&stripped, '.');
    let cleaned = squeeze_spaces(&undotted);
    let tokens = split_chars(&cleaned, ' ');
    proof {
        lemma_split_nonempty(cleaned@, ' ');
    }
    let found = match resolution_from(&tokens[0]) {
        Some(found) => found,
        None => {
            return None;
        },
    };
    let mut mode = DisplaySupportedResolution::new(found.0, found.1);
    let mut current: Option<DisplayRefreshRate> = None;
    let ghost all = pieces(tokens@);
    let mut k: usize = 1;
    while k < tokens.len()
        invariant
            1 <= k <= tokens@.len(),
            all == pieces(tokens@),
            all == mode_tokens(line@),
            resolution_of(all[0]) == Some(found),
            mode.resolution == found.0,
            mode.interlaced == found.1,
            rates_from(all, k as int, mode.refresh_rates@, current) == rates_from(
                all,
                1,
                Seq::empty(),
                None,
            ),
        decreases tokens@.len() - k,
    {
        match rate_from(&tokens[k]) {
            Some(rate) => {
                if has_char(&tokens[k], '*') {
                    current = Some(rate);
                }
                mode.add_refresh_rate(rate);
            },
            None => {
                return None;
            },
        }
        k += 1;
    }
    Some(SupportedLine { mode, current })
}

/// Reads the summary line of the desktop.
///
/// Fails with [`WindowError::DisplayInformationError`] when one of the six resolutions numbers
/// is missing or is not a number.
pub fn fetch_desktop(line: &str) -> (out: Result<Desktop, WindowError>)
    ensures
        match desktop_of(line@) {
            Some(desktop) => out == Ok::<Desktop, WindowError>(desktop),
            None => out == Err::<Desktop, WindowError>(WindowError::DisplayInformationError),
        },
{
    let chars = to_chars(line);
    match desktop_from(&chars) {
        Some(desktop) => Ok(desktop),
        None => Err(WindowError::DisplayInformationError),
    }
}

/// Reads the header line of a connected display, which gets the handle `handle`.
///
/// The display starts with a refresh rate of 0 and without supported resolutions. Fails with
/// [`WindowError::DisplayInformationError`] when resolution, position or physical size is
/// missing or is not a number.
pub fn fetch_display(line: &str, handle: DisplayHandle) -> (out: Result<Display, WindowError>)
    ensures
        match display_of(line@, handle) {
            Some(display) => out is Ok && out->Ok_0@ == display,
            None => out == Err::<Display, WindowError>(WindowError::DisplayInformationError),
        },
{
    let chars = to_chars(line);
    match display_from(line, &chars, handle) {
        Some(display) => Ok(display),
        None => Err(WindowError::DisplayInformationError),
    }
}

/// Reads a mode line into `display`: the resolution is added to those the display supports, and
/// a refresh rate marked with `*` becomes the refresh rate of the display.
///
/// Fails with [`WindowError::DisplayInformationError`], and leaves `display` as it was, when
/// the resolution or one of the refresh rates is not a number.
pub fn fetch_supported(display: &mut Display, line: &str) -> (out: Result<(), WindowError>)
    ensures
        match mode_of(line@) {
            Some(read) => out is Ok && final(display)@ == with_mode(old(display)@, read),
            None => out == Err::<(), WindowError>(WindowError::DisplayInformationError)
                && *final(display) == *old(display),
        },
{
    let chars = to_chars(line);
    match mode_from(&chars) {
        Some(read) => {
            display.supported.push(read.mode);
            match read.current {
                Some(rate) => {
                    display.refresh_rate = rate;
                },
                None => {},
            }
            assert(display@.supported =~= old(display)@.supported.push(mode_of(line@)->0.mode));
            Ok(())
        },
        None => Err(WindowError::DisplayInformationError),
    }
}

/// Reads a display enumeration report into a topology.
///
/// The lines are read in order. A summary line sets the desktop; a header line opens a display,
/// whose handle is its index in the list; a mode line adds a supported resolution to the
/// display opened last. Blank lines and the headers of displays that are not connected are
/// passed over. Fails with [`WindowError::DisplayInformationError`] when a line cannot be read,
/// or when a mode line comes before any display was opened: no part of a topology is returned
/// then. No supported resolution of the result lists a refresh rate twice, and the handle of
/// every display is its index in the list.
pub fn build_topology(text: &str) -> (out: Result<Displays, WindowError>)
    ensures
        match topology_of(text@) {
            Some(topology) => out is Ok && out->Ok_0@ == topology && rates_unique(topology)
                && handles_indexed(topology),
            None => out == Err::<Displays, WindowError>(WindowError::DisplayInformationError),
        },
{
    proof {
        lemma_topology_rates_unique(text@);
        lemma_topology_handles_indexed(text@);
    }
    let chars = to_chars(text);
    let ranges = split_ranges(&chars, '\n');
    let ghost lines = split(text@, '\n');
    let mut list: Vec<Display> = Vec::new();
    let mut desktop: Option<Desktop> = None;
    let ghost mut state = empty_topology();
    let mut k: usize = 0;
    while k < ranges.len()
        invariant
            k <= ranges@.len(),
            chars@ == text@,
            lines == split(text@, '\n'),
            ranges@.len() == lines.len(),
            forall|j: int|
                0 <= j < ranges@.len() ==> (#[trigger] ranges@[j]).0 <= ranges@[j].1 <= chars@.len()
                    && chars@.subrange(ranges@[j].0 as int, ranges@[j].1 as int) == lines[j],
            state.list == Seq::new(list@.len(), |i: int| list@[i]@),
            state.desktop == desktop,
            after_lines(state, lines, k as int) == topology_of(text@),
        decreases ranges@.len() - k,
    {
        let range = ranges[k];
        let line = text.substring_char(range.0, range.1);
        let line_chars = copy_range(&chars, range.0, range.1);
        match line_kind(&line_chars) {
            LineKind::Desktop => match desktop_from(&line_chars) {
                Some(found) => {
                    desktop = Some(found);
                    proof {
                        state = DisplaysModel { desktop: Some(found), ..state };
                    }
                },
                None => {
                    return Err(WindowError::DisplayInformationError);
                },
            },
            LineKind::Header => {
                let handle = list.len();
                match display_from(line, &line_chars, handle) {
                    Some(display) => {
                        if handle == usize::MAX {
                            return Err(WindowError::DisplayInformationError);
                        }
                        proof {
                            state = DisplaysModel { list: state.list.push(display@), ..state };
                        }
                        list.push(display);
                    },
                    None => {
                        return Err(WindowError::DisplayInformationError);
                    },
                }
            },
            LineKind::Mode => match mode_from(&line_chars) {
                Some(read) => {
                    match list.pop() {
                        Some(last) => {
                            let mut last = last;
                            let ghost before = last@;
                            last.supported.push(read.mode);
                            match read.current {
                                Some(rate) => {
                                    last.refresh_rate = rate;
                                },
                                None => {},
                            }
                            assert(last@.supported =~= before.supported.push(
                                mode_of(line@)->0.mode,
                            ));
                            proof {
                                let at = state.list.len() - 1;
                                state = DisplaysModel {
                                    list: state.list.update(
                                        at,
                                        with_mode(state.list[at], mode_of(line@)->0),
                                    ),
                                    ..state
                                };
                            }
                            list.push(last);
                        },
                        None => {
                            return Err(WindowError::DisplayInformationError);
                        },
                    }
                },
                None => {
                    return Err(WindowError::DisplayInformationError);
                },
            },
            LineKind::Ignored => {},
        }
        k += 1;
    }
    let topology = Displays::create(list, desktop);
    Ok(topology)
}

} // verus!
