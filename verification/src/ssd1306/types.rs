//! Value types, configuration and errors of the SSD1306 driver.
use core::marker::PhantomData;

use vstd::prelude::*;
use vstd::string::StringExecFns;

use crate::ssd1306::size::DisplaySize;

verus! {

const DEFAULT_ADDRESS: u8 = 0x3C;

const ALTERNATE_ADDRESS: u8 = 0x3D;

const MAX_DISPLAY_OFFSET: u8 = 63;

const DEFAULT_CONTRAST: u8 = 0x7F;

/// SSD1306 I2C address selection: `0x3C` or `0x3D`.
#[derive(Debug, Copy, Clone, PartialEq, Eq)]
pub struct Address(u8);

impl Address {
    #[verifier::type_invariant]
    spec fn supported(self) -> bool {
        self.0 == DEFAULT_ADDRESS || self.0 == ALTERNATE_ADDRESS
    }

    /// The 7-bit address this value selects.
    pub closed spec fn value(self) -> u8 {
        self.0
    }

    /// `0x3C`, the most common SSD1306 I2C address.
    pub fn default_address() -> (r: Self)
        ensures
            r.value() == 0x3C,
    {
        Address(DEFAULT_ADDRESS)
    }

    /// `0x3D`, the alternate SSD1306 I2C address.
    pub fn alternate_address() -> (r: Self)
        ensures
            r.value() == 0x3D,
    {
        Address(ALTERNATE_ADDRESS)
    }

    /// Creates an address from a supported 7-bit display address.
    pub fn custom(address: u8) -> (r: Option<Self>)
        ensures
            r is Some <==> (address == 0x3C || address == 0x3D),
            r matches Some(a) ==> a.value() == address,
    {
        if address == DEFAULT_ADDRESS || address == ALTERNATE_ADDRESS {
            Some(Address(address))
        } else {
            None
        }
    }

    /// Returns the 7-bit I2C address.
    pub fn as_u8(self) -> (r: u8)
        ensures
            r == self.value(),
            r == 0x3C || r == 0x3D,
    {
        proof {
            use_type_invariant(&self);
        }
        self.0
    }
}

impl Default for Address {
    fn default() -> (r: Self)
        ensures
            r.value() == 0x3C,
    {
        Address::default_address()
    }
}

/// SSD1306 page address (a band of 8 rows) for the selected panel size.
#[derive(Debug, PartialEq, Eq)]
pub struct Page<SIZE> {
    value: u8,
    _size: PhantomData<SIZE>,
}

impl<SIZE> Clone for Page<SIZE> {
    fn clone(&self) -> (r: Self)
        ensures
            r == *self,
    {
        *self
    }
}

impl<SIZE> Copy for Page<SIZE> {

}

impl<SIZE> Page<SIZE> {
    /// The page index.
    pub closed spec fn value(self) -> u8 {
        self.value
    }
}

impl<SIZE: DisplaySize> Page<SIZE> {
    /// Creates a page index in the panel's page range.
    pub fn new(page: u8) -> (r: Option<Self>)
        ensures
            r is Some <==> page < SIZE::spec_height() / 8,
            r matches Some(p) ==> p.value() == page,
    {
        if page < SIZE::height() / 8 {
            Some(Page { value: page, _size: PhantomData })
        } else {
            None
        }
    }

    /// Returns the first page.
    pub fn first() -> (r: Self)
        ensures
            r.value() == 0,
    {
        Page { value: 0, _size: PhantomData }
    }

    /// Returns the last page of the panel.
    pub fn last() -> (r: Self)
        ensures
            r.value() == SIZE::spec_height() / 8 - 1,
    {
        proof {
            SIZE::lemma_geometry();
        }
        Page { value: SIZE::height() / 8 - 1, _size: PhantomData }
    }

    /// Returns the raw page index.
    pub fn as_u8(self) -> (r: u8)
        ensures
            r == self.value(),
    {
        self.value
    }
}

/// Inclusive SSD1306 page range used by hardware scrolling commands.
#[derive(Debug, PartialEq, Eq)]
pub struct PageRange<SIZE> {
    start: Page<SIZE>,
    end: Page<SIZE>,
}

impl<SIZE> Clone for PageRange<SIZE> {
    fn clone(&self) -> (r: Self)
        ensures
            r == *self,
    {
        *self
    }
}

impl<SIZE> Copy for PageRange<SIZE> {

}

impl<SIZE> PageRange<SIZE> {
    /// The first page of the range.
    pub closed spec fn first_page(self) -> Page<SIZE> {
        self.start
    }

    /// The last page of the range.
    pub closed spec fn last_page(self) -> Page<SIZE> {
        self.end
    }
}

impl<SIZE: DisplaySize> PageRange<SIZE> {
    /// Creates an inclusive page range; `None` unless `start <= end`.
    pub fn new(start: Page<SIZE>, end: Page<SIZE>) -> (r: Option<Self>)
        ensures
            r is Some <==> start.value() <= end.value(),
            r matches Some(range) ==> range.first_page() == start && range.last_page() == end,
    {
        if start.as_u8() <= end.as_u8() {
            Some(PageRange { start, end })
        } else {
            None
        }
    }

    /// Returns a range that covers the whole panel height.
    pub fn whole_display() -> (r: Self)
        ensures
            r.first_page().value() == 0,
            r.last_page().value() == SIZE::spec_height() / 8 - 1,
    {
        PageRange { start: Page::first(), end: Page::last() }
    }

    /// Returns the starting page.
    pub fn start(self) -> (r: Page<SIZE>)
        ensures
            r == self.first_page(),
    {
        self.start
    }

    /// Returns the ending page.
    pub fn end(self) -> (r: Page<SIZE>)
        ensures
            r == self.last_page(),
    {
        self.end
    }
}

/// Display line (start line or vertical scroll offset) for the selected panel size.
#[derive(Debug, PartialEq, Eq)]
pub struct DisplayLine<SIZE> {
    value: u8,
    _size: PhantomData<SIZE>,
}

impl<SIZE> Clone for DisplayLine<SIZE> {
    fn clone(&self) -> (r: Self)
        ensures
            r == *self,
    {
        *self
    }
}

impl<SIZE> Copy for DisplayLine<SIZE> {

}

impl<SIZE> DisplayLine<SIZE> {
    /// The line number.
    pub closed spec fn value(self) -> u8 {
        self.value
    }
}

impl<SIZE: DisplaySize> DisplayLine<SIZE> {
    /// Creates a display line; `None` unless it is below the panel height.
    pub fn new(line: u8) -> (r: Option<Self>)
        ensures
            r is Some <==> line < SIZE::spec_height(),
            r matches Some(l) ==> l.value() == line,
    {
        if line < SIZE::height() {
            Some(DisplayLine { value: line, _size: PhantomData })
        } else {
            None
        }
    }

    /// Returns line 0.
    pub fn zero() -> (r: Self)
        ensures
            r.value() == 0,
    {
        DisplayLine { value: 0, _size: PhantomData }
    }

    /// Returns the raw line value.
    pub fn as_u8(self) -> (r: u8)
        ensures
            r == self.value(),
    {
        self.value
    }
}

/// Raw SSD1306 display-offset register value in COM lines (`0..=63`).
#[derive(Debug, Copy, Clone, PartialEq, Eq)]
pub struct DisplayOffset {
    value: u8,
}

impl DisplayOffset {
    /// The offset in COM lines.
    pub closed spec fn value(self) -> u8 {
        self.value
    }

    /// Creates a display offset; `None` unless it is at most 63.
    pub fn new(offset: u8) -> (r: Option<Self>)
        ensures
            r is Some <==> offset <= 63,
            r matches Some(o) ==> o.value() == offset,
    {
        if offset <= MAX_DISPLAY_OFFSET {
            Some(DisplayOffset { value: offset })
        } else {
            None
        }
    }

    /// Returns offset 0.
    pub fn zero() -> (r: Self)
        ensures
            r.value() == 0,
    {
        DisplayOffset { value: 0 }
    }

    /// Returns the raw display-offset register value.
    pub fn as_u8(self) -> (r: u8)
        ensures
            r == self.value(),
    {
        self.value
    }
}

/// Number of panel rows (`0..=HEIGHT`) for the selected display size.
#[derive(Debug, PartialEq, Eq)]
pub struct RowCount<SIZE> {
    value: u8,
    _size: PhantomData<SIZE>,
}

impl<SIZE> Clone for RowCount<SIZE> {
    fn clone(&self) -> (r: Self)
        ensures
            r == *self,
    {
        *self
    }
}

impl<SIZE> Copy for RowCount<SIZE> {

}

impl<SIZE> RowCount<SIZE> {
    /// The number of rows.
    pub closed spec fn value(self) -> u8 {
        self.value
    }
}

impl<SIZE: DisplaySize> RowCount<SIZE> {
    /// Creates a row count; `None` unless it is at most the panel height.
    pub fn new(rows: u8) -> (r: Option<Self>)
        ensures
            r is Some <==> rows <= SIZE::spec_height(),
            r matches Some(c) ==> c.value() == rows,
    {
        if rows <= SIZE::height() {
            Some(RowCount { value: rows, _size: PhantomData })
        } else {
            None
        }
    }

    /// Returns a zero-row count.
    pub fn zero() -> (r: Self)
        ensures
            r.value() == 0,
    {
        RowCount { value: 0, _size: PhantomData }
    }

    /// Returns a row count covering the whole panel height.
    pub fn whole_display() -> (r: Self)
        ensures
            r.value() == SIZE::spec_height(),
    {
        RowCount { value: SIZE::height(), _size: PhantomData }
    }

    /// Returns the raw row count.
    pub fn as_u8(self) -> (r: u8)
        ensures
            r == self.value(),
    {
        self.value
    }
}

/// Vertical scroll area for continuous diagonal scrolling: a band of fixed
/// rows at the top, then the scrolling rows.
#[derive(Debug, PartialEq, Eq)]
pub struct VerticalScrollArea<SIZE> {
    top_fixed_rows: RowCount<SIZE>,
    scroll_rows: RowCount<SIZE>,
}

impl<SIZE> Clone for VerticalScrollArea<SIZE> {
    fn clone(&self) -> (r: Self)
        ensures
            r == *self,
    {
        *self
    }
}

impl<SIZE> Copy for VerticalScrollArea<SIZE> {

}

impl<SIZE> VerticalScrollArea<SIZE> {
    /// Number of fixed rows at the top.
    pub closed spec fn fixed(self) -> RowCount<SIZE> {
        self.top_fixed_rows
    }

    /// Number of scrolling rows.
    pub closed spec fn scrolling(self) -> RowCount<SIZE> {
        self.scroll_rows
    }
}

impl<SIZE: DisplaySize> VerticalScrollArea<SIZE> {
    /// Creates a scroll area that satisfies the SSD1306 MUX limits: at least one
    /// scrolling row, and fixed plus scrolling rows within the panel height.
    pub fn new(top_fixed_rows: RowCount<SIZE>, scroll_rows: RowCount<SIZE>) -> (r: Option<Self>)
        ensures
            r is Some <==> (scroll_rows.value() > 0 && top_fixed_rows.value() + scroll_rows.value()
                <= SIZE::spec_height()),
            r matches Some(area) ==> area.fixed() == top_fixed_rows && area.scrolling()
                == scroll_rows,
    {
        let top = top_fixed_rows.as_u8();
        let scroll = scroll_rows.as_u8();
        if scroll > 0 && (top as u16) + (scroll as u16) <= SIZE::height() as u16 {
            Some(VerticalScrollArea { top_fixed_rows, scroll_rows })
        } else {
            None
        }
    }

    /// Returns a scroll area that covers the whole panel.
    pub fn whole_display() -> (r: Self)
        ensures
            r.fixed().value() == 0,
            r.scrolling().value() == SIZE::spec_height(),
    {
        VerticalScrollArea { top_fixed_rows: RowCount::zero(), scroll_rows: RowCount::whole_display() }
    }

    /// Returns the top fixed row count.
    pub fn top_fixed_rows(self) -> (r: RowCount<SIZE>)
        ensures
            r == self.fixed(),
    {
        self.top_fixed_rows
    }

    /// Returns the scrolling row count.
    pub fn scroll_rows(self) -> (r: RowCount<SIZE>)
        ensures
            r == self.scrolling(),
    {
        self.scroll_rows
    }

    /// Returns whether a vertical offset fits within the scrolling rows.
    pub fn supports_offset(self, offset: DisplayLine<SIZE>) -> (r: bool)
        ensures
            r == (offset.value() < self.scrolling().value()),
    {
        offset.as_u8() < self.scroll_rows.as_u8()
    }
}

/// Display rotation.
#[derive(Debug, Copy, Clone, PartialEq, Eq, Default)]
pub enum Rotation {
    /// Segment 0 at column 0, COM 0 at row 0.
    #[default]
    Rotate0,
    /// Segment 127 at column 0, COM N at row 0.
    Rotate180,
}

/// SSD1306 segment mapping configuration.
#[derive(Debug, Copy, Clone, PartialEq, Eq, Default)]
pub enum SegmentRemap {
    /// Column address 0 is mapped to SEG0.
    #[default]
    Normal,
    /// Column address 127 is mapped to SEG0.
    Remapped,
}

/// SSD1306 COM output scan direction.
#[derive(Debug, Copy, Clone, PartialEq, Eq, Default)]
pub enum ComScanDirection {
    /// Scan from COM0 to COM[N-1].
    #[default]
    Normal,
    /// Scan from COM[N-1] to COM0.
    Remapped,
}

/// Full display orientation as a combination of segment and COM remapping.
#[derive(Debug, Copy, Clone, PartialEq, Eq, Default)]
pub struct Orientation {
    /// Segment remap configuration.
    pub segment_remap: SegmentRemap,
    /// COM output scan direction.
    pub com_scan_direction: ComScanDirection,
}

/// The orientation that a convenience rotation stands for.
pub open spec fn rotation_orientation(rotation: Rotation) -> Orientation {
    match rotation {
        Rotation::Rotate0 => Orientation {
            segment_remap: SegmentRemap::Normal,
            com_scan_direction: ComScanDirection::Normal,
        },
        Rotation::Rotate180 => Orientation {
            segment_remap: SegmentRemap::Remapped,
            com_scan_direction: ComScanDirection::Remapped,
        },
    }
}

/// The convenience rotation that an orientation matches, if any.
pub open spec fn orientation_rotation(orientation: Orientation) -> Option<Rotation> {
    match (orientation.segment_remap, orientation.com_scan_direction) {
        (SegmentRemap::Normal, ComScanDirection::Normal) => Some(Rotation::Rotate0),
        (SegmentRemap::Remapped, ComScanDirection::Remapped) => Some(Rotation::Rotate180),
        _ => None,
    }
}

impl Orientation {
    /// No mirroring: column 0 -> SEG0, COM0 -> row 0.
    pub fn rotate_0() -> (r: Self)
        ensures
            r == rotation_orientation(Rotation::Rotate0),
    {
        Orientation { segment_remap: SegmentRemap::Normal, com_scan_direction: ComScanDirection::Normal }
    }

    /// Both axes mirrored: column 127 -> SEG0, COM[N-1] -> row 0.
    pub fn rotate_180() -> (r: Self)
        ensures
            r == rotation_orientation(Rotation::Rotate180),
    {
        Orientation {
            segment_remap: SegmentRemap::Remapped,
            com_scan_direction: ComScanDirection::Remapped,
        }
    }

    /// Returns the matching convenience rotation, if one exists.
    pub fn rotation(self) -> (r: Option<Rotation>)
        ensures
            r == orientation_rotation(self),
    {
        match (self.segment_remap, self.com_scan_direction) {
            (SegmentRemap::Normal, ComScanDirection::Normal) => Some(Rotation::Rotate0),
            (SegmentRemap::Remapped, ComScanDirection::Remapped) => Some(Rotation::Rotate180),
            _ => None,
        }
    }
}

impl From<Rotation> for Orientation {
    fn from(rotation: Rotation) -> (r: Self) {
        match rotation {
            Rotation::Rotate0 => Orientation::rotate_0(),
            Rotation::Rotate180 => Orientation::rotate_180(),
        }
    }
}

impl vstd::std_specs::convert::FromSpecImpl<Rotation> for Orientation {
    open spec fn obeys_from_spec() -> bool {
        true
    }

    open spec fn from_spec(rotation: Rotation) -> Self {
        rotation_orientation(rotation)
    }
}

/// Panel power source selection for initialization defaults.
#[derive(Debug, Copy, Clone, PartialEq, Eq, Default)]
pub enum PowerSource {
    /// Use the SSD1306 internal charge pump.
    #[default]
    Internal,
    /// Use an externally generated panel voltage.
    External,
}

/// Horizontal hardware scroll direction.
#[derive(Debug, Copy, Clone, PartialEq, Eq)]
pub enum ScrollDirection {
    /// Scroll toward increasing column addresses on screen.
    Right,
    /// Scroll toward decreasing column addresses on screen.
    Left,
}

/// Hardware scroll step interval in display frames.
#[derive(Debug, Copy, Clone, PartialEq, Eq)]
pub enum ScrollFrameInterval {
    /// 2 frames.
    Frames2,
    /// 3 frames.
    Frames3,
    /// 4 frames.
    Frames4,
    /// 5 frames.
    Frames5,
    /// 25 frames.
    Frames25,
    /// 64 frames.
    Frames64,
    /// 128 frames.
    Frames128,
    /// 256 frames.
    Frames256,
}

/// Initialization options applied by `Ssd1306::init_with_config`.
#[derive(Debug, Copy, Clone, PartialEq, Eq)]
pub struct Config {
    /// Display orientation.
    pub orientation: Orientation,
    /// Charge pump / panel supply configuration.
    pub power_source: PowerSource,
    /// Initial contrast register value.
    pub contrast: u8,
}

/// The default configuration for a given orientation: internal charge pump and
/// the datasheet default contrast `0x7F`.
pub open spec fn default_config(orientation: Orientation) -> Config {
    Config { orientation, power_source: PowerSource::Internal, contrast: 0x7F }
}

impl Config {
    /// The default configuration with the given orientation.
    pub fn with_orientation(orientation: Orientation) -> (r: Config)
        ensures
            r == default_config(orientation),
    {
        Config { orientation, power_source: PowerSource::Internal, contrast: DEFAULT_CONTRAST }
    }
}

impl Default for Config {
    fn default() -> (r: Self)
        ensures
            r == default_config(rotation_orientation(Rotation::Rotate0)),
    {
        Config::with_orientation(Orientation::rotate_0())
    }
}

/// Invalid API arguments rejected by the SSD1306 driver.
#[derive(Debug, Copy, Clone, PartialEq, Eq)]
pub enum InvalidArgument {
    /// The diagonal scroll vertical offset must fit within the scrolling rows.
    VerticalScrollOffsetOutOfRange,
}

/// Errors returned by the SSD1306 driver.
#[derive(Debug, Copy, Clone, PartialEq, Eq)]
pub enum Error<BusError> {
    /// Bus error while talking to the display.
    Bus(BusError),
    /// Invalid API arguments.
    InvalidArgument(InvalidArgument),
}

/// Driver result type.
pub type Result<T, E> = core::result::Result<T, Error<E>>;

/// Errors returned by reset-aware initialization.
#[derive(Debug, Copy, Clone, PartialEq, Eq)]
pub enum InitError<BusError, PinError> {
    /// Bus error while talking to the display.
    Bus(BusError),
    /// Error while driving the hardware reset pin.
    ResetPin(PinError),
}

/// The text of an error. For a bus error it is the prefix that the bus
/// error's own description follows.
pub open spec fn error_text<E>(error: Error<E>) -> Seq<char> {
    match error {
        Error::Bus(_) => "display bus error: "@,
        Error::InvalidArgument(InvalidArgument::VerticalScrollOffsetOutOfRange) =>
            "vertical scroll offset exceeds configured scrolling rows"@,
    }
}

/// The text of a reset-aware initialization error: the prefix that the
/// failing resource's own error description follows.
pub open spec fn init_error_text<E, P>(error: InitError<E, P>) -> Seq<char> {
    match error {
        InitError::Bus(_) => "display bus error: "@,
        InitError::ResetPin(_) => "display reset pin error: "@,
    }
}

impl<BusError> Error<BusError> {
    /// A description of the error for logs. A bus error is described by the
    /// prefix `display bus error: `, which the bus error's own description is
    /// meant to follow.
    pub fn message(&self) -> (r: String)
        ensures
            r@ == error_text(*self),
    {
        match self {
            Error::Bus(_) => String::from_str("display bus error: "),
            Error::InvalidArgument(InvalidArgument::VerticalScrollOffsetOutOfRange) => String::from_str(
                "vertical scroll offset exceeds configured scrolling rows",
            ),
        }
    }
}

impl<BusError, PinError> InitError<BusError, PinError> {
    /// A description of the error for logs: the prefix that the failing
    /// resource's own error description is meant to follow.
    pub fn message(&self) -> (r: String)
        ensures
            r@ == init_error_text(*self),
    {
        match self {
            InitError::Bus(_) => String::from_str("display bus error: "),
            InitError::ResetPin(_) => String::from_str("display reset pin error: "),
        }
    }
}

} // verus!
