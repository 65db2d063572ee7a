//! The SSD1306 driver: modes, scroll states, framebuffer and planned exchanges.
//!
//! Every bus operation of the controller is a pair: a method ending in
//! `_exchange` plans the I2C writes (and, for reset-aware initialization, the
//! reset-pin levels and delays), and the method of the same name without the
//! suffix turns the finished [`Exchange`] into the result and applies the state
//! change, which happens only when every step succeeded.
use core::marker::PhantomData;

use vstd::prelude::*;

use crate::bus::{
    BusOp, Exchange, Outcome, Step, addressed_to, lemma_addressed_to_append, no_reads, steps_of,
};
use crate::ssd1306::commands::{
    CONTROL_COMMAND, CONTROL_DATA, DrawArea, area_within, chunk, clipped_area, command_frames,
    lemma_short_frames,
    command_ops, data_frames, frames, full_area, lemma_frames_no_reads, lemma_no_reads_append,
    push_frames, spec_area_commands,
};
use crate::ssd1306::sealed::DisplaySizePrivate;
use crate::ssd1306::size::DisplaySize;
use crate::ssd1306::commands::{
    diagonal_scroll_setup, horizontal_scroll_setup, init_prefix, init_suffix, orientation_commands,
    spec_diagonal_scroll_setup, spec_horizontal_scroll_setup, spec_init_prefix, spec_init_suffix,
    spec_orientation_commands, spec_vertical_scroll_area_setup, vertical_scroll_area_setup,
};
use crate::ssd1306::types::{
    Address, ComScanDirection, Config, DisplayLine, DisplayOffset, Error, InitError,
    InvalidArgument, Orientation, PageRange, Result, Rotation, ScrollDirection,
    ScrollFrameInterval, SegmentRemap, VerticalScrollArea, default_config, rotation_orientation,
};

verus! {

/// Marker type for the raw command mode.
#[derive(Debug, Copy, Clone, PartialEq, Eq, Default)]
pub struct RawMode;

/// Marker type for inactive hardware scrolling.
#[derive(Debug, Copy, Clone, PartialEq, Eq, Default)]
pub struct ScrollInactive;

/// Marker type for active hardware scrolling.
#[derive(Debug, Copy, Clone, PartialEq, Eq, Default)]
pub struct ScrollActive;

/// Marker type for a stopped scroll that still requires display RAM to be rewritten.
#[derive(Debug, Copy, Clone, PartialEq, Eq, Default)]
pub struct ScrollRestoreRequired;

/// Buffered graphics mode: the driver owns a framebuffer.
#[derive(Debug)]
pub struct BufferedGraphicsMode<SIZE: DisplaySize> {
    buffer: SIZE::Buffer,
}

impl<SIZE: DisplaySize> BufferedGraphicsMode<SIZE> {
    /// The framebuffer bytes in SSD1306 page order.
    pub closed spec fn bytes(&self) -> Seq<u8> {
        SIZE::buffer_view(&self.buffer)
    }

    /// A framebuffer with every pixel off.
    pub fn new() -> (r: Self)
        ensures
            r.bytes() == Seq::new(SIZE::frame_len(), |i: int| 0u8),
    {
        BufferedGraphicsMode { buffer: SIZE::make_buffer() }
    }
}

impl<SIZE: DisplaySize> Default for BufferedGraphicsMode<SIZE> {
    fn default() -> (r: Self)
        ensures
            r.bytes() == Seq::new(SIZE::frame_len(), |i: int| 0u8),
    {
        Self::new()
    }
}

/// Error returned when a scroll state transition fails; it hands the driver back.
#[derive(Debug)]
pub struct StateChangeError<DRIVER, BusError> {
    driver: DRIVER,
    error: Error<BusError>,
}

impl<DRIVER, BusError> StateChangeError<DRIVER, BusError> {
    /// The preserved driver.
    pub closed spec fn kept_driver(&self) -> DRIVER {
        self.driver
    }

    /// The error that stopped the transition.
    pub closed spec fn failure(&self) -> Error<BusError> {
        self.error
    }

    fn new(driver: DRIVER, error: Error<BusError>) -> (r: Self)
        ensures
            r.kept_driver() == driver,
            r.failure() == error,
    {
        StateChangeError { driver, error }
    }

    /// Returns the preserved driver instance.
    pub fn driver(&self) -> (r: &DRIVER)
        ensures
            *r == self.kept_driver(),
    {
        &self.driver
    }

    /// Returns the underlying driver error.
    pub fn error(&self) -> (r: &Error<BusError>)
        ensures
            *r == self.failure(),
    {
        &self.error
    }

    /// Splits the error into the preserved driver and the underlying error.
    pub fn into_parts(self) -> (r: (DRIVER, Error<BusError>))
        ensures
            r.0 == self.kept_driver(),
            r.1 == self.failure(),
    {
        (self.driver, self.error)
    }
}

/// SSD1306 controller on a bus value `DI`, with a panel size, a mode (raw or
/// buffered) and a scroll state.
#[derive(Debug)]
pub struct Ssd1306<DI, SIZE, MODE, SCROLL = ScrollInactive> {
    i2c: DI,
    address: u8,
    mode: MODE,
    config: Config,
    _size: PhantomData<SIZE>,
    _scroll: PhantomData<SCROLL>,
}

/// Result of an exchange of writes: `Ok` when every write went through.
pub open spec fn bus_result<E>(ex: Exchange<E>) -> Result<(), E> {
    match ex.fault() {
        Some(e) => Err(Error::Bus(e)),
        None => Ok(()),
    }
}

/// Index of the framebuffer byte that holds pixel `(x, y)`.
pub open spec fn pixel_index(width: nat, x: int, y: int) -> int {
    x + (y / 8) * width
}

/// The bit of that byte that holds pixel row `y`.
pub open spec fn pixel_mask(y: int) -> u8 {
    1u8 << ((y % 8) as u8)
}

/// The framebuffer after pixel `(x, y)` is switched on or off; pixels outside
/// the panel leave it unchanged.
pub open spec fn with_pixel<SIZE: DisplaySize>(frame: Seq<u8>, x: u32, y: u32, on: bool) -> Seq<u8> {
    if x < SIZE::spec_width() && y < SIZE::spec_height() {
        let i = pixel_index(SIZE::spec_width() as nat, x as int, y as int);
        frame.update(
            i,
            if on {
                frame[i] | pixel_mask(y as int)
            } else {
                frame[i] & !pixel_mask(y as int)
            },
        )
    } else {
        frame
    }
}

/// Writes of display RAM data for the pages `area.start_page..=last` of an area.
pub open spec fn page_frames(address: u8, frame: Seq<u8>, width: nat, area: DrawArea, last: int) -> Seq<
    Step,
>
    decreases last - area.start_page + 1,
{
    if last < area.start_page {
        Seq::empty()
    } else {
        page_frames(address, frame, width, area, last - 1) + data_frames(
            address,
            frame.subrange(last * width + area.start_column, last * width + area.end_column + 1),
        )
    }
}

/// Uploading an area of the framebuffer: horizontal addressing mode, the
/// column and page window, then the data (the whole framebuffer at once when
/// the area is the whole panel, else page by page).
pub open spec fn flush_plan<SIZE: DisplaySize>(address: u8, frame: Seq<u8>, area: DrawArea) -> Seq<
    Step,
> {
    command_frames(address, seq![0x20u8, 0x00u8]) + command_frames(address, spec_area_commands(area))
        + if area == full_area::<SIZE>() {
        data_frames(address, frame)
    } else {
        page_frames(address, frame, SIZE::spec_width() as nat, area, area.end_page as int)
    }
}

/// Page-wise data writes never read.
proof fn lemma_page_frames_no_reads(address: u8, frame: Seq<u8>, width: nat, area: DrawArea, last: int)
    ensures
        no_reads(page_frames(address, frame, width, area, last)),
    decreases last - area.start_page + 1,
{
    if last >= area.start_page {
        lemma_page_frames_no_reads(address, frame, width, area, last - 1);
        lemma_frames_no_reads(
            address,
            0x40,
            frame.subrange(last * width + area.start_column, last * width + area.end_column + 1),
        );
        lemma_no_reads_append(
            page_frames(address, frame, width, area, last - 1),
            data_frames(
                address,
                frame.subrange(last * width + area.start_column, last * width + area.end_column + 1),
            ),
        );
    }
}

/// Flush plans never read.
proof fn lemma_flush_plan_no_reads<SIZE: DisplaySize>(address: u8, frame: Seq<u8>, area: DrawArea)
    ensures
        no_reads(flush_plan::<SIZE>(address, frame, area)),
{
    let a = command_frames(address, seq![0x20u8, 0x00u8]);
    let b = command_frames(address, spec_area_commands(area));
    lemma_frames_no_reads(address, 0x00, seq![0x20u8, 0x00u8]);
    lemma_frames_no_reads(address, 0x00, spec_area_commands(area));
    lemma_no_reads_append(a, b);
    if area == full_area::<SIZE>() {
        lemma_frames_no_reads(address, 0x40, frame);
        lemma_no_reads_append(a + b, data_frames(address, frame));
    } else {
        lemma_page_frames_no_reads(address, frame, SIZE::spec_width() as nat, area, area.end_page as int);
        lemma_no_reads_append(
            a + b,
            page_frames(address, frame, SIZE::spec_width() as nat, area, area.end_page as int),
        );
    }
}

/// Builds the writes that upload an area of a framebuffer.
fn flush_ops<SIZE: DisplaySize>(address: u8, buffer: &[u8], area: DrawArea) -> (r: Vec<BusOp>)
    requires
        buffer@.len() == SIZE::frame_len(),
        area_within::<SIZE>(area),
    ensures
        steps_of(r@) == flush_plan::<SIZE>(address, buffer@, area),
{
    proof {
        SIZE::lemma_geometry();
    }
    let mut ops = command_ops(address, &[0x20, 0x00]);
    assert([0x20u8, 0x00u8]@ =~= seq![0x20u8, 0x00u8]);
    let window = area.commands();
    push_frames(&mut ops, address, CONTROL_COMMAND, &window);
    let ghost header = steps_of(ops@);
    if area.is_full::<SIZE>() {
        push_frames(&mut ops, address, CONTROL_DATA, buffer);
    } else {
        let width = SIZE::width() as usize;
        let mut page: u8 = area.start_page;
        while page <= area.end_page
            invariant
                area_within::<SIZE>(area),
                area.start_page <= page <= area.end_page + 1,
                width == SIZE::spec_width(),
                buffer@.len() == SIZE::frame_len(),
                SIZE::frame_len() == SIZE::spec_width() * (SIZE::spec_height() / 8),
                SIZE::spec_height() <= 64,
                SIZE::frame_len() <= 1024,
                steps_of(ops@) == header + page_frames(
                    address,
                    buffer@,
                    width as nat,
                    area,
                    page - 1,
                ),
            decreases area.end_page + 1 - page,
        {
            let ghost previous = steps_of(ops@);
            proof {
                assert((page + 1) * width <= SIZE::frame_len()) by (nonlinear_arith)
                    requires
                        page + 1 <= SIZE::spec_height() / 8,
                        width == SIZE::spec_width(),
                        SIZE::frame_len() == SIZE::spec_width() * (SIZE::spec_height() / 8),
                ;
                assert(page * width + width == (page + 1) * width) by (nonlinear_arith);
                assert(page * width <= (page + 1) * width) by (nonlinear_arith);
            }
            let offset = page as usize * width;
            let row = vstd::slice::slice_subrange(
                buffer,
                offset + area.start_column as usize,
                offset + area.end_column as usize + 1,
            );
            push_frames(&mut ops, address, CONTROL_DATA, row);
            page = page + 1;
        }
    }
    ops
}

impl<DI, SIZE, MODE, SCROLL> Ssd1306<DI, SIZE, MODE, SCROLL> {
    /// The bus value the driver owns.
    pub closed spec fn bus(&self) -> DI {
        self.i2c
    }

    /// The 7-bit display address.
    pub closed spec fn i2c_address(&self) -> u8 {
        self.address
    }

    /// The configuration last applied successfully (or given at construction).
    pub closed spec fn config(&self) -> Config {
        self.config
    }

    /// The mode value (framebuffer in buffered mode).
    pub closed spec fn mode(&self) -> MODE {
        self.mode
    }

    /// The same driver with another configuration.
    pub closed spec fn with_config(self, config: Config) -> Self {
        Ssd1306 {
            i2c: self.i2c,
            address: self.address,
            mode: self.mode,
            config,
            _size: PhantomData,
            _scroll: PhantomData,
        }
    }

    /// Returns the configured orientation.
    pub fn orientation(&self) -> (r: Orientation)
        ensures
            r == self.config().orientation,
    {
        self.config.orientation
    }

    /// Returns the matching convenience rotation, if the orientation matches one.
    pub fn rotation(&self) -> (r: Option<Rotation>)
        ensures
            r == crate::ssd1306::types::orientation_rotation(self.config().orientation),
    {
        self.config.orientation.rotation()
    }

    /// Returns the configured 7-bit I2C address.
    pub fn address(&self) -> (r: u8)
        ensures
            r == self.i2c_address(),
    {
        self.address
    }

    /// Releases the underlying bus.
    pub fn release(self) -> (r: DI)
        ensures
            r == self.bus(),
    {
        self.i2c
    }

    /// The bus, so that the caller can perform a planned exchange on it.
    pub fn bus_mut(&mut self) -> (r: &mut DI)
        ensures
            *r == old(self).bus(),
            *final(r) == final(self).bus(),
            final(self).i2c_address() == old(self).i2c_address(),
            final(self).config() == old(self).config(),
            final(self).mode() == old(self).mode(),
    {
        &mut self.i2c
    }

    fn into_scroll_state<NEXT>(self) -> (r: Ssd1306<DI, SIZE, MODE, NEXT>)
        ensures
            r.bus() == self.bus(),
            r.i2c_address() == self.i2c_address(),
            r.config() == self.config(),
            r.mode() == self.mode(),
    {
        Ssd1306 {
            i2c: self.i2c,
            address: self.address,
            mode: self.mode,
            config: self.config,
            _size: PhantomData,
            _scroll: PhantomData,
        }
    }
}


impl<DI, SIZE: DisplaySize, MODE, SCROLL> Ssd1306<DI, SIZE, MODE, SCROLL> {
    /// Returns the display width in pixels.
    pub fn width(&self) -> (r: u8)
        ensures
            r == SIZE::spec_width(),
    {
        SIZE::width()
    }

    /// Returns the display height in pixels.
    pub fn height(&self) -> (r: u8)
        ensures
            r == SIZE::spec_height(),
    {
        SIZE::height()
    }

    /// Plans one command write.
    fn single_command_exchange<F>(&self, command: u8) -> (r: Exchange<F>)
        ensures
            r.steps() == command_frames(self.i2c_address(), seq![command]),
            r.position() == 0,
            r.fault() is None,
    {
        let commands = [command];
        assert(commands@ =~= seq![command]);
        self.commands_exchange(&commands)
    }

    /// Plans the writes of a command sequence.
    fn commands_exchange<F>(&self, commands: &[u8]) -> (r: Exchange<F>)
        ensures
            r.steps() == command_frames(self.i2c_address(), commands@),
            r.position() == 0,
            r.fault() is None,
    {
        let ops = command_ops(self.address, commands);
        proof {
            lemma_frames_no_reads(self.address, 0x00, commands@);
        }
        Exchange::without_reads(ops)
    }

    /// Plans switching the display output on (`AFh`) or off (`AEh`).
    pub fn set_display_on_exchange<F>(&self, on: bool) -> (r: Exchange<F>)
        ensures
            r.steps() == command_frames(self.i2c_address(), seq![if on { 0xAFu8 } else { 0xAEu8 }]),
            r.position() == 0,
            r.fault() is None,
    {
        self.single_command_exchange(if on { 0xAF } else { 0xAE })
    }

    /// Result of switching the display output.
    pub fn set_display_on<E>(&mut self, on: bool, ex: Exchange<E>) -> (r: Result<(), E>)
        requires
            ex.steps() == command_frames(self.i2c_address(), seq![if on { 0xAFu8 } else { 0xAEu8 }]),
            ex.done(),
        ensures
            r == bus_result(ex),
            *final(self) == *old(self),
    {
        finish_writes(ex)
    }

    /// Plans forcing every pixel on (`A5h`) or following display RAM again (`A4h`).
    pub fn set_entire_display_on_exchange<F>(&self, enabled: bool) -> (r: Exchange<F>)
        ensures
            r.steps() == command_frames(
                self.i2c_address(),
                seq![if enabled { 0xA5u8 } else { 0xA4u8 }],
            ),
            r.position() == 0,
            r.fault() is None,
    {
        self.single_command_exchange(if enabled { 0xA5 } else { 0xA4 })
    }

    /// Result of switching the entire-display-on override.
    pub fn set_entire_display_on<E>(&mut self, enabled: bool, ex: Exchange<E>) -> (r: Result<(), E>)
        requires
            ex.steps() == command_frames(self.i2c_address(), seq![if enabled { 0xA5u8 } else { 0xA4u8 }]),
            ex.done(),
        ensures
            r == bus_result(ex),
            *final(self) == *old(self),
    {
        finish_writes(ex)
    }

    /// Plans inverting the display (`A7h`) or returning to normal (`A6h`).
    pub fn set_invert_exchange<F>(&self, inverted: bool) -> (r: Exchange<F>)
        ensures
            r.steps() == command_frames(
                self.i2c_address(),
                seq![if inverted { 0xA7u8 } else { 0xA6u8 }],
            ),
            r.position() == 0,
            r.fault() is None,
    {
        self.single_command_exchange(if inverted { 0xA7 } else { 0xA6 })
    }

    /// Result of switching display inversion.
    pub fn set_invert<E>(&mut self, inverted: bool, ex: Exchange<E>) -> (r: Result<(), E>)
        requires
            ex.steps() == command_frames(self.i2c_address(), seq![if inverted { 0xA7u8 } else { 0xA6u8 }]),
            ex.done(),
        ensures
            r == bus_result(ex),
            *final(self) == *old(self),
    {
        finish_writes(ex)
    }

    /// Plans setting the contrast register (`81h`).
    pub fn set_contrast_exchange<F>(&self, contrast: u8) -> (r: Exchange<F>)
        ensures
            r.steps() == command_frames(self.i2c_address(), seq![0x81u8, contrast]),
            r.position() == 0,
            r.fault() is None,
    {
        let commands = [0x81, contrast];
        assert(commands@ =~= seq![0x81u8, contrast]);
        self.commands_exchange(&commands)
    }

    /// Result of setting the contrast.
    pub fn set_contrast<E>(&mut self, contrast: u8, ex: Exchange<E>) -> (r: Result<(), E>)
        requires
            ex.steps() == command_frames(self.i2c_address(), seq![0x81u8, contrast]),
            ex.done(),
        ensures
            r == bus_result(ex),
            *final(self) == *old(self),
    {
        finish_writes(ex)
    }

    /// Plans setting the display start line (`40h | line`).
    pub fn set_display_start_line_exchange<F>(&self, line: DisplayLine<SIZE>) -> (r: Exchange<F>)
        ensures
            r.steps() == command_frames(self.i2c_address(), seq![0x40u8 | line.value()]),
            r.position() == 0,
            r.fault() is None,
    {
        self.single_command_exchange(0x40 | line.as_u8())
    }

    /// Result of setting the display start line.
    pub fn set_display_start_line<E>(&mut self, line: DisplayLine<SIZE>, ex: Exchange<E>) -> (r: Result<(), E>)
        requires
            ex.steps() == command_frames(self.i2c_address(), seq![0x40u8 | line.value()]),
            ex.done(),
        ensures
            r == bus_result(ex),
            *final(self) == *old(self),
    {
        finish_writes(ex)
    }

    /// Plans setting the vertical display offset (`D3h`).
    pub fn set_display_offset_exchange<F>(&self, offset: DisplayOffset) -> (r: Exchange<F>)
        ensures
            r.steps() == command_frames(self.i2c_address(), seq![0xD3u8, offset.value()]),
            r.position() == 0,
            r.fault() is None,
    {
        let commands = [0xD3, offset.as_u8()];
        assert(commands@ =~= seq![0xD3u8, offset.value()]);
        self.commands_exchange(&commands)
    }

    /// Result of setting the display offset.
    pub fn set_display_offset<E>(&mut self, offset: DisplayOffset, ex: Exchange<E>) -> (r: Result<(), E>)
        requires
            ex.steps() == command_frames(self.i2c_address(), seq![0xD3u8, offset.value()]),
            ex.done(),
        ensures
            r == bus_result(ex),
            *final(self) == *old(self),
    {
        finish_writes(ex)
    }
}

/// Turns a finished exchange of writes into its result.
fn finish_writes<E>(ex: Exchange<E>) -> (r: Result<(), E>)
    requires
        ex.done(),
    ensures
        r == bus_result(ex),
{
    match ex.into_outcome() {
        Outcome::Completed(_) => Ok(()),
        Outcome::Failed { fault, .. } => Err(Error::Bus(fault)),
    }
}


/// Initialization: the first part of the sequence, the orientation commands,
/// then the last part.
pub open spec fn init_plan<SIZE: DisplaySize>(address: u8, config: Config) -> Seq<Step> {
    command_frames(address, spec_init_prefix::<SIZE>(config)) + command_frames(
        address,
        spec_orientation_commands(config.orientation),
    ) + command_frames(address, spec_init_suffix::<SIZE>(config))
}

/// The hardware reset pulse: pin low, 3 us, pin high, 3 us.
pub open spec fn reset_pulse() -> Seq<Step> {
    seq![Step::ResetPin(false), Step::DelayUs(3), Step::ResetPin(true), Step::DelayUs(3)]
}

/// Result of reset-aware initialization: a reset-pin failure, else a bus
/// failure, else success.
pub open spec fn reset_init_result<E, P>(pulse: Exchange<P>, init: Exchange<E>) -> core::result::Result<
    (),
    InitError<E, P>,
> {
    match pulse.fault() {
        Some(pin_error) => Err(InitError::ResetPin(pin_error)),
        None => match init.fault() {
            Some(bus_error) => Err(InitError::Bus(bus_error)),
            None => Ok(()),
        },
    }
}

/// Uploading the part of a framebuffer under a pixel rectangle; nothing
/// when the rectangle misses the panel.
pub open spec fn flush_area_plan<SIZE: DisplaySize>(
    address: u8,
    frame: Seq<u8>,
    x: u32,
    y: u32,
    width: u32,
    height: u32,
) -> Seq<Step> {
    match clipped_area::<SIZE>(x, y, width, height) {
        Some(area) => flush_plan::<SIZE>(address, frame, area),
        None => Seq::<Step>::empty(),
    }
}

/// A diagonal scroll: scrolling off, the vertical scroll area, then the setup
/// sequence; nothing when the offset does not fit in the scrolling rows.
pub open spec fn diagonal_scroll_plan<SIZE>(
    address: u8,
    direction: ScrollDirection,
    pages: PageRange<SIZE>,
    interval: ScrollFrameInterval,
    area: VerticalScrollArea<SIZE>,
    vertical_offset: DisplayLine<SIZE>,
) -> Seq<Step> {
    if vertical_offset.value() < area.scrolling().value() {
        command_frames(address, seq![0x2Eu8]) + command_frames(
            address,
            spec_vertical_scroll_area_setup(area),
        ) + command_frames(
            address,
            spec_diagonal_scroll_setup(direction, pages, interval, vertical_offset),
        )
    } else {
        Seq::<Step>::empty()
    }
}

/// The orientation with another segment remap.
pub open spec fn with_segment_remap(orientation: Orientation, remap: SegmentRemap) -> Orientation {
    Orientation { segment_remap: remap, com_scan_direction: orientation.com_scan_direction }
}

/// The orientation with another COM scan direction.
pub open spec fn with_com_scan_direction(
    orientation: Orientation,
    direction: ComScanDirection,
) -> Orientation {
    Orientation { segment_remap: orientation.segment_remap, com_scan_direction: direction }
}

/// The configuration with another orientation.
pub open spec fn with_orientation(config: Config, orientation: Orientation) -> Config {
    Config { orientation, power_source: config.power_source, contrast: config.contrast }
}

impl<DI, SIZE: DisplaySize> Ssd1306<DI, SIZE, RawMode, ScrollInactive> {
    /// Creates a driver in raw command mode at the default `0x3C` address.
    pub fn new(i2c: DI, size: SIZE, rotation: Rotation) -> (r: Self)
        ensures
            r.bus() == i2c,
            r.i2c_address() == 0x3C,
            r.config() == default_config(rotation_orientation(rotation)),
    {
        Self::with_address(i2c, size, rotation, Address::default_address())
    }

    /// Creates a driver in raw command mode at the selected address.
    pub fn with_address(i2c: DI, size: SIZE, rotation: Rotation, address: Address) -> (r: Self)
        ensures
            r.bus() == i2c,
            r.i2c_address() == address.value(),
            r.config() == default_config(rotation_orientation(rotation)),
    {
        Self::with_address_and_orientation(i2c, size, Orientation::from(rotation), address)
    }

    /// Creates a driver in raw command mode with a fully specified orientation.
    pub fn new_with_orientation(i2c: DI, size: SIZE, orientation: Orientation) -> (r: Self)
        ensures
            r.bus() == i2c,
            r.i2c_address() == 0x3C,
            r.config() == default_config(orientation),
    {
        Self::with_address_and_orientation(i2c, size, orientation, Address::default_address())
    }

    /// Creates a driver in raw command mode with a selected address and orientation.
    pub fn with_address_and_orientation(
        i2c: DI,
        size: SIZE,
        orientation: Orientation,
        address: Address,
    ) -> (r: Self)
        ensures
            r.bus() == i2c,
            r.i2c_address() == address.value(),
            r.config() == default_config(orientation),
    {
        let _ = size;
        Ssd1306 {
            i2c,
            address: address.as_u8(),
            mode: RawMode,
            config: Config::with_orientation(orientation),
            _size: PhantomData,
            _scroll: PhantomData,
        }
    }

    /// Attaches a blank framebuffer and enters buffered graphics mode.
    pub fn into_buffered_graphics_mode(self) -> (r: Ssd1306<
        DI,
        SIZE,
        BufferedGraphicsMode<SIZE>,
        ScrollInactive,
    >)
        ensures
            r.bus() == self.bus(),
            r.i2c_address() == self.i2c_address(),
            r.config() == self.config(),
            r.frame() == Seq::new(SIZE::frame_len(), |i: int| 0u8),
    {
        Ssd1306 {
            i2c: self.i2c,
            address: self.address,
            mode: BufferedGraphicsMode::new(),
            config: self.config,
            _size: PhantomData,
            _scroll: PhantomData,
        }
    }

    /// Plans sending one raw command byte.
    pub fn write_command_exchange<F>(&self, command: u8) -> (r: Exchange<F>)
        ensures
            r.steps() == command_frames(self.i2c_address(), seq![command]),
            r.position() == 0,
            r.fault() is None,
    {
        self.single_command_exchange(command)
    }

    /// Result of sending a raw command byte.
    pub fn write_command<E>(&mut self, command: u8, ex: Exchange<E>) -> (r: Result<(), E>)
        requires
            ex.steps() == command_frames(self.i2c_address(), seq![command]),
            ex.done(),
        ensures
            r == bus_result(ex),
            *final(self) == *old(self),
    {
        finish_writes(ex)
    }

    /// Plans sending raw command bytes, 16 per write.
    pub fn write_commands_exchange<F>(&self, commands: &[u8]) -> (r: Exchange<F>)
        ensures
            r.steps() == command_frames(self.i2c_address(), commands@),
            r.position() == 0,
            r.fault() is None,
    {
        self.commands_exchange(commands)
    }

    /// Result of sending raw command bytes.
    pub fn write_commands<E>(&mut self, commands: &[u8], ex: Exchange<E>) -> (r: Result<(), E>)
        requires
            ex.steps() == command_frames(self.i2c_address(), commands@),
            ex.done(),
        ensures
            r == bus_result(ex),
            *final(self) == *old(self),
    {
        finish_writes(ex)
    }

    /// Plans sending raw display RAM bytes, 16 per write.
    pub fn write_data_exchange<F>(&self, data: &[u8]) -> (r: Exchange<F>)
        ensures
            r.steps() == data_frames(self.i2c_address(), data@),
            r.position() == 0,
            r.fault() is None,
    {
        let mut ops: Vec<BusOp> = Vec::new();
        assert(steps_of(ops@) =~= Seq::<Step>::empty());
        push_frames(&mut ops, self.address, CONTROL_DATA, data);
        assert(steps_of(ops@) =~= data_frames(self.address, data@));
        proof {
            lemma_frames_no_reads(self.address, 0x40, data@);
        }
        Exchange::without_reads(ops)
    }

    /// Result of sending raw display RAM bytes.
    pub fn write_data<E>(&mut self, data: &[u8], ex: Exchange<E>) -> (r: Result<(), E>)
        requires
            ex.steps() == data_frames(self.i2c_address(), data@),
            ex.done(),
        ensures
            r == bus_result(ex),
            *final(self) == *old(self),
    {
        finish_writes(ex)
    }
}

impl<DI, SIZE: DisplaySize, SCROLL> Ssd1306<DI, SIZE, BufferedGraphicsMode<SIZE>, SCROLL> {
    /// The framebuffer bytes in SSD1306 page order: byte `x + (y / 8) * width`
    /// holds column `x` of page `y / 8`, bit `y % 8` being row `y`.
    pub open spec fn frame(&self) -> Seq<u8> {
        self.mode().bytes()
    }

    /// Drops the framebuffer and enters raw command mode.
    pub fn into_raw_mode(self) -> (r: Ssd1306<DI, SIZE, RawMode, SCROLL>)
        ensures
            r.bus() == self.bus(),
            r.i2c_address() == self.i2c_address(),
            r.config() == self.config(),
    {
        Ssd1306 {
            i2c: self.i2c,
            address: self.address,
            mode: RawMode,
            config: self.config,
            _size: PhantomData,
            _scroll: PhantomData,
        }
    }

    /// Sets one framebuffer byte.
    fn set_frame_byte(&mut self, index: usize, value: u8)
        requires
            index < SIZE::frame_len(),
        ensures
            final(self).frame() == old(self).frame().update(index as int, value),
            final(self).bus() == old(self).bus(),
            final(self).i2c_address() == old(self).i2c_address(),
            final(self).config() == old(self).config(),
    {
        proof {
            SIZE::lemma_buffer_len();
        }
        let buffer = SIZE::buffer_bytes_mut(&mut self.mode.buffer);
        buffer[index] = value;
    }

    /// Sets every framebuffer byte to `value`.
    fn fill_frame(&mut self, value: u8)
        ensures
            final(self).frame() == Seq::new(SIZE::frame_len(), |i: int| value),
            final(self).bus() == old(self).bus(),
            final(self).i2c_address() == old(self).i2c_address(),
            final(self).config() == old(self).config(),
    {
        proof {
            SIZE::lemma_buffer_len();
            SIZE::lemma_geometry();
        }
        let len = SIZE::buffer_bytes(&self.mode.buffer).len();
        let mut i: usize = 0;
        while i < len
            invariant
                i <= len,
                len == SIZE::frame_len(),
                self.frame().len() == SIZE::frame_len(),
                forall|j: int| 0 <= j < i ==> self.frame()[j] == value,
                self.bus() == old(self).bus(),
                self.i2c_address() == old(self).i2c_address(),
                self.config() == old(self).config(),
            decreases len - i,
        {
            proof {
                SIZE::lemma_buffer_len();
            }
            self.set_frame_byte(i, value);
            i = i + 1;
        }
        assert(self.frame() =~= Seq::new(SIZE::frame_len(), |i: int| value));
    }

    /// Clears the framebuffer: every pixel off.
    pub fn clear(&mut self)
        ensures
            final(self).frame() == Seq::new(SIZE::frame_len(), |i: int| 0u8),
            final(self).bus() == old(self).bus(),
            final(self).i2c_address() == old(self).i2c_address(),
            final(self).config() == old(self).config(),
    {
        self.fill_frame(0)
    }

    /// Sets every pixel of the framebuffer on or off.
    pub fn fill(&mut self, on: bool)
        ensures
            final(self).frame() == Seq::new(
                SIZE::frame_len(),
                |i: int|
                    if on {
                        0xFFu8
                    } else {
                        0u8
                    },
            ),
            final(self).bus() == old(self).bus(),
            final(self).i2c_address() == old(self).i2c_address(),
            final(self).config() == old(self).config(),
    {
        if on {
            self.fill_frame(0xFF);
            assert(self.frame() =~= Seq::new(
                SIZE::frame_len(),
                |i: int|
                    if on {
                        0xFFu8
                    } else {
                        0u8
                    },
            ));
        } else {
            self.fill_frame(0);
            assert(self.frame() =~= Seq::new(
                SIZE::frame_len(),
                |i: int|
                    if on {
                        0xFFu8
                    } else {
                        0u8
                    },
            ));
        }
    }

    /// Sets one pixel in the local framebuffer; pixels outside the panel are ignored.
    pub fn set_pixel(&mut self, x: u32, y: u32, on: bool)
        ensures
            final(self).frame() == with_pixel::<SIZE>(old(self).frame(), x, y, on),
            final(self).bus() == old(self).bus(),
            final(self).i2c_address() == old(self).i2c_address(),
            final(self).config() == old(self).config(),
    {
        let width = SIZE::width() as u32;
        let height = SIZE::height() as u32;
        if x >= width || y >= height {
            return;
        }
        proof {
            SIZE::lemma_geometry();
            SIZE::lemma_buffer_len();
            let w = SIZE::spec_width() as int;
            let h = SIZE::spec_height() as int;
            assert(x + (y / 8) * w < SIZE::frame_len()) by (nonlinear_arith)
                requires
                    0 <= x < w,
                    0 <= y < h,
                    h % 8 == 0,
                    SIZE::frame_len() == w * (h / 8),
            ;
            assert((y / 8) * w <= 1024) by (nonlinear_arith)
                requires
                    0 <= y < h,
                    h <= 64,
                    0 <= w <= 128,
            ;
        }
        let index = x as usize + (y as usize / 8) * (SIZE::width() as usize);
        let bit = 1u8 << ((y % 8) as u8);
        let byte = SIZE::buffer_bytes(&self.mode.buffer)[index];
        let value = if on {
            byte | bit
        } else {
            byte & !bit
        };
        self.set_frame_byte(index, value);
    }

    /// Sets the pixel at signed coordinates, as a drawing library hands them
    /// over; points with a negative coordinate are ignored.
    pub fn draw_pixel(&mut self, x: i32, y: i32, on: bool)
        ensures
            final(self).frame() == if x < 0 || y < 0 {
                old(self).frame()
            } else {
                with_pixel::<SIZE>(old(self).frame(), x as u32, y as u32, on)
            },
            final(self).bus() == old(self).bus(),
            final(self).i2c_address() == old(self).i2c_address(),
            final(self).config() == old(self).config(),
    {
        if x < 0 || y < 0 {
            return;
        }
        self.set_pixel(x as u32, y as u32, on);
    }

    /// Returns the framebuffer as bytes in SSD1306 page order.
    pub fn buffer(&self) -> (r: &[u8])
        ensures
            r@ == self.frame(),
            r@.len() == SIZE::frame_len(),
    {
        proof {
            SIZE::lemma_buffer_len();
        }
        SIZE::buffer_bytes(&self.mode.buffer)
    }

    /// Returns the framebuffer bytes for writing.
    pub fn buffer_mut(&mut self) -> (r: &mut [u8])
        ensures
            r@ == old(self).frame(),
            final(r)@ == final(self).frame(),
            final(self).frame().len() == SIZE::frame_len(),
            final(self).bus() == old(self).bus(),
            final(self).i2c_address() == old(self).i2c_address(),
            final(self).config() == old(self).config(),
    {
        proof {
            SIZE::lemma_buffer_len();
        }
        SIZE::buffer_bytes_mut(&mut self.mode.buffer)
    }

    /// Plans uploading an area of the framebuffer.
    fn area_exchange<F>(&self, area: DrawArea) -> (r: Exchange<F>)
        requires
            area_within::<SIZE>(area),
        ensures
            r.steps() == flush_plan::<SIZE>(self.i2c_address(), self.frame(), area),
            r.position() == 0,
            r.fault() is None,
    {
        proof {
            SIZE::lemma_buffer_len();
            lemma_flush_plan_no_reads::<SIZE>(self.address, self.frame(), area);
        }
        let buffer = SIZE::buffer_bytes(&self.mode.buffer);
        Exchange::without_reads(flush_ops::<SIZE>(self.address, buffer, area))
    }
}

impl<DI, SIZE: DisplaySize> Ssd1306<DI, SIZE, BufferedGraphicsMode<SIZE>, ScrollInactive> {
    /// Plans uploading the whole framebuffer.
    pub fn flush_exchange<F>(&self) -> (r: Exchange<F>)
        ensures
            r.steps() == flush_plan::<SIZE>(self.i2c_address(), self.frame(), full_area::<SIZE>()),
            r.position() == 0,
            r.fault() is None,
    {
        self.area_exchange(DrawArea::full::<SIZE>())
    }

    /// Result of uploading the framebuffer.
    pub fn flush<E>(&mut self, ex: Exchange<E>) -> (r: Result<(), E>)
        requires
            ex.steps() == flush_plan::<SIZE>(self.i2c_address(), self.frame(), full_area::<SIZE>()),
            ex.done(),
        ensures
            r == bus_result(ex),
            *final(self) == *old(self),
    {
        finish_writes(ex)
    }

    /// Plans uploading the part of the framebuffer under a pixel rectangle.
    /// Display RAM is organised in 8-row pages, so the rows are rounded out to
    /// whole pages; a rectangle that misses the panel plans nothing.
    pub fn flush_area_exchange<F>(&self, x: u32, y: u32, width: u32, height: u32) -> (r: Exchange<F>)
        ensures
            r.steps() == match clipped_area::<SIZE>(x, y, width, height) {
                Some(area) => flush_plan::<SIZE>(self.i2c_address(), self.frame(), area),
                None => Seq::<Step>::empty(),
            },
            r.position() == 0,
            r.fault() is None,
    {
        match DrawArea::clipped::<SIZE>(x, y, width, height) {
            Some(area) => self.area_exchange(area),
            None => {
                let ops: Vec<BusOp> = Vec::new();
                assert(steps_of(ops@) =~= Seq::<Step>::empty());
                Exchange::without_reads(ops)
            },
        }
    }

    /// Result of uploading part of the framebuffer.
    pub fn flush_area<E>(
        &mut self,
        x: u32,
        y: u32,
        width: u32,
        height: u32,
        ex: Exchange<E>,
    ) -> (r: Result<(), E>)
        requires
            ex.steps() == flush_area_plan::<SIZE>(self.i2c_address(), self.frame(), x, y, width, height),
            ex.done(),
        ensures
            r == bus_result(ex),
            *final(self) == *old(self),
    {
        finish_writes(ex)
    }
}

impl<DI, SIZE: DisplaySize> Ssd1306<DI, SIZE, BufferedGraphicsMode<SIZE>, ScrollRestoreRequired> {
    /// Plans rewriting display RAM from the framebuffer after a scroll was stopped.
    pub fn restore_display_exchange<F>(&self) -> (r: Exchange<F>)
        ensures
            r.steps() == flush_plan::<SIZE>(self.i2c_address(), self.frame(), full_area::<SIZE>()),
            r.position() == 0,
            r.fault() is None,
    {
        self.area_exchange(DrawArea::full::<SIZE>())
    }

    /// Finishes the rewrite: on success the driver returns to the inactive
    /// scroll state, otherwise the error hands the driver back unchanged.
    pub fn restore_display<E>(self, ex: Exchange<E>) -> (r: core::result::Result<
        Ssd1306<DI, SIZE, BufferedGraphicsMode<SIZE>, ScrollInactive>,
        StateChangeError<Self, E>,
    >)
        requires
            ex.steps() == flush_plan::<SIZE>(self.i2c_address(), self.frame(), full_area::<SIZE>()),
            ex.done(),
        ensures
            ex.fault() is None <==> r is Ok,
            r matches Ok(d) ==> d.bus() == self.bus() && d.i2c_address() == self.i2c_address()
                && d.config() == self.config() && d.frame() == self.frame(),
            r matches Err(e) ==> e.kept_driver() == self && Err::<(), Error<E>>(e.failure())
                == bus_result(ex),
    {
        match finish_writes(ex) {
            Ok(()) => Ok(self.into_scroll_state()),
            Err(error) => Err(StateChangeError::new(self, error)),
        }
    }
}

impl<DI, SIZE, MODE> Ssd1306<DI, SIZE, MODE, ScrollRestoreRequired> {
    /// Marks scroll restoration complete after the caller rewrote display RAM itself.
    pub fn finish_scroll_rewrite(self) -> (r: Ssd1306<DI, SIZE, MODE, ScrollInactive>)
        ensures
            r.bus() == self.bus(),
            r.i2c_address() == self.i2c_address(),
            r.config() == self.config(),
            r.mode() == self.mode(),
    {
        self.into_scroll_state()
    }
}

impl<DI, SIZE: DisplaySize, MODE> Ssd1306<DI, SIZE, MODE, ScrollActive> {
    /// Plans deactivating hardware scrolling (`2Eh`).
    pub fn stop_scroll_exchange<F>(&self) -> (r: Exchange<F>)
        ensures
            r.steps() == command_frames(self.i2c_address(), seq![0x2Eu8]),
            r.position() == 0,
            r.fault() is None,
    {
        self.single_command_exchange(0x2E)
    }

    /// Finishes stopping the scroll: on success the driver enters the state
    /// that requires display RAM to be rewritten, otherwise the error hands the
    /// driver back unchanged.
    pub fn stop_scroll<E>(self, ex: Exchange<E>) -> (r: core::result::Result<
        Ssd1306<DI, SIZE, MODE, ScrollRestoreRequired>,
        StateChangeError<Self, E>,
    >)
        requires
            ex.steps() == command_frames(self.i2c_address(), seq![0x2Eu8]),
            ex.done(),
        ensures
            ex.fault() is None <==> r is Ok,
            r matches Ok(d) ==> d.bus() == self.bus() && d.i2c_address() == self.i2c_address()
                && d.config() == self.config() && d.mode() == self.mode(),
            r matches Err(e) ==> e.kept_driver() == self && Err::<(), Error<E>>(e.failure())
                == bus_result(ex),
    {
        match finish_writes(ex) {
            Ok(()) => Ok(self.into_scroll_state()),
            Err(error) => Err(StateChangeError::new(self, error)),
        }
    }
}

impl<DI, SIZE: DisplaySize, MODE> Ssd1306<DI, SIZE, MODE, ScrollInactive> {
    /// Plans programming an orientation: segment remap and COM scan direction.
    pub fn set_orientation_exchange<F>(&self, orientation: Orientation) -> (r: Exchange<F>)
        ensures
            r.steps() == command_frames(self.i2c_address(), spec_orientation_commands(orientation)),
            r.position() == 0,
            r.fault() is None,
    {
        let commands = orientation_commands(orientation);
        self.commands_exchange(&commands)
    }

    /// Result of programming an orientation; the stored orientation changes
    /// only when the commands went through.
    pub fn set_orientation<E>(&mut self, orientation: Orientation, ex: Exchange<E>) -> (r: Result<
        (),
        E,
    >)
        requires
            ex.steps() == command_frames(self.i2c_address(), spec_orientation_commands(orientation)),
            ex.done(),
        ensures
            r == bus_result(ex),
            ex.fault() is None ==> final(self).config() == with_orientation(
                old(self).config(),
                orientation,
            ),
            *final(self) == if ex.fault() is None {
                old(self).with_config(with_orientation(old(self).config(), orientation))
            } else {
                *old(self)
            },
    {
        let result = finish_writes(ex);
        if result.is_ok() {
            self.config.orientation = orientation;
        }
        result
    }

    /// Plans programming a convenience rotation.
    pub fn set_rotation_exchange<F>(&self, rotation: Rotation) -> (r: Exchange<F>)
        ensures
            r.steps() == command_frames(
                self.i2c_address(),
                spec_orientation_commands(rotation_orientation(rotation)),
            ),
            r.position() == 0,
            r.fault() is None,
    {
        self.set_orientation_exchange(Orientation::from(rotation))
    }

    /// Result of programming a convenience rotation.
    pub fn set_rotation<E>(&mut self, rotation: Rotation, ex: Exchange<E>) -> (r: Result<(), E>)
        requires
            ex.steps() == command_frames(self.i2c_address(), spec_orientation_commands(rotation_orientation(rotation))),
            ex.done(),
        ensures
            r == bus_result(ex),
            ex.fault() is None ==> final(self).config() == with_orientation(
                old(self).config(),
                rotation_orientation(rotation),
            ),
            *final(self) == if ex.fault() is None {
                old(self).with_config(
                    with_orientation(old(self).config(), rotation_orientation(rotation)),
                )
            } else {
                *old(self)
            },
    {
        self.set_orientation(Orientation::from(rotation), ex)
    }

    /// Plans changing only the segment remap.
    pub fn set_segment_remap_exchange<F>(&self, segment_remap: SegmentRemap) -> (r: Exchange<F>)
        ensures
            r.steps() == command_frames(
                self.i2c_address(),
                spec_orientation_commands(
                    with_segment_remap(self.config().orientation, segment_remap),
                ),
            ),
            r.position() == 0,
            r.fault() is None,
    {
        let mut orientation = self.config.orientation;
        orientation.segment_remap = segment_remap;
        self.set_orientation_exchange(orientation)
    }

    /// Result of changing only the segment remap.
    pub fn set_segment_remap<E>(&mut self, segment_remap: SegmentRemap, ex: Exchange<E>) -> (r:
        Result<(), E>)
        requires
            ex.steps() == command_frames(
                self.i2c_address(),
                spec_orientation_commands(
                    with_segment_remap(self.config().orientation, segment_remap),
                ),
            ),
            ex.done(),
        ensures
            r == bus_result(ex),
            ex.fault() is None ==> final(self).config() == with_orientation(
                old(self).config(),
                with_segment_remap(old(self).config().orientation, segment_remap),
            ),
            *final(self) == if ex.fault() is None {
                old(self).with_config(
                    with_orientation(
                        old(self).config(),
                        with_segment_remap(old(self).config().orientation, segment_remap),
                    ),
                )
            } else {
                *old(self)
            },
    {
        let mut orientation = self.config.orientation;
        orientation.segment_remap = segment_remap;
        self.set_orientation(orientation, ex)
    }

    /// Plans changing only the COM scan direction.
    pub fn set_com_scan_direction_exchange<F>(&self, com_scan_direction: ComScanDirection) -> (r:
        Exchange<F>)
        ensures
            r.steps() == command_frames(
                self.i2c_address(),
                spec_orientation_commands(
                    with_com_scan_direction(self.config().orientation, com_scan_direction),
                ),
            ),
            r.position() == 0,
            r.fault() is None,
    {
        let mut orientation = self.config.orientation;
        orientation.com_scan_direction = com_scan_direction;
        self.set_orientation_exchange(orientation)
    }

    /// Result of changing only the COM scan direction.
    pub fn set_com_scan_direction<E>(
        &mut self,
        com_scan_direction: ComScanDirection,
        ex: Exchange<E>,
    ) -> (r: Result<(), E>)
        requires
            ex.steps() == command_frames(
                self.i2c_address(),
                spec_orientation_commands(
                    with_com_scan_direction(self.config().orientation, com_scan_direction),
                ),
            ),
            ex.done(),
        ensures
            r == bus_result(ex),
            ex.fault() is None ==> final(self).config() == with_orientation(
                old(self).config(),
                with_com_scan_direction(old(self).config().orientation, com_scan_direction),
            ),
            *final(self) == if ex.fault() is None {
                old(self).with_config(
                    with_orientation(
                        old(self).config(),
                        with_com_scan_direction(old(self).config().orientation, com_scan_direction),
                    ),
                )
            } else {
                *old(self)
            },
    {
        let mut orientation = self.config.orientation;
        orientation.com_scan_direction = com_scan_direction;
        self.set_orientation(orientation, ex)
    }

    /// Builds the writes of initialization with a configuration.
    fn init_ops(&self, config: Config) -> (r: Vec<BusOp>)
        ensures
            steps_of(r@) == init_plan::<SIZE>(self.i2c_address(), config),
    {
        let prefix = init_prefix::<SIZE>(config);
        let mut ops = command_ops(self.address, &prefix);
        let orientation = orientation_commands(config.orientation);
        push_frames(&mut ops, self.address, CONTROL_COMMAND, &orientation);
        let suffix = init_suffix::<SIZE>(config);
        push_frames(&mut ops, self.address, CONTROL_COMMAND, &suffix);
        ops
    }

    /// Plans initialization with an explicit configuration.
    pub fn init_with_config_exchange<F>(&self, config: Config) -> (r: Exchange<F>)
        ensures
            r.steps() == init_plan::<SIZE>(self.i2c_address(), config),
            r.position() == 0,
            r.fault() is None,
    {
        proof {
            lemma_init_plan_no_reads::<SIZE>(self.address, config);
        }
        Exchange::without_reads(self.init_ops(config))
    }

    /// Result of initialization; the configuration is stored only when every
    /// write went through.
    pub fn init_with_config<E>(&mut self, config: Config, ex: Exchange<E>) -> (r: Result<(), E>)
        requires
            ex.steps() == init_plan::<SIZE>(self.i2c_address(), config),
            ex.done(),
        ensures
            r == bus_result(ex),
            ex.fault() is None ==> final(self).config() == config,
            *final(self) == if ex.fault() is None {
                old(self).with_config(config)
            } else {
                *old(self)
            },
    {
        let result = finish_writes(ex);
        if result.is_ok() {
            self.config = config;
        }
        result
    }

    /// Plans initialization with the panel defaults, the current orientation
    /// and the datasheet default contrast `0x7F`.
    pub fn init_exchange<F>(&self) -> (r: Exchange<F>)
        ensures
            r.steps() == init_plan::<SIZE>(
                self.i2c_address(),
                default_config(self.config().orientation),
            ),
            r.position() == 0,
            r.fault() is None,
    {
        self.init_with_config_exchange(Config::with_orientation(self.config.orientation))
    }

    /// Result of initialization with the defaults.
    pub fn init<E>(&mut self, ex: Exchange<E>) -> (r: Result<(), E>)
        requires
            ex.steps() == init_plan::<SIZE>(self.i2c_address(), default_config(self.config().orientation)),
            ex.done(),
        ensures
            r == bus_result(ex),
            ex.fault() is None ==> final(self).config() == default_config(old(self).config().orientation),
            *final(self) == if ex.fault() is None {
                old(self).with_config(default_config(old(self).config().orientation))
            } else {
                *old(self)
            },
    {
        let config = Config::with_orientation(self.config.orientation);
        self.init_with_config(config, ex)
    }

    /// Plans a hardware reset pulse followed by initialization with a
    /// configuration: the pulse is an exchange of its own, whose faults are
    /// reset-pin errors, and the initialization writes are another, whose
    /// faults are bus errors. The writes are performed only after the pulse
    /// went through.
    pub fn init_with_config_and_reset_exchange<P, E>(&self, config: Config) -> (r: (
        Exchange<P>,
        Exchange<E>,
    ))
        ensures
            r.0.steps() == reset_pulse(),
            r.0.position() == 0,
            r.0.fault() is None,
            r.1.steps() == init_plan::<SIZE>(self.i2c_address(), config),
            r.1.position() == 0,
            r.1.fault() is None,
    {
        let ops = vec![
            BusOp::SetResetPin { high: false },
            BusOp::DelayUs { us: 3 },
            BusOp::SetResetPin { high: true },
            BusOp::DelayUs { us: 3 },
        ];
        assert(steps_of(ops@) =~= reset_pulse());
        assert(no_reads(reset_pulse()));
        let pulse = Exchange::without_reads(ops);
        (pulse, self.init_with_config_exchange(config))
    }

    /// Result of reset-aware initialization: a failed reset-pin step gives
    /// [`InitError::ResetPin`] and no write is performed; otherwise a failed
    /// write gives [`InitError::Bus`]. The configuration is stored only when
    /// every step went through.
    pub fn init_with_config_and_reset<E, P>(
        &mut self,
        config: Config,
        pulse: Exchange<P>,
        init: Exchange<E>,
    ) -> (r: core::result::Result<(), InitError<E, P>>)
        requires
            pulse.steps() == reset_pulse(),
            init.steps() == init_plan::<SIZE>(self.i2c_address(), config),
            pulse.fault() is Some ==> init.position() == 0 && init.fault() is None,
            pulse.done(),
            pulse.fault() is None ==> init.done(),
        ensures
            r == reset_init_result(pulse, init),
            r is Ok ==> final(self).config() == config,
            *final(self) == if r is Ok {
                old(self).with_config(config)
            } else {
                *old(self)
            },
    {
        match pulse.into_outcome() {
            Outcome::Failed { fault, .. } => Err(InitError::ResetPin(fault)),
            Outcome::Completed(_) => match init.into_outcome() {
                Outcome::Completed(_) => {
                    self.config = config;
                    Ok(())
                },
                Outcome::Failed { fault, .. } => Err(InitError::Bus(fault)),
            },
        }
    }

    /// Plans a hardware reset pulse followed by initialization with the defaults.
    pub fn init_with_reset_exchange<P, E>(&self) -> (r: (Exchange<P>, Exchange<E>))
        ensures
            r.0.steps() == reset_pulse(),
            r.0.position() == 0,
            r.0.fault() is None,
            r.1.steps() == init_plan::<SIZE>(
                self.i2c_address(),
                default_config(self.config().orientation),
            ),
            r.1.position() == 0,
            r.1.fault() is None,
    {
        self.init_with_config_and_reset_exchange(Config::with_orientation(self.config.orientation))
    }

    /// Result of reset-aware initialization with the defaults.
    pub fn init_with_reset<E, P>(&mut self, pulse: Exchange<P>, init: Exchange<E>) -> (r:
        core::result::Result<(), InitError<E, P>>)
        requires
            pulse.steps() == reset_pulse(),
            init.steps() == init_plan::<SIZE>(self.i2c_address(), default_config(self.config().orientation)),
            pulse.fault() is Some ==> init.position() == 0 && init.fault() is None,
            pulse.done(),
            pulse.fault() is None ==> init.done(),
        ensures
            r == reset_init_result(pulse, init),
            r is Ok ==> final(self).config() == default_config(old(self).config().orientation),
            *final(self) == if r is Ok {
                old(self).with_config(default_config(old(self).config().orientation))
            } else {
                *old(self)
            },
    {
        let config = Config::with_orientation(self.config.orientation);
        self.init_with_config_and_reset(config, pulse, init)
    }

    /// Plans a horizontal hardware scroll: scrolling off (`2Eh`), then the setup sequence.
    pub fn configure_horizontal_scroll_exchange<F>(
        &self,
        direction: ScrollDirection,
        pages: PageRange<SIZE>,
        interval: ScrollFrameInterval,
    ) -> (r: Exchange<F>)
        ensures
            r.steps() == command_frames(self.i2c_address(), seq![0x2Eu8]) + command_frames(
                self.i2c_address(),
                spec_horizontal_scroll_setup(direction, pages, interval),
            ),
            r.position() == 0,
            r.fault() is None,
    {
        let stop = [0x2Eu8];
        assert(stop@ =~= seq![0x2Eu8]);
        let mut ops = command_ops(self.address, &stop);
        let setup = horizontal_scroll_setup(direction, pages, interval);
        push_frames(&mut ops, self.address, CONTROL_COMMAND, &setup);
        proof {
            lemma_two_command_frames_no_reads(self.address, seq![0x2Eu8], setup@);
        }
        Exchange::without_reads(ops)
    }

    /// Result of configuring a horizontal scroll.
    pub fn configure_horizontal_scroll<E>(
        &mut self,
        direction: ScrollDirection,
        pages: PageRange<SIZE>,
        interval: ScrollFrameInterval,
        ex: Exchange<E>,
    ) -> (r: Result<(), E>)
        requires
            ex.steps() == command_frames(self.i2c_address(), seq![0x2Eu8]) + command_frames(
                self.i2c_address(),
                spec_horizontal_scroll_setup(direction, pages, interval),
            ),
            ex.done(),
        ensures
            r == bus_result(ex),
            *final(self) == *old(self),
    {
        finish_writes(ex)
    }

    /// Plans programming the vertical scroll area: scrolling off, then `A3h`.
    pub fn set_vertical_scroll_area_exchange<F>(&self, area: VerticalScrollArea<SIZE>) -> (r:
        Exchange<F>)
        ensures
            r.steps() == command_frames(self.i2c_address(), seq![0x2Eu8]) + command_frames(
                self.i2c_address(),
                spec_vertical_scroll_area_setup(area),
            ),
            r.position() == 0,
            r.fault() is None,
    {
        let stop = [0x2Eu8];
        assert(stop@ =~= seq![0x2Eu8]);
        let mut ops = command_ops(self.address, &stop);
        let setup = vertical_scroll_area_setup(area);
        push_frames(&mut ops, self.address, CONTROL_COMMAND, &setup);
        proof {
            lemma_two_command_frames_no_reads(self.address, seq![0x2Eu8], setup@);
        }
        Exchange::without_reads(ops)
    }

    /// Result of programming the vertical scroll area.
    pub fn set_vertical_scroll_area<E>(
        &mut self,
        area: VerticalScrollArea<SIZE>,
        ex: Exchange<E>,
    ) -> (r: Result<(), E>)
        requires
            ex.steps() == command_frames(self.i2c_address(), seq![0x2Eu8]) + command_frames(
                self.i2c_address(),
                spec_vertical_scroll_area_setup(area),
            ),
            ex.done(),
        ensures
            r == bus_result(ex),
            *final(self) == *old(self),
    {
        finish_writes(ex)
    }

    /// Plans a diagonal hardware scroll: scrolling off, the vertical scroll
    /// area, then the setup sequence. When the vertical offset does not fit in
    /// the scrolling rows nothing is planned.
    pub fn configure_diagonal_scroll_exchange<F>(
        &self,
        direction: ScrollDirection,
        pages: PageRange<SIZE>,
        interval: ScrollFrameInterval,
        area: VerticalScrollArea<SIZE>,
        vertical_offset: DisplayLine<SIZE>,
    ) -> (r: Exchange<F>)
        ensures
            r.steps() == if vertical_offset.value() < area.scrolling().value() {
                command_frames(self.i2c_address(), seq![0x2Eu8]) + command_frames(
                    self.i2c_address(),
                    spec_vertical_scroll_area_setup(area),
                ) + command_frames(
                    self.i2c_address(),
                    spec_diagonal_scroll_setup(direction, pages, interval, vertical_offset),
                )
            } else {
                Seq::<Step>::empty()
            },
            r.position() == 0,
            r.fault() is None,
    {
        if !area.supports_offset(vertical_offset) {
            let ops: Vec<BusOp> = Vec::new();
            assert(steps_of(ops@) =~= Seq::<Step>::empty());
            return Exchange::without_reads(ops);
        }
        let stop = [0x2Eu8];
        assert(stop@ =~= seq![0x2Eu8]);
        let mut ops = command_ops(self.address, &stop);
        let area_setup = vertical_scroll_area_setup(area);
        push_frames(&mut ops, self.address, CONTROL_COMMAND, &area_setup);
        let setup = diagonal_scroll_setup(direction, pages, interval, vertical_offset);
        push_frames(&mut ops, self.address, CONTROL_COMMAND, &setup);
        proof {
            lemma_two_command_frames_no_reads(self.address, seq![0x2Eu8], area_setup@);
            lemma_frames_no_reads(self.address, 0x00, setup@);
            lemma_no_reads_append(
                command_frames(self.address, seq![0x2Eu8]) + command_frames(
                    self.address,
                    area_setup@,
                ),
                command_frames(self.address, setup@),
            );
        }
        Exchange::without_reads(ops)
    }

    /// Result of configuring a diagonal scroll: an offset outside the
    /// scrolling rows is rejected before any bus traffic.
    pub fn configure_diagonal_scroll<E>(
        &mut self,
        direction: ScrollDirection,
        pages: PageRange<SIZE>,
        interval: ScrollFrameInterval,
        area: VerticalScrollArea<SIZE>,
        vertical_offset: DisplayLine<SIZE>,
        ex: Exchange<E>,
    ) -> (r: Result<(), E>)
        requires
            ex.steps() == diagonal_scroll_plan(
                self.i2c_address(),
                direction,
                pages,
                interval,
                area,
                vertical_offset,
            ),
            ex.done(),
        ensures
            r == if vertical_offset.value() < area.scrolling().value() {
                bus_result(ex)
            } else {
                Err(Error::InvalidArgument(InvalidArgument::VerticalScrollOffsetOutOfRange))
            },
            *final(self) == *old(self),
    {
        if !area.supports_offset(vertical_offset) {
            return Err(Error::InvalidArgument(InvalidArgument::VerticalScrollOffsetOutOfRange));
        }
        finish_writes(ex)
    }

    /// Plans activating the configured hardware scroll (`2Fh`).
    pub fn start_scroll_exchange<F>(&self) -> (r: Exchange<F>)
        ensures
            r.steps() == command_frames(self.i2c_address(), seq![0x2Fu8]),
            r.position() == 0,
            r.fault() is None,
    {
        self.single_command_exchange(0x2F)
    }

    /// Finishes activating the scroll: on success the driver enters the
    /// active scroll state, in which display RAM writes are unavailable;
    /// otherwise the error hands the driver back unchanged.
    pub fn start_scroll<E>(self, ex: Exchange<E>) -> (r: core::result::Result<
        Ssd1306<DI, SIZE, MODE, ScrollActive>,
        StateChangeError<Self, E>,
    >)
        requires
            ex.steps() == command_frames(self.i2c_address(), seq![0x2Fu8]),
            ex.done(),
        ensures
            ex.fault() is None <==> r is Ok,
            r matches Ok(d) ==> d.bus() == self.bus() && d.i2c_address() == self.i2c_address()
                && d.config() == self.config() && d.mode() == self.mode(),
            r matches Err(e) ==> e.kept_driver() == self && Err::<(), Error<E>>(e.failure())
                == bus_result(ex),
    {
        match finish_writes(ex) {
            Ok(()) => Ok(self.into_scroll_state()),
            Err(error) => Err(StateChangeError::new(self, error)),
        }
    }
}

/// Initialization plans never read.
proof fn lemma_init_plan_no_reads<SIZE: DisplaySize>(address: u8, config: Config)
    ensures
        no_reads(init_plan::<SIZE>(address, config)),
{
    let a = command_frames(address, spec_init_prefix::<SIZE>(config));
    let b = command_frames(address, spec_orientation_commands(config.orientation));
    let c = command_frames(address, spec_init_suffix::<SIZE>(config));
    lemma_frames_no_reads(address, 0x00, spec_init_prefix::<SIZE>(config));
    lemma_frames_no_reads(address, 0x00, spec_orientation_commands(config.orientation));
    lemma_frames_no_reads(address, 0x00, spec_init_suffix::<SIZE>(config));
    lemma_no_reads_append(a, b);
    lemma_no_reads_append(a + b, c);
}

/// Two command sequences in a row never read.
proof fn lemma_two_command_frames_no_reads(address: u8, first: Seq<u8>, second: Seq<u8>)
    ensures
        no_reads(command_frames(address, first) + command_frames(address, second)),
{
    lemma_frames_no_reads(address, 0x00, first);
    lemma_frames_no_reads(address, 0x00, second);
    lemma_no_reads_append(command_frames(address, first), command_frames(address, second));
}

/// Whether pixel `(x, y)` is on in a framebuffer of a panel `width` pixels wide.
pub open spec fn pixel_on(frame: Seq<u8>, width: nat, x: int, y: int) -> bool {
    frame[pixel_index(width, x, y)] & pixel_mask(y) != 0
}

/// Two pixels of the panel share a framebuffer byte only when they share the
/// column and the page.
proof fn lemma_pixel_index_injective(width: int, x1: int, y1: int, x2: int, y2: int)
    requires
        0 <= x1 < width,
        0 <= x2 < width,
        0 <= y1,
        0 <= y2,
        x1 + (y1 / 8) * width == x2 + (y2 / 8) * width,
    ensures
        x1 == x2,
        y1 / 8 == y2 / 8,
{
    let q1 = y1 / 8;
    let q2 = y2 / 8;
    assert(q1 == q2) by (nonlinear_arith)
        requires
            0 <= x1 < width,
            0 <= x2 < width,
            x1 + q1 * width == x2 + q2 * width,
    {
        if q1 < q2 {
            assert(q2 * width >= (q1 + 1) * width);
        } else if q1 > q2 {
            assert(q1 * width >= (q2 + 1) * width);
        }
    }
}

/// A pixel of the panel lies within the framebuffer.
proof fn lemma_pixel_index_in_frame<SIZE: DisplaySize>(x: int, y: int)
    requires
        0 <= x < SIZE::spec_width(),
        0 <= y < SIZE::spec_height(),
    ensures
        0 <= pixel_index(SIZE::spec_width() as nat, x, y) < SIZE::frame_len(),
{
    SIZE::lemma_geometry();
    let w = SIZE::spec_width() as int;
    let h = SIZE::spec_height() as int;
    assert(0 <= x + (y / 8) * w < SIZE::frame_len()) by (nonlinear_arith)
        requires
            0 <= x < w,
            0 <= y < h,
            h % 8 == 0,
            SIZE::frame_len() == w * (h / 8),
    ;
}

/// Setting or clearing one bit of a byte: the bit takes the new value.
proof fn lemma_bit_written(byte: u8, k: u8)
    requires
        k < 8,
    ensures
        (byte | (1u8 << k)) & (1u8 << k) != 0,
        (byte & !(1u8 << k)) & (1u8 << k) == 0,
{
    assert((byte | (1u8 << k)) & (1u8 << k) != 0) by (bit_vector)
        requires
            k < 8,
    ;
    assert((byte & !(1u8 << k)) & (1u8 << k) == 0) by (bit_vector)
        requires
            k < 8,
    ;
}

/// Setting or clearing one bit of a byte leaves every other bit as it was.
proof fn lemma_other_bits_kept(byte: u8, k: u8, j: u8)
    requires
        k < 8,
        j < 8,
        k != j,
    ensures
        ((byte | (1u8 << k)) & (1u8 << j) != 0) == (byte & (1u8 << j) != 0),
        ((byte & !(1u8 << k)) & (1u8 << j) != 0) == (byte & (1u8 << j) != 0),
{
    assert(((byte | (1u8 << k)) & (1u8 << j) != 0) == (byte & (1u8 << j) != 0)) by (bit_vector)
        requires
            k < 8,
            j < 8,
            k != j,
    ;
    assert(((byte & !(1u8 << k)) & (1u8 << j) != 0) == (byte & (1u8 << j) != 0)) by (bit_vector)
        requires
            k < 8,
            j < 8,
            k != j,
    ;
}

/// A pixel written with `set_pixel` reads back as written.
pub proof fn lemma_pixel_reads_back<SIZE: DisplaySize>(frame: Seq<u8>, x: u32, y: u32, on: bool)
    requires
        frame.len() == SIZE::frame_len(),
        x < SIZE::spec_width(),
        y < SIZE::spec_height(),
    ensures
        pixel_on(with_pixel::<SIZE>(frame, x, y, on), SIZE::spec_width() as nat, x as int, y as int)
            == on,
{
    lemma_pixel_index_in_frame::<SIZE>(x as int, y as int);
    let i = pixel_index(SIZE::spec_width() as nat, x as int, y as int);
    lemma_bit_written(frame[i], (y % 8) as u8);
}

/// Writing one pixel leaves every other pixel of the panel as it was.
pub proof fn lemma_other_pixels_kept<SIZE: DisplaySize>(
    frame: Seq<u8>,
    x: u32,
    y: u32,
    on: bool,
    other_x: u32,
    other_y: u32,
)
    requires
        frame.len() == SIZE::frame_len(),
        other_x < SIZE::spec_width(),
        other_y < SIZE::spec_height(),
        other_x != x || other_y != y,
    ensures
        pixel_on(
            with_pixel::<SIZE>(frame, x, y, on),
            SIZE::spec_width() as nat,
            other_x as int,
            other_y as int,
        ) == pixel_on(frame, SIZE::spec_width() as nat, other_x as int, other_y as int),
{
    let w = SIZE::spec_width() as nat;
    if x < SIZE::spec_width() && y < SIZE::spec_height() {
        lemma_pixel_index_in_frame::<SIZE>(x as int, y as int);
        lemma_pixel_index_in_frame::<SIZE>(other_x as int, other_y as int);
        let i = pixel_index(w, x as int, y as int);
        let j = pixel_index(w, other_x as int, other_y as int);
        if i == j {
            lemma_pixel_index_injective(w as int, x as int, y as int, other_x as int, other_y as int);
            assert(y % 8 != other_y % 8);
            lemma_other_bits_kept(frame[i], (y % 8) as u8, (other_y % 8) as u8);
        }
    }
}

/// A configuration change stores exactly the new configuration and keeps
/// the bus, the address and the mode value (framebuffer included) as they
/// were, in every mode and scroll state.
pub proof fn lemma_config_change<DI, SIZE, MODE, SCROLL>(
    display: Ssd1306<DI, SIZE, MODE, SCROLL>,
    config: Config,
)
    ensures
        display.with_config(config).config() == config,
        display.with_config(config).bus() == display.bus(),
        display.with_config(config).i2c_address() == display.i2c_address(),
        display.with_config(config).mode() == display.mode(),
{
}

/// Reprogramming the configuration or the orientation never touches the
/// framebuffer: framebuffer coordinates stay canonical, and the bus and the
/// address stay as they were.
pub proof fn lemma_config_change_keeps_frame<DI, SIZE: DisplaySize, SCROLL>(
    display: Ssd1306<DI, SIZE, BufferedGraphicsMode<SIZE>, SCROLL>,
    config: Config,
)
    ensures
        display.with_config(config).frame() == display.frame(),
        display.with_config(config).config() == config,
        display.with_config(config).bus() == display.bus(),
        display.with_config(config).i2c_address() == display.i2c_address(),
{
}

/// Framed writes go to their address.
proof fn lemma_frames_addressed(address: u8, control: u8, bytes: Seq<u8>)
    ensures
        addressed_to(frames(address, control, bytes), address),
{
    let f = frames(address, control, bytes);
    assert forall|i: int| 0 <= i < f.len() implies match #[trigger] f[i] {
        Step::Write(a, _) => a == address,
        Step::Read(a, _) => a == address,
        _ => true,
    } by {
        assert(f[i] == Step::Write(address, seq![control] + chunk(bytes, i)));
    }
}

/// Page-wise data writes go to their address.
proof fn lemma_page_frames_addressed(address: u8, frame: Seq<u8>, width: nat, area: DrawArea, last: int)
    ensures
        addressed_to(page_frames(address, frame, width, area, last), address),
    decreases last - area.start_page + 1,
{
    if last >= area.start_page {
        let rows = frame.subrange(last * width + area.start_column, last * width + area.end_column + 1);
        lemma_page_frames_addressed(address, frame, width, area, last - 1);
        lemma_frames_addressed(address, 0x40, rows);
        lemma_addressed_to_append(
            page_frames(address, frame, width, area, last - 1),
            data_frames(address, rows),
            address,
        );
    } else {
        assert(page_frames(address, frame, width, area, last) =~= Seq::<Step>::empty());
    }
}

/// Every display operation talks only to the display's address: each write
/// of a command sequence, of display RAM data, of initialization and of a
/// flush goes to `address`, and the reset pulse writes nothing at all.
pub proof fn lemma_display_plans_addressed<SIZE: DisplaySize>(
    address: u8,
    control: u8,
    bytes: Seq<u8>,
    config: Config,
    frame: Seq<u8>,
    area: DrawArea,
)
    ensures
        addressed_to(frames(address, control, bytes), address),
        addressed_to(init_plan::<SIZE>(address, config), address),
        addressed_to(flush_plan::<SIZE>(address, frame, area), address),
        addressed_to(reset_pulse(), address),
{
    lemma_frames_addressed(address, control, bytes);
    let p = command_frames(address, spec_init_prefix::<SIZE>(config));
    let o = command_frames(address, spec_orientation_commands(config.orientation));
    let q = command_frames(address, spec_init_suffix::<SIZE>(config));
    lemma_frames_addressed(address, 0x00, spec_init_prefix::<SIZE>(config));
    lemma_frames_addressed(address, 0x00, spec_orientation_commands(config.orientation));
    lemma_frames_addressed(address, 0x00, spec_init_suffix::<SIZE>(config));
    lemma_addressed_to_append(p, o, address);
    lemma_addressed_to_append(p + o, q, address);
    let m = command_frames(address, seq![0x20u8, 0x00u8]);
    let w = command_frames(address, spec_area_commands(area));
    lemma_frames_addressed(address, 0x00, seq![0x20u8, 0x00u8]);
    lemma_frames_addressed(address, 0x00, spec_area_commands(area));
    lemma_addressed_to_append(m, w, address);
    if area == full_area::<SIZE>() {
        lemma_frames_addressed(address, 0x40, frame);
        lemma_addressed_to_append(m + w, data_frames(address, frame), address);
    } else {
        let pages = page_frames(address, frame, SIZE::spec_width() as nat, area, area.end_page as int);
        lemma_page_frames_addressed(address, frame, SIZE::spec_width() as nat, area, area.end_page as int);
        lemma_addressed_to_append(m + w, pages, address);
    }
    let r = reset_pulse();
    assert(r[0] == Step::ResetPin(false) && r[1] == Step::DelayUs(3) && r[2] == Step::ResetPin(true)
        && r[3] == Step::DelayUs(3));
}

/// The reset pulse drives `RES#` low, holds it for 3 us, releases it high
/// and waits 3 us more, and nothing else: the pin ends high, so the
/// controller is out of reset before the first command.
pub proof fn lemma_reset_pulse_shape()
    ensures
        reset_pulse().len() == 4,
        reset_pulse()[0] == Step::ResetPin(false),
        reset_pulse()[1] == Step::DelayUs(3),
        reset_pulse()[2] == Step::ResetPin(true),
        reset_pulse()[3] == Step::DelayUs(3),
{
}

/// A full flush sets horizontal addressing (`20h 00h`), then the window over
/// the whole panel (`21h`: columns 0 to the last, `22h`: pages 0 to the
/// last), then sends the framebuffer as display RAM data, in order.
pub proof fn lemma_full_flush_plan<SIZE: DisplaySize>(address: u8, frame: Seq<u8>)
    ensures
        flush_plan::<SIZE>(address, frame, full_area::<SIZE>()) == seq![
            Step::Write(address, seq![0x00u8, 0x20u8, 0x00u8]),
            Step::Write(
                address,
                seq![
                    0x00u8,
                    0x21u8,
                    0x00u8,
                    (SIZE::spec_width() - 1) as u8,
                    0x22u8,
                    0x00u8,
                    (SIZE::spec_height() / 8 - 1) as u8,
                ],
            ),
        ] + data_frames(address, frame),
{
    let window = spec_area_commands(full_area::<SIZE>());
    lemma_short_frames(address, seq![0x20u8, 0x00u8]);
    lemma_short_frames(address, window);
    assert(seq![0x00u8] + seq![0x20u8, 0x00u8] =~= seq![0x00u8, 0x20u8, 0x00u8]);
    assert(seq![0x00u8] + window =~= seq![
        0x00u8,
        0x21u8,
        0x00u8,
        (SIZE::spec_width() - 1) as u8,
        0x22u8,
        0x00u8,
        (SIZE::spec_height() / 8 - 1) as u8,
    ]);
    assert(command_frames(address, seq![0x20u8, 0x00u8]) + command_frames(address, window)
        =~= seq![
        Step::Write(address, seq![0x00u8, 0x20u8, 0x00u8]),
        Step::Write(
            address,
            seq![
                0x00u8,
                0x21u8,
                0x00u8,
                (SIZE::spec_width() - 1) as u8,
                0x22u8,
                0x00u8,
                (SIZE::spec_height() / 8 - 1) as u8,
            ],
        ),
    ]);
}

} // verus!
