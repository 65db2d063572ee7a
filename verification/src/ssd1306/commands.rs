//! SSD1306 command bytes, command sequences and I2C framing.
//!
//! Every I2C write to the controller starts with a control byte: `0x00` for
//! command bytes, `0x40` for display RAM data. Longer byte streams are split
//! into writes of at most 16 payload bytes.
use vstd::prelude::*;

use crate::bus::{BusOp, Step, no_reads, steps_of};
use crate::ssd1306::sealed::DisplaySizePrivate;
use crate::ssd1306::size::DisplaySize;
use crate::ssd1306::types::{
    ComScanDirection, Config, DisplayLine, Orientation, PageRange, PowerSource, ScrollDirection,
    ScrollFrameInterval, SegmentRemap, VerticalScrollArea,
};

verus! {

/// Control byte that marks the rest of a write as command bytes.
pub const CONTROL_COMMAND: u8 = 0x00;

/// Control byte that marks the rest of a write as display RAM data.
pub const CONTROL_DATA: u8 = 0x40;

/// Largest payload of one I2C write.
pub const CHUNK_SIZE: usize = 16;

/// Number of writes needed for `len` payload bytes.
pub open spec fn chunk_count(len: nat) -> nat {
    ((len + 15) / 16) as nat
}

/// Payload of the `k`-th write: bytes `16k` up to `16k + 16`, or to the end.
pub open spec fn chunk(bytes: Seq<u8>, k: int) -> Seq<u8> {
    let start = 16 * k;
    let end = if start + 16 <= bytes.len() {
        start + 16
    } else {
        bytes.len() as int
    };
    bytes.subrange(start, end)
}

/// The writes that carry `bytes` after the control byte, 16 bytes at a time.
pub open spec fn frames(address: u8, control: u8, bytes: Seq<u8>) -> Seq<Step> {
    Seq::new(
        chunk_count(bytes.len()),
        |k: int| Step::Write(address, seq![control] + chunk(bytes, k)),
    )
}

/// The writes that carry a command sequence.
pub open spec fn command_frames(address: u8, commands: Seq<u8>) -> Seq<Step> {
    frames(address, 0x00, commands)
}

/// The writes that carry display RAM data.
pub open spec fn data_frames(address: u8, data: Seq<u8>) -> Seq<Step> {
    frames(address, 0x40, data)
}

/// Framed writes never read.
pub proof fn lemma_frames_no_reads(address: u8, control: u8, bytes: Seq<u8>)
    ensures
        no_reads(frames(address, control, bytes)),
{
}

/// Appending steps without reads keeps a sequence free of reads.
pub proof fn lemma_no_reads_append(a: Seq<Step>, b: Seq<Step>)
    requires
        no_reads(a),
        no_reads(b),
    ensures
        no_reads(a + b),
{
    assert forall|i: int| 0 <= i < (a + b).len() implies !(#[trigger] (a + b)[i] is Read) by {
        if i < a.len() {
            assert((a + b)[i] == a[i]);
        } else {
            assert((a + b)[i] == b[i - a.len()]);
        }
    }
}

/// Appends the framed writes of `bytes` to `ops`.
pub fn push_frames(ops: &mut Vec<BusOp>, address: u8, control: u8, bytes: &[u8])
    ensures
        steps_of(final(ops)@) == steps_of(old(ops)@) + frames(address, control, bytes@),
{
    let ghost base = steps_of(old(ops)@);
    let ghost all = frames(address, control, bytes@);
    let len = bytes.len();
    let mut start: usize = 0;
    let mut k: usize = 0;
    while start < len
        invariant
            len == bytes@.len(),
            all == frames(address, control, bytes@),
            k <= chunk_count(len as nat),
            start == if 16 * k <= len {
                16 * k
            } else {
                len as int
            },
            start < len ==> start == 16 * k,
            steps_of(ops@) == base + all.take(k as int),
        decreases len - start,
    {
        let end = if len - start > CHUNK_SIZE {
            start + CHUNK_SIZE
        } else {
            len
        };
        let mut packet: Vec<u8> = Vec::new();
        packet.push(control);
        let mut i = start;
        while i < end
            invariant
                start <= i <= end,
                end <= len,
                len == bytes@.len(),
                packet@ == seq![control] + bytes@.subrange(start as int, i as int),
            decreases end - i,
        {
            packet.push(bytes[i]);
            assert(bytes@.subrange(start as int, i as int + 1) =~= bytes@.subrange(
                start as int,
                i as int,
            ).push(bytes@[i as int]));
            i = i + 1;
        }
        let ghost previous = ops@;
        assert(k < chunk_count(len as nat)) by (nonlinear_arith)
            requires
                start == 16 * k,
                start < len,
        ;
        assert(all.len() == chunk_count(len as nat));
        assert(packet@ =~= seq![control] + chunk(bytes@, k as int));
        assert(all[k as int] == Step::Write(address, seq![control] + chunk(bytes@, k as int)));
        ops.push(BusOp::Write { address, bytes: packet });
        assert(all.take(k as int + 1) =~= all.take(k as int).push(all[k as int]));
        assert(steps_of(ops@) =~= steps_of(previous).push(ops@[previous.len() as int]@));
        start = end;
        k = k + 1;
    }
    assert(k == chunk_count(len as nat)) by (nonlinear_arith)
        requires
            k <= chunk_count(len as nat),
            16 * k >= len,
    ;
    assert(all.take(k as int) =~= all);
}

/// Builds the writes of a command sequence on their own.
pub fn command_ops(address: u8, commands: &[u8]) -> (r: Vec<BusOp>)
    ensures
        steps_of(r@) == command_frames(address, commands@),
{
    let mut ops: Vec<BusOp> = Vec::new();
    assert(steps_of(ops@) =~= Seq::<Step>::empty());
    push_frames(&mut ops, address, CONTROL_COMMAND, commands);
    assert(steps_of(ops@) =~= command_frames(address, commands@));
    ops
}

/// Charge pump setting register value.
pub open spec fn spec_charge_pump(power_source: PowerSource) -> u8 {
    match power_source {
        PowerSource::Internal => 0x14u8,
        PowerSource::External => 0x10u8,
    }
}

/// Pre-charge period register value.
pub open spec fn spec_precharge(power_source: PowerSource) -> u8 {
    match power_source {
        PowerSource::Internal => 0xF1u8,
        PowerSource::External => 0x22u8,
    }
}

/// Segment remap command (`A0h`/`A1h`).
pub open spec fn spec_segment_remap_command(remap: SegmentRemap) -> u8 {
    match remap {
        SegmentRemap::Normal => 0xA0u8,
        SegmentRemap::Remapped => 0xA1u8,
    }
}

/// COM output scan direction command (`C0h`/`C8h`).
pub open spec fn spec_com_scan_command(direction: ComScanDirection) -> u8 {
    match direction {
        ComScanDirection::Normal => 0xC0u8,
        ComScanDirection::Remapped => 0xC8u8,
    }
}

/// The two commands that program an orientation.
pub open spec fn spec_orientation_commands(orientation: Orientation) -> Seq<u8> {
    seq![
        spec_segment_remap_command(orientation.segment_remap),
        spec_com_scan_command(orientation.com_scan_direction),
    ]
}

/// Continuous horizontal scroll setup command (`26h`/`27h`).
pub open spec fn spec_scroll_command(direction: ScrollDirection) -> u8 {
    match direction {
        ScrollDirection::Right => 0x26u8,
        ScrollDirection::Left => 0x27u8,
    }
}

/// Continuous vertical and horizontal scroll setup command (`29h`/`2Ah`).
pub open spec fn spec_diagonal_scroll_command(direction: ScrollDirection) -> u8 {
    match direction {
        ScrollDirection::Right => 0x29u8,
        ScrollDirection::Left => 0x2Au8,
    }
}

/// Scroll step interval bits of the scroll setup commands.
pub open spec fn spec_interval_bits(interval: ScrollFrameInterval) -> u8 {
    match interval {
        ScrollFrameInterval::Frames5 => 0x00u8,
        ScrollFrameInterval::Frames64 => 0x01u8,
        ScrollFrameInterval::Frames128 => 0x02u8,
        ScrollFrameInterval::Frames256 => 0x03u8,
        ScrollFrameInterval::Frames3 => 0x04u8,
        ScrollFrameInterval::Frames4 => 0x05u8,
        ScrollFrameInterval::Frames25 => 0x06u8,
        ScrollFrameInterval::Frames2 => 0x07u8,
    }
}

/// First part of initialization: display off, clock, multiplex, offset, start
/// line, charge pump, horizontal addressing.
pub open spec fn spec_init_prefix<SIZE: DisplaySize>(config: Config) -> Seq<u8> {
    seq![
        0xAEu8,
        0xD5u8,
        0x80u8,
        0xA8u8,
        SIZE::spec_multiplex(),
        0xD3u8,
        0x00u8,
        0x40u8,
        0x8Du8,
        spec_charge_pump(config.power_source),
        0x20u8,
        0x00u8,
    ]
}

/// Last part of initialization: COM pins, contrast, pre-charge, vertical
/// scroll area over the whole panel, VCOMH, resume from RAM, normal display,
/// scroll off, display on.
pub open spec fn spec_init_suffix<SIZE: DisplaySize>(config: Config) -> Seq<u8> {
    seq![
        0xDAu8,
        SIZE::spec_com_pins(),
        0x81u8,
        config.contrast,
        0xD9u8,
        spec_precharge(config.power_source),
        0xA3u8,
        0x00u8,
        SIZE::spec_height(),
        0xDBu8,
        0x40u8,
        0xA4u8,
        0xA6u8,
        0x2Eu8,
        0xAFu8,
    ]
}

/// Horizontal scroll setup sequence.
pub open spec fn spec_horizontal_scroll_setup<SIZE>(
    direction: ScrollDirection,
    pages: PageRange<SIZE>,
    interval: ScrollFrameInterval,
) -> Seq<u8> {
    seq![
        spec_scroll_command(direction),
        0x00u8,
        pages.first_page().value(),
        spec_interval_bits(interval),
        pages.last_page().value(),
        0x00u8,
        0xFFu8,
    ]
}

/// Vertical scroll area command (`A3h`).
pub open spec fn spec_vertical_scroll_area_setup<SIZE>(area: VerticalScrollArea<SIZE>) -> Seq<u8> {
    seq![0xA3u8, area.fixed().value(), area.scrolling().value()]
}

/// Diagonal scroll setup sequence.
pub open spec fn spec_diagonal_scroll_setup<SIZE>(
    direction: ScrollDirection,
    pages: PageRange<SIZE>,
    interval: ScrollFrameInterval,
    vertical_offset: DisplayLine<SIZE>,
) -> Seq<u8> {
    seq![
        spec_diagonal_scroll_command(direction),
        0x00u8,
        pages.first_page().value(),
        spec_interval_bits(interval),
        pages.last_page().value(),
        vertical_offset.value(),
    ]
}

/// Charge pump setting register value.
pub fn charge_pump_value(power_source: PowerSource) -> (r: u8)
    ensures
        r == spec_charge_pump(power_source),
{
    match power_source {
        PowerSource::Internal => 0x14,
        PowerSource::External => 0x10,
    }
}

/// Pre-charge period register value.
pub fn precharge_value(power_source: PowerSource) -> (r: u8)
    ensures
        r == spec_precharge(power_source),
{
    match power_source {
        PowerSource::Internal => 0xF1,
        PowerSource::External => 0x22,
    }
}

/// Horizontal scroll setup command.
pub fn scroll_command(direction: ScrollDirection) -> (r: u8)
    ensures
        r == spec_scroll_command(direction),
{
    match direction {
        ScrollDirection::Right => 0x26,
        ScrollDirection::Left => 0x27,
    }
}

/// Diagonal scroll setup command.
pub fn diagonal_scroll_command(direction: ScrollDirection) -> (r: u8)
    ensures
        r == spec_diagonal_scroll_command(direction),
{
    match direction {
        ScrollDirection::Right => 0x29,
        ScrollDirection::Left => 0x2A,
    }
}

/// Segment remap command.
pub fn segment_remap_command(remap: SegmentRemap) -> (r: u8)
    ensures
        r == spec_segment_remap_command(remap),
{
    match remap {
        SegmentRemap::Normal => 0xA0,
        SegmentRemap::Remapped => 0xA1,
    }
}

/// COM output scan direction command.
pub fn com_scan_direction_command(direction: ComScanDirection) -> (r: u8)
    ensures
        r == spec_com_scan_command(direction),
{
    match direction {
        ComScanDirection::Normal => 0xC0,
        ComScanDirection::Remapped => 0xC8,
    }
}

/// Scroll step interval bits.
pub fn scroll_interval_bits(interval: ScrollFrameInterval) -> (r: u8)
    ensures
        r == spec_interval_bits(interval),
{
    match interval {
        ScrollFrameInterval::Frames5 => 0x00,
        ScrollFrameInterval::Frames64 => 0x01,
        ScrollFrameInterval::Frames128 => 0x02,
        ScrollFrameInterval::Frames256 => 0x03,
        ScrollFrameInterval::Frames3 => 0x04,
        ScrollFrameInterval::Frames4 => 0x05,
        ScrollFrameInterval::Frames25 => 0x06,
        ScrollFrameInterval::Frames2 => 0x07,
    }
}

/// The two commands that program an orientation.
pub fn orientation_commands(orientation: Orientation) -> (r: [u8; 2])
    ensures
        r@ == spec_orientation_commands(orientation),
{
    let r = [
        segment_remap_command(orientation.segment_remap),
        com_scan_direction_command(orientation.com_scan_direction),
    ];
    assert(r@ =~= spec_orientation_commands(orientation));
    r
}

/// First part of the initialization sequence.
pub fn init_prefix<SIZE: DisplaySize>(config: Config) -> (r: [u8; 12])
    ensures
        r@ == spec_init_prefix::<SIZE>(config),
{
    let r = [
        0xAE,
        0xD5,
        0x80,
        0xA8,
        SIZE::multiplex(),
        0xD3,
        0x00,
        0x40,
        0x8D,
        charge_pump_value(config.power_source),
        0x20,
        0x00,
    ];
    assert(r@ =~= spec_init_prefix::<SIZE>(config));
    r
}

/// Last part of the initialization sequence.
pub fn init_suffix<SIZE: DisplaySize>(config: Config) -> (r: [u8; 15])
    ensures
        r@ == spec_init_suffix::<SIZE>(config),
{
    let r = [
        0xDA,
        SIZE::com_pins(),
        0x81,
        config.contrast,
        0xD9,
        precharge_value(config.power_source),
        0xA3,
        0x00,
        SIZE::height(),
        0xDB,
        0x40,
        0xA4,
        0xA6,
        0x2E,
        0xAF,
    ];
    assert(r@ =~= spec_init_suffix::<SIZE>(config));
    r
}

/// Horizontal scroll setup sequence.
pub fn horizontal_scroll_setup<SIZE: DisplaySize>(
    direction: ScrollDirection,
    pages: PageRange<SIZE>,
    interval: ScrollFrameInterval,
) -> (r: [u8; 7])
    ensures
        r@ == spec_horizontal_scroll_setup(direction, pages, interval),
{
    let r = [
        scroll_command(direction),
        0x00,
        pages.start().as_u8(),
        scroll_interval_bits(interval),
        pages.end().as_u8(),
        0x00,
        0xFF,
    ];
    assert(r@ =~= spec_horizontal_scroll_setup(direction, pages, interval));
    r
}

/// Vertical scroll area command.
pub fn vertical_scroll_area_setup<SIZE: DisplaySize>(area: VerticalScrollArea<SIZE>) -> (r: [u8; 3])
    ensures
        r@ == spec_vertical_scroll_area_setup(area),
{
    let r = [0xA3, area.top_fixed_rows().as_u8(), area.scroll_rows().as_u8()];
    assert(r@ =~= spec_vertical_scroll_area_setup(area));
    r
}

/// Diagonal scroll setup sequence.
pub fn diagonal_scroll_setup<SIZE: DisplaySize>(
    direction: ScrollDirection,
    pages: PageRange<SIZE>,
    interval: ScrollFrameInterval,
    vertical_offset: DisplayLine<SIZE>,
) -> (r: [u8; 6])
    ensures
        r@ == spec_diagonal_scroll_setup(direction, pages, interval, vertical_offset),
{
    let r = [
        diagonal_scroll_command(direction),
        0x00,
        pages.start().as_u8(),
        scroll_interval_bits(interval),
        pages.end().as_u8(),
        vertical_offset.as_u8(),
    ];
    assert(r@ =~= spec_diagonal_scroll_setup(direction, pages, interval, vertical_offset));
    r
}

/// A page-aligned rectangle of display RAM: columns `start_column..=end_column`
/// of pages `start_page..=end_page`.
#[derive(Debug, Copy, Clone, PartialEq, Eq)]
pub struct DrawArea {
    /// First column.
    pub start_column: u8,
    /// Last column.
    pub end_column: u8,
    /// First page.
    pub start_page: u8,
    /// Last page.
    pub end_page: u8,
}

/// The whole panel.
pub open spec fn full_area<SIZE: DisplaySize>() -> DrawArea {
    DrawArea {
        start_column: 0,
        end_column: (SIZE::spec_width() - 1) as u8,
        start_page: 0,
        end_page: (SIZE::spec_height() / 8 - 1) as u8,
    }
}

/// The area within the panel covered by the pixel rectangle at `(x, y)` of
/// `width` by `height`, with its rows rounded out to whole pages; `None` when
/// the rectangle misses the panel or is empty.
pub open spec fn clipped_area<SIZE: DisplaySize>(x: u32, y: u32, width: u32, height: u32) -> Option<
    DrawArea,
> {
    let end_x = if x + width < SIZE::spec_width() {
        x + width
    } else {
        SIZE::spec_width() as int
    };
    let end_y = if y + height < SIZE::spec_height() {
        y + height
    } else {
        SIZE::spec_height() as int
    };
    if x >= end_x || y >= end_y {
        None
    } else {
        Some(
            DrawArea {
                start_column: x as u8,
                end_column: (end_x - 1) as u8,
                start_page: (y / 8) as u8,
                end_page: ((end_y - 1) / 8) as u8,
            },
        )
    }
}

/// An area lies within the panel.
pub open spec fn area_within<SIZE: DisplaySize>(area: DrawArea) -> bool {
    &&& area.start_column <= area.end_column < SIZE::spec_width()
    &&& area.start_page <= area.end_page < SIZE::spec_height() / 8
}

/// Column and page address commands for an area.
pub open spec fn spec_area_commands(area: DrawArea) -> Seq<u8> {
    seq![0x21u8, area.start_column, area.end_column, 0x22u8, area.start_page, area.end_page]
}

impl DrawArea {
    /// The whole panel.
    pub fn full<SIZE: DisplaySize>() -> (r: Self)
        ensures
            r == full_area::<SIZE>(),
            area_within::<SIZE>(r),
    {
        proof {
            SIZE::lemma_geometry();
        }
        DrawArea {
            start_column: 0,
            end_column: SIZE::width() - 1,
            start_page: 0,
            end_page: SIZE::height() / 8 - 1,
        }
    }

    /// The area covered by a pixel rectangle, clipped to the panel.
    pub fn clipped<SIZE: DisplaySize>(x: u32, y: u32, width: u32, height: u32) -> (r: Option<Self>)
        ensures
            r == clipped_area::<SIZE>(x, y, width, height),
            r matches Some(area) ==> area_within::<SIZE>(area),
    {
        proof {
            SIZE::lemma_geometry();
        }
        let max_width = SIZE::width() as u32;
        let max_height = SIZE::height() as u32;
        let end_x = if x.saturating_add(width) < max_width {
            x.saturating_add(width)
        } else {
            max_width
        };
        let end_y = if y.saturating_add(height) < max_height {
            y.saturating_add(height)
        } else {
            max_height
        };
        if x >= end_x || y >= end_y {
            return None;
        }
        Some(
            DrawArea {
                start_column: x as u8,
                end_column: (end_x - 1) as u8,
                start_page: (y / 8) as u8,
                end_page: ((end_y - 1) / 8) as u8,
            },
        )
    }

    /// Column and page address commands for this area.
    pub fn commands(self) -> (r: [u8; 6])
        ensures
            r@ == spec_area_commands(self),
    {
        let r = [0x21, self.start_column, self.end_column, 0x22, self.start_page, self.end_page];
        assert(r@ =~= spec_area_commands(self));
        r
    }

    /// Whether this area is the whole panel.
    pub fn is_full<SIZE: DisplaySize>(self) -> (r: bool)
        ensures
            r == (self == full_area::<SIZE>()),
    {
        let full = DrawArea::full::<SIZE>();
        self.start_column == full.start_column && self.end_column == full.end_column
            && self.start_page == full.start_page && self.end_page == full.end_page
    }
}


/// The payloads of the first `n` writes, joined in order.
pub open spec fn joined_chunks(bytes: Seq<u8>, n: nat) -> Seq<u8>
    decreases n,
{
    if n == 0 {
        Seq::empty()
    } else {
        joined_chunks(bytes, (n - 1) as nat) + chunk(bytes, n - 1)
    }
}

/// The first `n` writes carry the first `16n` bytes (or all of them).
proof fn lemma_joined_chunks_prefix(bytes: Seq<u8>, n: nat)
    requires
        n <= chunk_count(bytes.len()),
    ensures
        joined_chunks(bytes, n) == bytes.subrange(
            0,
            if 16 * n <= bytes.len() {
                (16 * n) as int
            } else {
                bytes.len() as int
            },
        ),
    decreases n,
{
    if n == 0 {
        assert(bytes.subrange(0, 0) =~= Seq::<u8>::empty());
    } else {
        let len = bytes.len();
        assert(16 * (n - 1) < len) by (nonlinear_arith)
            requires
                n <= (len + 15) / 16,
                n >= 1,
        ;
        lemma_joined_chunks_prefix(bytes, (n - 1) as nat);
        let end = if 16 * n <= len {
            (16 * n) as int
        } else {
            len as int
        };
        assert(bytes.subrange(0, 16 * (n - 1)) + bytes.subrange(16 * (n - 1), end) =~= bytes.subrange(
            0,
            end,
        ));
    }
}

/// Splitting a byte stream into writes loses, duplicates and reorders
/// nothing: the payloads of the writes, joined, are the stream, and each
/// write carries between one and sixteen of its bytes.
pub proof fn lemma_chunks_reassemble(bytes: Seq<u8>)
    ensures
        joined_chunks(bytes, chunk_count(bytes.len())) == bytes,
        forall|k: int|
            0 <= k < chunk_count(bytes.len()) ==> 1 <= #[trigger] chunk(bytes, k).len() <= 16,
{
    let len = bytes.len();
    let n = chunk_count(len);
    assert(16 * n >= len) by (nonlinear_arith)
        requires
            n == (len + 15) / 16,
    ;
    lemma_joined_chunks_prefix(bytes, n);
    assert(bytes.subrange(0, len as int) =~= bytes);
    assert forall|k: int| 0 <= k < n implies 1 <= #[trigger] chunk(bytes, k).len() <= 16 by {
        assert(16 * k < len) by (nonlinear_arith)
            requires
                0 <= k < n,
                n == (len + 15) / 16,
        ;
    }
}

/// The area contains the column.
pub open spec fn area_has_column(area: DrawArea, column: int) -> bool {
    area.start_column <= column <= area.end_column
}

/// The area contains the page of the pixel row.
pub open spec fn area_has_row(area: DrawArea, row: int) -> bool {
    area.start_page <= row / 8 <= area.end_page
}

/// Flushing a pixel rectangle covers every panel pixel inside it. The
/// rectangle is skipped exactly when it is empty or starts off the panel;
/// otherwise the area lies within the panel, starts at the rectangle's column
/// and page, and contains the column and the page of each of its pixels on the
/// panel.
pub proof fn lemma_clipped_area_covers<SIZE: DisplaySize>(x: u32, y: u32, width: u32, height: u32)
    ensures
        clipped_area::<SIZE>(x, y, width, height) is None <==> (width == 0 || height == 0 || x
            >= SIZE::spec_width() || y >= SIZE::spec_height()),
        clipped_area::<SIZE>(x, y, width, height) matches Some(area) ==> {
            &&& area_within::<SIZE>(area)
            &&& area.start_column == x
            &&& area.start_page == y / 8
            &&& forall|px: int|
                x <= px < x + width && px < SIZE::spec_width() ==> #[trigger] area_has_column(
                    area,
                    px,
                )
            &&& forall|py: int|
                y <= py < y + height && py < SIZE::spec_height() ==> #[trigger] area_has_row(
                    area,
                    py,
                )
        },
{
    SIZE::lemma_geometry();
    if let Some(area) = clipped_area::<SIZE>(x, y, width, height) {
        let h = SIZE::spec_height() as int;
        let end_y = if y + height < h {
            y + height
        } else {
            h
        };
        assert(((end_y - 1) / 8) < h / 8) by (nonlinear_arith)
            requires
                1 <= end_y <= h,
                h % 8 == 0,
        ;
        assert forall|py: int| y <= py < y + height && py < SIZE::spec_height() implies #[trigger] area_has_row(
            area,
            py,
        ) by {
            assert(y / 8 <= py / 8 <= (end_y - 1) / 8) by (nonlinear_arith)
                requires
                    y <= py <= end_y - 1,
            ;
        }
    }
}

/// A full flush programs a window over the whole panel: it starts at the
/// first column and page, contains every column and every pixel row of the
/// panel, lies within the panel, and holds exactly as many bytes as the
/// framebuffer, so the framebuffer fills it without wrapping.
pub proof fn lemma_full_area_covers_panel<SIZE: DisplaySize>()
    ensures
        area_within::<SIZE>(full_area::<SIZE>()),
        full_area::<SIZE>().start_column == 0,
        full_area::<SIZE>().start_page == 0,
        forall|x: int|
            0 <= x < SIZE::spec_width() ==> #[trigger] area_has_column(full_area::<SIZE>(), x),
        forall|y: int|
            0 <= y < SIZE::spec_height() ==> #[trigger] area_has_row(full_area::<SIZE>(), y),
        (full_area::<SIZE>().end_column + 1) * (full_area::<SIZE>().end_page + 1)
            == SIZE::frame_len(),
{
    SIZE::lemma_geometry();
    let h = SIZE::spec_height() as int;
    assert forall|y: int| 0 <= y < SIZE::spec_height() implies #[trigger] area_has_row(
        full_area::<SIZE>(),
        y,
    ) by {
        assert(0 <= y / 8 <= h / 8 - 1) by (nonlinear_arith)
            requires
                0 <= y < h,
                h % 8 == 0,
        ;
    }
}

/// Initialization powers the panel as configured: the charge pump command
/// `8Dh` is followed by `14h` (pump on) for the internal supply and by `10h`
/// (pump off) for an external supply, and the pre-charge period is `F1h`
/// internally and `22h` externally; the two supplies never share a value.
pub proof fn lemma_init_power_settings<SIZE: DisplaySize>(config: Config)
    ensures
        spec_init_prefix::<SIZE>(config).len() == 12,
        spec_init_prefix::<SIZE>(config)[8] == 0x8Du8,
        spec_init_prefix::<SIZE>(config)[9] == if config.power_source == PowerSource::Internal {
            0x14u8
        } else {
            0x10u8
        },
        spec_init_suffix::<SIZE>(config)[4] == 0xD9u8,
        spec_init_suffix::<SIZE>(config)[5] == if config.power_source == PowerSource::Internal {
            0xF1u8
        } else {
            0x22u8
        },
        spec_charge_pump(PowerSource::Internal) != spec_charge_pump(PowerSource::External),
        spec_precharge(PowerSource::Internal) != spec_precharge(PowerSource::External),
{
}

/// Scroll directions are programmed as the datasheet numbers them: a
/// horizontal scroll starts with `26h` to the right and `27h` to the left, a
/// diagonal scroll with `29h` to the right and `2Ah` to the left, so the two
/// directions always give different commands.
pub proof fn lemma_scroll_direction_commands<SIZE>(
    direction: ScrollDirection,
    pages: PageRange<SIZE>,
    interval: ScrollFrameInterval,
    vertical_offset: DisplayLine<SIZE>,
)
    ensures
        spec_horizontal_scroll_setup(direction, pages, interval)[0] == if direction
            == ScrollDirection::Right {
            0x26u8
        } else {
            0x27u8
        },
        spec_diagonal_scroll_setup(direction, pages, interval, vertical_offset)[0] == if direction
            == ScrollDirection::Right {
            0x29u8
        } else {
            0x2Au8
        },
        spec_scroll_command(ScrollDirection::Right) != spec_scroll_command(ScrollDirection::Left),
        spec_diagonal_scroll_command(ScrollDirection::Right) != spec_diagonal_scroll_command(
            ScrollDirection::Left,
        ),
{
}

/// The scroll interval bits follow the datasheet: 5, 64, 128, 256, 3, 4, 25
/// and 2 frames are `0` to `7` in that order, so different intervals never
/// share bits and every value fits the three-bit field.
pub proof fn lemma_scroll_interval_bits(interval: ScrollFrameInterval, other: ScrollFrameInterval)
    ensures
        spec_interval_bits(interval) < 8,
        spec_interval_bits(ScrollFrameInterval::Frames5) == 0u8,
        spec_interval_bits(ScrollFrameInterval::Frames64) == 1u8,
        spec_interval_bits(ScrollFrameInterval::Frames128) == 2u8,
        spec_interval_bits(ScrollFrameInterval::Frames256) == 3u8,
        spec_interval_bits(ScrollFrameInterval::Frames3) == 4u8,
        spec_interval_bits(ScrollFrameInterval::Frames4) == 5u8,
        spec_interval_bits(ScrollFrameInterval::Frames25) == 6u8,
        spec_interval_bits(ScrollFrameInterval::Frames2) == 7u8,
        spec_interval_bits(interval) == spec_interval_bits(other) ==> interval == other,
{
}

/// Orientation commands follow the datasheet: segment remap `A0h` for column
/// 0 on SEG0 and `A1h` for the mirrored layout, COM scan `C0h` from COM0 and
/// `C8h` from the last COM; mirrored and normal layouts never share a command.
pub proof fn lemma_orientation_command_values(orientation: Orientation)
    ensures
        spec_orientation_commands(orientation).len() == 2,
        spec_orientation_commands(orientation)[0] == if orientation.segment_remap
            == SegmentRemap::Normal {
            0xA0u8
        } else {
            0xA1u8
        },
        spec_orientation_commands(orientation)[1] == if orientation.com_scan_direction
            == ComScanDirection::Normal {
            0xC0u8
        } else {
            0xC8u8
        },
{
}

/// The whole initialization sequence, byte by byte, as the datasheet orders
/// it for the panel and the configuration: display off, clock `80h`,
/// multiplex of the panel height minus one, offset 0, start line 0, the
/// charge pump of the supply, horizontal addressing; then COM pins of the
/// panel, the configured contrast, the pre-charge of the supply, a vertical
/// scroll area over the whole height, VCOMH `40h`, display from RAM, normal
/// (not inverted) display, scrolling off, display on.
pub proof fn lemma_init_sequence<SIZE: DisplaySize>(config: Config)
    ensures
        spec_init_prefix::<SIZE>(config) == seq![
            0xAEu8,
            0xD5u8,
            0x80u8,
            0xA8u8,
            (SIZE::spec_height() - 1) as u8,
            0xD3u8,
            0x00u8,
            0x40u8,
            0x8Du8,
            if config.power_source == PowerSource::Internal { 0x14u8 } else { 0x10u8 },
            0x20u8,
            0x00u8,
        ],
        spec_init_suffix::<SIZE>(config) == seq![
            0xDAu8,
            if SIZE::spec_height() == 64 { 0x12u8 } else { 0x02u8 },
            0x81u8,
            config.contrast,
            0xD9u8,
            if config.power_source == PowerSource::Internal { 0xF1u8 } else { 0x22u8 },
            0xA3u8,
            0x00u8,
            SIZE::spec_height(),
            0xDBu8,
            0x40u8,
            0xA4u8,
            0xA6u8,
            0x2Eu8,
            0xAFu8,
        ],
{
    SIZE::lemma_geometry();
    assert(spec_init_prefix::<SIZE>(config) =~= seq![
        0xAEu8,
        0xD5u8,
        0x80u8,
        0xA8u8,
        (SIZE::spec_height() - 1) as u8,
        0xD3u8,
        0x00u8,
        0x40u8,
        0x8Du8,
        if config.power_source == PowerSource::Internal { 0x14u8 } else { 0x10u8 },
        0x20u8,
        0x00u8,
    ]);
    assert(spec_init_suffix::<SIZE>(config) =~= seq![
        0xDAu8,
        if SIZE::spec_height() == 64 { 0x12u8 } else { 0x02u8 },
        0x81u8,
        config.contrast,
        0xD9u8,
        if config.power_source == PowerSource::Internal { 0xF1u8 } else { 0x22u8 },
        0xA3u8,
        0x00u8,
        SIZE::spec_height(),
        0xDBu8,
        0x40u8,
        0xA4u8,
        0xA6u8,
        0x2Eu8,
        0xAFu8,
    ]);
}

/// A short byte stream goes out in a single write: the control byte, then
/// the bytes. Command writes start with `00h` and display RAM writes with
/// `40h`.
pub proof fn lemma_short_frames(address: u8, bytes: Seq<u8>)
    requires
        1 <= bytes.len() <= 16,
    ensures
        command_frames(address, bytes) == seq![Step::Write(address, seq![0x00u8] + bytes)],
        data_frames(address, bytes) == seq![Step::Write(address, seq![0x40u8] + bytes)],
{
    assert(chunk(bytes, 0) =~= bytes);
    assert(command_frames(address, bytes) =~= seq![Step::Write(address, seq![0x00u8] + bytes)]);
    assert(data_frames(address, bytes) =~= seq![Step::Write(address, seq![0x40u8] + bytes)]);
}

/// The window of a flush is programmed with the column address command
/// `21h` (first, last column) and the page address command `22h` (first,
/// last page).
pub proof fn lemma_area_commands(area: DrawArea)
    ensures
        spec_area_commands(area) == seq![
            0x21u8,
            area.start_column,
            area.end_column,
            0x22u8,
            area.start_page,
            area.end_page,
        ],
{
}

} // verus!
