//! Typed SSD1306 panel geometries.
use vstd::prelude::*;

use crate::ssd1306::sealed::{DisplaySizePrivate, Sealed};

verus! {

/// Typed SSD1306 panel geometry.
pub trait DisplaySize: Copy + DisplaySizePrivate {
    /// Panel width in pixels.
    spec fn spec_width() -> u8;

    /// Panel height in pixels.
    spec fn spec_height() -> u8;

    /// Facts every panel size satisfies: the height is a whole number of
    /// 8-row pages, the framebuffer holds one bit per pixel, the multiplex
    /// ratio is the height minus one, and the COM pins use the alternative
    /// configuration (`12h`) on 64-row panels and the sequential one (`02h`)
    /// otherwise.
    proof fn lemma_geometry()
        ensures
            1 <= Self::spec_width() <= 128,
            8 <= Self::spec_height() <= 64,
            Self::spec_height() % 8 == 0,
            Self::frame_len() == Self::spec_width() * (Self::spec_height() / 8),
            Self::frame_len() <= 1024,
            Self::spec_multiplex() == Self::spec_height() - 1,
            Self::spec_com_pins() == if Self::spec_height() == 64 {
                0x12u8
            } else {
                0x02u8
            },
    ;

    /// Panel width in pixels.
    fn width() -> (r: u8)
        ensures
            r == Self::spec_width(),
    ;

    /// Panel height in pixels.
    fn height() -> (r: u8)
        ensures
            r == Self::spec_height(),
    ;
}

/// 128x64 SSD1306 panel.
#[derive(Debug, Copy, Clone, PartialEq, Eq, Default)]
pub struct DisplaySize128x64;

/// 128x32 SSD1306 panel.
#[derive(Debug, Copy, Clone, PartialEq, Eq, Default)]
pub struct DisplaySize128x32;

/// 96x16 SSD1306 panel.
#[derive(Debug, Copy, Clone, PartialEq, Eq, Default)]
pub struct DisplaySize96x16;

impl Sealed for DisplaySize128x64 {}

impl Sealed for DisplaySize128x32 {}

impl Sealed for DisplaySize96x16 {}

impl DisplaySizePrivate for DisplaySize128x64 {
    type Buffer = [u8; 1024];

    open spec fn frame_len() -> nat {
        1024
    }

    open spec fn buffer_view(buffer: &[u8; 1024]) -> Seq<u8> {
        buffer@
    }

    open spec fn spec_multiplex() -> u8 {
        0x3F
    }

    open spec fn spec_com_pins() -> u8 {
        0x12
    }

    proof fn lemma_buffer_len() {
        assert forall|b: &[u8; 1024]| #[trigger] Self::buffer_view(b).len() == Self::frame_len() by {
            vstd::array::array_len_matches_n(b);
        }
    }

    fn make_buffer() -> (r: [u8; 1024]) {
        let r = [0u8; 1024];
        proof {
            vstd::array::array_len_matches_n(&r);
        }
        assert(r@ =~= Seq::new(1024, |i: int| 0u8));
        r
    }

    fn buffer_bytes(buffer: &[u8; 1024]) -> (r: &[u8]) {
        vstd::array::array_as_slice(buffer)
    }

    fn buffer_bytes_mut(buffer: &mut [u8; 1024]) -> (r: &mut [u8]) {
        vstd::array::ref_mut_array_unsizing_coercion(buffer)
    }

    fn multiplex() -> (r: u8) {
        0x3F
    }

    fn com_pins() -> (r: u8) {
        0x12
    }
}

impl DisplaySize for DisplaySize128x64 {
    open spec fn spec_width() -> u8 {
        128
    }

    open spec fn spec_height() -> u8 {
        64
    }

    proof fn lemma_geometry() {
    }

    fn width() -> (r: u8) {
        128
    }

    fn height() -> (r: u8) {
        64
    }
}

impl DisplaySizePrivate for DisplaySize128x32 {
    type Buffer = [u8; 512];

    open spec fn frame_len() -> nat {
        512
    }

    open spec fn buffer_view(buffer: &[u8; 512]) -> Seq<u8> {
        buffer@
    }

    open spec fn spec_multiplex() -> u8 {
        0x1F
    }

    open spec fn spec_com_pins() -> u8 {
        0x02
    }

    proof fn lemma_buffer_len() {
        assert forall|b: &[u8; 512]| #[trigger] Self::buffer_view(b).len() == Self::frame_len() by {
            vstd::array::array_len_matches_n(b);
        }
    }

    fn make_buffer() -> (r: [u8; 512]) {
        let r = [0u8; 512];
        proof {
            vstd::array::array_len_matches_n(&r);
        }
        assert(r@ =~= Seq::new(512, |i: int| 0u8));
        r
    }

    fn buffer_bytes(buffer: &[u8; 512]) -> (r: &[u8]) {
        vstd::array::array_as_slice(buffer)
    }

    fn buffer_bytes_mut(buffer: &mut [u8; 512]) -> (r: &mut [u8]) {
        vstd::array::ref_mut_array_unsizing_coercion(buffer)
    }

    fn multiplex() -> (r: u8) {
        0x1F
    }

    fn com_pins() -> (r: u8) {
        0x02
    }
}

impl DisplaySize for DisplaySize128x32 {
    open spec fn spec_width() -> u8 {
        128
    }

    open spec fn spec_height() -> u8 {
        32
    }

    proof fn lemma_geometry() {
    }

    fn width() -> (r: u8) {
        128
    }

    fn height() -> (r: u8) {
        32
    }
}

impl DisplaySizePrivate for DisplaySize96x16 {
    type Buffer = [u8; 192];

    open spec fn frame_len() -> nat {
        192
    }

    open spec fn buffer_view(buffer: &[u8; 192]) -> Seq<u8> {
        buffer@
    }

    open spec fn spec_multiplex() -> u8 {
        0x0F
    }

    open spec fn spec_com_pins() -> u8 {
        0x02
    }

    proof fn lemma_buffer_len() {
        assert forall|b: &[u8; 192]| #[trigger] Self::buffer_view(b).len() == Self::frame_len() by {
            vstd::array::array_len_matches_n(b);
        }
    }

    fn make_buffer() -> (r: [u8; 192]) {
        let r = [0u8; 192];
        proof {
            vstd::array::array_len_matches_n(&r);
        }
        assert(r@ =~= Seq::new(192, |i: int| 0u8));
        r
    }

    fn buffer_bytes(buffer: &[u8; 192]) -> (r: &[u8]) {
        vstd::array::array_as_slice(buffer)
    }

    fn buffer_bytes_mut(buffer: &mut [u8; 192]) -> (r: &mut [u8]) {
        vstd::array::ref_mut_array_unsizing_coercion(buffer)
    }

    fn multiplex() -> (r: u8) {
        0x0F
    }

    fn com_pins() -> (r: u8) {
        0x02
    }
}

impl DisplaySize for DisplaySize96x16 {
    open spec fn spec_width() -> u8 {
        96
    }

    open spec fn spec_height() -> u8 {
        16
    }

    proof fn lemma_geometry() {
    }

    fn width() -> (r: u8) {
        96
    }

    fn height() -> (r: u8) {
        16
    }
}

} // verus!
