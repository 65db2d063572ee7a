//! Traits that only the panel sizes of this crate implement.
use vstd::prelude::*;

verus! {

/// Keeps [`crate::ssd1306::DisplaySize`] closed to the sizes defined here.
pub trait Sealed {}

/// Panel facts that the driver needs but users do not.
pub trait DisplaySizePrivate: Sealed + Sized {
    /// Framebuffer storage, one bit per pixel in SSD1306 page order.
    type Buffer;

    /// Framebuffer length in bytes: width times height divided by eight.
    spec fn frame_len() -> nat;

    /// The bytes of a framebuffer.
    spec fn buffer_view(buffer: &Self::Buffer) -> Seq<u8>;

    /// Multiplex ratio register value (height minus one).
    spec fn spec_multiplex() -> u8;

    /// COM pins hardware configuration register value.
    spec fn spec_com_pins() -> u8;

    /// Every framebuffer has the panel's length.
    proof fn lemma_buffer_len()
        ensures
            forall|b: &Self::Buffer| #[trigger] Self::buffer_view(b).len() == Self::frame_len(),
    ;

    /// A framebuffer with every pixel off.
    fn make_buffer() -> (r: Self::Buffer)
        ensures
            Self::buffer_view(&r) == Seq::new(Self::frame_len(), |i: int| 0u8),
    ;

    /// The framebuffer bytes.
    fn buffer_bytes(buffer: &Self::Buffer) -> (r: &[u8])
        ensures
            r@ == Self::buffer_view(buffer),
    ;

    /// The framebuffer bytes, for writing.
    fn buffer_bytes_mut(buffer: &mut Self::Buffer) -> (r: &mut [u8])
        ensures
            r@ == Self::buffer_view(old(buffer)),
            final(r)@ == Self::buffer_view(final(buffer)),
    ;

    /// Multiplex ratio register value.
    fn multiplex() -> (r: u8)
        ensures
            r == Self::spec_multiplex(),
    ;

    /// COM pins hardware configuration register value.
    fn com_pins() -> (r: u8)
        ensures
            r == Self::spec_com_pins(),
    ;
}

} // verus!
