//! The image definition block that tells the Boot ROM about the application.

use vstd::prelude::*;

verus! {

/// The word that opens every block the Boot ROM looks for.
pub const BLOCK_MARKER_START: u32 = 0xffff_ded3;

/// The word that closes every block the Boot ROM looks for.
pub const BLOCK_MARKER_END: u32 = 0xab12_3579;

/// A block as the Boot ROM understands it: an image definition between the
/// start and end markers, laid out as five words in this order.
#[derive(Clone, Copy, Debug)]
pub struct ImageDefBlock {
    marker_start: u32,
    item: u32,
    length: u32,
    offset: u32,
    marker_end: u32,
}

impl View for ImageDefBlock {
    type V = Seq<u32>;

    /// The five words of the block, in memory order.
    closed spec fn view(&self) -> Seq<u32> {
        seq![self.marker_start, self.item, self.length, self.offset, self.marker_end]
    }
}

impl ImageDefBlock {
    /// The minimum image definition of an Arm executable (secure, RP2350),
    /// which assumes that secure boot is not enabled.
    pub fn minimum_arm_image_def() -> (r: ImageDefBlock)
        ensures
            r@ == seq![BLOCK_MARKER_START, 0x1021_0142u32, 0x0000_01ffu32, 0u32, BLOCK_MARKER_END],
    {
        ImageDefBlock {
            marker_start: BLOCK_MARKER_START,
            item: 0x1021_0142,
            length: 0x0000_01ff,
            offset: 0x0000_0000,
            marker_end: BLOCK_MARKER_END,
        }
    }

    /// The minimum image definition of a RISC-V executable (RP2350).
    pub fn minimum_riscv_image_def() -> (r: ImageDefBlock)
        ensures
            r@ == seq![BLOCK_MARKER_START, 0x1101_0142u32, 0x0000_01ffu32, 0u32, BLOCK_MARKER_END],
    {
        ImageDefBlock {
            marker_start: BLOCK_MARKER_START,
            item: 0x1101_0142,
            length: 0x0000_01ff,
            offset: 0x0000_0000,
            marker_end: BLOCK_MARKER_END,
        }
    }

    /// The five words of the block, as they are placed in memory.
    pub fn words(&self) -> (r: [u32; 5])
        ensures
            r@ == self@,
    {
        let r = [self.marker_start, self.item, self.length, self.offset, self.marker_end];
        assert(r@ =~= self@);
        r
    }
}

} // verus!
