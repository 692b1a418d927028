use rp235x_sys::image_def::{ImageDefBlock, BLOCK_MARKER_END, BLOCK_MARKER_START};

#[test]
fn arm_image_def_words() {
    assert_eq!(
        ImageDefBlock::minimum_arm_image_def().words(),
        [0xffff_ded3, 0x1021_0142, 0x0000_01ff, 0, 0xab12_3579]
    );
}

#[test]
fn riscv_image_def_words() {
    let w = ImageDefBlock::minimum_riscv_image_def().words();
    assert_eq!(w, [0xffff_ded3, 0x1101_0142, 0x0000_01ff, 0, 0xab12_3579]);
    assert_eq!(w[0], BLOCK_MARKER_START);
    assert_eq!(w[4], BLOCK_MARKER_END);
}
