use gazo::{
    pack_u32, pack_u8, rgba_to_argb, unpack_argb_u32, unpack_u32, unpack_u8, unpack_usize,
    PointOperation,
};

#[test]
fn test_pack_unpack_u32() {
    let px = pack_u32(11, 22, 33, 44);
    let rgba = unpack_u32(px);
    assert_eq!(rgba, (11, 22, 33, 44));
}

#[test]
fn test_pack_unpack_u8() {
    let px = pack_u8(11, 22, 33, 44);
    let rgba = unpack_u8(px);
    assert_eq!(rgba, (11, 22, 33, 44));
}

#[test]
fn test_rgba_to_argb() {
    let px = pack_u8(11, 22, 33, 44);
    let argb = rgba_to_argb(px);
    let (a, r, g, b) = unpack_argb_u32(argb);
    assert_eq!((a, r, g, b), (44, 11, 22, 33));
}

#[test]
fn pack_u32_lays_the_channels_out_from_the_highest_byte() {
    assert_eq!(pack_u32(0x11, 0x22, 0x33, 0x44), 0x1122_3344);
    assert_eq!(pack_u32(0, 0, 0, 0), 0);
    assert_eq!(pack_u32(255, 255, 255, 255), 0xFFFF_FFFF);
    assert_eq!(pack_u32(255, 0, 0, 0), 0xFF00_0000);
    assert_eq!(pack_u32(0, 0, 0, 255), 0x0000_00FF);
}

#[test]
fn pack_u8_lays_the_channels_out_from_the_highest_byte() {
    assert_eq!(pack_u8(0x11, 0x22, 0x33, 0x44), 0x1122_3344);
    assert_eq!(pack_u8(0, 255, 0, 255), 0x00FF_00FF);
}

#[test]
fn pack_u32_keeps_only_the_low_8_bits_of_each_channel() {
    assert_eq!(pack_u32(0x1FF, 0, 0, 0), 0xFF00_0000);
    assert_eq!(pack_u32(0, 0x100, 0, 0), 0);
    assert_eq!(pack_u32(0, 0x101, 0, 0), 0x0001_0000);
    assert_eq!(pack_u32(0, 0, 0x3_02, 0x4_01), 0x0000_0201);
    assert_eq!(pack_u32(u32::MAX, 0, u32::MAX, 0), 0xFF00_FF00);
}

#[test]
fn unpack_reads_each_byte_of_the_word() {
    assert_eq!(unpack_u32(0x0102_0304), (1, 2, 3, 4));
    assert_eq!(unpack_u8(0x0102_0304), (1, 2, 3, 4));
    assert_eq!(unpack_usize(0x0102_0304), (1, 2, 3, 4));
    assert_eq!(unpack_u32(0xFFFE_FDFC), (255, 254, 253, 252));
    assert_eq!(unpack_usize(0xFFFE_FDFC), (255, 254, 253, 252));
    assert_eq!(unpack_u8(0), (0, 0, 0, 0));
}

#[test]
fn unpack_gives_back_what_was_packed() {
    let samples: [u32; 6] = [0, 1, 127, 128, 254, 255];
    for r in samples {
        for g in samples {
            for b in samples {
                for a in samples {
                    assert_eq!(unpack_u32(pack_u32(r, g, b, a)), (r, g, b, a));
                    assert_eq!(
                        unpack_u8(pack_u8(r as u8, g as u8, b as u8, a as u8)),
                        (r as u8, g as u8, b as u8, a as u8)
                    );
                }
            }
        }
    }
}

#[test]
fn pack_of_unpacked_channels_is_the_pixel() {
    let pixels: [u32; 5] = [0, 1, 0x1234_5678, 0x8000_0001, u32::MAX];
    for px in pixels {
        let (r, g, b, a) = unpack_u32(px);
        assert_eq!(pack_u32(r, g, b, a), px);
    }
}

#[test]
fn rgba_to_argb_moves_alpha_to_the_highest_byte() {
    assert_eq!(rgba_to_argb(0x1122_3344), 0x4411_2233);
    assert_eq!(rgba_to_argb(0x0000_00FF), 0xFF00_0000);
    assert_eq!(rgba_to_argb(0xFFFF_FF00), 0x00FF_FFFF);
    assert_eq!(unpack_argb_u32(0x4411_2233), (0x44, 0x11, 0x22, 0x33));
}

#[test]
fn display_order_keeps_every_channel_value() {
    let pixels: [u32; 4] = [0, 0x0A0B_0C0D, 0xFF00_FF00, u32::MAX];
    for px in pixels {
        let (r, g, b, a) = unpack_u32(px);
        assert_eq!(unpack_argb_u32(rgba_to_argb(px)), (a, r, g, b));
    }
}

#[test]
fn grayscale_pixel_takes_the_floor_of_the_mean() {
    let op = PointOperation::Grayscale;
    assert_eq!(op.apply_to_pixel(pack_u32(15, 30, 15, 255)), pack_u32(20, 20, 20, 255));
    assert_eq!(op.apply_to_pixel(pack_u32(1, 1, 0, 9)), pack_u32(0, 0, 0, 9));
    assert_eq!(op.apply_to_pixel(pack_u32(1, 1, 2, 9)), pack_u32(1, 1, 1, 9));
    assert_eq!(op.apply_to_pixel(pack_u32(255, 255, 255, 0)), pack_u32(255, 255, 255, 0));
    assert_eq!(op.apply_to_pixel(pack_u32(255, 255, 254, 1)), pack_u32(254, 254, 254, 1));
}

#[test]
fn invert_pixel_subtracts_each_colour_from_255() {
    let op = PointOperation::Invert;
    assert_eq!(op.apply_to_pixel(pack_u32(255, 255, 255, 255)), pack_u32(0, 0, 0, 255));
    assert_eq!(op.apply_to_pixel(pack_u32(0, 1, 200, 17)), pack_u32(255, 254, 55, 17));
}

#[test]
fn threshold_pixel_is_strict_at_the_limit() {
    let op = PointOperation::Threshold(100);
    assert_eq!(op.apply_to_pixel(pack_u32(100, 101, 99, 3)), pack_u32(0, 255, 0, 3));
    assert_eq!(op.apply_to_pixel(pack_u32(200, 0, 255, 0)), pack_u32(255, 0, 255, 0));
    let all_black = PointOperation::Threshold(255);
    assert_eq!(all_black.apply_to_pixel(pack_u32(255, 254, 0, 8)), pack_u32(0, 0, 0, 8));
    let above_a_byte = PointOperation::Threshold(1000);
    assert_eq!(above_a_byte.apply_to_pixel(pack_u32(255, 255, 255, 8)), pack_u32(0, 0, 0, 8));
    let zero = PointOperation::Threshold(0);
    assert_eq!(zero.apply_to_pixel(pack_u32(0, 1, 255, 8)), pack_u32(0, 255, 255, 8));
}

#[test]
fn point_operations_keep_alpha() {
    let ops = [
        PointOperation::Grayscale,
        PointOperation::Invert,
        PointOperation::Threshold(0),
        PointOperation::Threshold(128),
    ];
    let alphas: [u32; 4] = [0, 1, 128, 255];
    for op in ops {
        for a in alphas {
            let out = op.apply_to_pixel(pack_u32(10, 130, 250, a));
            assert_eq!(unpack_u32(out).3, a);
        }
    }
}
