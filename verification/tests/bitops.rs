use riscv_simulator::bitops::{extend_sign, MASK_12BIT, MASK_3BIT, MASK_4BIT, MASK_5BIT, MASK_6BIT};

#[test]
fn masks_cover_their_widths() {
    assert_eq!(MASK_3BIT, 7);
    assert_eq!(MASK_4BIT, 15);
    assert_eq!(MASK_5BIT, 31);
    assert_eq!(MASK_6BIT, 63);
    assert_eq!(MASK_12BIT, 4095);
}

#[test]
fn extend_sign_keeps_a_positive_value() {
    assert_eq!(extend_sign(5, 12), 5);
    assert_eq!(extend_sign(0x7ff, 12), 0x7ff);
}

#[test]
fn extend_sign_fills_the_high_bits_of_a_negative_value() {
    assert_eq!(extend_sign(0xfff, 12), 0xffff_ffff_ffff_ffff);
    assert_eq!(extend_sign(0x800, 12), 0xffff_ffff_ffff_f800);
    assert_eq!(extend_sign(0x1ff8, 13), 0xffff_ffff_ffff_fff8);
    assert_eq!(extend_sign(0x8_0000, 20), 0xffff_ffff_fff8_0000);
    assert_eq!(extend_sign(0x8000_0000, 32), 0xffff_ffff_8000_0000);
}

#[test]
fn extend_sign_ignores_bits_above_the_width() {
    assert_eq!(extend_sign(0xffff_f005, 12), 5);
    assert_eq!(extend_sign(0x1_0000_0001, 32), 1);
}

#[test]
fn extend_sign_of_one_bit() {
    assert_eq!(extend_sign(1, 1), 0xffff_ffff_ffff_ffff);
    assert_eq!(extend_sign(0, 1), 0);
    assert_eq!(extend_sign(2, 1), 0);
}

#[test]
fn extend_sign_of_the_full_width_is_the_value() {
    assert_eq!(extend_sign(0x8000_0000_0000_0001, 64), 0x8000_0000_0000_0001);
    assert_eq!(extend_sign(42, 64), 42);
}

#[test]
fn extend_sign_survives_truncation() {
    let values: [u64; 6] =
        [0, 1, 0x7ff, 0x800, 0xdead_beef_cafe_f00d, 0xffff_ffff_ffff_ffff];
    for v in values {
        for n in 1..64u32 {
            let extended = extend_sign(v, n);
            let truncated = extended & ((1u64 << n) - 1);
            assert_eq!(extend_sign(truncated, n), extended);
        }
        assert_eq!(extend_sign(extend_sign(v, 64), 64), extend_sign(v, 64));
    }
}
