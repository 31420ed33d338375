use minilibx::fractal::MAX_ITERATIONS;
use minilibx::julia;

#[test]
fn julia_packs_red_green_blue() {
    // red 8, green 32, blue 4
    assert_eq!(julia(1), 0x08_20_04);
    assert_eq!(julia(2), 0x10_40_08);
}

#[test]
fn julia_of_the_full_count() {
    // 880, 3520 and 440, each cut to its low byte
    assert_eq!(MAX_ITERATIONS, 110);
    assert_eq!(julia(MAX_ITERATIONS), 0x70_c0_b8);
}

#[test]
fn julia_cuts_each_channel_to_a_byte() {
    assert_eq!(julia(0), 0);
    assert_eq!(julia(64), 0);
    assert_eq!(julia(8), 0x40_00_20);
    assert_eq!(julia(32), 0x00_00_80);
}

#[test]
fn julia_takes_every_count() {
    // 8 * MAX is 0xffff_fff8 modulo 2^32, and so on
    assert_eq!(julia(u32::MAX), 0xf8_e0_fc);
}

#[test]
fn julia_agrees_with_shifts_and_casts() {
    let mut i: u32 = 0;
    while i <= 110 {
        let r = (i << 3) as u8;
        let g = (i << 5) as u8;
        let b = (i * 4) as u8;
        let expected = (r as u32) << 16 | (g as u32) << 8 | b as u32;
        assert_eq!(julia(i), expected);
        i += 1;
    }
}
