use context_menus::Pixels;

fn samples() -> Vec<u32> {
    vec![
        0x0000_0000,
        0x8000_0000,
        0x0000_0001,
        0x8000_0001,
        0x007f_ffff,
        0x0080_0000,
        0x3f80_0000,
        0xbf80_0000,
        0x4348_0000,
        0x43c8_0000,
        0xc3c8_0000,
        0x7f7f_ffff,
        0x7f80_0000,
        0xff80_0000,
        0x7f80_0001,
        0x7fc0_0000,
        0xffc0_0000,
        0xffff_ffff,
        0x7fff_ffff,
    ]
}

#[test]
fn equality_is_that_of_single_precision_numbers() {
    for a in samples() {
        for b in samples() {
            let expected = f32::from_bits(a) == f32::from_bits(b);
            assert_eq!(Pixels { bits: a } == Pixels { bits: b }, expected, "{a:#x} {b:#x}");
            assert_eq!(Pixels { bits: a } != Pixels { bits: b }, !expected, "{a:#x} {b:#x}");
        }
    }
}

#[test]
fn the_two_zeros_are_equal() {
    assert!(Pixels { bits: 0.0f32.to_bits() } == Pixels { bits: (-0.0f32).to_bits() });
}

#[test]
fn not_a_number_equals_nothing() {
    let nan = Pixels { bits: f32::NAN.to_bits() };
    assert!(nan != nan);
    assert!(nan != Pixels { bits: 1.0f32.to_bits() });
    assert!(Pixels { bits: 1.0f32.to_bits() } != nan);
}

#[test]
fn infinities_equal_themselves_only() {
    let up = Pixels { bits: f32::INFINITY.to_bits() };
    let down = Pixels { bits: f32::NEG_INFINITY.to_bits() };
    assert!(up == up);
    assert!(down == down);
    assert!(up != down);
}

#[test]
fn different_numbers_are_unequal() {
    assert!(Pixels { bits: 400.0f32.to_bits() } != Pixels { bits: 200.0f32.to_bits() });
    assert!(Pixels { bits: 400.0f32.to_bits() } != Pixels { bits: (-400.0f32).to_bits() });
    assert!(Pixels { bits: 400.0f32.to_bits() } == Pixels { bits: 400.0f32.to_bits() });
}
