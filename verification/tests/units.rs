use svg_cache::units::UNITS_PER_PIXEL;
use svg_cache::Length;

#[test]
fn one_pixel_is_two_to_the_thirty_two_units() {
    assert_eq!(UNITS_PER_PIXEL, 4_294_967_296);
    assert_eq!(Length::from_pixels(1).raw(), 4_294_967_296);
    assert_eq!(Length::from_pixels(0).raw(), 0);
    assert_eq!(Length::from_pixels(u32::MAX).raw(), 0xffff_ffff_0000_0000);
}

#[test]
fn raw_round_trips() {
    assert_eq!(Length::from_raw(12345).raw(), 12345);
    assert_eq!(Length::from_raw(u64::MAX).raw(), u64::MAX);
    assert_eq!(Length::zero().raw(), 0);
}

#[test]
fn clip_takes_both_ends_off() {
    let w = Length::from_pixels(100);
    assert_eq!(w.clipped(0, 0), w);
    assert_eq!(w.clipped(10, 0), Length::from_pixels(90));
    assert_eq!(w.clipped(0, 10), Length::from_pixels(90));
    assert_eq!(w.clipped(10, 20), Length::from_pixels(70));
}

#[test]
fn clip_keeps_the_fraction() {
    let half = UNITS_PER_PIXEL / 2;
    let w = Length::from_raw(10 * UNITS_PER_PIXEL + half);
    assert_eq!(w.clipped(3, 7), Length::from_raw(half));
    assert_eq!(w.clipped(4, 7), Length::zero());
}

#[test]
fn clip_saturates_at_zero() {
    let w = Length::from_pixels(100);
    assert_eq!(w.clipped(60, 60), Length::zero());
    assert_eq!(w.clipped(50, 50), Length::zero());
    assert_eq!(w.clipped(100, 0), Length::zero());
    assert_eq!(w.clipped(8192, 8192), Length::zero());
}

#[test]
fn clip_with_offsets_beyond_any_length() {
    let w = Length::from_raw(u64::MAX);
    assert_eq!(w.clipped(u32::MAX, u32::MAX), Length::zero());
    assert_eq!(w.clipped(u32::MAX, 1), Length::zero());
    assert_eq!(
        w.clipped(u32::MAX, 0),
        Length::from_raw(u64::MAX - 0xffff_ffff_0000_0000)
    );
}

fn exactly(v: f32) -> Option<u64> {
    let raw = v as f64 * 4294967296.0;
    if raw >= 0.0 && raw < 18446744073709551616.0 && raw.fract() == 0.0 {
        Some(raw as u64)
    } else {
        None
    }
}

#[test]
fn whole_numbers_are_read_exactly() {
    assert_eq!(Length::from_binary32(200.0f32.to_bits()), Some(Length::from_pixels(200)));
    assert_eq!(Length::from_binary32(100.0f32.to_bits()), Some(Length::from_pixels(100)));
    assert_eq!(Length::from_binary32(1.0f32.to_bits()), Some(Length::from_pixels(1)));
    assert_eq!(Length::from_binary32(8192.0f32.to_bits()), Some(Length::from_pixels(8192)));
    assert_eq!(Length::from_binary32(0.0f32.to_bits()), Some(Length::zero()));
}

#[test]
fn fractions_are_read_exactly() {
    assert_eq!(Length::from_binary32(0.5f32.to_bits()), Some(Length::from_raw(1 << 31)));
    assert_eq!(Length::from_binary32(12.5f32.to_bits()), Some(Length::from_raw(25 << 31)));
    assert_eq!(Length::from_binary32(0.001953125f32.to_bits()), Some(Length::from_raw(1 << 23)));
    let third = 1.0f32 / 3.0;
    assert_eq!(Length::from_binary32(third.to_bits()), Some(Length::from_raw(11184811 << 7)));
    assert_eq!(
        Length::from_binary32(2.0f32.powi(-32).to_bits()),
        Some(Length::from_raw(1))
    );
    assert_eq!(
        Length::from_binary32((3.0 * 2.0f32.powi(-32)).to_bits()),
        Some(Length::from_raw(3))
    );
}

#[test]
fn finer_fractions_are_no_length() {
    assert_eq!(Length::from_binary32(0x3000_0001), None);
    assert_eq!(Length::from_binary32(1), None);
    assert_eq!(Length::from_binary32(0x007f_ffff), None);
    assert_eq!(Length::from_binary32(f32::MIN_POSITIVE.to_bits()), None);
    assert_eq!(Length::from_binary32(2.0f32.powi(-33).to_bits()), None);
    assert_eq!(Length::from_binary32((3.0 * 2.0f32.powi(-33)).to_bits()), None);
}

#[test]
fn numbers_out_of_range_are_no_length() {
    let edge = 4294967296.0f32;
    assert_eq!(Length::from_binary32(edge.to_bits()), None);
    assert_eq!(Length::from_binary32(f32::MAX.to_bits()), None);
    let below = f32::from_bits(edge.to_bits() - 1);
    assert_eq!(
        Length::from_binary32(below.to_bits()),
        Some(Length::from_raw(0xffff_ff00_0000_0000))
    );
}

#[test]
fn what_is_no_number_is_no_length() {
    assert_eq!(Length::from_binary32(f32::NAN.to_bits()), None);
    assert_eq!(Length::from_binary32(f32::INFINITY.to_bits()), None);
    assert_eq!(Length::from_binary32(f32::NEG_INFINITY.to_bits()), None);
    assert_eq!(Length::from_binary32((-1.0f32).to_bits()), None);
    assert_eq!(Length::from_binary32((-0.0f32).to_bits()), None);
    assert_eq!(Length::from_binary32(0x7f80_0001), None);
    assert_eq!(Length::from_binary32(0xffff_ffff), None);
}

#[test]
fn every_exponent_agrees_with_the_number() {
    for field in 0..255u32 {
        for fraction in [0u32, 1, 0x40_0000, 0x7f_ffff, 0x12_3456, 0x7f_0000, 0x00_8000] {
            let bits = (field << 23) | fraction;
            let v = f32::from_bits(bits);
            let want = exactly(v).map(Length::from_raw);
            assert_eq!(Length::from_binary32(bits), want, "{v}");
        }
    }
}
