use sc2::float::Float;

fn float(value: f32) -> Float {
    Float::from_bits(value.to_bits())
}

fn samples() -> Vec<f32> {
    let mut values = vec![
        0.0,
        -0.0,
        0.4,
        0.5,
        0.999_999_94,
        1.0,
        1.5,
        -1.5,
        2.0,
        12.0,
        50.75,
        255.9,
        16_777_215.0,
        16_777_216.0,
        2_147_483_520.0,
        2_147_483_648.0,
        -2_147_483_648.0,
        -2_147_483_904.0,
        4_294_967_040.0,
        4_294_967_296.0,
        1.0e20,
        -1.0e20,
        f32::MAX,
        f32::MIN,
        f32::MIN_POSITIVE,
        f32::INFINITY,
        f32::NEG_INFINITY,
        f32::NAN,
        f32::from_bits(1),
        f32::from_bits(0x807f_ffff),
        f32::from_bits(0xffc0_0001),
    ];
    let mut bits: u32 = 0x1234_5678;
    for _ in 0..20_000 {
        bits = bits.wrapping_mul(1_664_525).wrapping_add(1_013_904_223);
        values.push(f32::from_bits(bits));
    }
    values
}

#[test]
fn to_u32_is_the_saturating_cast() {
    for value in samples() {
        assert_eq!(float(value).to_u32(), value as u32, "{:?}", value);
    }
}

#[test]
fn to_i32_is_the_saturating_cast() {
    for value in samples() {
        assert_eq!(float(value).to_i32(), value as i32, "{:?}", value);
    }
}

#[test]
fn to_u32_truncates_toward_zero() {
    assert_eq!(float(50.75).to_u32(), 50);
    assert_eq!(float(0.999).to_u32(), 0);
    assert_eq!(float(-3.5).to_u32(), 0);
    assert_eq!(float(-3.5).to_i32(), -3);
    assert_eq!(float(3.5).to_i32(), 3);
}

#[test]
fn conversions_saturate_and_drop_nan() {
    assert_eq!(float(f32::INFINITY).to_u32(), u32::MAX);
    assert_eq!(float(f32::NEG_INFINITY).to_u32(), 0);
    assert_eq!(float(f32::NAN).to_u32(), 0);
    assert_eq!(float(1.0e10).to_u32(), u32::MAX);
    assert_eq!(float(f32::INFINITY).to_i32(), i32::MAX);
    assert_eq!(float(f32::NEG_INFINITY).to_i32(), i32::MIN);
    assert_eq!(float(f32::NAN).to_i32(), 0);
    assert_eq!(float(-1.0e10).to_i32(), i32::MIN);
    assert_eq!(float(1.0e10).to_i32(), i32::MAX);
}

fn whole_numbers() -> Vec<u32> {
    let mut values = vec![
        0,
        1,
        2,
        3,
        50,
        255,
        16_777_215,
        16_777_216,
        16_777_217,
        16_777_218,
        16_777_219,
        33_554_430,
        33_554_431,
        33_554_433,
        0x7fff_ffff,
        0x8000_0000,
        0x8000_0080,
        0x8000_0081,
        0xffff_ff7f,
        0xffff_ff80,
        u32::MAX,
    ];
    let mut bits: u32 = 0x9e37_79b9;
    for shift in 0..32 {
        values.push(1 << shift);
        values.push((1u32 << shift).wrapping_sub(1));
        values.push((1u32 << shift).wrapping_add(1));
    }
    for _ in 0..20_000 {
        bits = bits.wrapping_mul(1_664_525).wrapping_add(1_013_904_223);
        values.push(bits);
        values.push(bits >> (bits % 32));
    }
    values
}

#[test]
fn from_u32_is_the_rounding_cast() {
    for value in whole_numbers() {
        assert_eq!(Float::from_u32(value).to_bits(), (value as f32).to_bits(), "{}", value);
    }
}

#[test]
fn from_i32_is_the_rounding_cast() {
    for value in whole_numbers() {
        let signed = value as i32;
        assert_eq!(Float::from_i32(signed).to_bits(), (signed as f32).to_bits(), "{}", signed);
    }
    assert_eq!(Float::from_i32(i32::MIN).to_bits(), (i32::MIN as f32).to_bits());
    assert_eq!(Float::from_i32(-1).to_bits(), (-1.0f32).to_bits());
}

#[test]
fn from_u32_rounds_ties_to_even() {
    assert_eq!(Float::from_u32(16_777_217).to_bits(), 16_777_216.0f32.to_bits());
    assert_eq!(Float::from_u32(16_777_219).to_bits(), 16_777_220.0f32.to_bits());
    assert_eq!(Float::from_u32(u32::MAX).to_bits(), 4_294_967_296.0f32.to_bits());
}

#[test]
fn small_whole_numbers_survive_the_round_trip() {
    for value in 0..70_000u32 {
        assert_eq!(Float::from_u32(value).to_u32(), value);
    }
    assert_eq!(Float::from_u32(16_777_216).to_u32(), 16_777_216);
}

#[test]
fn zero_is_positive_zero() {
    assert_eq!(Float::zero().to_bits(), 0.0f32.to_bits());
    assert_eq!(Float::zero(), Float::from_bits(0));
    assert_eq!(Float::from_bits(0x3f80_0000).to_bits(), 1.0f32.to_bits());
}
