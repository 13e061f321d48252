use gridsim::codec::{i16_to_u16, i32_to_u32, join_u32, round_div_i64, round_div_u64,
    saturate_i16_word, saturate_i32_word, saturate_u16, saturate_u32, split_high, split_low,
    u16_to_i16, u32_to_i32};

#[test]
fn word_split_round_trip() {
    let v: u32 = 0xDEAD_BEEF;
    let low = split_low(v);
    let high = split_high(v);
    assert_eq!(low, 0xBEEF);
    assert_eq!(high, 0xDEAD);
    assert_eq!(join_u32(low, high), v);
}

#[test]
fn word_split_round_trip_edges() {
    for v in [0u32, 1, 0xFFFF, 0x1_0000, 0x7FFF_FFFF, 0x8000_0000, 0xFFFF_FFFF] {
        assert_eq!(join_u32(split_low(v), split_high(v)), v);
    }
}

#[test]
fn signed_16_bit_reinterpretation() {
    assert_eq!(u16_to_i16(0xF448), -3000);
    assert_eq!(u16_to_i16(0x8000), -32768);
    assert_eq!(u16_to_i16(0x7FFF), 32767);
    assert_eq!(u16_to_i16(0), 0);
    assert_eq!(i16_to_u16(-3000), 0xF448);
    assert_eq!(i16_to_u16(-1), 0xFFFF);
    assert_eq!(i16_to_u16(1), 1);
}

#[test]
fn signed_32_bit_round_trip_full_range() {
    for x in [i32::MIN, -3000, -1, 0, 1, 3000, i32::MAX] {
        let pat = i32_to_u32(x);
        let rejoined = join_u32(split_low(pat), split_high(pat));
        assert_eq!(u32_to_i32(rejoined), x);
    }
}

#[test]
fn rounding_division_half_away_from_zero() {
    assert_eq!(round_div_i64(2500, 1000), 3);
    assert_eq!(round_div_i64(2499, 1000), 2);
    assert_eq!(round_div_i64(-2500, 1000), -3);
    assert_eq!(round_div_i64(-2499, 1000), -2);
    assert_eq!(round_div_i64(0, 1000), 0);
    assert_eq!(round_div_u64(2500, 1000), 3);
    assert_eq!(round_div_u64(2499, 1000), 2);
}

#[test]
fn saturation_at_register_ranges() {
    assert_eq!(saturate_i16_word(40000), 0x7FFF);
    assert_eq!(saturate_i16_word(-40000), 0x8000);
    assert_eq!(saturate_i16_word(-3000), 0xF448);
    assert_eq!(saturate_i32_word(0x1_0000_0000), 0x7FFF_FFFF);
    assert_eq!(saturate_i32_word(-0x1_0000_0000), 0x8000_0000);
    assert_eq!(saturate_u16(70000), 0xFFFF);
    assert_eq!(saturate_u16(7), 7);
    assert_eq!(saturate_u32(0x1_0000_0001), 0xFFFF_FFFF);
}
