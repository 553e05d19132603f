use normal_oracle::math::{fixed_div_floor, pow10_i128};

#[test]
fn fixed_div_floor_scales_and_rounds_down() {
    assert_eq!(fixed_div_floor(1, 3, 2), 33);
    assert_eq!(fixed_div_floor(7, 2, 0), 3);
    assert_eq!(fixed_div_floor(-7, 2, 0), -4);
    assert_eq!(fixed_div_floor(7, -2, 0), -4);
    assert_eq!(fixed_div_floor(-7, -2, 0), 3);
    assert_eq!(fixed_div_floor(6, 3, 0), 2);
    assert_eq!(fixed_div_floor(-6, 3, 0), -2);
    assert_eq!(fixed_div_floor(2_000_000, 4_000_000, 7), 5_000_000);
}

#[test]
fn pow10_covers_the_i128_range() {
    assert_eq!(pow10_i128(0), 1);
    assert_eq!(pow10_i128(7), 10_000_000);
    assert_eq!(pow10_i128(38), 100_000_000_000_000_000_000_000_000_000_000_000_000i128);
}
