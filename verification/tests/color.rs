use led_panel::color::{assign_channels, hsv_2_rgb, ColorHsv, Pixel, TURN, UNIT};

const SECTOR: i64 = 1_000_000;

fn convert(h: i64, s: i32, v: i32) -> (u8, u8, u8) {
    let p = hsv_2_rgb(&ColorHsv { h, s, v });
    (p.r, p.g, p.b)
}

#[test]
fn units() {
    assert_eq!(UNIT, 1_000_000);
    assert_eq!(TURN, 6_000_000);
}

#[test]
fn pure_red_at_hue_zero() {
    assert_eq!(convert(0, UNIT, UNIT), (255, 0, 0));
}

#[test]
fn yellow_at_one_sixth_of_a_turn() {
    assert_eq!(convert(SECTOR, UNIT, UNIT), (255, 255, 0));
}

#[test]
fn green_at_two_sixths_of_a_turn() {
    assert_eq!(convert(2 * SECTOR, UNIT, UNIT), (0, 255, 0));
}

#[test]
fn cyan_at_half_a_turn() {
    assert_eq!(convert(3 * SECTOR, UNIT, UNIT), (0, 255, 255));
}

#[test]
fn blue_at_four_sixths_of_a_turn() {
    assert_eq!(convert(4 * SECTOR, UNIT, UNIT), (0, 0, 255));
}

#[test]
fn magenta_at_five_sixths_of_a_turn() {
    assert_eq!(convert(5 * SECTOR, UNIT, UNIT), (255, 0, 255));
}

#[test]
fn neighbours_of_a_boundary_lie_on_either_side() {
    assert_eq!(convert(999_999, UNIT, UNIT), (255, 254, 0));
    assert_eq!(convert(1_000_001, UNIT, UNIT), (254, 255, 0));
    assert_eq!(convert(4_999_999, UNIT, UNIT), (254, 0, 255));
    assert_eq!(convert(5_000_001, UNIT, UNIT), (255, 0, 254));
}

#[test]
fn end_of_the_turn_meets_its_start() {
    assert_eq!(convert(5_999_999, UNIT, UNIT), (255, 0, 0));
    assert_eq!(convert(TURN, UNIT, UNIT), (255, 0, 0));
}

#[test]
fn channels_are_truncated_not_rounded() {
    assert_eq!(convert(1_500_000, UNIT, UNIT), (127, 255, 0));
    assert_eq!(convert(0, 0, 3_921), (0, 0, 0));
    assert_eq!(convert(0, 0, 3_922), (1, 1, 1));
}

#[test]
fn mixed_colours() {
    assert_eq!(convert(4_500_000, 500_000, 800_000), (153, 102, 204));
    assert_eq!(convert(740_736, 654_321, 987_654), (251, 209, 87));
    assert_eq!(convert(3_300_000, 1_500_000, 1_200_000), (103, 168, 50));
}

#[test]
fn hue_wraps_with_period_one() {
    let hues = [
        0, 1, 740_736, 1_000_000, 3_000_000, 5_999_999, -1, -740_736, -9_000_000, 15_000_000,
    ];
    for h in hues {
        assert_eq!(
            convert(h, 654_321, 987_654),
            convert(h + TURN, 654_321, 987_654)
        );
        assert_eq!(
            convert(h, 654_321, 987_654),
            convert(h - TURN, 654_321, 987_654)
        );
    }
    assert_eq!(convert(15_000_000, UNIT, UNIT), (0, 255, 255));
    assert_eq!(convert(-9_000_000, UNIT, UNIT), (0, 255, 255));
}

#[test]
fn negative_hue_wraps_forward() {
    assert_eq!(convert(-1, UNIT, UNIT), (255, 0, 0));
    assert_eq!(convert(-740_736, 654_321, 987_654), (251, 87, 209));
    assert_eq!(convert(5_259_264, 654_321, 987_654), (251, 87, 209));
}

#[test]
fn zero_saturation_is_gray_whatever_the_hue() {
    let hues = [
        0, 600_000, -600_000, 1_000_000, 1_800_000, 2_400_000, 3_600_000, 5_400_000, i64::MAX,
        i64::MIN,
    ];
    for h in hues {
        assert_eq!(convert(h, 0, 500_000), (127, 127, 127));
        assert_eq!(convert(h, 0, UNIT), (255, 255, 255));
        assert_eq!(convert(h, 0, 0), (0, 0, 0));
    }
}

#[test]
fn out_of_range_values_wrap_into_eight_bits() {
    assert_eq!(convert(0, 0, 2 * UNIT), (254, 254, 254));
    assert_eq!(convert(0, 0, 1_003_922), (0, 0, 0));
    assert_eq!(convert(0, 0, -UNIT), (1, 1, 1));
    assert_eq!(convert(0, 0, -300_000), (180, 180, 180));
    assert_eq!(convert(0, 0, -3_922), (255, 255, 255));
    assert_eq!(convert(0, 0, -1_003_922), (0, 0, 0));
    assert_eq!(convert(0, 2 * UNIT, UNIT), (255, 1, 1));
    assert_eq!(convert(2_400_000, -500_000, UNIT), (126, 255, 75));
}

#[test]
fn extreme_inputs_convert() {
    assert_eq!(convert(i64::MAX, i32::MAX, i32::MAX), (24, 20, 123));
    assert_eq!(convert(i64::MIN, i32::MIN, i32::MIN), (232, 73, 123));
    assert_eq!(convert(i64::MIN, i32::MAX, i32::MIN), (232, 133, 85));
    assert_eq!(convert(i64::MAX, UNIT, UNIT), (255, 197, 0));
    assert_eq!(convert(i64::MIN, UNIT, UNIT), (255, 0, 197));
}

#[test]
fn conversion_leaves_its_input_alone() {
    let c = ColorHsv { h: 740_736, s: 654_321, v: 987_654 };
    let first = hsv_2_rgb(&c);
    let second = hsv_2_rgb(&c);
    assert_eq!(first, second);
    assert_eq!(c, ColorHsv { h: 740_736, s: 654_321, v: 987_654 });
}

#[test]
fn sector_table() {
    assert_eq!(assign_channels(0, 1, 2, 3, 4), Pixel { r: 1, g: 4, b: 2 });
    assert_eq!(assign_channels(1, 1, 2, 3, 4), Pixel { r: 3, g: 1, b: 2 });
    assert_eq!(assign_channels(2, 1, 2, 3, 4), Pixel { r: 2, g: 1, b: 4 });
    assert_eq!(assign_channels(3, 1, 2, 3, 4), Pixel { r: 2, g: 3, b: 1 });
    assert_eq!(assign_channels(4, 1, 2, 3, 4), Pixel { r: 4, g: 2, b: 1 });
    assert_eq!(assign_channels(5, 1, 2, 3, 4), Pixel { r: 1, g: 2, b: 3 });
}

#[test]
fn no_sector_is_black() {
    assert_eq!(assign_channels(6, 1, 2, 3, 4), Pixel { r: 0, g: 0, b: 0 });
    assert_eq!(assign_channels(255, 9, 9, 9, 9), Pixel { r: 0, g: 0, b: 0 });
}
