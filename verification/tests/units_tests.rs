use overlay_ui::units::{
    dpi_scale, floor_div, from_pixels, half, scale, share_of_pixels, store, to_whole_pixels,
};

#[test]
fn dpi_scale_is_one_at_the_reference_height() {
    assert_eq!(dpi_scale(1080), 1000);
}

#[test]
fn dpi_scale_at_756_is_seven_tenths() {
    assert_eq!(dpi_scale(756), 700);
}

#[test]
fn dpi_scale_at_2400_is_held_at_two() {
    assert_eq!(dpi_scale(2400), 2000);
}

#[test]
fn dpi_scale_is_held_at_seven_tenths_for_small_windows() {
    assert_eq!(dpi_scale(500), 700);
    assert_eq!(dpi_scale(0), 700);
}

#[test]
fn dpi_scale_between_the_bounds_follows_the_height() {
    assert_eq!(dpi_scale(1620), 1500);
    assert_eq!(dpi_scale(900), 833);
}

#[test]
fn floor_div_rounds_down_for_negative_numbers() {
    assert_eq!(floor_div(7, 2), 3);
    assert_eq!(floor_div(-7, 2), -4);
    assert_eq!(floor_div(-8, 2), -4);
    assert_eq!(floor_div(0, 5), 0);
    assert_eq!(floor_div(i64::MIN, 1), i64::MIN);
}

#[test]
fn half_rounds_down() {
    assert_eq!(half(3), 1);
    assert_eq!(half(-3), -2);
    assert_eq!(half(200000), 100000);
}

#[test]
fn scale_multiplies_by_thousandths() {
    assert_eq!(scale(200000, 1100), 220000);
    assert_eq!(scale(100000, 1050), 105000);
    assert_eq!(scale(-1, 500), -1);
    assert_eq!(scale(1, 500), 0);
    assert_eq!(scale(18000, 700), 12600);
}

#[test]
fn store_holds_a_length_at_the_nearest_end() {
    assert_eq!(store(5), 5);
    assert_eq!(store(i64::MAX), i32::MAX);
    assert_eq!(store(i64::MIN), i32::MIN);
    assert_eq!(store(2147483648), i32::MAX);
}

#[test]
fn pixels_are_a_thousand_units() {
    assert_eq!(from_pixels(3), 3000);
    assert_eq!(to_whole_pixels(3999), 3);
    assert_eq!(to_whole_pixels(-1500), -1);
    assert_eq!(share_of_pixels(1000, 300), 300000);
}
