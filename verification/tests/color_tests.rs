use overlay_ui::color::{Color, ColorExt};

#[test]
fn rgb_is_opaque() {
    assert_eq!(Color::rgb(1, 2, 3), Color { r: 1, g: 2, b: 3, a: 255 });
    assert_eq!(Color::rgba(1, 2, 3, 4), Color { r: 1, g: 2, b: 3, a: 4 });
}

#[test]
fn darken_by_nothing_keeps_the_colour() {
    let c = Color::rgba(30, 110, 30, 200);
    assert_eq!(c.darken(0), c);
}

#[test]
fn darken_in_full_gives_black_with_the_same_opacity() {
    let c = Color::rgba(30, 110, 30, 200);
    assert_eq!(c.darken(1000), Color::rgba(0, 0, 0, 200));
}

#[test]
fn darken_scales_each_channel_and_rounds_down() {
    let c = Color::rgb(30, 110, 30);
    assert_eq!(c.darken(350), Color::rgb(19, 71, 19));
    assert_eq!(Color::rgb(200, 100, 1).darken(500), Color::rgb(100, 50, 0));
}

#[test]
fn brighten_by_nothing_keeps_the_colour() {
    let c = Color::rgba(20, 65, 20, 9);
    assert_eq!(c.brighten(0), c);
}

#[test]
fn brighten_in_full_gives_white_with_the_same_opacity() {
    let c = Color::rgba(20, 65, 20, 9);
    assert_eq!(c.brighten(1000), Color::rgba(255, 255, 255, 9));
}

#[test]
fn brighten_moves_each_channel_toward_white() {
    assert_eq!(Color::rgb(20, 65, 20).brighten(150), Color::rgb(55, 93, 55));
}

#[test]
fn factors_outside_zero_to_one_are_clamped() {
    let c = Color::rgba(30, 110, 30, 77);
    assert_eq!(c.darken(-5), c);
    assert_eq!(c.darken(5000), Color::rgba(0, 0, 0, 77));
    assert_eq!(c.brighten(-1), c);
    assert_eq!(c.brighten(2000), Color::rgba(255, 255, 255, 77));
    assert_eq!(c.saturate(-300), c.saturate(0));
    assert_eq!(c.saturate(7000), c.saturate(1000));
}

#[test]
fn saturate_pushes_channels_away_from_grey() {
    assert_eq!(Color::rgb(25, 85, 25).saturate(900), Color::rgb(0, 115, 0));
}

#[test]
fn saturate_leaves_grey_alone() {
    let grey = Color::rgba(100, 100, 100, 12);
    assert_eq!(grey.saturate(500), grey);
}

#[test]
fn saturate_keeps_opacity() {
    assert_eq!(Color::rgba(20, 65, 20, 3).saturate(350).a, 3);
}

#[test]
fn saturate_adds_the_factor_to_the_saturation() {
    // Brightest 200, darkest 100: lightness 150, saturation 100/210 = 0.476.
    // With 0.2 more the channels move 1.676 times as far from 150.
    assert_eq!(Color::rgb(200, 100, 150).saturate(200), Color::rgb(233, 66, 150));
}
