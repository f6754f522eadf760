//! Ready-made widget styles.

use vstd::prelude::*;
use crate::button_types::{
    label_style, make_label_style, ButtonSpacing, ButtonStyle, ButtonStyleView, TextAlign,
};
use crate::color::Color;

verus! {

/// A style with a border of one pixel in the hover colour, corners of
/// eight pixels, padding of sixteen by ten pixels, a centred label and three
/// tenths of the window's width.
pub open spec fn filled_style(
    background: Color,
    hover: Color,
    pressed: Color,
    disabled: Color,
    border: Color,
    border_width: i32,
    text: Color,
) -> ButtonStyleView {
    ButtonStyleView {
        background_color: background,
        hover_color: hover,
        pressed_color: pressed,
        disabled_color: disabled,
        border_color: border,
        border_width,
        corner_radius: 8000,
        padding: (16000i32, 10000i32),
        text_style: label_style(text),
        text_align: TextAlign::Center,
        spacing: ButtonSpacing::Hbar(300),
    }
}

fn make_filled_style(
    background: Color,
    hover: Color,
    pressed: Color,
    disabled: Color,
    border: Color,
    border_width: i32,
    text: Color,
) -> (out: ButtonStyle)
    ensures
        out@ == filled_style(background, hover, pressed, disabled, border, border_width, text),
{
    ButtonStyle {
        background_color: background,
        hover_color: hover,
        pressed_color: pressed,
        disabled_color: disabled,
        border_color: border,
        border_width,
        corner_radius: 8000,
        padding: (16000, 10000),
        text_style: make_label_style(text),
        text_align: TextAlign::Center,
        spacing: ButtonSpacing::Hbar(300),
    }
}

/// An opaque colour.
pub open spec fn opaque(r: u8, g: u8, b: u8) -> Color {
    Color { r, g, b, a: 255 }
}

/// No colour at all.
pub open spec fn transparent() -> Color {
    Color { r: 0, g: 0, b: 0, a: 0 }
}

/// The style of `create_primary_button_style`: dark green, white label.
pub open spec fn primary_button_style() -> ButtonStyleView {
    filled_style(
        opaque(30, 110, 30),
        opaque(25, 85, 25),
        opaque(20, 65, 20),
        opaque(110, 140, 110),
        opaque(25, 85, 25),
        1000,
        opaque(255, 255, 255),
    )
}

/// The style of `create_warning_button_style`: dark orange, white label.
pub open spec fn warning_button_style() -> ButtonStyleView {
    filled_style(
        opaque(170, 100, 10),
        opaque(140, 80, 5),
        opaque(110, 60, 0),
        opaque(160, 140, 115),
        opaque(140, 80, 5),
        1000,
        opaque(255, 255, 255),
    )
}

/// The style of `create_danger_button_style`: dark red, white label.
pub open spec fn danger_button_style() -> ButtonStyleView {
    filled_style(
        opaque(110, 20, 10),
        opaque(90, 15, 5),
        opaque(70, 10, 0),
        opaque(80, 96, 119),
        opaque(90, 15, 5),
        1000,
        opaque(255, 255, 255),
    )
}

/// The style of `create_secondary_button_style`: pale slate, dark label.
pub open spec fn secondary_button_style() -> ButtonStyleView {
    filled_style(
        opaque(248, 250, 252),
        opaque(241, 245, 249),
        opaque(226, 232, 240),
        opaque(203, 213, 225),
        opaque(203, 213, 225),
        1000,
        opaque(30, 41, 59),
    )
}

/// The style of `create_outline_button_style`: a border round nothing.
pub open spec fn outline_button_style() -> ButtonStyleView {
    filled_style(
        transparent(),
        opaque(248, 250, 252),
        opaque(241, 245, 249),
        transparent(),
        opaque(203, 213, 225),
        1000,
        opaque(55, 65, 81),
    )
}

/// The style of `create_ghost_button_style`: neither fill nor border.
pub open spec fn ghost_button_style() -> ButtonStyleView {
    filled_style(
        transparent(),
        opaque(248, 250, 252),
        opaque(241, 245, 249),
        transparent(),
        transparent(),
        0,
        opaque(55, 65, 81),
    )
}

/// The style of the widget that confirms or goes on.
pub fn create_primary_button_style() -> (out: ButtonStyle)
    ensures
        out@ == primary_button_style(),
{
    make_filled_style(
        Color::rgb(30, 110, 30),
        Color::rgb(25, 85, 25),
        Color::rgb(20, 65, 20),
        Color::rgb(110, 140, 110),
        Color::rgb(25, 85, 25),
        1000,
        Color::rgb(255, 255, 255),
    )
}

/// The style of the widget that asks for care.
pub fn create_warning_button_style() -> (out: ButtonStyle)
    ensures
        out@ == warning_button_style(),
{
    make_filled_style(
        Color::rgb(170, 100, 10),
        Color::rgb(140, 80, 5),
        Color::rgb(110, 60, 0),
        Color::rgb(160, 140, 115),
        Color::rgb(140, 80, 5),
        1000,
        Color::rgb(255, 255, 255),
    )
}

/// The style of the widget that ends or destroys.
pub fn create_danger_button_style() -> (out: ButtonStyle)
    ensures
        out@ == danger_button_style(),
{
    make_filled_style(
        Color::rgb(110, 20, 10),
        Color::rgb(90, 15, 5),
        Color::rgb(70, 10, 0),
        Color::rgb(80, 96, 119),
        Color::rgb(90, 15, 5),
        1000,
        Color::rgb(255, 255, 255),
    )
}

/// The style of a widget of lesser weight.
pub fn create_secondary_button_style() -> (out: ButtonStyle)
    ensures
        out@ == secondary_button_style(),
{
    make_filled_style(
        Color::rgb(248, 250, 252),
        Color::rgb(241, 245, 249),
        Color::rgb(226, 232, 240),
        Color::rgb(203, 213, 225),
        Color::rgb(203, 213, 225),
        1000,
        Color::rgb(30, 41, 59),
    )
}

/// The style of a widget that is a border only.
pub fn create_outline_button_style() -> (out: ButtonStyle)
    ensures
        out@ == outline_button_style(),
{
    make_filled_style(
        Color::rgba(0, 0, 0, 0),
        Color::rgb(248, 250, 252),
        Color::rgb(241, 245, 249),
        Color::rgba(0, 0, 0, 0),
        Color::rgb(203, 213, 225),
        1000,
        Color::rgb(55, 65, 81),
    )
}

/// The style of a widget that shows only under the pointer.
pub fn create_ghost_button_style() -> (out: ButtonStyle)
    ensures
        out@ == ghost_button_style(),
{
    make_filled_style(
        Color::rgba(0, 0, 0, 0),
        Color::rgb(248, 250, 252),
        Color::rgb(241, 245, 249),
        Color::rgba(0, 0, 0, 0),
        Color::rgba(0, 0, 0, 0),
        0,
        Color::rgb(55, 65, 81),
    )
}

/// The warning style under its older name.
pub fn create_goldenrod_button_style() -> (out: ButtonStyle)
    ensures
        out@ == warning_button_style(),
{
    create_warning_button_style()
}

/// The danger style under its older name.
pub fn create_lobby_button_style() -> (out: ButtonStyle)
    ensures
        out@ == danger_button_style(),
{
    create_danger_button_style()
}

/// The secondary style with its label to the left.
pub fn create_left_aligned_button_style() -> (out: ButtonStyle)
    ensures
        out@ == (ButtonStyleView { text_align: TextAlign::Left, ..secondary_button_style() }),
{
    let mut style = create_secondary_button_style();
    style.text_align = TextAlign::Left;
    style
}

/// The secondary style with its label to the right.
pub fn create_right_aligned_button_style() -> (out: ButtonStyle)
    ensures
        out@ == (ButtonStyleView { text_align: TextAlign::Right, ..secondary_button_style() }),
{
    let mut style = create_secondary_button_style();
    style.text_align = TextAlign::Right;
    style
}

} // verus!
