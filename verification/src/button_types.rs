//! The data of a widget: how it is aligned and sized, what it looks like in
//! each state, and where it stands.

use vstd::prelude::*;
use crate::color::Color;
use crate::text::{Slant, TextStyle, TextStyleView};
use crate::units::half;

verus! {

/// How a label is aligned in its widget.
#[derive(Clone, Copy, Debug, PartialEq, Eq, Structural)]
pub enum TextAlign {
    Left,
    Right,
    Center,
}

impl Default for TextAlign {
    fn default() -> (out: Self)
        ensures
            out == TextAlign::Center,
    {
        TextAlign::Center
    }
}

/// How a widget takes its size. Fractions are in thousandths.
#[derive(Clone, Copy, Debug, PartialEq, Eq, Structural)]
pub enum ButtonSpacing {
    /// Fits the label.
    Wrap,
    /// A fraction of the width of the window; the height fits the label.
    Hbar(u16),
    /// A fraction of the height of the window; the width is given.
    Tall(u16),
}

impl ButtonSpacing {
    /// Whether the widget is sized by the height of the window.
    pub open spec fn is_tall(self) -> bool {
        self is Tall
    }

    /// Whether the widget is sized by the height of the window.
    pub fn tall(&self) -> (out: bool)
        ensures
            out == self.is_tall(),
    {
        match self {
            ButtonSpacing::Tall(_) => true,
            _ => false,
        }
    }
}

/// What a widget looks like.
#[derive(Debug, PartialEq, Eq)]
pub struct ButtonStyle {
    pub background_color: Color,
    pub hover_color: Color,
    pub pressed_color: Color,
    pub disabled_color: Color,
    pub border_color: Color,
    pub border_width: i32,
    pub corner_radius: i32,
    /// Horizontal and vertical padding.
    pub padding: (i32, i32),
    pub text_style: TextStyle,
    pub text_align: TextAlign,
    pub spacing: ButtonSpacing,
}

/// A `ButtonStyle` with its strings as sequences of characters.
pub struct ButtonStyleView {
    pub background_color: Color,
    pub hover_color: Color,
    pub pressed_color: Color,
    pub disabled_color: Color,
    pub border_color: Color,
    pub border_width: i32,
    pub corner_radius: i32,
    pub padding: (i32, i32),
    pub text_style: TextStyleView,
    pub text_align: TextAlign,
    pub spacing: ButtonSpacing,
}

impl View for ButtonStyle {
    type V = ButtonStyleView;

    open spec fn view(&self) -> ButtonStyleView {
        ButtonStyleView {
            background_color: self.background_color,
            hover_color: self.hover_color,
            pressed_color: self.pressed_color,
            disabled_color: self.disabled_color,
            border_color: self.border_color,
            border_width: self.border_width,
            corner_radius: self.corner_radius,
            padding: self.padding,
            text_style: self.text_style@,
            text_align: self.text_align,
            spacing: self.spacing,
        }
    }
}

impl Clone for ButtonStyle {
    fn clone(&self) -> (out: Self)
        ensures
            out == *self,
    {
        ButtonStyle {
            background_color: self.background_color,
            hover_color: self.hover_color,
            pressed_color: self.pressed_color,
            disabled_color: self.disabled_color,
            border_color: self.border_color,
            border_width: self.border_width,
            corner_radius: self.corner_radius,
            padding: self.padding,
            text_style: self.text_style.clone(),
            text_align: self.text_align,
            spacing: self.spacing,
        }
    }
}

/// The label style shared by the ready-made widget styles: the bundled
/// family at 18 pixels, medium weight, in the given colour.
pub open spec fn label_style(color: Color) -> TextStyleView {
    TextStyleView {
        font_family: "HankenGrotesk"@,
        font_size: 18000,
        line_height: 20000,
        color,
        weight: 500,
        style: Slant::Normal,
    }
}

/// The style of a widget that names none: slate, with a slate border.
pub open spec fn default_button_style() -> ButtonStyleView {
    ButtonStyleView {
        background_color: Color { r: 55, g: 65, b: 81, a: 255 },
        hover_color: Color { r: 71, g: 85, b: 105, a: 255 },
        pressed_color: Color { r: 30, g: 41, b: 59, a: 255 },
        disabled_color: Color { r: 148, g: 163, b: 184, a: 255 },
        border_color: Color { r: 71, g: 85, b: 105, a: 255 },
        border_width: 1000,
        corner_radius: 8000,
        padding: (16000i32, 8000i32),
        text_style: label_style(Color { r: 248, g: 250, b: 252, a: 255 }),
        text_align: TextAlign::Center,
        spacing: ButtonSpacing::Hbar(300),
    }
}

/// The label style shared by the ready-made widget styles.
pub fn make_label_style(color: Color) -> (out: TextStyle)
    ensures
        out@ == label_style(color),
{
    TextStyle {
        font_family: String::from_str("HankenGrotesk"),
        font_size: 18000,
        line_height: 20000,
        color,
        weight: 500,
        style: Slant::Normal,
    }
}

impl Default for ButtonStyle {
    fn default() -> (out: Self)
        ensures
            out@ == default_button_style(),
    {
        ButtonStyle {
            background_color: Color::rgb(55, 65, 81),
            hover_color: Color::rgb(71, 85, 105),
            pressed_color: Color::rgb(30, 41, 59),
            disabled_color: Color::rgb(148, 163, 184),
            border_color: Color::rgb(71, 85, 105),
            border_width: 1000,
            corner_radius: 8000,
            padding: (16000, 8000),
            text_style: make_label_style(Color::rgb(248, 250, 252)),
            text_align: TextAlign::Center,
            spacing: ButtonSpacing::Hbar(300),
        }
    }
}

/// Which point of a widget its coordinates name.
#[derive(Clone, Copy, Debug, PartialEq, Eq, Structural)]
pub enum ButtonAnchor {
    TopLeft,
    Center,
}

impl Default for ButtonAnchor {
    fn default() -> (out: Self)
        ensures
            out == ButtonAnchor::Center,
    {
        ButtonAnchor::Center
    }
}

/// Where a widget stands and how large it is.
#[derive(Clone, Copy, Debug, PartialEq, Eq, Structural)]
pub struct ButtonPosition {
    pub x: i32,
    pub y: i32,
    pub width: i32,
    pub height: i32,
    pub anchor: ButtonAnchor,
}

impl ButtonPosition {
    /// A position anchored at its top left corner.
    pub fn new(x: i32, y: i32, width: i32, height: i32) -> (out: ButtonPosition)
        ensures
            out == (ButtonPosition { x, y, width, height, anchor: ButtonAnchor::TopLeft }),
    {
        ButtonPosition { x, y, width, height, anchor: ButtonAnchor::TopLeft }
    }

    /// The same position with another anchor.
    pub fn with_anchor(self, anchor: ButtonAnchor) -> (out: ButtonPosition)
        ensures
            out == (ButtonPosition { anchor, ..self }),
    {
        ButtonPosition {
            x: self.x,
            y: self.y,
            width: self.width,
            height: self.height,
            anchor,
        }
    }

    /// The top left corner that the widget is drawn from: the coordinates
    /// themselves for a top left anchor, and half the size up and to the
    /// left of them for a centre anchor.
    pub open spec fn actual_position(self) -> (int, int) {
        match self.anchor {
            ButtonAnchor::TopLeft => (self.x as int, self.y as int),
            ButtonAnchor::Center => (self.x - self.width / 2, self.y - self.height / 2),
        }
    }

    /// The top left corner that the widget is drawn from.
    pub fn calculate_actual_position(&self) -> (out: (i64, i64))
        ensures
            out.0 == self.actual_position().0,
            out.1 == self.actual_position().1,
            self.anchor == ButtonAnchor::TopLeft ==> out.0 == self.x && out.1 == self.y,
            self.anchor == ButtonAnchor::Center ==> out.0 == self.x - self.width / 2 && out.1
                == self.y - self.height / 2,
    {
        match self.anchor {
            ButtonAnchor::TopLeft => (self.x as i64, self.y as i64),
            ButtonAnchor::Center => (
                self.x as i64 - half(self.width as i64),
                self.y as i64 - half(self.height as i64),
            ),
        }
    }
}

/// The interaction state of a widget.
#[derive(Clone, Copy, Debug, PartialEq, Eq, Structural)]
pub enum ButtonState {
    Normal,
    Hover,
    Pressed,
    Disabled,
}

} // verus!
