//! The widget: an interactive rectangle with a label, and what follows from
//! its state: the style of its texts, their places, its drawn rectangle and
//! its icon.

use vstd::prelude::*;
use crate::button_types::{
    ButtonAnchor, ButtonPosition, ButtonSpacing, ButtonState, ButtonStyle, ButtonStyleView,
    TextAlign,
};
use crate::color::{Color, ColorExt};
use crate::icon::{Icon, IconView};
use crate::rectangle::Rectangle;
use crate::text::{Slant, TextMetrics, TextPosition, TextStyle, TextStyleView};
use crate::units::{from_pixels, half, pixels, scale, scaled, share_of_pixels, store, stored, WindowSize};

verus! {

/// The text of the secondary label of a widget.
pub const LEVEL_TEXT: &'static str = "Level 1";

/// The text of the tooltip of a widget.
pub const TOOLTIP_TEXT: &'static str =
    "This is a place to describe an upgrade, and what effects it has on the game in a little more detail.";

/// The texture key of the icon of a tall widget.
pub const ICON_TEXTURE: &'static str = "blank_icon";

/// The extents of the texts of a widget, as the host's shaper measured
/// them: the label in the style of each state, the secondary label and the
/// tooltip in the styles they are measured in.
#[derive(Clone, Copy, Debug, PartialEq, Eq, Structural)]
pub struct ButtonMetrics {
    pub label: TextMetrics,
    pub label_hover: TextMetrics,
    pub label_pressed: TextMetrics,
    pub level: TextMetrics,
    pub tooltip: TextMetrics,
}

impl ButtonMetrics {
    /// Metrics that take every text for empty.
    pub fn none() -> (out: ButtonMetrics)
        ensures
            out == no_metrics(),
    {
        let zero = TextMetrics { min_x: 0, width: 0, height: 0 };
        ButtonMetrics {
            label: zero,
            label_hover: zero,
            label_pressed: zero,
            level: zero,
            tooltip: zero,
        }
    }

    /// The same extent for the label in every state.
    pub fn uniform(label: TextMetrics, level: TextMetrics, tooltip: TextMetrics) -> (out:
        ButtonMetrics)
        ensures
            out == (ButtonMetrics {
                label,
                label_hover: label,
                label_pressed: label,
                level,
                tooltip,
            }),
    {
        ButtonMetrics { label, label_hover: label, label_pressed: label, level, tooltip }
    }
}

/// Metrics that take every text for empty.
pub open spec fn no_metrics() -> ButtonMetrics {
    let zero = TextMetrics { min_x: 0, width: 0, height: 0 };
    ButtonMetrics {
        label: zero,
        label_hover: zero,
        label_pressed: zero,
        level: zero,
        tooltip: zero,
    }
}

/// A widget.
#[derive(Debug, PartialEq, Eq)]
pub struct Button {
    pub id: String,
    pub text: String,
    pub style: ButtonStyle,
    pub position: ButtonPosition,
    pub enabled: bool,
    pub visible: bool,
    pub state: ButtonState,
    /// The name of the text block of the label.
    pub text_id: String,
    /// The name of the text block of the secondary label, if there is one.
    pub level_text_id: Option<String>,
    /// The name of the text block of the tooltip, if there is one.
    pub tooltip_text_id: Option<String>,
    pub metrics: ButtonMetrics,
}

/// A `Button` with its strings as sequences of characters.
pub struct ButtonView {
    pub id: Seq<char>,
    pub text: Seq<char>,
    pub style: ButtonStyleView,
    pub position: ButtonPosition,
    pub enabled: bool,
    pub visible: bool,
    pub state: ButtonState,
    pub text_id: Seq<char>,
    pub level_text_id: Option<Seq<char>>,
    pub tooltip_text_id: Option<Seq<char>>,
    pub metrics: ButtonMetrics,
}

/// An optional string as an optional sequence of characters.
pub open spec fn name_view(name: Option<String>) -> Option<Seq<char>> {
    match name {
        Some(s) => Some(s@),
        None => None,
    }
}

impl View for Button {
    type V = ButtonView;

    open spec fn view(&self) -> ButtonView {
        ButtonView {
            id: self.id@,
            text: self.text@,
            style: self.style@,
            position: self.position,
            enabled: self.enabled,
            visible: self.visible,
            state: self.state,
            text_id: self.text_id@,
            level_text_id: name_view(self.level_text_id),
            tooltip_text_id: name_view(self.tooltip_text_id),
            metrics: self.metrics,
        }
    }
}

impl Clone for Button {
    fn clone(&self) -> (out: Self)
        ensures
            out@ == self@,
    {
        Button {
            id: self.id.clone(),
            text: self.text.clone(),
            style: self.style.clone(),
            position: self.position,
            enabled: self.enabled,
            visible: self.visible,
            state: self.state,
            text_id: self.text_id.clone(),
            level_text_id: match &self.level_text_id {
                Some(s) => Some(s.clone()),
                None => None,
            },
            tooltip_text_id: match &self.tooltip_text_id {
                Some(s) => Some(s.clone()),
                None => None,
            },
            metrics: self.metrics,
        }
    }
}

/// How much larger than its size a widget is drawn, in thousandths: a tall
/// widget grows by a tenth under the pointer and by a twentieth when
/// pressed.
pub open spec fn footprint_scale(spacing: ButtonSpacing, state: ButtonState) -> int {
    if spacing.is_tall() {
        match state {
            ButtonState::Hover => 1100,
            ButtonState::Pressed => 1050,
            _ => 1000,
        }
    } else {
        1000
    }
}

/// How much larger than its size a label is set, in thousandths: that of a
/// tall widget grows by a fifth under the pointer and by a tenth when
/// pressed.
pub open spec fn text_size_scale(spacing: ButtonSpacing, state: ButtonState) -> int {
    if spacing.is_tall() {
        match state {
            ButtonState::Hover => 1200,
            ButtonState::Pressed => 1100,
            _ => 1000,
        }
    } else {
        1000
    }
}

/// The colour of the texts of a widget in a state.
pub open spec fn state_text_color(style: ButtonStyleView, state: ButtonState) -> Color {
    match state {
        ButtonState::Normal => style.background_color.darkened(350),
        ButtonState::Hover => style.hover_color.saturated(900),
        ButtonState::Pressed => style.pressed_color.brightened(150).saturated(350),
        ButtonState::Disabled => Color { r: 100, g: 116, b: 139, a: 255 },
    }
}

/// The weight of the texts of a widget in a state.
pub open spec fn state_text_weight(style: ButtonStyleView, state: ButtonState) -> u16 {
    match state {
        ButtonState::Normal => style.text_style.weight,
        ButtonState::Hover => 700,
        ButtonState::Pressed => 500,
        ButtonState::Disabled => 400,
    }
}

/// The colour of the rectangle of a widget.
pub open spec fn fill_color(style: ButtonStyleView, enabled: bool, state: ButtonState) -> Color {
    if !enabled {
        style.disabled_color
    } else {
        match state {
            ButtonState::Normal => style.background_color,
            ButtonState::Hover => style.hover_color,
            ButtonState::Pressed => style.pressed_color,
            ButtonState::Disabled => style.disabled_color,
        }
    }
}

/// Where a text of width `text_width` starts in a widget that starts at
/// `left` and is `width` wide.
pub open spec fn aligned_x(
    align: TextAlign,
    left: int,
    width: int,
    padding: int,
    text_width: int,
) -> int {
    match align {
        TextAlign::Left => left + padding,
        TextAlign::Right => left + width - padding - text_width,
        TextAlign::Center => left + (width - text_width) / 2,
    }
}

/// Where a tooltip starts: at the padding from the left, or at the padding
/// from the right edge.
pub open spec fn tooltip_x(align: TextAlign, left: int, width: int, padding: int) -> int {
    match align {
        TextAlign::Right => left + width - padding,
        _ => left + padding,
    }
}

/// A coordinate moved away from a centre by a factor in thousandths.
pub open spec fn about(center: int, v: int, factor: int) -> int {
    center + scaled(v - center, factor)
}

/// The extra padding of a tooltip: ten pixels.
pub open spec fn tooltip_inset() -> int {
    10000
}

impl ButtonView {
    /// The top left corner that the widget is drawn from.
    pub open spec fn left(self) -> int {
        self.position.actual_position().0
    }

    /// The top left corner that the widget is drawn from.
    pub open spec fn top(self) -> int {
        self.position.actual_position().1
    }

    /// The middle of the widget, across.
    pub open spec fn center_x(self) -> int {
        self.left() + self.position.width / 2
    }

    /// The middle of the widget, down.
    pub open spec fn center_y(self) -> int {
        self.top() + self.position.height / 2
    }

    /// Whether a point is on the widget. No point is on a widget that is
    /// hidden or disabled.
    pub open spec fn contains(self, x: int, y: int) -> bool {
        self.visible && self.enabled && self.left() <= x <= self.left() + self.position.width
            && self.top() <= y <= self.top() + self.position.height
    }

    /// The state that the pointer puts the widget in. A widget that is
    /// hidden or disabled is in the disabled state whatever the pointer does.
    pub open spec fn next_state(self, mouse: (i32, i32), pressed: bool) -> ButtonState {
        if !self.visible || !self.enabled {
            ButtonState::Disabled
        } else if self.contains(mouse.0 as int, mouse.1 as int) {
            if pressed {
                ButtonState::Pressed
            } else {
                ButtonState::Hover
            }
        } else {
            ButtonState::Normal
        }
    }

    /// The extent of the label in the style of a state.
    pub open spec fn label_metrics_in(self, state: ButtonState) -> TextMetrics {
        match state {
            ButtonState::Hover => self.metrics.label_hover,
            ButtonState::Pressed => self.metrics.label_pressed,
            _ => self.metrics.label,
        }
    }

    /// The style of the label in a state.
    pub open spec fn label_style_in(self, state: ButtonState) -> TextStyleView {
        let factor = text_size_scale(self.style.spacing, state);
        TextStyleView {
            font_size: stored(scaled(self.style.text_style.font_size as int, factor)),
            line_height: stored(scaled(self.style.text_style.line_height as int, factor)),
            color: state_text_color(self.style, state),
            weight: state_text_weight(self.style, state),
            ..self.style.text_style
        }
    }

    /// The style of the secondary label in a state: seven tenths of the
    /// label's size, italic.
    pub open spec fn level_style_in(self, state: ButtonState) -> TextStyleView {
        let factor = text_size_scale(self.style.spacing, state);
        TextStyleView {
            font_size: stored(
                scaled(scaled(self.style.text_style.font_size as int, 700), factor),
            ),
            line_height: stored(
                scaled(scaled(self.style.text_style.line_height as int, 700), factor),
            ),
            color: state_text_color(self.style, state),
            weight: state_text_weight(self.style, state),
            style: Slant::Italic,
            ..self.style.text_style
        }
    }

    /// The style of the tooltip in a state: six tenths of the label's size,
    /// upright, with lines a twentieth higher than the font.
    pub open spec fn tooltip_style_in(self, state: ButtonState) -> TextStyleView {
        let factor = text_size_scale(self.style.spacing, state);
        let size = stored(scaled(scaled(self.style.text_style.font_size as int, 600), factor));
        TextStyleView {
            font_size: size,
            line_height: stored(scaled(size as int, 1050)),
            color: state_text_color(self.style, state),
            weight: state_text_weight(self.style, state),
            style: Slant::Normal,
            ..self.style.text_style
        }
    }

    /// The style that hides a text: the label's, without colour.
    pub open spec fn hidden_style(self) -> TextStyleView {
        TextStyleView { color: Color { r: 0, g: 0, b: 0, a: 0 }, ..self.style.text_style }
    }

    /// The style the secondary label is created and measured in: seven
    /// tenths of the label's size, italic.
    pub open spec fn level_base_style(self) -> TextStyleView {
        TextStyleView {
            font_size: stored(scaled(self.style.text_style.font_size as int, 700)),
            line_height: stored(scaled(self.style.text_style.line_height as int, 700)),
            style: Slant::Italic,
            ..self.style.text_style
        }
    }

    /// The style the tooltip is created and measured in: fifty-five
    /// hundredths of the label's size, upright.
    pub open spec fn tooltip_base_style(self) -> TextStyleView {
        let size = stored(scaled(self.style.text_style.font_size as int, 550));
        TextStyleView {
            font_size: size,
            line_height: stored(scaled(size as int, 1050)),
            style: Slant::Normal,
            ..self.style.text_style
        }
    }

    /// The width that fits the label: the label and the horizontal padding
    /// on both sides.
    pub open spec fn fitted_width(self) -> i32 {
        stored(self.metrics.label.width + 2 * self.style.padding.0)
    }

    /// The height that fits the label: the label and the vertical padding
    /// above and below.
    pub open spec fn fitted_height(self) -> i32 {
        stored(self.metrics.label.height + 2 * self.style.padding.1)
    }

    /// The size a widget takes when it is added. A wrapping widget fits its
    /// label on both axes. A widget that takes a share of the window's
    /// width fits its label in height. A tall widget takes a share of the
    /// window's height and keeps the width it was given; without one it fits
    /// its label in width.
    pub open spec fn initial_size(self, window: WindowSize) -> (i32, i32) {
        match self.style.spacing {
            ButtonSpacing::Wrap => (self.fitted_width(), self.fitted_height()),
            ButtonSpacing::Hbar(share) => (
                stored(scaled(pixels(window.width as int), share as int)),
                self.fitted_height(),
            ),
            ButtonSpacing::Tall(share) => (
                if self.position.width > 0 {
                    self.position.width
                } else {
                    self.fitted_width()
                },
                stored(scaled(pixels(window.height as int), share as int)),
            ),
        }
    }

    /// The widget with the size it takes when it is added.
    pub open spec fn sized(self, window: WindowSize) -> ButtonView {
        ButtonView {
            position: ButtonPosition {
                width: self.initial_size(window).0,
                height: self.initial_size(window).1,
                ..self.position
            },
            ..self
        }
    }

    /// Where the label is put when the widget is added.
    pub open spec fn initial_label_position(self) -> TextPosition {
        let pad = self.style.padding;
        TextPosition {
            x: stored(
                aligned_x(
                    self.style.text_align,
                    self.left(),
                    self.position.width as int,
                    pad.0 as int,
                    self.metrics.label.width as int,
                ),
            ),
            y: stored(self.top() + pad.1),
            max_width: Some(stored(self.position.width - 2 * pad.0)),
            max_height: Some(stored(self.position.height - 2 * pad.1)),
        }
    }

    /// Where the secondary label is put when the widget is added.
    pub open spec fn initial_level_position(self) -> TextPosition {
        let pad = self.style.padding;
        TextPosition {
            x: stored(
                aligned_x(
                    self.style.text_align,
                    self.left(),
                    self.position.width as int,
                    pad.0 as int,
                    self.metrics.level.width as int,
                ),
            ),
            y: stored(self.top() + scaled(self.position.height as int, 550)),
            max_width: Some(stored(self.position.width - 2 * pad.0)),
            max_height: Some(self.metrics.level.height),
        }
    }

    /// Where the tooltip is put when the widget is added.
    pub open spec fn initial_tooltip_position(self) -> TextPosition {
        let inset = self.style.padding.0 + tooltip_inset();
        TextPosition {
            x: stored(
                tooltip_x(self.style.text_align, self.left(), self.position.width as int, inset),
            ),
            y: stored(self.top() + scaled(self.position.height as int, 680)),
            max_width: Some(stored(self.position.width - 2 * inset)),
            max_height: Some(stored(scaled(self.position.height as int, 280))),
        }
    }

    /// Where the label of a tall widget is put in the widget's state: its
    /// resting place moved away from the centre of the widget as the
    /// widget grows.
    pub open spec fn tall_label_position(self) -> TextPosition {
        let pad = self.style.padding;
        let factor = footprint_scale(self.style.spacing, self.state);
        let label = self.label_metrics_in(self.state);
        let x = aligned_x(
            self.style.text_align,
            self.left(),
            self.position.width as int,
            pad.0 as int,
            label.width as int,
        );
        TextPosition {
            x: stored(about(self.center_x(), x, factor)),
            y: stored(about(self.center_y(), self.top() + pad.1, factor)),
            max_width: Some(stored(scaled(self.position.width - 2 * pad.0, factor))),
            max_height: Some(stored(scaled(label.height as int, factor))),
        }
    }

    /// Where the secondary label of a tall widget is put in the widget's
    /// state.
    pub open spec fn tall_level_position(self) -> TextPosition {
        let pad = self.style.padding;
        let factor = footprint_scale(self.style.spacing, self.state);
        let x = aligned_x(
            self.style.text_align,
            self.left(),
            self.position.width as int,
            pad.0 as int,
            self.metrics.level.width as int,
        );
        TextPosition {
            x: stored(about(self.center_x(), x, factor)),
            y: stored(
                about(
                    self.center_y(),
                    self.top() + scaled(self.position.height as int, 550),
                    factor,
                ),
            ),
            max_width: Some(stored(scaled(self.position.width - 2 * pad.0, factor))),
            max_height: Some(stored(scaled(self.metrics.level.height as int, factor))),
        }
    }

    /// Where the tooltip of a tall widget is put in the widget's state.
    pub open spec fn tall_tooltip_position(self) -> TextPosition {
        let pad = self.style.padding;
        let factor = footprint_scale(self.style.spacing, self.state);
        let inset = pad.0 + tooltip_inset();
        let x = tooltip_x(self.style.text_align, self.left(), self.position.width as int, inset);
        TextPosition {
            x: stored(about(self.center_x(), x, factor)),
            y: stored(
                about(
                    self.center_y(),
                    self.top() + scaled(self.position.height as int, 680),
                    factor,
                ),
            ),
            max_width: Some(
                stored(scaled(self.position.width - 2 * pad.0, factor) - 2 * tooltip_inset()),
            ),
            max_height: Some(
                stored(scaled(scaled(self.position.height as int, 280), factor)),
            ),
        }
    }

    /// Where the label is put when the widgets are laid out again: at the
    /// top of a tall widget, in the middle of another.
    pub open spec fn laid_label_position(self) -> TextPosition {
        let pad = self.style.padding;
        let tall = self.style.spacing.is_tall();
        let factor = footprint_scale(self.style.spacing, self.state);
        let label = self.metrics.label;
        let x = aligned_x(
            self.style.text_align,
            self.left(),
            self.position.width as int,
            pad.0 as int,
            label.width as int,
        );
        let y = if tall {
            self.top() + pad.1
        } else {
            self.top() + (self.position.height - label.height) / 2
        };
        TextPosition {
            x: stored(if tall { about(self.center_x(), x, factor) } else { x }),
            y: stored(if tall { about(self.center_y(), y, factor) } else { y }),
            max_width: Some(stored(scaled(self.position.width - 2 * pad.0, factor))),
            max_height: Some(stored(scaled(label.height as int, factor))),
        }
    }

    /// Where the secondary label is put when the widgets are laid out
    /// again: below the icon of a tall widget, at the bottom of another.
    pub open spec fn laid_level_position(self) -> TextPosition {
        let pad = self.style.padding;
        let tall = self.style.spacing.is_tall();
        let factor = footprint_scale(self.style.spacing, self.state);
        let level = self.metrics.level;
        let x = aligned_x(
            self.style.text_align,
            self.left(),
            self.position.width as int,
            pad.0 as int,
            level.width as int,
        );
        let y = if tall {
            self.top() + scaled(self.position.height as int, 550)
        } else {
            self.top() + self.position.height - level.height - pad.1
        };
        TextPosition {
            x: stored(if tall { about(self.center_x(), x, factor) } else { x }),
            y: stored(if tall { about(self.center_y(), y, factor) } else { y }),
            max_width: Some(stored(scaled(level.width as int, factor))),
            max_height: Some(stored(scaled(level.height as int, factor))),
        }
    }

    /// Where the tooltip is put when the widgets are laid out again.
    pub open spec fn laid_tooltip_position(self) -> TextPosition {
        let pad = self.style.padding;
        let tall = self.style.spacing.is_tall();
        let factor = footprint_scale(self.style.spacing, self.state);
        let inset = pad.0 + tooltip_inset();
        let x = tooltip_x(self.style.text_align, self.left(), self.position.width as int, inset);
        let y = if tall {
            self.top() + scaled(self.position.height as int, 680)
        } else {
            self.top() + self.position.height - self.metrics.tooltip.height - pad.1
        };
        TextPosition {
            x: stored(if tall { about(self.center_x(), x, factor) } else { x }),
            y: stored(if tall { about(self.center_y(), y, factor) } else { y }),
            max_width: Some(stored(scaled(self.position.width - 2 * inset, factor))),
            max_height: Some(
                stored(scaled(scaled(self.position.height as int, 280), factor)),
            ),
        }
    }

    /// The height a widget has after it was laid out again: a tall widget
    /// keeps its own, another fits its label.
    pub open spec fn laid_height(self) -> i32 {
        if self.style.spacing.is_tall() {
            self.position.height
        } else {
            stored(self.metrics.label.height + 2 * self.style.padding.1)
        }
    }

    /// The width of the drawn rectangle.
    pub open spec fn drawn_width(self) -> int {
        scaled(self.position.width as int, footprint_scale(self.style.spacing, self.state))
    }

    /// The height of the drawn rectangle.
    pub open spec fn drawn_height(self) -> int {
        scaled(self.position.height as int, footprint_scale(self.style.spacing, self.state))
    }

    /// The left edge of the drawn rectangle: the growth is shared between
    /// both sides.
    pub open spec fn drawn_left(self) -> int {
        self.left() - (self.drawn_width() - self.position.width) / 2
    }

    /// The top edge of the drawn rectangle.
    pub open spec fn drawn_top(self) -> int {
        self.top() - (self.drawn_height() - self.position.height) / 2
    }

    /// The rectangle that the widget is drawn as.
    pub open spec fn drawn_rectangle(self) -> Rectangle {
        Rectangle {
            x: stored(self.drawn_left()),
            y: stored(self.drawn_top()),
            width: stored(self.drawn_width()),
            height: stored(self.drawn_height()),
            color: fill_color(self.style, self.enabled, self.state),
            corner_radius: stored(
                scaled(
                    self.style.corner_radius as int,
                    footprint_scale(self.style.spacing, self.state),
                ),
            ),
        }
    }

    /// The side of the icon of a tall widget: what the width leaves after
    /// a margin of sixteen pixels on both sides, but no more than four
    /// tenths of the height.
    pub open spec fn icon_side(self) -> int {
        let factor = footprint_scale(self.style.spacing, self.state);
        let across = self.drawn_width() - 2 * scaled(16000, factor);
        let down = scaled(self.drawn_height(), 400);
        if across <= down {
            across
        } else {
            down
        }
    }

    /// The icon of a tall widget: in the middle across, from the middle
    /// downward.
    pub open spec fn icon(self) -> IconView {
        IconView {
            x: stored(self.drawn_left() + (self.drawn_width() - self.icon_side()) / 2),
            y: stored(self.drawn_top() + scaled(self.drawn_height(), 500)),
            width: stored(self.icon_side()),
            height: stored(self.icon_side()),
            texture_id: ICON_TEXTURE@,
        }
    }
}

/// How much larger than its size a widget is drawn, in thousandths.
pub fn footprint_factor(spacing: ButtonSpacing, state: ButtonState) -> (out: i64)
    ensures
        out == footprint_scale(spacing, state),
        1000 <= out <= 1100,
{
    if spacing.tall() {
        match state {
            ButtonState::Hover => 1100,
            ButtonState::Pressed => 1050,
            _ => 1000,
        }
    } else {
        1000
    }
}

/// How much larger than its size a label is set, in thousandths.
pub fn text_size_factor(spacing: ButtonSpacing, state: ButtonState) -> (out: i64)
    ensures
        out == text_size_scale(spacing, state),
        1000 <= out <= 1200,
{
    if spacing.tall() {
        match state {
            ButtonState::Hover => 1200,
            ButtonState::Pressed => 1100,
            _ => 1000,
        }
    } else {
        1000
    }
}

fn align_x(align: TextAlign, left: i64, width: i32, padding: i32, text_width: i32) -> (out: i64)
    requires
        -0x1_0000_0000 <= left <= 0x1_0000_0000,
    ensures
        out == aligned_x(align, left as int, width as int, padding as int, text_width as int),
        -0x4_0000_0000 <= out <= 0x4_0000_0000,
{
    match align {
        TextAlign::Left => left + padding as i64,
        TextAlign::Right => left + width as i64 - padding as i64 - text_width as i64,
        TextAlign::Center => left + half(width as i64 - text_width as i64),
    }
}

fn tooltip_start(align: TextAlign, left: i64, width: i32, padding: i64) -> (out: i64)
    requires
        -0x1_0000_0000 <= left <= 0x1_0000_0000,
        -0x1_0000_0000 <= padding <= 0x1_0000_0000,
    ensures
        out == tooltip_x(align, left as int, width as int, padding as int),
        -0x4_0000_0000 <= out <= 0x4_0000_0000,
{
    match align {
        TextAlign::Right => left + width as i64 - padding,
        _ => left + padding,
    }
}

fn move_about(center: i64, v: i64, factor: i64) -> (out: i64)
    requires
        -0x10_0000_0000 <= center <= 0x10_0000_0000,
        -0x10_0000_0000 <= v <= 0x10_0000_0000,
        1000 <= factor <= 1100,
    ensures
        out == about(center as int, v as int, factor as int),
{
    center + scale(v - center, factor)
}

impl Button {
    /// A widget with the default style, 200 by 50 pixels at the origin,
    /// enabled, visible and at rest. Its label is the text block named
    /// `button_` and the widget's name.
    pub fn new(id: &str, text: &str) -> (button: Button)
        ensures
            button@ == (ButtonView {
                id: id@,
                text: text@,
                style: crate::button_types::default_button_style(),
                position: ButtonPosition {
                    x: 0,
                    y: 0,
                    width: 200000,
                    height: 50000,
                    anchor: ButtonAnchor::TopLeft,
                },
                enabled: true,
                visible: true,
                state: ButtonState::Normal,
                text_id: "button_"@ + id@,
                level_text_id: None,
                tooltip_text_id: None,
                metrics: no_metrics(),
            }),
    {
        Button {
            id: String::from_str(id),
            text: String::from_str(text),
            style: ButtonStyle::default(),
            position: ButtonPosition::new(0, 0, 200000, 50000),
            enabled: true,
            visible: true,
            state: ButtonState::Normal,
            text_id: String::from_str("button_").concat(id),
            level_text_id: None,
            tooltip_text_id: None,
            metrics: ButtonMetrics::none(),
        }
    }

    /// The same widget with another style.
    pub fn with_style(self, style: ButtonStyle) -> (button: Button)
        ensures
            button@ == (ButtonView { style: style@, ..self@ }),
    {
        let mut button = self;
        button.style = style;
        button
    }

    /// The same widget at another position.
    pub fn with_position(self, position: ButtonPosition) -> (button: Button)
        ensures
            button@ == (ButtonView { position, ..self@ }),
    {
        let mut button = self;
        button.position = position;
        button
    }

    /// The same widget with its label aligned otherwise.
    pub fn with_text_align(self, text_align: TextAlign) -> (button: Button)
        ensures
            button@ == (ButtonView {
                style: ButtonStyleView { text_align, ..self@.style },
                ..self@
            }),
    {
        let mut button = self;
        button.style.text_align = text_align;
        button
    }

    /// The same widget with a secondary label: the text block named
    /// `level_` and the widget's name.
    pub fn with_level_text(self) -> (button: Button)
        ensures
            button@ == (ButtonView { level_text_id: Some("level_"@ + self@.id), ..self@ }),
    {
        let mut button = self;
        button.level_text_id = Some(String::from_str("level_").concat(button.id.as_str()));
        button
    }

    /// The same widget with a tooltip: the text block named `tooltip_` and
    /// the widget's name.
    pub fn with_tooltip_text(self) -> (button: Button)
        ensures
            button@ == (ButtonView { tooltip_text_id: Some("tooltip_"@ + self@.id), ..self@ }),
    {
        let mut button = self;
        button.tooltip_text_id = Some(String::from_str("tooltip_").concat(button.id.as_str()));
        button
    }

    /// The same widget with the extents of its texts as measured.
    pub fn with_metrics(self, metrics: ButtonMetrics) -> (button: Button)
        ensures
            button@ == (ButtonView { metrics, ..self@ }),
    {
        let mut button = self;
        button.metrics = metrics;
        button
    }

    /// Shows or hides the widget.
    pub fn set_visible(&mut self, visible: bool)
        ensures
            final(self)@ == (ButtonView { visible, ..old(self)@ }),
    {
        self.visible = visible;
    }

    /// Whether a point is on the widget: within its bounds as drawn from
    /// its actual top left corner, edges included. No point is on a widget
    /// that is hidden or disabled.
    pub fn contains_point(&self, x: i32, y: i32) -> (inside: bool)
        ensures
            inside == self@.contains(x as int, y as int),
            !self.visible || !self.enabled ==> !inside,
    {
        if !self.visible || !self.enabled {
            return false;
        }
        let (left, top) = self.position.calculate_actual_position();
        x as i64 >= left && x as i64 <= left + self.position.width as i64 && y as i64 >= top
            && y as i64 <= top + self.position.height as i64
    }

    /// The state that the pointer puts the widget in.
    pub fn state_under(&self, mouse: (i32, i32), pressed: bool) -> (state: ButtonState)
        ensures
            state == self@.next_state(mouse, pressed),
    {
        if !self.visible || !self.enabled {
            ButtonState::Disabled
        } else if self.contains_point(mouse.0, mouse.1) {
            if pressed {
                ButtonState::Pressed
            } else {
                ButtonState::Hover
            }
        } else {
            ButtonState::Normal
        }
    }

    /// The colour of the texts of the widget in a state.
    pub fn text_color_in(&self, state: ButtonState) -> (color: Color)
        ensures
            color == state_text_color(self@.style, state),
    {
        match state {
            ButtonState::Normal => self.style.background_color.darken(350),
            ButtonState::Hover => self.style.hover_color.saturate(900),
            ButtonState::Pressed => self.style.pressed_color.brighten(150).saturate(350),
            ButtonState::Disabled => Color::rgb(100, 116, 139),
        }
    }

    /// The weight of the texts of the widget in a state.
    pub fn text_weight_in(&self, state: ButtonState) -> (weight: u16)
        ensures
            weight == state_text_weight(self@.style, state),
    {
        match state {
            ButtonState::Normal => self.style.text_style.weight,
            ButtonState::Hover => 700,
            ButtonState::Pressed => 500,
            ButtonState::Disabled => 400,
        }
    }

    /// The extent of the label in the style of a state.
    pub fn label_metrics(&self, state: ButtonState) -> (metrics: TextMetrics)
        ensures
            metrics == self@.label_metrics_in(state),
    {
        match state {
            ButtonState::Hover => self.metrics.label_hover,
            ButtonState::Pressed => self.metrics.label_pressed,
            _ => self.metrics.label,
        }
    }

    /// The style of the label in a state.
    pub fn label_style(&self, state: ButtonState) -> (style: TextStyle)
        ensures
            style@ == self@.label_style_in(state),
    {
        let factor = text_size_factor(self.style.spacing, state);
        let base = &self.style.text_style;
        TextStyle {
            font_family: base.font_family.clone(),
            font_size: store(scale(base.font_size as i64, factor)),
            line_height: store(scale(base.line_height as i64, factor)),
            color: self.text_color_in(state),
            weight: self.text_weight_in(state),
            style: base.style,
        }
    }

    /// The style of the secondary label in a state.
    pub fn level_style(&self, state: ButtonState) -> (style: TextStyle)
        ensures
            style@ == self@.level_style_in(state),
    {
        let factor = text_size_factor(self.style.spacing, state);
        let base = &self.style.text_style;
        TextStyle {
            font_family: base.font_family.clone(),
            font_size: store(scale(scale(base.font_size as i64, 700), factor)),
            line_height: store(scale(scale(base.line_height as i64, 700), factor)),
            color: self.text_color_in(state),
            weight: self.text_weight_in(state),
            style: Slant::Italic,
        }
    }

    /// The style of the tooltip in a state.
    pub fn tooltip_style(&self, state: ButtonState) -> (style: TextStyle)
        ensures
            style@ == self@.tooltip_style_in(state),
    {
        let factor = text_size_factor(self.style.spacing, state);
        let base = &self.style.text_style;
        let size = store(scale(scale(base.font_size as i64, 600), factor));
        TextStyle {
            font_family: base.font_family.clone(),
            font_size: size,
            line_height: store(scale(size as i64, 1050)),
            color: self.text_color_in(state),
            weight: self.text_weight_in(state),
            style: Slant::Normal,
        }
    }

    /// The style that hides a text.
    pub fn hidden_text_style(&self) -> (style: TextStyle)
        ensures
            style@ == self@.hidden_style(),
    {
        let base = &self.style.text_style;
        TextStyle {
            font_family: base.font_family.clone(),
            font_size: base.font_size,
            line_height: base.line_height,
            color: Color::rgba(0, 0, 0, 0),
            weight: base.weight,
            style: base.style,
        }
    }

    /// The style the secondary label is created and measured in.
    pub fn level_measure_style(&self) -> (style: TextStyle)
        ensures
            style@ == self@.level_base_style(),
    {
        let base = &self.style.text_style;
        TextStyle {
            font_family: base.font_family.clone(),
            font_size: store(scale(base.font_size as i64, 700)),
            line_height: store(scale(base.line_height as i64, 700)),
            color: base.color,
            weight: base.weight,
            style: Slant::Italic,
        }
    }

    /// The style the tooltip is created and measured in.
    pub fn tooltip_measure_style(&self) -> (style: TextStyle)
        ensures
            style@ == self@.tooltip_base_style(),
    {
        let base = &self.style.text_style;
        let size = store(scale(base.font_size as i64, 550));
        TextStyle {
            font_family: base.font_family.clone(),
            font_size: size,
            line_height: store(scale(size as i64, 1050)),
            color: base.color,
            weight: base.weight,
            style: Slant::Normal,
        }
    }

    /// Gives the widget the size it takes when it is added.
    pub fn take_initial_size(&mut self, window: WindowSize)
        ensures
            final(self)@ == old(self)@.sized(window),
    {
        let label = self.metrics.label;
        let fitted_width: i32 = store(label.width as i64 + 2 * self.style.padding.0 as i64);
        let fitted_height: i32 = store(label.height as i64 + 2 * self.style.padding.1 as i64);
        match self.style.spacing {
            ButtonSpacing::Wrap => {
                self.position.width = fitted_width;
                self.position.height = fitted_height;
            },
            ButtonSpacing::Hbar(share) => {
                self.position.width = store(share_of_pixels(window.width, share));
                self.position.height = fitted_height;
            },
            ButtonSpacing::Tall(share) => {
                if !(self.position.width > 0) {
                    self.position.width = fitted_width;
                }
                self.position.height = store(share_of_pixels(window.height, share));
            },
        }
    }

    /// Where the label is put when the widget is added.
    pub fn initial_label_place(&self) -> (place: TextPosition)
        ensures
            place == self@.initial_label_position(),
    {
        let (left, top) = self.position.calculate_actual_position();
        let pad = self.style.padding;
        let width = self.position.width;
        TextPosition {
            x: store(align_x(self.style.text_align, left, width, pad.0, self.metrics.label.width)),
            y: store(top + pad.1 as i64),
            max_width: Some(store(width as i64 - 2 * pad.0 as i64)),
            max_height: Some(store(self.position.height as i64 - 2 * pad.1 as i64)),
        }
    }

    /// Where the secondary label is put when the widget is added.
    pub fn initial_level_place(&self) -> (place: TextPosition)
        ensures
            place == self@.initial_level_position(),
    {
        let (left, top) = self.position.calculate_actual_position();
        let pad = self.style.padding;
        let width = self.position.width;
        TextPosition {
            x: store(align_x(self.style.text_align, left, width, pad.0, self.metrics.level.width)),
            y: store(top + scale(self.position.height as i64, 550)),
            max_width: Some(store(width as i64 - 2 * pad.0 as i64)),
            max_height: Some(self.metrics.level.height),
        }
    }

    /// Where the tooltip is put when the widget is added.
    pub fn initial_tooltip_place(&self) -> (place: TextPosition)
        ensures
            place == self@.initial_tooltip_position(),
    {
        let (left, top) = self.position.calculate_actual_position();
        let inset: i64 = self.style.padding.0 as i64 + 10000;
        let width = self.position.width;
        TextPosition {
            x: store(tooltip_start(self.style.text_align, left, width, inset)),
            y: store(top + scale(self.position.height as i64, 680)),
            max_width: Some(store(width as i64 - 2 * inset)),
            max_height: Some(store(scale(self.position.height as i64, 280))),
        }
    }

    fn middle(&self) -> (out: (i64, i64))
        ensures
            out.0 == self@.center_x(),
            out.1 == self@.center_y(),
            -0x1_0000_0000 <= out.0 <= 0x1_0000_0000,
            -0x1_0000_0000 <= out.1 <= 0x1_0000_0000,
    {
        let (left, top) = self.position.calculate_actual_position();
        (left + half(self.position.width as i64), top + half(self.position.height as i64))
    }

    /// Where the label of a tall widget is put in the widget's state.
    pub fn tall_label_place(&self) -> (place: TextPosition)
        ensures
            place == self@.tall_label_position(),
    {
        let (left, top) = self.position.calculate_actual_position();
        let (cx, cy) = self.middle();
        let pad = self.style.padding;
        let factor = footprint_factor(self.style.spacing, self.state);
        let label = self.label_metrics(self.state);
        let x = align_x(self.style.text_align, left, self.position.width, pad.0, label.width);
        TextPosition {
            x: store(move_about(cx, x, factor)),
            y: store(move_about(cy, top + pad.1 as i64, factor)),
            max_width: Some(store(scale(self.position.width as i64 - 2 * pad.0 as i64, factor))),
            max_height: Some(store(scale(label.height as i64, factor))),
        }
    }

    /// Where the secondary label of a tall widget is put in the widget's
    /// state.
    pub fn tall_level_place(&self) -> (place: TextPosition)
        ensures
            place == self@.tall_level_position(),
    {
        let (left, top) = self.position.calculate_actual_position();
        let (cx, cy) = self.middle();
        let pad = self.style.padding;
        let factor = footprint_factor(self.style.spacing, self.state);
        let level = self.metrics.level;
        let x = align_x(self.style.text_align, left, self.position.width, pad.0, level.width);
        TextPosition {
            x: store(move_about(cx, x, factor)),
            y: store(move_about(cy, top + scale(self.position.height as i64, 550), factor)),
            max_width: Some(store(scale(self.position.width as i64 - 2 * pad.0 as i64, factor))),
            max_height: Some(store(scale(level.height as i64, factor))),
        }
    }

    /// Where the tooltip of a tall widget is put in the widget's state.
    pub fn tall_tooltip_place(&self) -> (place: TextPosition)
        ensures
            place == self@.tall_tooltip_position(),
    {
        let (left, top) = self.position.calculate_actual_position();
        let (cx, cy) = self.middle();
        let pad = self.style.padding;
        let factor = footprint_factor(self.style.spacing, self.state);
        let inset: i64 = pad.0 as i64 + 10000;
        let x = tooltip_start(self.style.text_align, left, self.position.width, inset);
        TextPosition {
            x: store(move_about(cx, x, factor)),
            y: store(move_about(cy, top + scale(self.position.height as i64, 680), factor)),
            max_width: Some(
                store(scale(self.position.width as i64 - 2 * pad.0 as i64, factor) - 20000),
            ),
            max_height: Some(store(scale(scale(self.position.height as i64, 280), factor))),
        }
    }

    /// Where the label is put when the widgets are laid out again.
    pub fn laid_label_place(&self) -> (place: TextPosition)
        ensures
            place == self@.laid_label_position(),
    {
        let (left, top) = self.position.calculate_actual_position();
        let (cx, cy) = self.middle();
        let pad = self.style.padding;
        let tall = self.style.spacing.tall();
        let factor = footprint_factor(self.style.spacing, self.state);
        let label = self.metrics.label;
        let x = align_x(self.style.text_align, left, self.position.width, pad.0, label.width);
        let y: i64 = if tall {
            top + pad.1 as i64
        } else {
            top + half(self.position.height as i64 - label.height as i64)
        };
        TextPosition {
            x: store(if tall { move_about(cx, x, factor) } else { x }),
            y: store(if tall { move_about(cy, y, factor) } else { y }),
            max_width: Some(store(scale(self.position.width as i64 - 2 * pad.0 as i64, factor))),
            max_height: Some(store(scale(label.height as i64, factor))),
        }
    }

    /// Where the secondary label is put when the widgets are laid out
    /// again.
    pub fn laid_level_place(&self) -> (place: TextPosition)
        ensures
            place == self@.laid_level_position(),
    {
        let (left, top) = self.position.calculate_actual_position();
        let (cx, cy) = self.middle();
        let pad = self.style.padding;
        let tall = self.style.spacing.tall();
        let factor = footprint_factor(self.style.spacing, self.state);
        let level = self.metrics.level;
        let x = align_x(self.style.text_align, left, self.position.width, pad.0, level.width);
        let y: i64 = if tall {
            top + scale(self.position.height as i64, 550)
        } else {
            top + self.position.height as i64 - level.height as i64 - pad.1 as i64
        };
        TextPosition {
            x: store(if tall { move_about(cx, x, factor) } else { x }),
            y: store(if tall { move_about(cy, y, factor) } else { y }),
            max_width: Some(store(scale(level.width as i64, factor))),
            max_height: Some(store(scale(level.height as i64, factor))),
        }
    }

    /// Where the tooltip is put when the widgets are laid out again.
    pub fn laid_tooltip_place(&self) -> (place: TextPosition)
        ensures
            place == self@.laid_tooltip_position(),
    {
        let (left, top) = self.position.calculate_actual_position();
        let (cx, cy) = self.middle();
        let pad = self.style.padding;
        let tall = self.style.spacing.tall();
        let factor = footprint_factor(self.style.spacing, self.state);
        let inset: i64 = pad.0 as i64 + 10000;
        let x = tooltip_start(self.style.text_align, left, self.position.width, inset);
        let y: i64 = if tall {
            top + scale(self.position.height as i64, 680)
        } else {
            top + self.position.height as i64 - self.metrics.tooltip.height as i64 - pad.1 as i64
        };
        TextPosition {
            x: store(if tall { move_about(cx, x, factor) } else { x }),
            y: store(if tall { move_about(cy, y, factor) } else { y }),
            max_width: Some(store(scale(self.position.width as i64 - 2 * inset, factor))),
            max_height: Some(store(scale(scale(self.position.height as i64, 280), factor))),
        }
    }

    fn drawn_frame(&self) -> (out: (i64, i64, i64, i64))
        ensures
            out.0 == self@.drawn_left(),
            out.1 == self@.drawn_top(),
            out.2 == self@.drawn_width(),
            out.3 == self@.drawn_height(),
            -0x2_0000_0000 <= out.0 <= 0x2_0000_0000,
            -0x2_0000_0000 <= out.1 <= 0x2_0000_0000,
            -0x1_0000_0000 <= out.2 <= 0x1_0000_0000,
            -0x1_0000_0000 <= out.3 <= 0x1_0000_0000,
    {
        let (left, top) = self.position.calculate_actual_position();
        let factor = footprint_factor(self.style.spacing, self.state);
        let width = scale(self.position.width as i64, factor);
        let height = scale(self.position.height as i64, factor);
        (
            left - half(width - self.position.width as i64),
            top - half(height - self.position.height as i64),
            width,
            height,
        )
    }

    /// The rectangle that the widget is drawn as: its bounds, grown about
    /// their middle as its state asks, in the colour of its state.
    pub fn rectangle(&self) -> (rect: Rectangle)
        ensures
            rect == self@.drawn_rectangle(),
    {
        let (left, top, width, height) = self.drawn_frame();
        let factor = footprint_factor(self.style.spacing, self.state);
        let color = if !self.enabled {
            self.style.disabled_color
        } else {
            match self.state {
                ButtonState::Normal => self.style.background_color,
                ButtonState::Hover => self.style.hover_color,
                ButtonState::Pressed => self.style.pressed_color,
                ButtonState::Disabled => self.style.disabled_color,
            }
        };
        Rectangle::new(
            store(left),
            store(top),
            store(width),
            store(height),
            color,
        ).with_corner_radius(store(scale(self.style.corner_radius as i64, factor)))
    }

    /// The icon of a tall widget, grown with the widget.
    pub fn icon(&self) -> (icon: Icon)
        ensures
            icon@ == self@.icon(),
    {
        let (left, top, width, height) = self.drawn_frame();
        let factor = footprint_factor(self.style.spacing, self.state);
        let across: i64 = width - 2 * scale(16000, factor);
        let down: i64 = scale(height, 400);
        let side: i64 = if across <= down { across } else { down };
        Icon::new(
            store(left + half(width - side)),
            store(top + scale(height, 500)),
            store(side),
            store(side),
            String::from_str(ICON_TEXTURE),
        )
    }
}

/// However a widget grows, it is drawn about its own middle: twice the
/// middle of the drawn rectangle is twice the middle of the widget, or one
/// unit more where the growth is odd. A widget that is not tall, or is at
/// rest, is drawn as large as it is; a tall one is drawn a tenth larger
/// under the pointer and a twentieth larger when pressed.
pub proof fn lemma_growth_keeps_the_middle(b: ButtonView)
    ensures
        0 <= (2 * b.drawn_left() + b.drawn_width()) - (2 * b.left() + b.position.width) <= 1,
        0 <= (2 * b.drawn_top() + b.drawn_height()) - (2 * b.top() + b.position.height) <= 1,
        footprint_scale(b.style.spacing, b.state) == 1000 ==> b.drawn_width() == b.position.width
            && b.drawn_height() == b.position.height && b.drawn_left() == b.left()
            && b.drawn_top() == b.top(),
        b.style.spacing.is_tall() && b.state == ButtonState::Hover ==> b.drawn_width() == (
        b.position.width * 1100) / 1000 && b.drawn_height() == (b.position.height * 1100) / 1000,
        b.style.spacing.is_tall() && b.state == ButtonState::Pressed ==> b.drawn_width() == (
        b.position.width * 1050) / 1000 && b.drawn_height() == (b.position.height * 1050) / 1000,
{
}

} // verus!
