//! The upgrade menu: three tall slots side by side in a container, each
//! with a label, an icon, a secondary label and a tooltip.

use vstd::prelude::*;
use crate::button::{Button, ButtonMetrics, ButtonView};
use crate::button_manager::{
    all_visible, button_named, frame_steps, show_all, with_changed, ButtonManager,
    ButtonManagerView, DrawStep, InputEvent,
};
use crate::button_styles::{create_primary_button_style, primary_button_style};
use crate::button_types::{
    ButtonAnchor, ButtonPosition, ButtonSpacing, ButtonState, ButtonStyle, ButtonStyleView,
    TextAlign,
};
use crate::color::Color;
use crate::rectangle::Rectangle;
use crate::text::{TextArea, TextStyleView, visible_areas};
use crate::units::{
    clamped, floor_div, from_pixels, half, pixels, scale, scaled, store, stored, WindowSize,
};

verus! {

/// What a click in the upgrade menu asks for.
#[derive(Clone, Copy, Debug, PartialEq, Eq, Structural)]
pub enum UpgradeMenuAction {
    SelectUpgrade1,
    SelectUpgrade2,
    SelectUpgrade3,
    /// No click asked for anything.
    Idle,
}

/// The extents of the texts of the three slots, as the host's shaper
/// measured them.
#[derive(Clone, Copy, Debug, PartialEq, Eq, Structural)]
pub struct UpgradeMenuMetrics {
    pub first: ButtonMetrics,
    pub second: ButtonMetrics,
    pub third: ButtonMetrics,
}

impl UpgradeMenuMetrics {
    /// The metrics of slot `k`, counted from zero.
    pub open spec fn slot(self, k: int) -> ButtonMetrics {
        if k == 0 {
            self.first
        } else if k == 1 {
            self.second
        } else {
            self.third
        }
    }
}

/// The width of the container: eight tenths of the window's.
pub open spec fn container_width(window: WindowSize) -> int {
    scaled(pixels(window.width as int), 800)
}

/// The height of the container: seven tenths of the window's.
pub open spec fn container_height(window: WindowSize) -> int {
    scaled(pixels(window.height as int), 700)
}

/// The left edge of the container, which is centred in the window.
pub open spec fn container_x(window: WindowSize) -> int {
    (pixels(window.width as int) - container_width(window)) / 2
}

/// The top edge of the container.
pub open spec fn container_y(window: WindowSize) -> int {
    (pixels(window.height as int) - container_height(window)) / 2
}

/// The container: grey, with corners of twenty pixels.
pub open spec fn container_rectangle(window: WindowSize) -> Rectangle {
    Rectangle {
        x: stored(container_x(window)),
        y: stored(container_y(window)),
        width: stored(container_width(window)),
        height: stored(container_height(window)),
        color: Color { r: 102, g: 102, b: 102, a: 255 },
        corner_radius: 20000,
    }
}

/// The width of a slot: a quarter of the container's.
pub open spec fn slot_width(window: WindowSize) -> int {
    scaled(container_width(window), 250)
}

/// The gap between slots: a twentieth of the container's width.
pub open spec fn slot_gap(window: WindowSize) -> int {
    scaled(container_width(window), 50)
}

/// The left edge of slot `k`: the three slots are centred in the
/// container.
pub open spec fn slot_x(window: WindowSize, k: int) -> int {
    container_x(window) + (container_width(window) - (3 * slot_width(window) + 2 * slot_gap(
        window,
    ))) / 2 + k * (slot_width(window) + slot_gap(window))
}

/// The share of the window's height that a slot takes, in thousandths:
/// the height of the container less a tenth above and below, over the
/// height of the window; nothing for a window without height.
pub open spec fn slot_share(window: WindowSize) -> u16 {
    if window.height == 0 {
        0
    } else {
        clamped(
            (scaled(container_height(window), 800) * 1000) / pixels(window.height as int),
            0,
            65535,
        ) as u16
    }
}

/// The top edge of a slot after a resize: the slot is centred in the
/// container.
pub open spec fn slot_y(window: WindowSize) -> int {
    container_y(window) + (container_height(window) - slot_height(window)) / 2
}

/// The style of a slot: pale grey with a dark label of 32 pixels, corners
/// of twelve and padding of eight pixels, as tall as `slot_share` says.
pub open spec fn slot_style(window: WindowSize) -> ButtonStyleView {
    ButtonStyleView {
        background_color: Color { r: 200, g: 200, b: 200, a: 255 },
        hover_color: Color { r: 180, g: 180, b: 180, a: 255 },
        pressed_color: Color { r: 160, g: 160, b: 160, a: 255 },
        corner_radius: 12000,
        padding: (8000i32, 8000i32),
        text_style: TextStyleView {
            font_size: 32000,
            line_height: 48000,
            color: Color { r: 50, g: 50, b: 50, a: 255 },
            ..primary_button_style().text_style
        },
        text_align: TextAlign::Center,
        spacing: ButtonSpacing::Tall(slot_share(window)),
        ..primary_button_style()
    }
}

/// The name of slot `k`.
pub open spec fn slot_id(k: int) -> Seq<char> {
    if k == 0 {
        "upgrade_1"@
    } else if k == 1 {
        "upgrade_2"@
    } else {
        "upgrade_3"@
    }
}

/// The label of slot `k`.
pub open spec fn slot_label(k: int) -> Seq<char> {
    if k == 0 {
        "Upgrade 1"@
    } else if k == 1 {
        "Upgrade 2"@
    } else {
        "Upgrade 3"@
    }
}

/// Slot `k` as it is added: at the top of the window, its height left to
/// the manager.
pub open spec fn slot_button(window: WindowSize, k: int, metrics: ButtonMetrics) -> ButtonView {
    ButtonView {
        id: slot_id(k),
        text: slot_label(k),
        style: slot_style(window),
        position: ButtonPosition {
            x: stored(slot_x(window, k)),
            y: 0,
            width: stored(slot_width(window)),
            height: 0,
            anchor: ButtonAnchor::TopLeft,
        },
        enabled: true,
        visible: true,
        state: ButtonState::Normal,
        text_id: "button_"@ + slot_id(k),
        level_text_id: Some("level_"@ + slot_id(k)),
        tooltip_text_id: Some("tooltip_"@ + slot_id(k)),
        metrics,
    }
}

/// A manager with the container set and the three slots added and laid
/// out.
pub open spec fn layout_created(
    manager: ButtonManagerView,
    window: WindowSize,
    metrics: UpgradeMenuMetrics,
) -> ButtonManagerView {
    (ButtonManagerView { container_rect: Some(container_rectangle(window)), ..manager }).added(
        slot_button(window, 0, metrics.first),
    ).added(slot_button(window, 1, metrics.second)).added(
        slot_button(window, 2, metrics.third),
    ).positions_updated()
}

/// The height of a slot: its share of the height of the window.
pub open spec fn slot_height(window: WindowSize) -> int {
    scaled(pixels(window.height as int), slot_share(window) as int)
}

/// A slot after the window took a new size: in its place in the
/// container, as wide and as tall as the new size says.
pub open spec fn slot_renewed(b: ButtonView, window: WindowSize, k: int, metrics: ButtonMetrics) -> ButtonView {
    ButtonView {
        style: ButtonStyleView { spacing: ButtonSpacing::Tall(slot_share(window)), ..b.style },
        position: ButtonPosition {
            x: stored(slot_x(window, k)),
            y: stored(slot_y(window)),
            width: stored(slot_width(window)),
            height: stored(slot_height(window)),
            anchor: ButtonAnchor::TopLeft,
        },
        metrics,
        ..b
    }
}

/// A manager after slot `k` took its place anew.
pub open spec fn renewed(
    manager: ButtonManagerView,
    window: WindowSize,
    k: int,
    metrics: ButtonMetrics,
) -> ButtonManagerView {
    with_changed(
        manager,
        slot_id(k),
        slot_renewed(button_named(manager, slot_id(k)), window, k, metrics),
    )
}

/// A manager after the container and every slot took their places for a
/// new size of the window, and all were laid out again.
pub open spec fn layout_recreated(
    manager: ButtonManagerView,
    window: WindowSize,
    metrics: UpgradeMenuMetrics,
) -> ButtonManagerView {
    renewed(
        renewed(
            renewed(
                ButtonManagerView { container_rect: Some(container_rectangle(window)), ..manager },
                window,
                0,
                metrics.first,
            ),
            window,
            1,
            metrics.second,
        ),
        window,
        2,
        metrics.third,
    ).positions_updated()
}

/// The action that a waiting click stands for; the action that was already
/// there where the click is on none of the slots.
pub open spec fn action_after(clicked: Option<Seq<char>>, before: UpgradeMenuAction) -> UpgradeMenuAction {
    if clicked == Some("upgrade_1"@) {
        UpgradeMenuAction::SelectUpgrade1
    } else if clicked == Some("upgrade_2"@) {
        UpgradeMenuAction::SelectUpgrade2
    } else if clicked == Some("upgrade_3"@) {
        UpgradeMenuAction::SelectUpgrade3
    } else {
        before
    }
}

/// Whether a waiting click is on a slot.
pub open spec fn is_slot_click(clicked: Option<Seq<char>>) -> bool {
    clicked == Some("upgrade_1"@) || clicked == Some("upgrade_2"@) || clicked == Some(
        "upgrade_3"@,
    )
}

/// The upgrade menu.
#[derive(Debug)]
pub struct UpgradeMenu {
    pub button_manager: ButtonManager,
    pub visible: bool,
    pub last_action: UpgradeMenuAction,
}

/// An `UpgradeMenu` as sequences.
pub struct UpgradeMenuView {
    pub button_manager: ButtonManagerView,
    pub visible: bool,
    pub last_action: UpgradeMenuAction,
}

impl View for UpgradeMenu {
    type V = UpgradeMenuView;

    open spec fn view(&self) -> UpgradeMenuView {
        UpgradeMenuView {
            button_manager: self.button_manager@,
            visible: self.visible,
            last_action: self.last_action,
        }
    }
}

impl UpgradeMenuView {
    /// The menu after `show`.
    pub open spec fn shown(self) -> UpgradeMenuView {
        UpgradeMenuView {
            button_manager: (ButtonManagerView {
                buttons: all_visible(self.button_manager.buttons, true),
                ..self.button_manager
            }).states_updated(),
            visible: true,
            last_action: UpgradeMenuAction::Idle,
        }
    }

    /// The menu after `hide_menu`.
    pub open spec fn hidden(self) -> UpgradeMenuView {
        UpgradeMenuView {
            button_manager: ButtonManagerView {
                buttons: all_visible(self.button_manager.buttons, false),
                ..self.button_manager
            },
            visible: false,
            last_action: UpgradeMenuAction::Idle,
        }
    }

    /// The menu after `handle_input`. A hidden menu takes no input. A
    /// click on a slot is used up and becomes the menu's action.
    pub open spec fn handled(self, event: InputEvent) -> UpgradeMenuView {
        if !self.visible {
            self
        } else {
            let manager = self.button_manager.handled(event);
            let clicked = manager.just_clicked;
            UpgradeMenuView {
                button_manager: if is_slot_click(clicked) {
                    ButtonManagerView { just_clicked: None, ..manager }
                } else {
                    manager
                },
                last_action: action_after(clicked, self.last_action),
                ..self
            }
        }
    }

    /// The menu after `resize`: the container and every slot take their
    /// places for the new size, whether the menu is shown or not.
    pub open spec fn resized(self, width: u32, height: u32, metrics: UpgradeMenuMetrics) -> UpgradeMenuView {
        let window = WindowSize { width, height };
        UpgradeMenuView {
            button_manager: layout_recreated(
                ButtonManagerView {
                    window_size: window,
                    ..self.button_manager.resized(width, height)
                },
                window,
                metrics,
            ),
            ..self
        }
    }
}

fn frame(window: WindowSize) -> (out: (i64, i64, i64, i64))
    ensures
        out.0 == container_x(window),
        out.1 == container_y(window),
        out.2 == container_width(window),
        out.3 == container_height(window),
        0 <= out.2 <= 0x400_0000_0000,
        0 <= out.3 <= 0x400_0000_0000,
        0 <= out.0 <= 0x400_0000_0000,
        0 <= out.1 <= 0x400_0000_0000,
{
    let window_width = from_pixels(window.width);
    let window_height = from_pixels(window.height);
    let width = scale(window_width, 800);
    let height = scale(window_height, 700);
    (half(window_width - width), half(window_height - height), width, height)
}

fn container(window: WindowSize) -> (rect: Rectangle)
    ensures
        rect == container_rectangle(window),
{
    let (x, y, width, height) = frame(window);
    Rectangle::new(
        store(x),
        store(y),
        store(width),
        store(height),
        Color::rgba(102, 102, 102, 255),
    ).with_corner_radius(20000)
}

fn slot_left(window: WindowSize, k: i64) -> (out: i64)
    requires
        0 <= k <= 2,
    ensures
        out == slot_x(window, k as int),
{
    let (x, _y, width, _height) = frame(window);
    let slot = scale(width, 250);
    let gap = scale(width, 50);
    proof {
        assert(0 <= k * (slot + gap) <= 2 * (slot + gap)) by (nonlinear_arith)
            requires
                0 <= k <= 2,
                0 <= slot + gap,
        ;
    }
    x + half(width - (3 * slot + 2 * gap)) + k * (slot + gap)
}

fn slot_wide(window: WindowSize) -> (out: i64)
    ensures
        out == slot_width(window),
{
    let (_x, _y, width, _height) = frame(window);
    scale(width, 250)
}

fn share(window: WindowSize) -> (out: u16)
    ensures
        out == slot_share(window),
{
    if window.height == 0 {
        return 0;
    }
    let (_x, _y, _width, height) = frame(window);
    let inner = scale(height, 800);
    let quotient = floor_div(inner * 1000, from_pixels(window.height));
    if quotient < 0 {
        0
    } else if quotient > 65535 {
        65535
    } else {
        quotient as u16
    }
}

fn slot_top(window: WindowSize) -> (out: i64)
    ensures
        out == slot_y(window),
{
    let (_x, y, _width, height) = frame(window);
    let tall = scale(from_pixels(window.height), share(window) as i64);
    y + half(height - tall)
}

fn make_slot_style(window: WindowSize) -> (style: ButtonStyle)
    ensures
        style@ == slot_style(window),
{
    let mut style = create_primary_button_style();
    style.background_color = Color::rgb(200, 200, 200);
    style.hover_color = Color::rgb(180, 180, 180);
    style.pressed_color = Color::rgb(160, 160, 160);
    style.corner_radius = 12000;
    style.padding = (8000, 8000);
    style.text_style.font_size = 32000;
    style.text_style.line_height = 48000;
    style.text_style.color = Color::rgb(50, 50, 50);
    style.spacing = ButtonSpacing::Tall(share(window));
    style
}

fn slot_name(k: i64) -> (name: &'static str)
    ensures
        name@ == slot_id(k as int),
{
    if k == 0 {
        "upgrade_1"
    } else if k == 1 {
        "upgrade_2"
    } else {
        "upgrade_3"
    }
}

fn slot_text(k: i64) -> (label: &'static str)
    ensures
        label@ == slot_label(k as int),
{
    if k == 0 {
        "Upgrade 1"
    } else if k == 1 {
        "Upgrade 2"
    } else {
        "Upgrade 3"
    }
}

fn make_slot(window: WindowSize, k: i64, metrics: ButtonMetrics) -> (button: Button)
    requires
        0 <= k <= 2,
    ensures
        button@ == slot_button(window, k as int, metrics),
{
    Button::new(slot_name(k), slot_text(k)).with_style(make_slot_style(window)).with_text_align(
        TextAlign::Center,
    ).with_level_text().with_tooltip_text().with_position(
        ButtonPosition::new(
            store(slot_left(window, k)),
            0,
            store(slot_wide(window)),
            0,
        ).with_anchor(ButtonAnchor::TopLeft),
    ).with_metrics(metrics)
}

fn renew(manager: &mut ButtonManager, window: WindowSize, k: i64, metrics: ButtonMetrics)
    requires
        0 <= k <= 2,
    ensures
        final(manager)@ == renewed(old(manager)@, window, k as int, metrics),
{
    let left = store(slot_left(window, k));
    let top = store(slot_top(window));
    let wide = store(slot_wide(window));
    let tall = share(window);
    let high = store(scale(from_pixels(window.height), tall as i64));
    match manager.get_button_mut(slot_name(k)) {
        Some(button) => {
            button.style.spacing = ButtonSpacing::Tall(tall);
            button.position.x = left;
            button.position.y = top;
            button.position.width = wide;
            button.position.height = high;
            button.position.anchor = ButtonAnchor::TopLeft;
            button.metrics = metrics;
        },
        None => {},
    }
}

impl UpgradeMenu {
    /// A hidden menu for a window of the given size, its container set
    /// and its slots added and laid out.
    pub fn new(window_size: WindowSize, metrics: &UpgradeMenuMetrics) -> (menu: Self)
        ensures
            menu@ == (UpgradeMenuView {
                button_manager: layout_created(
                    ButtonManager::new_view(window_size),
                    window_size,
                    *metrics,
                ),
                visible: false,
                last_action: UpgradeMenuAction::Idle,
            }),
    {
        let mut button_manager = ButtonManager::new(window_size);
        Self::create_upgrade_layout(&mut button_manager, window_size, metrics);
        UpgradeMenu { button_manager, visible: false, last_action: UpgradeMenuAction::Idle }
    }

    /// Sets the container of a manager, adds the three slots and lays them
    /// out.
    pub fn create_upgrade_layout(
        button_manager: &mut ButtonManager,
        window_size: WindowSize,
        metrics: &UpgradeMenuMetrics,
    )
        ensures
            final(button_manager)@ == layout_created(
                old(button_manager)@,
                window_size,
                *metrics,
            ),
    {
        button_manager.container_rect = Some(container(window_size));
        button_manager.add_button(make_slot(window_size, 0, metrics.first));
        button_manager.add_button(make_slot(window_size, 1, metrics.second));
        button_manager.add_button(make_slot(window_size, 2, metrics.third));
        button_manager.update_button_positions();
    }

    /// Shows the menu: every slot is shown and the states are derived.
    pub fn show(&mut self)
        ensures
            final(self)@ == old(self)@.shown(),
    {
        self.visible = true;
        self.last_action = UpgradeMenuAction::Idle;
        show_all(&mut self.button_manager.buttons, true);
        self.button_manager.update_button_states();
    }

    /// Hides the menu and every slot of it.
    pub fn hide_menu(&mut self)
        ensures
            final(self)@ == old(self)@.hidden(),
    {
        self.visible = false;
        self.last_action = UpgradeMenuAction::Idle;
        show_all(&mut self.button_manager.buttons, false);
    }

    /// Whether the menu is shown.
    pub fn is_visible(&self) -> (visible: bool)
        ensures
            visible == self.visible,
    {
        self.visible
    }

    /// Takes an event of the window, where the menu is shown, and turns a
    /// click on a slot into the menu's action.
    pub fn handle_input(&mut self, event: &InputEvent)
        ensures
            final(self)@ == old(self)@.handled(*event),
    {
        if !self.visible {
            return ;
        }
        self.button_manager.handle_input(event);
        if self.button_manager.is_button_clicked("upgrade_1") {
            self.last_action = UpgradeMenuAction::SelectUpgrade1;
        }
        if self.button_manager.is_button_clicked("upgrade_2") {
            self.last_action = UpgradeMenuAction::SelectUpgrade2;
        }
        if self.button_manager.is_button_clicked("upgrade_3") {
            self.last_action = UpgradeMenuAction::SelectUpgrade3;
        }
    }

    /// The action that the last click asked for. It is handed out once:
    /// afterwards there is none until the next click.
    pub fn get_last_action(&mut self) -> (action: UpgradeMenuAction)
        ensures
            action == old(self).last_action,
            final(self)@ == (UpgradeMenuView {
                last_action: UpgradeMenuAction::Idle,
                ..old(self)@
            }),
    {
        let action = self.last_action;
        self.last_action = UpgradeMenuAction::Idle;
        action
    }

    /// Takes a new size of the window, in pixels: the container and every
    /// slot take their places and sizes from that size alone, whether the
    /// menu is shown or not.
    pub fn resize(&mut self, width: u32, height: u32, metrics: &UpgradeMenuMetrics)
        ensures
            final(self)@ == old(self)@.resized(width, height, *metrics),
    {
        self.button_manager.resize(width, height);
        self.button_manager.window_size = WindowSize { width, height };
        self.recreate_layout_for_new_size(metrics);
    }

    /// Puts the container and every slot in their places for the size of
    /// the window that the manager holds.
    pub fn recreate_layout_for_new_size(&mut self, metrics: &UpgradeMenuMetrics)
        ensures
            final(self)@ == (UpgradeMenuView {
                button_manager: layout_recreated(
                    old(self)@.button_manager,
                    old(self).button_manager.window_size,
                    *metrics,
                ),
                ..old(self)@
            }),
    {
        let window = self.button_manager.window_size;
        self.button_manager.container_rect = Some(container(window));
        renew(&mut self.button_manager, window, 0, metrics.first);
        renew(&mut self.button_manager, window, 1, metrics.second);
        renew(&mut self.button_manager, window, 2, metrics.third);
        self.button_manager.update_button_positions();
    }

    /// The text areas to hand to the glyph renderer.
    pub fn prepare(&self) -> (areas: Vec<TextArea>)
        ensures
            areas@ == visible_areas(
                self@.button_manager.text_renderer.text_buffers,
                self.button_manager.text_renderer.window_size,
                self@.button_manager.text_renderer.text_buffers.len() as int,
            ),
    {
        self.button_manager.prepare()
    }

    /// Prepares a frame of the menu.
    pub fn render(&mut self) -> (steps: Vec<DrawStep>)
        ensures
            final(self)@ == (UpgradeMenuView {
                button_manager: old(self)@.button_manager.rendered(),
                ..old(self)@
            }),
            steps@ == frame_steps(
                old(self)@.button_manager.queued().draw(),
                old(self)@.button_manager.icon_renderer.draws(),
            ),
    {
        self.button_manager.render()
    }
}

} // verus!
