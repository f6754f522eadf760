//! The pause menu: five stacked widgets in the middle of the window and a
//! small one in the lower left corner, and the actions their clicks stand
//! for.

use vstd::prelude::*;
use crate::button::{Button, ButtonMetrics, ButtonView};
use crate::button_manager::{
    all_visible, button_named, frame_steps, show_all, with_changed, ButtonManager,
    ButtonManagerView, DrawStep, InputEvent,
};
use crate::button_styles::{
    create_danger_button_style, create_goldenrod_button_style, create_lobby_button_style,
    create_primary_button_style, create_warning_button_style, danger_button_style,
    primary_button_style, warning_button_style,
};
use crate::button_types::{
    ButtonAnchor, ButtonPosition, ButtonSpacing, ButtonState, ButtonStyle, ButtonStyleView,
    TextAlign,
};
use crate::color::Color;
use crate::text::{Slant, TextArea, TextStyle, TextStyleView, visible_areas};
use crate::units::{
    clamped, confine, dpi_scale, dpi_scale_of, from_pixels, half, larger, pixels, scale, scaled, store,
    stored, WindowSize,
};

verus! {

/// What a click in the pause menu asks for.
#[derive(Clone, Copy, Debug, PartialEq, Eq, Structural)]
pub enum PauseMenuAction {
    Resume,
    Settings,
    Restart,
    QuitToMenu,
    ToggleTestMode,
    /// No click asked for anything.
    Idle,
}

/// The extents of the texts of the widgets of the pause menu, as the
/// host's shaper measured them.
#[derive(Clone, Copy, Debug, PartialEq, Eq, Structural)]
pub struct PauseMenuMetrics {
    pub resume: ButtonMetrics,
    pub settings: ButtonMetrics,
    pub toggle_test_mode: ButtonMetrics,
    pub restart: ButtonMetrics,
    pub quit_menu: ButtonMetrics,
    pub debug: ButtonMetrics,
}

/// The width of a stacked widget: 38 hundredths of the window's width
/// times the scale of the interface, between 180 and 600 pixels.
pub open spec fn menu_button_width(window: WindowSize) -> int {
    clamped(
        scaled(scaled(pixels(window.width as int), 380), dpi_scale_of(window.height as int)),
        180000,
        600000,
    )
}

/// The height of a stacked widget: 9 hundredths of the window's height
/// times the scale of the interface, between 32 and 140 pixels.
pub open spec fn menu_button_height(window: WindowSize) -> int {
    clamped(
        scaled(scaled(pixels(window.height as int), 90), dpi_scale_of(window.height as int)),
        32000,
        140000,
    )
}

/// The gap between stacked widgets: 15 thousandths of the window's height
/// times the scale of the interface, between 2 and 24 pixels.
pub open spec fn menu_button_gap(window: WindowSize) -> int {
    clamped(
        scaled(scaled(pixels(window.height as int), 15), dpi_scale_of(window.height as int)),
        2000,
        24000,
    )
}

/// Where the stack starts: it is centred in the window.
pub open spec fn menu_start_y(window: WindowSize) -> int {
    (pixels(window.height as int) - (5 * menu_button_height(window) + 4 * menu_button_gap(
        window,
    ))) / 2
}

/// The position of the `k`-th stacked widget, anchored at its centre.
pub open spec fn menu_slot(window: WindowSize, k: int) -> ButtonPosition {
    ButtonPosition {
        x: stored(pixels(window.width as int) / 2),
        y: stored(
            menu_start_y(window) + menu_button_height(window) / 2 + k * (menu_button_height(
                window,
            ) + menu_button_gap(window)),
        ),
        width: stored(menu_button_width(window)),
        height: stored(menu_button_height(window)),
        anchor: ButtonAnchor::Center,
    }
}

/// The label style of the menu: 32 pixels with lines of 40 at a height of
/// 1080, scaled with the interface, between 16 and 48 and between 24 and
/// 60 pixels.
pub open spec fn menu_text_style(window_height: u32) -> TextStyleView {
    TextStyleView {
        font_family: "HankenGrotesk"@,
        font_size: clamped(scaled(32000, dpi_scale_of(window_height as int)), 16000, 48000) as i32,
        line_height: clamped(
            scaled(40000, dpi_scale_of(window_height as int)),
            24000,
            60000,
        ) as i32,
        color: Color { r: 255, g: 255, b: 255, a: 255 },
        weight: 500,
        style: Slant::Normal,
    }
}

/// A stacked widget of the menu.
pub open spec fn menu_button(
    id: Seq<char>,
    label: Seq<char>,
    style: ButtonStyleView,
    window: WindowSize,
    k: int,
    metrics: ButtonMetrics,
) -> ButtonView {
    ButtonView {
        id,
        text: label,
        style: ButtonStyleView {
            text_style: menu_text_style(window.height),
            text_align: TextAlign::Center,
            ..style
        },
        position: menu_slot(window, k),
        enabled: true,
        visible: true,
        state: ButtonState::Normal,
        text_id: "button_"@ + id,
        level_text_id: None,
        tooltip_text_id: None,
        metrics,
    }
}

/// The style of the small widget: the warning style at half the size of the
/// menu's labels, fitting its label.
pub open spec fn debug_style(window: WindowSize) -> ButtonStyleView {
    let base = menu_text_style(window.height);
    let factor = dpi_scale_of(window.height as int);
    ButtonStyleView {
        padding: (stored(scaled(2000, factor)), stored(scaled(6000, factor))),
        spacing: ButtonSpacing::Wrap,
        text_align: TextAlign::Center,
        text_style: TextStyleView {
            font_size: stored(scaled(base.font_size as int, 500)),
            line_height: stored(scaled(base.line_height as int, 500)),
            ..warning_button_style().text_style
        },
        ..warning_button_style()
    }
}

/// The side of the small widget: the larger extent of its label and its
/// vertical padding twice.
pub open spec fn debug_side(metrics: ButtonMetrics, padding: i32) -> int {
    larger(metrics.label.width as int, metrics.label.height as int) + 2 * padding
}

/// The position of the small widget: 60 pixels from the left and 16 from
/// the bottom of the window.
pub open spec fn debug_slot(window: WindowSize, side: int) -> ButtonPosition {
    ButtonPosition {
        x: 60000,
        y: stored(pixels(window.height as int) - side - 16000),
        width: stored(side),
        height: stored(side),
        anchor: ButtonAnchor::TopLeft,
    }
}

/// The small widget of the menu.
pub open spec fn debug_button(window: WindowSize, metrics: ButtonMetrics) -> ButtonView {
    ButtonView {
        id: "debug"@,
        text: " Show\nDebug\n  Info"@,
        style: debug_style(window),
        position: debug_slot(window, debug_side(metrics, debug_style(window).padding.1)),
        enabled: true,
        visible: true,
        state: ButtonState::Normal,
        text_id: "button_"@ + "debug"@,
        level_text_id: None,
        tooltip_text_id: None,
        metrics,
    }
}

/// A manager with the widgets of the menu added and laid out.
pub open spec fn menu_created(
    manager: ButtonManagerView,
    window: WindowSize,
    metrics: PauseMenuMetrics,
) -> ButtonManagerView {
    manager.added(
        menu_button("resume"@, "Resume Game"@, primary_button_style(), window, 0, metrics.resume),
    ).added(
        menu_button("settings"@, "Restart Run"@, warning_button_style(), window, 1, metrics.settings),
    ).added(
        menu_button(
            "toggle_test_mode"@,
            "Toggle Test Mode"@,
            warning_button_style(),
            window,
            2,
            metrics.toggle_test_mode,
        ),
    ).added(
        menu_button("restart"@, "Quit to Lobby"@, danger_button_style(), window, 3, metrics.restart),
    ).added(
        menu_button("quit_menu"@, "Quit App"@, danger_button_style(), window, 4, metrics.quit_menu),
    ).added(debug_button(window, metrics.debug)).positions_updated()
}

/// A stacked widget after the window took a new size: in its slot, with
/// the label style of that size. A style or a label that is given takes the
/// place of the widget's own.
pub open spec fn slot_renewed(
    b: ButtonView,
    window: WindowSize,
    k: int,
    style: Option<ButtonStyleView>,
    label: Option<Seq<char>>,
    metrics: ButtonMetrics,
) -> ButtonView {
    let base = match style {
        Some(s) => s,
        None => b.style,
    };
    ButtonView {
        text: match label {
            Some(l) => l,
            None => b.text,
        },
        style: ButtonStyleView { text_style: menu_text_style(window.height), ..base },
        position: menu_slot(window, k),
        metrics,
        ..b
    }
}

/// A manager after the stacked widget named `id` took its slot anew.
pub open spec fn renewed(
    manager: ButtonManagerView,
    id: Seq<char>,
    window: WindowSize,
    k: int,
    style: Option<ButtonStyleView>,
    label: Option<Seq<char>>,
    metrics: ButtonMetrics,
) -> ButtonManagerView {
    with_changed(
        manager,
        id,
        slot_renewed(button_named(manager, id), window, k, style, label, metrics),
    )
}

/// The small widget after the window took a new size: it fits its label
/// and stands in its corner.
pub open spec fn debug_renewed(b: ButtonView, window: WindowSize, metrics: ButtonMetrics) -> ButtonView {
    ButtonView {
        style: ButtonStyleView { spacing: ButtonSpacing::Wrap, ..b.style },
        position: debug_slot(window, debug_side(metrics, b.style.padding.1)),
        metrics,
        ..b
    }
}

/// A manager after every widget of the menu took its place for a new size
/// of the window, and all were laid out again.
pub open spec fn menu_recreated(
    manager: ButtonManagerView,
    window: WindowSize,
    metrics: PauseMenuMetrics,
) -> ButtonManagerView {
    let resume = renewed(manager, "resume"@, window, 0, None, None, metrics.resume);
    let settings = renewed(
        resume,
        "settings"@,
        window,
        1,
        Some(warning_button_style()),
        Some("Restart Run"@),
        metrics.settings,
    );
    let toggle = renewed(
        settings,
        "toggle_test_mode"@,
        window,
        2,
        Some(warning_button_style()),
        Some("Toggle Test Mode"@),
        metrics.toggle_test_mode,
    );
    let restart = renewed(
        toggle,
        "restart"@,
        window,
        3,
        Some(danger_button_style()),
        Some("Quit to Lobby"@),
        metrics.restart,
    );
    let quit = renewed(
        restart,
        "quit_menu"@,
        window,
        4,
        Some(danger_button_style()),
        None,
        metrics.quit_menu,
    );
    with_changed(
        quit,
        "debug"@,
        debug_renewed(button_named(quit, "debug"@), window, metrics.debug),
    ).positions_updated()
}

/// The label of the widget that toggles the test mode.
pub open spec fn test_mode_label(is_test_mode: bool) -> Seq<char> {
    if is_test_mode {
        "Exit Test Mode"@
    } else {
        "Enter Test Mode"@
    }
}

/// A manager with the label of the widget that toggles the test mode set.
pub open spec fn test_mode_labelled(manager: ButtonManagerView, is_test_mode: bool) -> ButtonManagerView {
    with_changed(
        manager,
        "toggle_test_mode"@,
        ButtonView {
            text: test_mode_label(is_test_mode),
            ..button_named(manager, "toggle_test_mode"@)
        },
    )
}

/// The action that a waiting click stands for; the action that was already
/// there where the click is on none of the five stacked widgets.
pub open spec fn action_after(clicked: Option<Seq<char>>, before: PauseMenuAction) -> PauseMenuAction {
    if clicked == Some("resume"@) {
        PauseMenuAction::Resume
    } else if clicked == Some("settings"@) {
        PauseMenuAction::Settings
    } else if clicked == Some("restart"@) {
        PauseMenuAction::Restart
    } else if clicked == Some("quit_menu"@) {
        PauseMenuAction::QuitToMenu
    } else if clicked == Some("toggle_test_mode"@) {
        PauseMenuAction::ToggleTestMode
    } else {
        before
    }
}

/// Whether a waiting click is on a widget of the menu.
pub open spec fn is_menu_click(clicked: Option<Seq<char>>) -> bool {
    clicked == Some("resume"@) || clicked == Some("settings"@) || clicked == Some("restart"@)
        || clicked == Some("quit_menu"@) || clicked == Some("toggle_test_mode"@) || clicked
        == Some("debug"@)
}

/// Whether a waiting click is on the small widget and on none of the five.
pub open spec fn is_debug_click(clicked: Option<Seq<char>>) -> bool {
    clicked == Some("debug"@) && clicked != Some("resume"@) && clicked != Some("settings"@)
        && clicked != Some("restart"@) && clicked != Some("quit_menu"@) && clicked != Some(
        "toggle_test_mode"@,
    )
}

/// The pause menu.
#[derive(Debug)]
pub struct PauseMenu {
    pub button_manager: ButtonManager,
    pub visible: bool,
    pub last_action: PauseMenuAction,
    pub show_debug_panel: bool,
}

/// A `PauseMenu` as sequences.
pub struct PauseMenuView {
    pub button_manager: ButtonManagerView,
    pub visible: bool,
    pub last_action: PauseMenuAction,
    pub show_debug_panel: bool,
}

impl View for PauseMenu {
    type V = PauseMenuView;

    open spec fn view(&self) -> PauseMenuView {
        PauseMenuView {
            button_manager: self.button_manager@,
            visible: self.visible,
            last_action: self.last_action,
            show_debug_panel: self.show_debug_panel,
        }
    }
}

impl PauseMenuView {
    /// The menu after `show`.
    pub open spec fn shown(self, is_test_mode: bool) -> PauseMenuView {
        PauseMenuView {
            button_manager: test_mode_labelled(
                (ButtonManagerView {
                    buttons: all_visible(self.button_manager.buttons, true),
                    ..self.button_manager
                }).states_updated(),
                is_test_mode,
            ),
            visible: true,
            last_action: PauseMenuAction::Idle,
            ..self
        }
    }

    /// The menu after `hide`.
    pub open spec fn hidden(self) -> PauseMenuView {
        PauseMenuView {
            button_manager: ButtonManagerView {
                buttons: all_visible(self.button_manager.buttons, false),
                ..self.button_manager
            },
            visible: false,
            last_action: PauseMenuAction::Idle,
            ..self
        }
    }

    /// The menu after `handle_input`. A hidden menu takes no input. A
    /// click on a widget of the menu is used up and becomes the menu's
    /// action, or toggles the debug panel.
    pub open spec fn handled(self, event: InputEvent) -> PauseMenuView {
        if !self.visible {
            self
        } else {
            let manager = self.button_manager.handled(event);
            let clicked = manager.just_clicked;
            PauseMenuView {
                button_manager: if is_menu_click(clicked) {
                    ButtonManagerView { just_clicked: None, ..manager }
                } else {
                    manager
                },
                last_action: action_after(clicked, self.last_action),
                show_debug_panel: if is_debug_click(clicked) {
                    !self.show_debug_panel
                } else {
                    self.show_debug_panel
                },
                ..self
            }
        }
    }

    /// The menu after `resize`.
    pub open spec fn resized(self, width: u32, height: u32, metrics: PauseMenuMetrics) -> PauseMenuView {
        let window = WindowSize { width, height };
        PauseMenuView {
            button_manager: menu_recreated(
                ButtonManagerView {
                    window_size: window,
                    ..self.button_manager.resized(width, height)
                },
                window,
                metrics,
            ),
            ..self
        }
    }
}

fn button_width(window: WindowSize) -> (out: i64)
    ensures
        out == menu_button_width(window),
        180000 <= out <= 600000,
{
    let factor = dpi_scale(window.height);
    confine(scale(scale(from_pixels(window.width), 380), factor), 180000, 600000)
}

fn button_height(window: WindowSize) -> (out: i64)
    ensures
        out == menu_button_height(window),
        32000 <= out <= 140000,
{
    let factor = dpi_scale(window.height);
    confine(scale(scale(from_pixels(window.height), 90), factor), 32000, 140000)
}

fn button_gap(window: WindowSize) -> (out: i64)
    ensures
        out == menu_button_gap(window),
        2000 <= out <= 24000,
{
    let factor = dpi_scale(window.height);
    confine(scale(scale(from_pixels(window.height), 15), factor), 2000, 24000)
}

fn slot(window: WindowSize, k: i64) -> (out: ButtonPosition)
    requires
        0 <= k <= 4,
    ensures
        out == menu_slot(window, k as int),
{
    let height = button_height(window);
    let gap = button_gap(window);
    let start = half(from_pixels(window.height) - (5 * height + 4 * gap));
    proof {
        assert(0 <= k * (height + gap) <= 4 * (height + gap)) by (nonlinear_arith)
            requires
                0 <= k <= 4,
                0 <= height + gap,
        ;
    }
    ButtonPosition {
        x: store(half(from_pixels(window.width))),
        y: store(start + half(height) + k * (height + gap)),
        width: store(button_width(window)),
        height: store(height),
        anchor: ButtonAnchor::Center,
    }
}

fn side_of(metrics: ButtonMetrics, padding: i32) -> (out: i64)
    ensures
        out == debug_side(metrics, padding),
        -0x2_0000_0000 <= out <= 0x2_0000_0000,
{
    let extent: i64 = if metrics.label.width >= metrics.label.height {
        metrics.label.width as i64
    } else {
        metrics.label.height as i64
    };
    extent + 2 * padding as i64
}

fn corner_slot(window: WindowSize, side: i64) -> (out: ButtonPosition)
    requires
        -0x2_0000_0000 <= side <= 0x2_0000_0000,
    ensures
        out == debug_slot(window, side as int),
{
    ButtonPosition {
        x: 60000,
        y: store(from_pixels(window.height) - side - 16000),
        width: store(side),
        height: store(side),
        anchor: ButtonAnchor::TopLeft,
    }
}

fn make_menu_button(
    id: &str,
    label: &str,
    style: ButtonStyle,
    window: WindowSize,
    k: i64,
    metrics: ButtonMetrics,
) -> (button: Button)
    requires
        0 <= k <= 4,
    ensures
        button@ == menu_button(id@, label@, style@, window, k as int, metrics),
{
    let mut style = style;
    style.text_style = PauseMenu::scaled_text_style(window.height);
    Button::new(id, label).with_style(style).with_text_align(TextAlign::Center).with_position(
        slot(window, k),
    ).with_metrics(metrics)
}

fn make_debug_button(window: WindowSize, metrics: ButtonMetrics) -> (button: Button)
    ensures
        button@ == debug_button(window, metrics),
{
    let factor = dpi_scale(window.height);
    let base = PauseMenu::scaled_text_style(window.height);
    let mut style = create_warning_button_style();
    style.text_style.font_size = store(scale(base.font_size as i64, 500));
    style.text_style.line_height = store(scale(base.line_height as i64, 500));
    style.padding = (store(scale(2000, factor)), store(scale(6000, factor)));
    style.spacing = ButtonSpacing::Wrap;
    let side = side_of(metrics, style.padding.1);
    Button::new("debug", " Show\nDebug\n  Info").with_style(style).with_text_align(
        TextAlign::Center,
    ).with_position(corner_slot(window, side)).with_metrics(metrics)
}

fn renew(
    manager: &mut ButtonManager,
    id: &str,
    window: WindowSize,
    k: i64,
    style: Option<ButtonStyle>,
    label: Option<&str>,
    metrics: ButtonMetrics,
)
    requires
        0 <= k <= 4,
    ensures
        final(manager)@ == renewed(
            old(manager)@,
            id@,
            window,
            k as int,
            match style {
                Some(s) => Some(s@),
                None => None,
            },
            match label {
                Some(l) => Some(l@),
                None => None,
            },
            metrics,
        ),
{
    let text_style = PauseMenu::scaled_text_style(window.height);
    let place = slot(window, k);
    match manager.get_button_mut(id) {
        Some(button) => {
            match label {
                Some(l) => {
                    button.text = String::from_str(l);
                },
                None => {},
            }
            match style {
                Some(s) => {
                    button.style = s;
                },
                None => {},
            }
            button.style.text_style = text_style;
            button.position = place;
            button.metrics = metrics;
        },
        None => {},
    }
}

fn renew_debug(manager: &mut ButtonManager, window: WindowSize, metrics: ButtonMetrics)
    ensures
        final(manager)@ == with_changed(
            old(manager)@,
            "debug"@,
            debug_renewed(button_named(old(manager)@, "debug"@), window, metrics),
        ),
{
    match manager.get_button_mut("debug") {
        Some(button) => {
            button.style.spacing = ButtonSpacing::Wrap;
            let side = side_of(metrics, button.style.padding.1);
            button.position = corner_slot(window, side);
            button.metrics = metrics;
        },
        None => {},
    }
}

impl PauseMenu {
    /// A hidden menu for a window of the given size, its widgets added and
    /// laid out.
    pub fn new(window_size: WindowSize, metrics: &PauseMenuMetrics) -> (menu: Self)
        ensures
            menu@ == (PauseMenuView {
                button_manager: menu_created(
                    ButtonManager::new_view(window_size),
                    window_size,
                    *metrics,
                ),
                visible: false,
                last_action: PauseMenuAction::Idle,
                show_debug_panel: false,
            }),
    {
        let mut button_manager = ButtonManager::new(window_size);
        Self::create_menu_buttons(&mut button_manager, window_size, metrics);
        PauseMenu {
            button_manager,
            visible: false,
            last_action: PauseMenuAction::Idle,
            show_debug_panel: false,
        }
    }

    /// The label style of the menu for a window of the given height in
    /// pixels.
    pub fn scaled_text_style(window_height: u32) -> (style: TextStyle)
        ensures
            style@ == menu_text_style(window_height),
    {
        let factor = dpi_scale(window_height);
        let primary = create_primary_button_style();
        TextStyle {
            font_family: String::from_str("HankenGrotesk"),
            font_size: confine(scale(32000, factor), 16000, 48000) as i32,
            line_height: confine(scale(40000, factor), 24000, 60000) as i32,
            color: primary.text_style.color,
            weight: 500,
            style: Slant::Normal,
        }
    }

    /// Adds the widgets of the menu to a manager and lays them out.
    pub fn create_menu_buttons(
        button_manager: &mut ButtonManager,
        window_size: WindowSize,
        metrics: &PauseMenuMetrics,
    )
        ensures
            final(button_manager)@ == menu_created(old(button_manager)@, window_size, *metrics),
    {
        button_manager.add_button(
            make_menu_button(
                "resume",
                "Resume Game",
                create_primary_button_style(),
                window_size,
                0,
                metrics.resume,
            ),
        );
        button_manager.add_button(
            make_menu_button(
                "settings",
                "Restart Run",
                create_goldenrod_button_style(),
                window_size,
                1,
                metrics.settings,
            ),
        );
        button_manager.add_button(
            make_menu_button(
                "toggle_test_mode",
                "Toggle Test Mode",
                create_goldenrod_button_style(),
                window_size,
                2,
                metrics.toggle_test_mode,
            ),
        );
        button_manager.add_button(
            make_menu_button(
                "restart",
                "Quit to Lobby",
                create_lobby_button_style(),
                window_size,
                3,
                metrics.restart,
            ),
        );
        button_manager.add_button(
            make_menu_button(
                "quit_menu",
                "Quit App",
                create_danger_button_style(),
                window_size,
                4,
                metrics.quit_menu,
            ),
        );
        button_manager.add_button(make_debug_button(window_size, metrics.debug));
        button_manager.update_button_positions();
    }

    /// Shows the menu: every widget is shown, the states are derived, and
    /// the widget that toggles the test mode is labelled for the mode.
    pub fn show(&mut self, is_test_mode: bool)
        ensures
            final(self)@ == old(self)@.shown(is_test_mode),
    {
        self.visible = true;
        self.last_action = PauseMenuAction::Idle;
        show_all(&mut self.button_manager.buttons, true);
        self.button_manager.update_button_states();
        self.update_test_mode_button_text(is_test_mode);
    }

    /// Hides the menu and every widget of it.
    pub fn hide_menu(&mut self)
        ensures
            final(self)@ == old(self)@.hidden(),
    {
        self.visible = false;
        self.last_action = PauseMenuAction::Idle;
        show_all(&mut self.button_manager.buttons, false);
    }

    /// Whether the menu is shown.
    pub fn is_visible(&self) -> (visible: bool)
        ensures
            visible == self.visible,
    {
        self.visible
    }

    /// Takes an event of the window, where the menu is shown, and turns a
    /// click on one of its widgets into the menu's action.
    pub fn handle_input(&mut self, event: &InputEvent)
        ensures
            final(self)@ == old(self)@.handled(*event),
    {
        if !self.visible {
            return ;
        }
        self.button_manager.handle_input(event);
        if self.button_manager.is_button_clicked("resume") {
            self.last_action = PauseMenuAction::Resume;
        }
        if self.button_manager.is_button_clicked("settings") {
            self.last_action = PauseMenuAction::Settings;
        }
        if self.button_manager.is_button_clicked("restart") {
            self.last_action = PauseMenuAction::Restart;
        }
        if self.button_manager.is_button_clicked("quit_menu") {
            self.last_action = PauseMenuAction::QuitToMenu;
        }
        if self.button_manager.is_button_clicked("toggle_test_mode") {
            self.last_action = PauseMenuAction::ToggleTestMode;
        }
        if self.button_manager.is_button_clicked("debug") {
            self.show_debug_panel = !self.show_debug_panel;
        }
    }

    /// The action that the last click asked for. It is handed out once:
    /// afterwards there is none until the next click.
    pub fn get_last_action(&mut self) -> (action: PauseMenuAction)
        ensures
            action == old(self).last_action,
            final(self)@ == (PauseMenuView { last_action: PauseMenuAction::Idle, ..old(self)@ }),
    {
        let action = self.last_action;
        self.last_action = PauseMenuAction::Idle;
        action
    }

    /// Takes a new size of the window, in pixels: every widget takes its
    /// place and size from that size alone, whether the menu is shown or
    /// not.
    pub fn resize(&mut self, width: u32, height: u32, metrics: &PauseMenuMetrics)
        ensures
            final(self)@ == old(self)@.resized(width, height, *metrics),
    {
        self.button_manager.resize(width, height);
        self.button_manager.window_size = WindowSize { width, height };
        self.recreate_buttons_for_new_size(metrics);
    }

    /// Puts every widget in its place for the size of the window that the
    /// manager holds.
    pub fn recreate_buttons_for_new_size(&mut self, metrics: &PauseMenuMetrics)
        ensures
            final(self)@ == (PauseMenuView {
                button_manager: menu_recreated(
                    old(self)@.button_manager,
                    old(self).button_manager.window_size,
                    *metrics,
                ),
                ..old(self)@
            }),
    {
        let window = self.button_manager.window_size;
        renew(&mut self.button_manager, "resume", window, 0, None, None, metrics.resume);
        renew(
            &mut self.button_manager,
            "settings",
            window,
            1,
            Some(create_goldenrod_button_style()),
            Some("Restart Run"),
            metrics.settings,
        );
        renew(
            &mut self.button_manager,
            "toggle_test_mode",
            window,
            2,
            Some(create_goldenrod_button_style()),
            Some("Toggle Test Mode"),
            metrics.toggle_test_mode,
        );
        renew(
            &mut self.button_manager,
            "restart",
            window,
            3,
            Some(create_lobby_button_style()),
            Some("Quit to Lobby"),
            metrics.restart,
        );
        renew(
            &mut self.button_manager,
            "quit_menu",
            window,
            4,
            Some(create_danger_button_style()),
            None,
            metrics.quit_menu,
        );
        renew_debug(&mut self.button_manager, window, metrics.debug);
        self.button_manager.update_button_positions();
    }

    /// The text areas to hand to the glyph renderer.
    pub fn prepare(&self) -> (areas: Vec<TextArea>)
        ensures
            areas@ == visible_areas(
                self@.button_manager.text_renderer.text_buffers,
                self.button_manager.text_renderer.window_size,
                self@.button_manager.text_renderer.text_buffers.len() as int,
            ),
    {
        self.button_manager.prepare()
    }

    /// Prepares a frame of the menu.
    pub fn render(&mut self) -> (steps: Vec<DrawStep>)
        ensures
            final(self)@ == (PauseMenuView {
                button_manager: old(self)@.button_manager.rendered(),
                ..old(self)@
            }),
            steps@ == frame_steps(
                old(self)@.button_manager.queued().draw(),
                old(self)@.button_manager.icon_renderer.draws(),
            ),
    {
        self.button_manager.render()
    }

    /// Whether the debug panel is to be shown.
    pub fn is_debug_panel_visible(&self) -> (visible: bool)
        ensures
            visible == self.show_debug_panel,
    {
        self.show_debug_panel
    }

    /// Labels the widget that toggles the test mode for the mode.
    pub fn update_test_mode_button_text(&mut self, is_test_mode: bool)
        ensures
            final(self)@ == (PauseMenuView {
                button_manager: test_mode_labelled(old(self)@.button_manager, is_test_mode),
                ..old(self)@
            }),
    {
        match self.button_manager.get_button_mut("toggle_test_mode") {
            Some(button) => {
                if is_test_mode {
                    button.text = String::from_str("Exit Test Mode");
                } else {
                    button.text = String::from_str("Enter Test Mode");
                }
            },
            None => {},
        }
    }
}

} // verus!
