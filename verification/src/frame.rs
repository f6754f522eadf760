//! What a frame shows besides the widgets: the tint behind a menu, the
//! dashed line and the line of text of the debug panel, and which menu is
//! open on which screen.

use vstd::prelude::*;
use crate::color::Color;
use crate::game::{CurrentScreen, GameState};
use crate::pause_menu::{PauseMenu, PauseMenuView};
use crate::rectangle::{Rectangle, RectangleRendererView};
use crate::text::{Slant, TextPosition, TextRenderer, TextRendererView, TextStyle, TextStyleView};
use crate::units::{from_pixels, half, pixels, store, stored};
use crate::upgrade_menu::{UpgradeMenu, UpgradeMenuView};

verus! {

/// The tint that is drawn over the game behind the pause menu: the whole
/// window in a dark, nearly opaque grey.
pub open spec fn overlay_tint(width: u32, height: u32) -> Rectangle {
    Rectangle {
        x: 0,
        y: 0,
        width: stored(pixels(width as int)),
        height: stored(pixels(height as int)),
        color: Color { r: 20, g: 23, b: 28, a: 224 },
        corner_radius: 0,
    }
}

/// The tint that is drawn over the game behind the pause menu.
pub fn overlay_rectangle(width: u32, height: u32) -> (rect: Rectangle)
    ensures
        rect == overlay_tint(width, height),
{
    Rectangle::new(
        0,
        0,
        store(from_pixels(width)),
        store(from_pixels(height)),
        Color::rgba(20, 23, 28, 224),
    )
}

/// The number of dashes of the centre line in a window of the given
/// height: one for every 28 pixels begun.
pub open spec fn dash_count(height: u32) -> int {
    (pixels(height as int) + 27999) / 28000
}

/// Dash `k` of the centre line: three pixels wide about the middle of the
/// window, sixteen pixels high or as high as the window leaves room,
/// twelve pixels below the dash before it.
pub open spec fn dash(width: u32, height: u32, k: int) -> Rectangle {
    let top = 28000 * k;
    let room = pixels(height as int) - top;
    Rectangle {
        x: stored(pixels(width as int) / 2 - 1500),
        y: stored(top),
        width: 3000,
        height: stored(if room < 16000 { room } else { 16000 }),
        color: Color { r: 26, g: 255, b: 26, a: 217 },
        corner_radius: 0,
    }
}

/// The dashes of the centre line, from the top of the window down.
pub open spec fn center_line(width: u32, height: u32) -> Seq<Rectangle> {
    Seq::new(dash_count(height) as nat, |k: int| dash(width, height, k))
}

/// The dashes of the line that the debug panel draws down the middle of
/// the window.
pub fn center_line_dashes(width: u32, height: u32) -> (dashes: Vec<Rectangle>)
    ensures
        dashes@ == center_line(width, height),
{
    let total = from_pixels(height);
    let left = store(half(from_pixels(width)) - 1500);
    let mut dashes: Vec<Rectangle> = Vec::new();
    let mut top: i64 = 0;
    while top < total
        invariant
            total == pixels(height as int),
            left == stored(pixels(width as int) / 2 - 1500),
            top == 28000 * dashes.len(),
            top < total + 28000,
            dashes.len() <= dash_count(height),
            dashes@ =~= Seq::new(dashes.len() as nat, |k: int| dash(width, height, k)),
        decreases total + 28000 - top,
    {
        let room = total - top;
        dashes.push(
            Rectangle::new(
                left,
                store(top),
                3000,
                store(if room < 16000 { room } else { 16000 }),
                Color::rgba(26, 255, 26, 217),
            ),
        );
        top = top + 28000;
    }
    assert(dashes.len() == dash_count(height));
    dashes
}

/// The style of the line of the debug panel: 22 pixels, bold, red.
pub open spec fn debug_info_style() -> TextStyleView {
    TextStyleView {
        font_family: "HankenGrotesk"@,
        font_size: 22000,
        line_height: 26000,
        color: Color { r: 220, g: 40, b: 40, a: 255 },
        weight: 700,
        style: Slant::Normal,
    }
}

/// Where the line of the debug panel stands: in a box of 400 by 40 pixels
/// that ends twenty pixels from the right edge of the window, twenty from
/// the top.
pub open spec fn debug_info_position(width: u32) -> TextPosition {
    TextPosition {
        x: stored(pixels(width as int) - 420000),
        y: 20000,
        max_width: Some(400000),
        max_height: Some(40000),
    }
}

/// The engine after `update_debug_info`.
pub open spec fn debug_info_updated(
    text: TextRendererView,
    visible: bool,
    width: u32,
    line: Seq<char>,
) -> TextRendererView {
    if visible {
        text.created(
            "debug_info"@,
            line,
            Some(debug_info_style()),
            Some(debug_info_position(width)),
        )
    } else {
        text.with_visibility("debug_info"@, false)
    }
}

/// Puts the line of the debug panel in the upper right corner of the
/// window while the panel is shown, and hides it while it is not.
pub fn update_debug_info(text: &mut TextRenderer, visible: bool, width: u32, line: &str)
    ensures
        final(text)@ == debug_info_updated(old(text)@, visible, width, line@),
{
    if visible {
        text.create_text_buffer(
            "debug_info",
            line,
            Some(
                TextStyle {
                    font_family: String::from_str("HankenGrotesk"),
                    font_size: 22000,
                    line_height: 26000,
                    color: Color::rgb(220, 40, 40),
                    weight: 700,
                    style: Slant::Normal,
                },
            ),
            Some(
                TextPosition {
                    x: store(from_pixels(width) - 420000),
                    y: 20000,
                    max_width: Some(400000),
                    max_height: Some(40000),
                },
            ),
        );
    } else {
        text.set_visible("debug_info", false);
    }
}

/// The pause menu as a frame on the given screen leaves it before it is
/// drawn: shown on the pause screen; hidden, with its rectangle queue
/// emptied, on any other.
pub open spec fn pause_menu_synced(menu: PauseMenuView, screen: CurrentScreen, test_mode: bool) -> PauseMenuView {
    if screen == CurrentScreen::Pause {
        menu.shown(test_mode)
    } else {
        let hidden = menu.hidden();
        PauseMenuView {
            button_manager: crate::button_manager::ButtonManagerView {
                rectangle_renderer: hidden.button_manager.rectangle_renderer.cleared(),
                ..hidden.button_manager
            },
            ..hidden
        }
    }
}

/// The upgrade menu as a frame on the given screen leaves it before it is
/// drawn: shown on the upgrade screen; hidden, with its rectangle queue
/// emptied, on any other.
pub open spec fn upgrade_menu_synced(menu: UpgradeMenuView, screen: CurrentScreen) -> UpgradeMenuView {
    if screen == CurrentScreen::Upgrade {
        menu.shown()
    } else {
        let hidden = menu.hidden();
        UpgradeMenuView {
            button_manager: crate::button_manager::ButtonManagerView {
                rectangle_renderer: hidden.button_manager.rectangle_renderer.cleared(),
                ..hidden.button_manager
            },
            ..hidden
        }
    }
}

/// Opens or closes the two menus for the screen of the game. Returns
/// whether the pause menu and whether the upgrade menu is to be drawn.
pub fn sync_menus(state: &GameState, pause_menu: &mut PauseMenu, upgrade_menu: &mut UpgradeMenu) -> (drawn:
    (bool, bool))
    ensures
        drawn.0 == (state.current_screen == CurrentScreen::Pause),
        drawn.1 == (state.current_screen == CurrentScreen::Upgrade),
        final(pause_menu)@ == pause_menu_synced(
            old(pause_menu)@,
            state.current_screen,
            state.test_mode,
        ),
        final(upgrade_menu)@ == upgrade_menu_synced(old(upgrade_menu)@, state.current_screen),
{
    let pause = state.current_screen == CurrentScreen::Pause;
    if pause {
        pause_menu.show(state.test_mode);
    } else {
        pause_menu.hide_menu();
        pause_menu.button_manager.rectangle_renderer.clear_rectangles();
    }
    let upgrade = state.current_screen == CurrentScreen::Upgrade;
    if upgrade {
        upgrade_menu.show();
    } else {
        upgrade_menu.hide_menu();
        upgrade_menu.button_manager.rectangle_renderer.clear_rectangles();
    }
    (pause, upgrade)
}

} // verus!
