use overlay_ui::button::ButtonMetrics;
use overlay_ui::button_manager::{InputEvent, MouseButton};
use overlay_ui::button_types::{ButtonAnchor, ButtonPosition, ButtonSpacing, ButtonState};
use overlay_ui::color::Color;
use overlay_ui::frame::{center_line_dashes, overlay_rectangle, sync_menus, update_debug_info};
use overlay_ui::game::{CurrentScreen, GameState};
use overlay_ui::pause_menu::{PauseMenu, PauseMenuAction, PauseMenuMetrics};
use overlay_ui::rectangle::Rectangle;
use overlay_ui::text::{TextMetrics, TextPosition, TextRenderer};
use overlay_ui::units::WindowSize;
use overlay_ui::upgrade_menu::{UpgradeMenu, UpgradeMenuAction, UpgradeMenuMetrics};

const PRESS: InputEvent = InputEvent::MouseInput { pressed: true, button: MouseButton::Left };
const RELEASE: InputEvent = InputEvent::MouseInput { pressed: false, button: MouseButton::Left };

fn extent(width: i32, height: i32) -> TextMetrics {
    TextMetrics { min_x: 0, width, height }
}

fn label(width: i32, height: i32) -> ButtonMetrics {
    ButtonMetrics::uniform(extent(width, height), extent(50000, 30000), extent(0, 40000))
}

fn pause_metrics() -> PauseMenuMetrics {
    let m = label(200000, 40000);
    PauseMenuMetrics {
        resume: m,
        settings: m,
        toggle_test_mode: m,
        restart: m,
        quit_menu: m,
        debug: m,
    }
}

fn pause_menu() -> PauseMenu {
    PauseMenu::new(WindowSize { width: 1920, height: 1080 }, &pause_metrics())
}

fn click(menu: &mut PauseMenu, x: i32, y: i32) {
    menu.handle_input(&InputEvent::CursorMoved { x, y });
    menu.handle_input(&PRESS);
    menu.handle_input(&RELEASE);
}

fn centered(x: i32, y: i32, width: i32, height: i32) -> ButtonPosition {
    ButtonPosition::new(x, y, width, height).with_anchor(ButtonAnchor::Center)
}

#[test]
fn pause_menu_starts_hidden_with_six_widgets() {
    let menu = pause_menu();
    assert!(!menu.is_visible());
    assert!(!menu.is_debug_panel_visible());
    assert_eq!(menu.last_action, PauseMenuAction::Idle);
    let ids: Vec<&str> = menu.button_manager.buttons.iter().map(|b| b.id.as_str()).collect();
    assert_eq!(ids, vec!["resume", "settings", "toggle_test_mode", "restart", "quit_menu", "debug"]);
    let texts: Vec<&str> = menu.button_manager.buttons.iter().map(|b| b.text.as_str()).collect();
    assert_eq!(
        texts,
        vec![
            "Resume Game",
            "Restart Run",
            "Toggle Test Mode",
            "Quit to Lobby",
            "Quit App",
            " Show\nDebug\n  Info"
        ]
    );
}

#[test]
fn pause_menu_layout_at_the_reference_height() {
    let menu = pause_menu();
    let b = &menu.button_manager.buttons;
    assert_eq!(b[0].position, centered(960000, 313200, 576000, 60000));
    assert_eq!(b[1].position, centered(960000, 426600, 576000, 60000));
    assert_eq!(b[2].position, centered(960000, 540000, 576000, 60000));
    assert_eq!(b[3].position, centered(960000, 653400, 576000, 60000));
    assert_eq!(b[4].position, centered(960000, 766800, 576000, 60000));
    assert_eq!(b[5].position, ButtonPosition::new(60000, 852000, 204000, 52000));
    for k in 0..5 {
        assert_eq!(b[k].style.text_style.font_size, 32000);
        assert_eq!(b[k].style.text_style.line_height, 40000);
        assert_eq!(b[k].style.text_style.color, Color::rgb(255, 255, 255));
        assert_eq!(b[k].style.spacing, ButtonSpacing::Hbar(300));
    }
    assert_eq!(b[0].style.background_color, Color::rgb(30, 110, 30));
    assert_eq!(b[1].style.background_color, Color::rgb(170, 100, 10));
    assert_eq!(b[2].style.background_color, Color::rgb(170, 100, 10));
    assert_eq!(b[3].style.background_color, Color::rgb(110, 20, 10));
    assert_eq!(b[4].style.background_color, Color::rgb(110, 20, 10));
    assert_eq!(b[5].style.background_color, Color::rgb(170, 100, 10));
    assert_eq!(b[5].style.text_style.font_size, 16000);
    assert_eq!(b[5].style.text_style.line_height, 20000);
    assert_eq!(b[5].style.padding, (2000, 6000));
    assert_eq!(b[5].style.spacing, ButtonSpacing::Wrap);
    let resume = menu.button_manager.text_renderer.get_buffer("button_resume").unwrap();
    assert_eq!(
        resume.position,
        TextPosition { x: 860000, y: 293200, max_width: Some(544000), max_height: Some(40000) }
    );
}

#[test]
fn pause_menu_scales_with_the_window() {
    let menu = PauseMenu::new(WindowSize { width: 3840, height: 2160 }, &pause_metrics());
    let b = &menu.button_manager.buttons;
    assert_eq!(b[0].style.text_style.font_size, 48000);
    assert_eq!(b[0].style.text_style.line_height, 60000);
    assert_eq!(b[0].position, centered(1920000, 752000, 1152000, 60000));
    assert_eq!(b[1].position.y, 916000);
    assert_eq!(b[5].style.padding, (4000, 12000));
    let small = PauseMenu::scaled_text_style(300);
    assert_eq!((small.font_size, small.line_height), (22400, 28000));
    let tiny = PauseMenu::new(WindowSize { width: 300, height: 200 }, &pause_metrics());
    let b = &tiny.button_manager.buttons;
    assert_eq!(b[0].position, centered(150000, 31800, 90000, 60000));
    assert_eq!(b[1].position.y, 65900);
}

#[test]
fn a_hidden_pause_menu_takes_no_input() {
    let mut menu = pause_menu();
    click(&mut menu, 960000, 313200);
    assert_eq!(menu.get_last_action(), PauseMenuAction::Idle);
    assert_eq!(menu.button_manager.mouse_position, (0, 0));
}

#[test]
fn pause_menu_clicks_become_actions() {
    let mut menu = pause_menu();
    menu.show(false);
    assert!(menu.is_visible());
    click(&mut menu, 960000, 313200);
    assert_eq!(menu.button_manager.just_clicked, None);
    assert_eq!(menu.get_last_action(), PauseMenuAction::Resume);
    assert_eq!(menu.get_last_action(), PauseMenuAction::Idle);
    click(&mut menu, 960000, 426600);
    assert_eq!(menu.get_last_action(), PauseMenuAction::Settings);
    click(&mut menu, 960000, 540000);
    assert_eq!(menu.get_last_action(), PauseMenuAction::ToggleTestMode);
    click(&mut menu, 960000, 653400);
    assert_eq!(menu.get_last_action(), PauseMenuAction::Restart);
    click(&mut menu, 960000, 766800);
    assert_eq!(menu.get_last_action(), PauseMenuAction::QuitToMenu);
    click(&mut menu, 10000, 10000);
    assert_eq!(menu.get_last_action(), PauseMenuAction::Idle);
}

#[test]
fn the_debug_widget_toggles_the_panel() {
    let mut menu = pause_menu();
    menu.show(false);
    click(&mut menu, 70000, 860000);
    assert!(menu.is_debug_panel_visible());
    assert_eq!(menu.get_last_action(), PauseMenuAction::Idle);
    click(&mut menu, 70000, 860000);
    assert!(!menu.is_debug_panel_visible());
}

#[test]
fn show_and_hide_the_pause_menu() {
    let mut menu = pause_menu();
    menu.last_action = PauseMenuAction::Restart;
    menu.hide_menu();
    assert!(!menu.is_visible());
    assert_eq!(menu.last_action, PauseMenuAction::Idle);
    assert!(menu.button_manager.buttons.iter().all(|b| !b.visible));
    menu.last_action = PauseMenuAction::Restart;
    menu.show(true);
    assert_eq!(menu.last_action, PauseMenuAction::Idle);
    assert!(menu.button_manager.buttons.iter().all(|b| b.visible));
    assert_eq!(menu.button_manager.buttons[2].text, "Exit Test Mode");
    assert_eq!(menu.button_manager.buttons[0].state, ButtonState::Normal);
    assert_eq!(
        menu.button_manager.text_renderer.get_buffer("button_resume").unwrap().style.color,
        Color::rgb(19, 71, 19)
    );
    menu.update_test_mode_button_text(false);
    assert_eq!(menu.button_manager.buttons[2].text, "Enter Test Mode");
}

#[test]
fn pause_menu_resize_recomputes_every_place() {
    let mut menu = pause_menu();
    menu.button_manager.buttons[1].text = "Changed".to_string();
    menu.resize(1280, 720, &pause_metrics());
    assert_eq!(menu.button_manager.window_size, WindowSize { width: 1280, height: 720 });
    assert_eq!(menu.button_manager.rectangle_renderer.window_width, 1280);
    let b = &menu.button_manager.buttons;
    assert_eq!(b[0].position, centered(640000, 254160, 340480, 60000));
    assert_eq!(b[1].position, centered(640000, 307080, 340480, 60000));
    assert_eq!(b[4].position, centered(640000, 465840, 340480, 60000));
    assert_eq!(b[1].text, "Restart Run");
    assert_eq!(b[0].style.text_style.font_size, 22400);
    assert_eq!(b[0].style.text_style.line_height, 28000);
    assert_eq!(b[5].position, ButtonPosition::new(60000, 492000, 212000, 52000));
    let mut again = pause_menu();
    again.resize(800, 600, &pause_metrics());
    again.resize(1280, 720, &pause_metrics());
    assert_eq!(again.button_manager.buttons, menu.button_manager.buttons);
}

#[test]
fn pause_menu_frame() {
    let mut menu = pause_menu();
    menu.show(false);
    let steps = menu.render();
    assert_eq!(steps.len(), 2);
    assert_eq!(menu.button_manager.rectangle_renderer.rectangles.len(), 6);
    assert_eq!(menu.prepare().len(), 6);
}

fn upgrade_metrics() -> UpgradeMenuMetrics {
    let m = ButtonMetrics::uniform(extent(120000, 48000), extent(50000, 30000), extent(0, 40000));
    UpgradeMenuMetrics { first: m, second: m, third: m }
}

fn upgrade_menu() -> UpgradeMenu {
    UpgradeMenu::new(WindowSize { width: 1000, height: 1000 }, &upgrade_metrics())
}

#[test]
fn upgrade_menu_layout() {
    let menu = upgrade_menu();
    assert!(!menu.is_visible());
    assert_eq!(
        menu.button_manager.container_rect,
        Some(Rectangle {
            x: 100000,
            y: 150000,
            width: 800000,
            height: 700000,
            color: Color::rgb(102, 102, 102),
            corner_radius: 20000,
        })
    );
    let b = &menu.button_manager.buttons;
    assert_eq!(b.len(), 3);
    assert_eq!(b[0].position, ButtonPosition::new(160000, 0, 200000, 560000));
    assert_eq!(b[1].position, ButtonPosition::new(400000, 0, 200000, 560000));
    assert_eq!(b[2].position, ButtonPosition::new(640000, 0, 200000, 560000));
    for k in 0..3 {
        assert_eq!(b[k].id, format!("upgrade_{}", k + 1));
        assert_eq!(b[k].text, format!("Upgrade {}", k + 1));
        assert_eq!(b[k].text_id, format!("button_upgrade_{}", k + 1));
        assert_eq!(b[k].level_text_id, Some(format!("level_upgrade_{}", k + 1)));
        assert_eq!(b[k].tooltip_text_id, Some(format!("tooltip_upgrade_{}", k + 1)));
        assert_eq!(b[k].style.spacing, ButtonSpacing::Tall(560));
        assert_eq!(b[k].style.background_color, Color::rgb(200, 200, 200));
        assert_eq!(b[k].style.hover_color, Color::rgb(180, 180, 180));
        assert_eq!(b[k].style.pressed_color, Color::rgb(160, 160, 160));
        assert_eq!(b[k].style.corner_radius, 12000);
        assert_eq!(b[k].style.padding, (8000, 8000));
        assert_eq!(b[k].style.text_style.font_size, 32000);
        assert_eq!(b[k].style.text_style.line_height, 48000);
        assert_eq!(b[k].style.text_style.color, Color::rgb(50, 50, 50));
    }
    assert_eq!(menu.button_manager.text_renderer.text_buffers.len(), 9);
    assert_eq!(menu.button_manager.icon_renderer.icons.len(), 3);
}

#[test]
fn upgrade_menu_clicks_become_actions() {
    let mut menu = upgrade_menu();
    let mut press_at = |menu: &mut UpgradeMenu, x: i32| {
        menu.handle_input(&InputEvent::CursorMoved { x, y: 100000 });
        menu.handle_input(&PRESS);
        menu.handle_input(&RELEASE);
    };
    press_at(&mut menu, 500000);
    assert_eq!(menu.get_last_action(), UpgradeMenuAction::Idle);
    menu.show();
    press_at(&mut menu, 500000);
    assert_eq!(menu.get_last_action(), UpgradeMenuAction::SelectUpgrade2);
    assert_eq!(menu.get_last_action(), UpgradeMenuAction::Idle);
    press_at(&mut menu, 170000);
    assert_eq!(menu.get_last_action(), UpgradeMenuAction::SelectUpgrade1);
    press_at(&mut menu, 840000);
    assert_eq!(menu.get_last_action(), UpgradeMenuAction::SelectUpgrade3);
    press_at(&mut menu, 620000);
    assert_eq!(menu.get_last_action(), UpgradeMenuAction::Idle);
    menu.hide_menu();
    assert!(!menu.is_visible());
    assert!(menu.button_manager.buttons.iter().all(|b| !b.visible));
}

#[test]
fn upgrade_menu_resize_lays_out_anew_whether_shown_or_hidden() {
    let mut menu = upgrade_menu();
    assert!(!menu.is_visible());
    menu.resize(2000, 1000, &upgrade_metrics());
    assert!(!menu.is_visible());
    assert_eq!(menu.button_manager.window_size, WindowSize { width: 2000, height: 1000 });
    assert_eq!(menu.button_manager.rectangle_renderer.window_width, 2000);
    let b = &menu.button_manager.buttons;
    assert_eq!(b[0].position, ButtonPosition::new(320000, 220000, 400000, 560000));
    assert_eq!(b[1].position, ButtonPosition::new(800000, 220000, 400000, 560000));
    assert_eq!(b[2].position, ButtonPosition::new(1280000, 220000, 400000, 560000));
    for k in 0..3 {
        assert_eq!(b[k].position.anchor, ButtonAnchor::TopLeft);
        assert_eq!(b[k].style.spacing, ButtonSpacing::Tall(560));
    }
    assert_eq!(
        menu.button_manager.container_rect,
        Some(Rectangle {
            x: 200000,
            y: 150000,
            width: 1600000,
            height: 700000,
            color: Color::rgb(102, 102, 102),
            corner_radius: 20000,
        })
    );
    let mut shown = upgrade_menu();
    shown.show();
    shown.resize(2000, 1000, &upgrade_metrics());
    let places: Vec<ButtonPosition> = shown.button_manager.buttons.iter().map(|b| b.position).collect();
    let hidden: Vec<ButtonPosition> = menu.button_manager.buttons.iter().map(|b| b.position).collect();
    assert_eq!(places, hidden);
    assert_eq!(shown.button_manager.container_rect, menu.button_manager.container_rect);
}

#[test]
fn upgrade_menu_resize_follows_the_height_of_the_window() {
    let mut menu = upgrade_menu();
    menu.resize(1000, 500, &upgrade_metrics());
    let b = &menu.button_manager.buttons;
    assert_eq!(b[0].position, ButtonPosition::new(160000, 110000, 200000, 280000));
    assert_eq!(b[2].position, ButtonPosition::new(640000, 110000, 200000, 280000));
    assert_eq!(menu.button_manager.container_rect.unwrap().y, 75000);
    assert_eq!(menu.button_manager.container_rect.unwrap().height, 350000);
    menu.resize(800, 600, &upgrade_metrics());
    menu.resize(1000, 1000, &upgrade_metrics());
    let again = &menu.button_manager.buttons;
    assert_eq!(again[1].position, ButtonPosition::new(400000, 220000, 200000, 560000));
    menu.resize(2000, 0, &upgrade_metrics());
    assert_eq!(menu.button_manager.buttons[0].style.spacing, ButtonSpacing::Tall(0));
    assert_eq!(menu.button_manager.buttons[0].position.height, 0);
}

#[test]
fn upgrade_menu_frame() {
    let mut menu = upgrade_menu();
    menu.show();
    let steps = menu.render();
    assert_eq!(steps.len(), 2);
    assert_eq!(menu.button_manager.rectangle_renderer.rectangles.len(), 4);
    assert_eq!(menu.button_manager.rectangle_renderer.rectangles[0].width, 800000);
    menu.button_manager.icon_renderer.load_texture("blank_icon");
    assert_eq!(menu.render().len(), 3);
    assert_eq!(menu.prepare().len(), 9);
}

#[test]
fn overlay_covers_the_window() {
    assert_eq!(
        overlay_rectangle(800, 600),
        Rectangle::new(0, 0, 800000, 600000, Color::rgba(20, 23, 28, 224))
    );
}

#[test]
fn centre_line_is_dashed_to_the_bottom() {
    let green = Color::rgba(26, 255, 26, 217);
    assert_eq!(
        center_line_dashes(100, 50),
        vec![
            Rectangle::new(48500, 0, 3000, 16000, green),
            Rectangle::new(48500, 28000, 3000, 16000, green),
        ]
    );
    assert_eq!(
        center_line_dashes(100, 40),
        vec![
            Rectangle::new(48500, 0, 3000, 16000, green),
            Rectangle::new(48500, 28000, 3000, 12000, green),
        ]
    );
    assert_eq!(center_line_dashes(100, 28).len(), 1);
    assert_eq!(center_line_dashes(100, 29).len(), 2);
    assert_eq!(center_line_dashes(100, 29)[1].height, 1000);
    assert!(center_line_dashes(100, 0).is_empty());
    assert_eq!(center_line_dashes(1920, 1080).len(), 39);
}

#[test]
fn debug_info_is_shown_and_hidden() {
    let mut text = TextRenderer::new(WindowSize { width: 1920, height: 1080 });
    update_debug_info(&mut text, false, 1920, "x");
    assert!(text.text_buffers.is_empty());
    update_debug_info(&mut text, true, 1920, "Window: 1920x1080 | FPS: 60");
    let b = text.get_buffer("debug_info").unwrap();
    assert_eq!(b.text_content, "Window: 1920x1080 | FPS: 60");
    assert!(b.visible);
    assert_eq!((b.style.font_size, b.style.line_height, b.style.weight), (22000, 26000, 700));
    assert_eq!(b.style.color, Color::rgb(220, 40, 40));
    assert_eq!(
        b.position,
        TextPosition { x: 1500000, y: 20000, max_width: Some(400000), max_height: Some(40000) }
    );
    update_debug_info(&mut text, false, 1920, "ignored");
    let b = text.get_buffer("debug_info").unwrap();
    assert!(!b.visible);
    assert_eq!(b.text_content, "Window: 1920x1080 | FPS: 60");
}

#[test]
fn menus_follow_the_screen() {
    let mut state = GameState::new(0);
    let mut pause = pause_menu();
    let mut upgrade = upgrade_menu();
    state.current_screen = CurrentScreen::Pause;
    state.test_mode = true;
    assert_eq!(sync_menus(&state, &mut pause, &mut upgrade), (true, false));
    assert!(pause.is_visible());
    assert!(!upgrade.is_visible());
    assert_eq!(pause.button_manager.buttons[2].text, "Exit Test Mode");
    pause.render();
    state.current_screen = CurrentScreen::Upgrade;
    assert_eq!(sync_menus(&state, &mut pause, &mut upgrade), (false, true));
    assert!(!pause.is_visible());
    assert!(upgrade.is_visible());
    assert!(pause.button_manager.rectangle_renderer.rectangles.is_empty());
    state.current_screen = CurrentScreen::Game;
    assert_eq!(sync_menus(&state, &mut pause, &mut upgrade), (false, false));
    assert!(!upgrade.is_visible());
}
