use overlay_ui::color::Color;
use overlay_ui::game::{
    format_level, format_score, format_seconds, initialize_game_ui, update_game_ui,
    update_text_content, CurrentScreen, GameKey, GameState, GameTimer, GameUIManager,
    TimerConfig,
};
use overlay_ui::pause_menu::PauseMenuAction;
use overlay_ui::text::{TextPosition, TextRenderer};
use overlay_ui::units::WindowSize;

#[test]
fn default_timer_config_is_a_minute() {
    let c = TimerConfig::default();
    assert_eq!((c.duration, c.warning_threshold, c.critical_threshold), (60000, 30000, 15000));
    assert_eq!(c.normal_color, Color::rgb(100, 255, 100));
    assert_eq!(c.warning_color, Color::rgb(255, 255, 100));
    assert_eq!(c.critical_color, Color::rgb(255, 100, 100));
}

#[test]
fn a_new_timer_does_not_run() {
    let t = GameTimer::new(TimerConfig::default(), 500);
    assert!(!t.is_running);
    assert_eq!(t.get_remaining_time(500), 0);
    assert!(t.is_expired(500));
}

#[test]
fn paused_time_is_not_counted() {
    let mut t = GameTimer::new(TimerConfig::default(), 1000);
    t.start(1000);
    assert_eq!(t.get_remaining_time(1000), 60000);
    t.pause(11000);
    assert_eq!(t.get_remaining_time(11000), 50000);
    assert_eq!(t.get_remaining_time(14000), 50000);
    t.resume(16000);
    assert_eq!(t.get_remaining_time(16000), 50000);
    assert_eq!(t.format_time(16000), "50.00");
    assert_eq!(t.elapsed_paused, 5000);
    assert_eq!(t.get_remaining_time(21000), 45000);
}

#[test]
fn pause_is_only_noted_once_and_only_while_running() {
    let mut t = GameTimer::new(TimerConfig::default(), 0);
    t.pause(5);
    assert_eq!(t.paused_at, None);
    t.start(0);
    t.pause(100);
    t.pause(200);
    assert_eq!(t.paused_at, Some(100));
    t.resume(300);
    t.resume(900);
    assert_eq!(t.elapsed_paused, 200);
}

#[test]
fn timer_runs_out_once() {
    let mut t = GameTimer::new(TimerConfig::default(), 0);
    t.start(0);
    assert!(!t.update(59999));
    assert!(!t.is_expired(59999));
    assert!(t.update(60000));
    assert!(t.is_expired(60000));
    assert!(!t.update(60001));
    assert_eq!(t.get_remaining_time(10), 0);
    t.reset(70000);
    assert!(!t.is_expired);
    assert_eq!(t.get_remaining_time(70000), 60000);
}

#[test]
fn a_paused_or_stopped_timer_is_not_updated() {
    let mut t = GameTimer::new(TimerConfig::default(), 0);
    t.start(0);
    t.pause(10);
    assert!(!t.update(100000));
    assert!(!t.is_expired);
    t.resume(100000);
    t.stop();
    assert!(!t.update(900000));
    assert!(t.is_expired(900000));
    assert_eq!(t.get_remaining_time(0), 0);
}

#[test]
fn a_clock_that_runs_backwards_counts_nothing() {
    let mut t = GameTimer::new(TimerConfig::default(), 1000);
    t.start(1000);
    assert_eq!(t.get_remaining_time(500), 60000);
    t.pause(2000);
    t.resume(1500);
    assert_eq!(t.elapsed_paused, 0);
}

#[test]
fn timer_colour_follows_the_thresholds() {
    let mut t = GameTimer::new(TimerConfig::default(), 0);
    t.start(0);
    assert_eq!(t.get_current_color(0), Color::rgb(100, 255, 100));
    assert_eq!(t.get_current_color(29999), Color::rgb(100, 255, 100));
    assert_eq!(t.get_current_color(30000), Color::rgb(255, 255, 100));
    assert_eq!(t.get_current_color(44999), Color::rgb(255, 255, 100));
    assert_eq!(t.get_current_color(45000), Color::rgb(255, 100, 100));
    assert_eq!(t.get_current_color(99999), Color::rgb(255, 100, 100));
}

#[test]
fn seconds_are_written_with_two_decimals() {
    assert_eq!(format_seconds(0), "00.00");
    assert_eq!(format_seconds(5250), "05.25");
    assert_eq!(format_seconds(50000), "50.00");
    assert_eq!(format_seconds(59994), "59.99");
    assert_eq!(format_seconds(59995), "60.00");
    assert_eq!(format_seconds(123456), "123.46");
    assert_eq!(format_seconds(9), "00.01");
    assert_eq!(format_seconds(4), "00.00");
    assert_eq!(format_seconds(u64::MAX), "18446744073709551.62");
}

#[test]
fn level_and_score_are_written_in_decimal() {
    assert_eq!(format_level(1), "Level: 1");
    assert_eq!(format_level(0), "Level: 0");
    assert_eq!(format_level(-3), "Level: -3");
    assert_eq!(format_level(i32::MIN), "Level: -2147483648");
    assert_eq!(format_level(i32::MAX), "Level: 2147483647");
    assert_eq!(format_score(0), "Score: 0");
    assert_eq!(format_score(1205), "Score: 1205");
    assert_eq!(format_score(u32::MAX), "Score: 4294967295");
}

#[test]
fn game_ui_without_a_timer() {
    let mut ui = GameUIManager::new();
    assert_eq!(ui, GameUIManager::default());
    assert_eq!((ui.get_level(), ui.get_score()), (1, 0));
    assert_eq!(ui.get_timer_text(5), "00.00");
    assert_eq!(ui.get_timer_color(5), Color::rgb(255, 255, 255));
    assert!(!ui.is_timer_expired(5));
    assert!(!ui.update_timer(5));
    ui.pause_timer(1);
    ui.resume_timer(2);
    ui.stop_timer();
    ui.reset_timer(3);
    assert_eq!(ui.timer, None);
}

#[test]
fn game_ui_timer_scenario() {
    let mut ui = GameUIManager::new();
    ui.start_timer(None, 0);
    ui.pause_timer(10000);
    ui.resume_timer(15000);
    assert_eq!(ui.get_timer_text(15000), "50.00");
    assert_eq!(ui.get_timer_color(15000), Color::rgb(100, 255, 100));
    assert!(!ui.update_timer(15000));
    assert!(ui.update_timer(65000));
    assert!(ui.is_timer_expired(65000));
    assert_eq!(ui.get_timer_text(65000), "00.00");
    ui.reset_timer(70000);
    assert!(!ui.is_timer_expired(70000));
    assert_eq!(ui.get_timer_text(71000), "59.00");
    ui.stop_timer();
    assert!(ui.is_timer_expired(71000));
}

#[test]
fn game_ui_custom_timer() {
    let mut ui = GameUIManager::new();
    let config = TimerConfig { duration: 1500, ..TimerConfig::default() };
    ui.start_timer(Some(config), 100);
    assert_eq!(ui.get_timer_text(100), "01.50");
    assert_eq!(ui.get_timer_color(100), Color::rgb(255, 100, 100));
    ui.set_level(7);
    ui.set_score(99);
    assert_eq!(ui.get_level_text(), "Level: 7");
    assert_eq!(ui.get_score_text(), "Score: 99");
}

#[test]
fn game_state_starts_loading() {
    let mut s = GameState::new(42);
    assert_eq!(s.current_screen, CurrentScreen::Loading);
    assert_eq!((s.last_frame_time, s.last_fps_time, s.delta_time), (42, 42, 0));
    assert_eq!((s.frame_count, s.current_fps), (0, 0));
    assert!(s.capture_mouse && !s.exit_reached && !s.test_mode);
    assert_eq!(s.maze_path, None);
    assert!(!s.is_game_timer_expired(42));
    s.start_game_timer(None, 42);
    s.set_level(3);
    s.set_score(8);
    assert_eq!((s.game_ui.level, s.game_ui.score), (3, 8));
    assert_eq!(s.game_ui.get_timer_text(1042), "59.00");
    s.stop_game_timer();
    assert!(s.is_game_timer_expired(42));
    s.reset_game_timer(100);
    assert!(!s.is_game_timer_expired(100));
}

#[test]
fn escape_toggles_the_pause() {
    let mut s = GameState::new(0);
    s.current_screen = CurrentScreen::Game;
    s.start_game_timer(None, 0);
    assert!(s.handle_key(GameKey::Escape, 10000));
    assert_eq!(s.current_screen, CurrentScreen::Pause);
    assert_eq!(s.game_ui.timer.unwrap().paused_at, Some(10000));
    assert!(s.handle_key(GameKey::Escape, 15000));
    assert_eq!(s.current_screen, CurrentScreen::Game);
    assert_eq!(s.game_ui.get_timer_text(15000), "50.00");
    assert!(!s.handle_key(GameKey::Other, 15000));
    assert_eq!(s.current_screen, CurrentScreen::Game);
    assert!(s.handle_key(GameKey::Upgrade, 15000));
    assert_eq!(s.current_screen, CurrentScreen::Upgrade);
}

#[test]
fn pause_menu_actions_drive_the_game() {
    let mut s = GameState::new(0);
    s.start_game_timer(None, 0);
    s.handle_key(GameKey::Escape, 1000);
    assert!(!s.apply_pause_action(PauseMenuAction::Idle, 2000));
    assert!(!s.apply_pause_action(PauseMenuAction::Settings, 2000));
    assert!(!s.apply_pause_action(PauseMenuAction::Restart, 2000));
    assert_eq!(s.current_screen, CurrentScreen::Pause);
    assert!(!s.apply_pause_action(PauseMenuAction::ToggleTestMode, 2000));
    assert!(s.test_mode);
    assert!(!s.apply_pause_action(PauseMenuAction::Resume, 3000));
    assert_eq!(s.current_screen, CurrentScreen::Game);
    assert_eq!(s.game_ui.timer.unwrap().elapsed_paused, 2000);
    assert!(s.apply_pause_action(PauseMenuAction::QuitToMenu, 4000));
}

fn position(x: i32, y: i32, w: i32, h: i32) -> TextPosition {
    TextPosition { x, y, max_width: Some(w), max_height: Some(h) }
}

#[test]
fn game_ui_displays_for_a_small_window() {
    let mut text = TextRenderer::new(WindowSize { width: 1360, height: 768 });
    let mut ui = GameUIManager::new();
    ui.start_timer(None, 0);
    initialize_game_ui(&mut text, &ui, WindowSize { width: 1360, height: 768 }, 2500);
    let timer = text.get_buffer("main_timer").unwrap();
    assert_eq!(timer.text_content, "57.50");
    assert_eq!((timer.style.font_size, timer.style.line_height), (48000, 60000));
    assert_eq!(timer.style.color, Color::rgb(100, 255, 100));
    assert_eq!(timer.style.weight, 700);
    assert_eq!(timer.position, position(625455, 10000, 150000, 60000));
    let level = text.get_buffer("level").unwrap();
    assert_eq!(level.text_content, "Level: 1");
    assert_eq!((level.style.font_size, level.style.line_height), (18000, 22000));
    assert_eq!(level.style.color, Color::rgb(255, 255, 150));
    assert_eq!(level.position, position(20000, 20000, 120000, 25000));
    let score = text.get_buffer("score").unwrap();
    assert_eq!(score.text_content, "Score: 0");
    assert_eq!(score.style.color, Color::rgb(150, 255, 255));
    assert_eq!(score.position, position(20000, 50000, 120000, 25000));
}

#[test]
fn game_ui_displays_grow_with_the_window() {
    let ui = GameUIManager::new();
    let mut text = TextRenderer::new(WindowSize { width: 1920, height: 1080 });
    initialize_game_ui(&mut text, &ui, WindowSize { width: 1920, height: 1080 }, 0);
    let timer = text.get_buffer("main_timer").unwrap();
    assert_eq!((timer.style.font_size, timer.style.line_height), (80000, 100000));
    assert_eq!(timer.position, position(850910, 10000, 300000, 120000));
    assert_eq!(text.get_buffer("level").unwrap().style.font_size, 24000);
    let mut text = TextRenderer::new(WindowSize { width: 1000, height: 900 });
    initialize_game_ui(&mut text, &ui, WindowSize { width: 1000, height: 900 }, 0);
    let timer = text.get_buffer("main_timer").unwrap();
    assert_eq!((timer.style.font_size, timer.style.line_height), (60000, 76000));
    assert_eq!(timer.position, position(427273, 10000, 200000, 80000));
    assert_eq!(text.get_buffer("score").unwrap().position, position(20000, 50000, 160000, 32000));
}

#[test]
fn text_content_of_a_missing_block_cannot_be_updated() {
    let mut text = TextRenderer::new(WindowSize { width: 100, height: 100 });
    assert_eq!(
        update_text_content(&mut text, "level", "x"),
        Err("Text buffer 'level' not found".to_string())
    );
    text.create_text_buffer("level", "a", None, None);
    text.mark_shaped("level");
    assert_eq!(update_text_content(&mut text, "level", "b"), Ok(()));
    let b = text.get_buffer("level").unwrap();
    assert_eq!(b.text_content, "b");
    assert!(b.needs_shaping);
}

#[test]
fn update_game_ui_refreshes_the_displays() {
    let window = WindowSize { width: 1360, height: 768 };
    let mut text = TextRenderer::new(window);
    let mut ui = GameUIManager::new();
    ui.start_timer(None, 0);
    initialize_game_ui(&mut text, &ui, window, 0);
    ui.set_level(4);
    ui.set_score(250);
    assert!(!update_game_ui(&mut text, &mut ui, &CurrentScreen::Game, 31000));
    let timer = text.get_buffer("main_timer").unwrap();
    assert_eq!(timer.text_content, "29.00");
    assert_eq!(timer.style.color, Color::rgb(255, 255, 100));
    assert_eq!(timer.style.font_size, 48000);
    assert_eq!(text.get_buffer("level").unwrap().text_content, "Level: 4");
    assert_eq!(text.get_buffer("score").unwrap().text_content, "Score: 250");
    assert!(update_game_ui(&mut text, &mut ui, &CurrentScreen::Game, 60000));
    let timer = text.get_buffer("main_timer").unwrap();
    assert_eq!(timer.text_content, "00.00");
    assert_eq!(timer.style.color, Color::rgb(255, 100, 100));
    assert!(!update_game_ui(&mut text, &mut ui, &CurrentScreen::Game, 60001));
}
