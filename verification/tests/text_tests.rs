use overlay_ui::color::Color;
use overlay_ui::text::{
    GlyphSpan, ShapedRun, Slant, TextBounds, TextMetrics, TextPosition, TextRenderer,
    TextStyle,
};
use overlay_ui::units::WindowSize;

fn engine() -> TextRenderer {
    TextRenderer::new(WindowSize { width: 800, height: 600 })
}

fn style(family: &str, size: i32) -> TextStyle {
    TextStyle {
        font_family: family.to_string(),
        font_size: size,
        line_height: size + 4000,
        color: Color::rgb(1, 2, 3),
        weight: 400,
        style: Slant::Normal,
    }
}

fn place(x: i32, y: i32, w: Option<i32>, h: Option<i32>) -> TextPosition {
    TextPosition { x, y, max_width: w, max_height: h }
}

#[test]
fn default_style_and_position() {
    let s = TextStyle::default();
    assert_eq!(s.font_family, "DejaVu Sans");
    assert_eq!((s.font_size, s.line_height, s.weight), (16000, 20000, 400));
    assert_eq!(s.color, Color::rgb(255, 255, 255));
    assert_eq!(s.style, Slant::Normal);
    assert_eq!(TextPosition::default(), place(0, 0, None, None));
}

#[test]
fn create_makes_a_visible_block_due_for_shaping() {
    let mut e = engine();
    e.create_text_buffer("a", "hello", Some(style("Serif", 12000)), Some(place(1, 2, Some(3), None)));
    let b = e.get_buffer("a").unwrap();
    assert_eq!(b.text_content, "hello");
    assert_eq!(b.style, style("Serif", 12000));
    assert_eq!(b.position, place(1, 2, Some(3), None));
    assert!(b.visible);
    assert!(b.needs_shaping);
    assert_eq!(b.scale, 1000);
}

#[test]
fn create_without_style_or_position_takes_the_defaults() {
    let mut e = engine();
    e.create_text_buffer("a", "hello", None, None);
    let b = e.get_buffer("a").unwrap();
    assert_eq!(b.style, TextStyle::default());
    assert_eq!(b.position, TextPosition::default());
}

#[test]
fn create_overwrites_a_block_of_the_same_name_in_place() {
    let mut e = engine();
    e.create_text_buffer("a", "one", None, None);
    e.create_text_buffer("b", "two", None, None);
    e.create_text_buffer("a", "three", None, None);
    assert_eq!(e.text_buffers.len(), 2);
    assert_eq!(e.text_buffers[0].id, "a");
    assert_eq!(e.text_buffers[0].buffer.text_content, "three");
    assert_eq!(e.text_buffers[1].id, "b");
}

#[test]
fn bundled_family_falls_back_until_it_is_loaded() {
    let mut e = engine();
    e.create_text_buffer("a", "x", Some(style("HankenGrotesk", 10000)), None);
    assert_eq!(e.get_buffer("a").unwrap().style.font_family, "DejaVu Sans");
    e.load_font("HankenGrotesk");
    assert!(e.is_font_loaded(&"HankenGrotesk".to_string()));
    e.create_text_buffer("b", "x", Some(style("HankenGrotesk", 10000)), None);
    assert_eq!(e.get_buffer("b").unwrap().style.font_family, "HankenGrotesk");
    assert!(e.update_style("a", style("HankenGrotesk", 10000)).is_ok());
    assert_eq!(e.get_buffer("a").unwrap().style.font_family, "HankenGrotesk");
}

#[test]
fn other_families_are_never_substituted() {
    let mut e = engine();
    e.create_text_buffer("a", "x", Some(style("Nowhere", 10000)), None);
    assert_eq!(e.get_buffer("a").unwrap().style.font_family, "Nowhere");
}

#[test]
fn update_style_of_a_missing_block_fails() {
    let mut e = engine();
    e.create_text_buffer("a", "x", None, None);
    let r = e.update_style("nope", TextStyle::default());
    assert_eq!(r, Err("Text buffer 'nope' not found".to_string()));
    assert_eq!(e.text_buffers.len(), 1);
    assert_eq!(e.get_buffer("a").unwrap().style, TextStyle::default());
}

#[test]
fn update_position_of_a_missing_block_fails() {
    let mut e = engine();
    let r = e.update_position("gone", TextPosition::default());
    assert_eq!(r, Err("Text buffer 'gone' not found".to_string()));
    assert!(e.text_buffers.is_empty());
}

#[test]
fn update_style_keeps_the_stored_text_and_asks_for_shaping() {
    let mut e = engine();
    e.create_text_buffer("a", "hello", None, Some(place(5, 6, Some(7), Some(8))));
    assert!(e.mark_shaped("a"));
    assert!(!e.get_buffer("a").unwrap().needs_shaping);
    assert_eq!(e.update_style("a", style("Serif", 30000)), Ok(()));
    let b = e.get_buffer("a").unwrap();
    assert_eq!(b.text_content, "hello");
    assert_eq!(b.style, style("Serif", 30000));
    assert_eq!(b.position, place(5, 6, Some(7), Some(8)));
    assert!(b.needs_shaping);
}

#[test]
fn update_style_twice_is_update_style_once() {
    let mut once = engine();
    once.create_text_buffer("a", "hello", None, None);
    once.update_style("a", style("HankenGrotesk", 30000)).unwrap();
    let mut twice = engine();
    twice.create_text_buffer("a", "hello", None, None);
    twice.update_style("a", style("HankenGrotesk", 30000)).unwrap();
    twice.update_style("a", style("HankenGrotesk", 30000)).unwrap();
    assert_eq!(once.text_buffers, twice.text_buffers);
    let runs = vec![ShapedRun {
        glyphs: Some(GlyphSpan { first_left: 0, last_right: 70000 }),
        line_height: 34000,
    }];
    let a = once.get_buffer("a").unwrap();
    let b = twice.get_buffer("a").unwrap();
    assert_eq!(
        once.measure_text(&a.text_content, &a.style, &runs),
        twice.measure_text(&b.text_content, &b.style, &runs)
    );
}

#[test]
fn update_position_reshapes_only_when_the_box_changes() {
    let mut e = engine();
    e.create_text_buffer("a", "hello", None, Some(place(5, 6, Some(7), Some(8))));
    e.mark_shaped("a");
    e.update_position("a", place(50, 60, Some(7), Some(8))).unwrap();
    assert!(!e.get_buffer("a").unwrap().needs_shaping);
    assert_eq!(e.get_buffer("a").unwrap().position, place(50, 60, Some(7), Some(8)));
    e.update_position("a", place(50, 60, Some(9), Some(8))).unwrap();
    assert!(e.get_buffer("a").unwrap().needs_shaping);
    e.mark_shaped("a");
    e.update_position("a", place(50, 60, Some(9), None)).unwrap();
    assert!(e.get_buffer("a").unwrap().needs_shaping);
}

#[test]
fn hidden_blocks_stay_in_the_engine_and_out_of_the_areas() {
    let mut e = engine();
    e.create_text_buffer("a", "one", None, Some(place(1000, 2000, Some(3000), Some(4000))));
    e.create_text_buffer("b", "two", None, Some(place(-1500, 2999, None, None)));
    assert!(e.set_visible("a", false));
    assert!(!e.set_visible("c", false));
    let areas = e.prepare();
    assert_eq!(areas.len(), 1);
    assert_eq!(areas[0].buffer_index, 1);
    assert_eq!(areas[0].left, -1500);
    assert_eq!(areas[0].top, 2999);
    assert_eq!(areas[0].scale, 1000);
    assert_eq!(areas[0].default_color, Color::rgb(255, 255, 255));
    assert_eq!(areas[0].bounds, TextBounds { left: -1, top: 2, right: 798, bottom: 602 });
    assert_eq!(e.text_buffers.len(), 2);
    e.set_visible("a", true);
    let areas = e.prepare();
    assert_eq!(areas.len(), 2);
    assert_eq!(areas[0].bounds, TextBounds { left: 1, top: 2, right: 4, bottom: 6 });
}

#[test]
fn set_text_replaces_the_stored_text() {
    let mut e = engine();
    e.create_text_buffer("a", "one", None, None);
    assert!(e.set_text("a", "two"));
    assert!(!e.set_text("b", "two"));
    assert_eq!(e.get_buffer("a").unwrap().text_content, "two");
}

#[test]
fn measure_takes_the_extent_of_the_runs() {
    let e = engine();
    let runs = vec![
        ShapedRun { glyphs: Some(GlyphSpan { first_left: 5000, last_right: 105000 }), line_height: 20000 },
        ShapedRun { glyphs: None, line_height: 20000 },
        ShapedRun { glyphs: Some(GlyphSpan { first_left: 2000, last_right: 50000 }), line_height: 21000 },
    ];
    let m = e.measure_text("two lines", &style("Serif", 16000), &runs);
    assert_eq!(m, TextMetrics { min_x: 2000, width: 103000, height: 61000 });
}

#[test]
fn measure_without_glyphs_estimates_from_the_length() {
    let e = engine();
    let m = e.measure_text("abc", &style("Serif", 10000), &Vec::new());
    assert_eq!(m, TextMetrics { min_x: 0, width: 18000, height: 14000 });
    let runs = vec![ShapedRun { glyphs: None, line_height: 20000 }];
    let m = e.measure_text("abcde", &style("Serif", 16000), &runs);
    assert_eq!(m, TextMetrics { min_x: 0, width: 48000, height: 20000 });
}

#[test]
fn measure_counts_bytes_not_characters() {
    let e = engine();
    let m = e.measure_text("é", &style("Serif", 10000), &Vec::new());
    assert_eq!(m.width, 12000);
}

#[test]
fn measure_of_empty_text_without_runs() {
    let e = engine();
    let m = e.measure_text("", &style("Serif", 10000), &Vec::new());
    assert_eq!(m, TextMetrics { min_x: 0, width: 0, height: 14000 });
    let runs = vec![ShapedRun { glyphs: None, line_height: 9000 }];
    let m = e.measure_text("", &style("Serif", 10000), &runs);
    assert_eq!(m, TextMetrics { min_x: 0, width: 0, height: 14000 });
}

#[test]
fn measure_takes_a_glyph_at_the_far_right_for_a_glyph() {
    let e = engine();
    let runs = vec![ShapedRun {
        glyphs: Some(GlyphSpan { first_left: i32::MAX, last_right: i32::MAX }),
        line_height: 9000,
    }];
    let m = e.measure_text("x", &style("Serif", 10000), &runs);
    assert_eq!(m, TextMetrics { min_x: i32::MAX, width: 0, height: 9000 });
}

#[test]
fn game_over_display_is_created_hidden() {
    let mut e = engine();
    e.create_game_over_display(1920, 1080);
    assert!(!e.is_game_over_visible());
    let title = e.get_buffer("game_over_title").unwrap();
    assert_eq!(title.text_content, "Game Over!");
    assert_eq!(title.style.font_size, 72000);
    assert_eq!(title.style.line_height, 90000);
    assert_eq!(title.style.weight, 700);
    assert_eq!(title.position, place(510000, 445000, Some(450000), Some(90000)));
    assert!(!title.visible);
    let restart = e.get_buffer("game_over_restart").unwrap();
    assert_eq!(restart.text_content, "Click anywhere to play again.");
    assert_eq!(restart.style.font_size, 24000);
    assert_eq!(restart.style.line_height, 30000);
    assert_eq!(restart.position, place(610000, 580000, Some(350000), Some(30000)));
    assert!(!restart.visible);
    e.show_game_over_display();
    assert!(e.is_game_over_visible());
    e.hide_game_over_display();
    assert!(!e.is_game_over_visible());
}

#[test]
fn game_over_sizes_are_held_between_their_bounds() {
    let mut e = engine();
    e.create_game_over_display(640, 300);
    let title = e.get_buffer("game_over_title").unwrap();
    assert_eq!(title.style.font_size, 50400);
    assert_eq!(title.style.line_height, 63000);
    let restart = e.get_buffer("game_over_restart").unwrap();
    assert_eq!(restart.style.font_size, 16800);
    assert_eq!(restart.style.line_height, 21000);
}

#[test]
fn game_over_visibility_without_a_display() {
    let mut e = engine();
    assert!(!e.is_game_over_visible());
    e.show_game_over_display();
    assert!(!e.is_game_over_visible());
    assert!(e.text_buffers.is_empty());
}

#[test]
fn game_over_position_follows_the_measured_texts() {
    let mut e = engine();
    e.create_game_over_display(1920, 1080);
    let title = TextMetrics { min_x: 0, width: 400000, height: 90000 };
    let restart = TextMetrics { min_x: 0, width: 300000, height: 30000 };
    assert_eq!(e.update_game_over_position(1920, 1080, title, restart), Ok(()));
    assert_eq!(
        e.get_buffer("game_over_title").unwrap().position,
        place(760000, 445000, Some(420000), Some(100000))
    );
    assert_eq!(
        e.get_buffer("game_over_restart").unwrap().position,
        place(810000, 580000, Some(320000), Some(40000))
    );
}

#[test]
fn game_over_position_fails_without_the_blocks() {
    let m = TextMetrics { min_x: 0, width: 1, height: 1 };
    let mut e = engine();
    assert_eq!(
        e.update_game_over_position(800, 600, m, m),
        Err("Text buffer 'game_over_title' not found".to_string())
    );
    e.create_text_buffer("game_over_title", "t", None, None);
    assert_eq!(
        e.update_game_over_position(800, 600, m, m),
        Err("Text buffer 'game_over_restart' not found".to_string())
    );
    assert_eq!(e.get_buffer("game_over_title").unwrap().position.x, 400000);
}

#[test]
fn game_over_text_follows_the_width_of_the_window() {
    let mut e = engine();
    e.create_game_over_display(1000, 1080);
    assert_eq!(TextRenderer::game_over_title_font(1000, 1080), (120000, 150000));
    assert_eq!(TextRenderer::game_over_restart_font(1000, 1080), (25000, 32500));
    let title = TextMetrics { min_x: 0, width: 600000, height: 150000 };
    let restart = TextMetrics { min_x: 0, width: 300000, height: 32000 };
    e.handle_game_over_text(1000, 1080, title, restart);
    let t = e.get_buffer("game_over_title").unwrap();
    assert_eq!((t.style.font_size, t.style.line_height), (120000, 150000));
    assert_eq!(t.position, place(200000, 405000, Some(640000), Some(170000)));
    let r = e.get_buffer("game_over_restart").unwrap();
    assert_eq!((r.style.font_size, r.style.line_height), (25000, 32500));
    assert_eq!(r.position, place(350000, 600000, Some(360000), Some(62000)));
}

#[test]
fn score_and_level_text_follow_the_width_of_the_window() {
    let mut e = engine();
    e.create_text_buffer("score", "Score: 0", None, None);
    assert_eq!(TextRenderer::score_font(1000, 1080), (22000, 27500));
    let m = TextMetrics { min_x: 0, width: 80000, height: 27000 };
    e.handle_score_and_level_text(1000, 1080, m, m);
    let s = e.get_buffer("score").unwrap();
    assert_eq!((s.style.font_size, s.style.line_height), (22000, 27500));
    assert_eq!(s.position, place(32000, 24000, Some(100000), Some(37000)));
    assert!(e.get_buffer("level").is_none());
    e.create_text_buffer("level", "Level: 1", None, None);
    e.handle_score_and_level_text(1000, 1080, m, m);
    let l = e.get_buffer("level").unwrap();
    assert_eq!(l.position, place(32000, 59500, Some(100000), Some(37000)));
}
