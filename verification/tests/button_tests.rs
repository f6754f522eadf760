use overlay_ui::button::{Button, ButtonMetrics};
use overlay_ui::button_manager::{ButtonManager, DrawStep, InputEvent, MouseButton};
use overlay_ui::button_styles::{
    create_danger_button_style, create_ghost_button_style, create_goldenrod_button_style,
    create_left_aligned_button_style, create_lobby_button_style, create_outline_button_style,
    create_primary_button_style, create_right_aligned_button_style,
    create_secondary_button_style, create_warning_button_style,
};
use overlay_ui::button_types::{
    ButtonAnchor, ButtonPosition, ButtonSpacing, ButtonState, ButtonStyle, TextAlign,
};
use overlay_ui::color::Color;
use overlay_ui::icon::IconDraw;
use overlay_ui::rectangle::{Rectangle, RectangleDraw};
use overlay_ui::text::{Slant, TextMetrics, TextPosition};
use overlay_ui::units::WindowSize;

const PRESS: InputEvent = InputEvent::MouseInput { pressed: true, button: MouseButton::Left };
const RELEASE: InputEvent = InputEvent::MouseInput { pressed: false, button: MouseButton::Left };

fn moved(x: i32, y: i32) -> InputEvent {
    InputEvent::CursorMoved { x, y }
}

fn extent(width: i32, height: i32) -> TextMetrics {
    TextMetrics { min_x: 0, width, height }
}

fn metrics() -> ButtonMetrics {
    ButtonMetrics::uniform(extent(60000, 20000), extent(50000, 14000), extent(150000, 30000))
}

fn styled(spacing: ButtonSpacing) -> ButtonStyle {
    let mut style = ButtonStyle::default();
    style.spacing = spacing;
    style
}

fn place(x: i32, y: i32, w: i32, h: i32) -> TextPosition {
    TextPosition { x, y, max_width: Some(w), max_height: Some(h) }
}

fn wrap_button(id: &str, x: i32, y: i32) -> Button {
    Button::new(id, "Go")
        .with_style(styled(ButtonSpacing::Wrap))
        .with_position(ButtonPosition::new(x, y, 0, 0))
        .with_metrics(metrics())
}

fn tall_button() -> Button {
    Button::new("slot", "Go")
        .with_style(styled(ButtonSpacing::Tall(500)))
        .with_position(ButtonPosition::new(100000, 50000, 200000, 0))
        .with_metrics(metrics())
}

fn manager() -> ButtonManager {
    ButtonManager::new(WindowSize { width: 1000, height: 200 })
}

#[test]
fn top_left_anchor_draws_from_the_coordinates() {
    let p = ButtonPosition::new(100000, 50000, 200000, 100000);
    assert_eq!(p.anchor, ButtonAnchor::TopLeft);
    assert_eq!(p.calculate_actual_position(), (100000, 50000));
}

#[test]
fn center_anchor_draws_from_half_the_size_before() {
    let p = ButtonPosition::new(100000, 50000, 200000, 100000).with_anchor(ButtonAnchor::Center);
    assert_eq!(p.calculate_actual_position(), (0, 0));
    let odd = ButtonPosition::new(10, 10, 3, 5).with_anchor(ButtonAnchor::Center);
    assert_eq!(odd.calculate_actual_position(), (9, 8));
    let far = ButtonPosition::new(i32::MIN, i32::MAX, i32::MAX, i32::MIN)
        .with_anchor(ButtonAnchor::Center);
    assert_eq!(
        far.calculate_actual_position(),
        (i32::MIN as i64 - 1073741823, i32::MAX as i64 + 1073741824)
    );
}

#[test]
fn defaults_of_the_enums() {
    assert_eq!(TextAlign::default(), TextAlign::Center);
    assert_eq!(ButtonAnchor::default(), ButtonAnchor::Center);
}

#[test]
fn default_style() {
    let s = ButtonStyle::default();
    assert_eq!(s.background_color, Color::rgb(55, 65, 81));
    assert_eq!(s.hover_color, Color::rgb(71, 85, 105));
    assert_eq!(s.pressed_color, Color::rgb(30, 41, 59));
    assert_eq!(s.disabled_color, Color::rgb(148, 163, 184));
    assert_eq!(s.border_color, Color::rgb(71, 85, 105));
    assert_eq!((s.border_width, s.corner_radius), (1000, 8000));
    assert_eq!(s.padding, (16000, 8000));
    assert_eq!(s.text_style.font_family, "HankenGrotesk");
    assert_eq!((s.text_style.font_size, s.text_style.line_height), (18000, 20000));
    assert_eq!(s.text_style.color, Color::rgb(248, 250, 252));
    assert_eq!(s.text_style.weight, 500);
    assert_eq!(s.text_style.style, Slant::Normal);
    assert_eq!(s.text_align, TextAlign::Center);
    assert_eq!(s.spacing, ButtonSpacing::Hbar(300));
}

#[test]
fn ready_made_styles() {
    let p = create_primary_button_style();
    assert_eq!(p.background_color, Color::rgb(30, 110, 30));
    assert_eq!(p.hover_color, Color::rgb(25, 85, 25));
    assert_eq!(p.pressed_color, Color::rgb(20, 65, 20));
    assert_eq!(p.disabled_color, Color::rgb(110, 140, 110));
    assert_eq!(p.border_color, Color::rgb(25, 85, 25));
    assert_eq!(p.padding, (16000, 10000));
    assert_eq!(p.text_style.color, Color::rgb(255, 255, 255));
    assert_eq!(p.spacing, ButtonSpacing::Hbar(300));
    let w = create_warning_button_style();
    assert_eq!(w.background_color, Color::rgb(170, 100, 10));
    assert_eq!(w.disabled_color, Color::rgb(160, 140, 115));
    assert_eq!(create_goldenrod_button_style(), w);
    let d = create_danger_button_style();
    assert_eq!(d.background_color, Color::rgb(110, 20, 10));
    assert_eq!(d.pressed_color, Color::rgb(70, 10, 0));
    assert_eq!(create_lobby_button_style(), d);
    let s = create_secondary_button_style();
    assert_eq!(s.background_color, Color::rgb(248, 250, 252));
    assert_eq!(s.text_style.color, Color::rgb(30, 41, 59));
    let o = create_outline_button_style();
    assert_eq!(o.background_color, Color::rgba(0, 0, 0, 0));
    assert_eq!(o.border_color, Color::rgb(203, 213, 225));
    assert_eq!(o.border_width, 1000);
    let g = create_ghost_button_style();
    assert_eq!(g.border_color, Color::rgba(0, 0, 0, 0));
    assert_eq!(g.border_width, 0);
    assert_eq!(g.text_style.color, Color::rgb(55, 65, 81));
    assert_eq!(create_left_aligned_button_style().text_align, TextAlign::Left);
    assert_eq!(create_right_aligned_button_style().text_align, TextAlign::Right);
    assert_eq!(create_right_aligned_button_style().background_color, s.background_color);
}

#[test]
fn a_new_button() {
    let b = Button::new("ok", "OK");
    assert_eq!(b.id, "ok");
    assert_eq!(b.text, "OK");
    assert_eq!(b.text_id, "button_ok");
    assert_eq!(b.style, ButtonStyle::default());
    assert_eq!(b.position, ButtonPosition::new(0, 0, 200000, 50000));
    assert!(b.enabled && b.visible);
    assert_eq!(b.state, ButtonState::Normal);
    assert_eq!(b.level_text_id, None);
    assert_eq!(b.tooltip_text_id, None);
    assert_eq!(b.metrics, ButtonMetrics::none());
}

#[test]
fn builders_change_one_thing() {
    let b = Button::new("ok", "OK")
        .with_style(create_danger_button_style())
        .with_text_align(TextAlign::Right)
        .with_level_text()
        .with_tooltip_text()
        .with_position(ButtonPosition::new(1, 2, 3, 4).with_anchor(ButtonAnchor::Center));
    assert_eq!(b.style.background_color, Color::rgb(110, 20, 10));
    assert_eq!(b.style.text_align, TextAlign::Right);
    assert_eq!(b.level_text_id, Some("level_ok".to_string()));
    assert_eq!(b.tooltip_text_id, Some("tooltip_ok".to_string()));
    assert_eq!(b.position.anchor, ButtonAnchor::Center);
    assert_eq!((b.position.x, b.position.y, b.position.width, b.position.height), (1, 2, 3, 4));
    assert_eq!(b.text_id, "button_ok");
}

#[test]
fn contains_point_takes_the_edges_in() {
    let b = Button::new("a", "A").with_position(ButtonPosition::new(100000, 50000, 200000, 100000));
    assert!(b.contains_point(100000, 50000));
    assert!(b.contains_point(300000, 150000));
    assert!(b.contains_point(200000, 100000));
    assert!(!b.contains_point(99999, 100000));
    assert!(!b.contains_point(300001, 100000));
    assert!(!b.contains_point(200000, 49999));
    assert!(!b.contains_point(200000, 150001));
}

#[test]
fn contains_point_uses_the_anchored_bounds() {
    let b = Button::new("a", "A").with_position(
        ButtonPosition::new(100000, 50000, 200000, 100000).with_anchor(ButtonAnchor::Center),
    );
    assert!(b.contains_point(0, 0));
    assert!(b.contains_point(200000, 100000));
    assert!(!b.contains_point(200001, 100000));
    assert!(!b.contains_point(-1, 50000));
}

#[test]
fn hidden_or_disabled_buttons_contain_no_point() {
    let mut b = Button::new("a", "A").with_position(ButtonPosition::new(0, 0, 100, 100));
    assert!(b.contains_point(50, 50));
    b.set_visible(false);
    assert!(!b.contains_point(50, 50));
    b.set_visible(true);
    b.enabled = false;
    assert!(!b.contains_point(50, 50));
    assert_eq!(b.state_under((50, 50), true), ButtonState::Disabled);
}

#[test]
fn state_follows_the_pointer() {
    let b = Button::new("a", "A").with_position(ButtonPosition::new(0, 0, 100, 100));
    assert_eq!(b.state_under((50, 50), false), ButtonState::Hover);
    assert_eq!(b.state_under((50, 50), true), ButtonState::Pressed);
    assert_eq!(b.state_under((500, 50), true), ButtonState::Normal);
    assert_eq!(b.state_under((500, 50), false), ButtonState::Normal);
}

#[test]
fn text_style_per_state() {
    let b = Button::new("a", "A");
    let normal = b.label_style(ButtonState::Normal);
    assert_eq!(normal.color, Color::rgb(35, 42, 52));
    assert_eq!(normal.weight, 500);
    assert_eq!((normal.font_size, normal.line_height), (18000, 20000));
    let hover = b.label_style(ButtonState::Hover);
    assert_eq!(hover.color, Color::rgb(54, 82, 122));
    assert_eq!(hover.weight, 700);
    assert_eq!((hover.font_size, hover.line_height), (18000, 20000));
    let pressed = b.label_style(ButtonState::Pressed);
    assert_eq!(pressed.color, Color::rgb(56, 71, 94));
    assert_eq!(pressed.weight, 500);
    let disabled = b.label_style(ButtonState::Disabled);
    assert_eq!(disabled.color, Color::rgb(100, 116, 139));
    assert_eq!(disabled.weight, 400);
    assert_eq!(b.hidden_text_style().color, Color::rgba(0, 0, 0, 0));
}

#[test]
fn tall_buttons_grow_their_texts() {
    let b = tall_button();
    let hover = b.label_style(ButtonState::Hover);
    assert_eq!((hover.font_size, hover.line_height), (21600, 24000));
    let pressed = b.label_style(ButtonState::Pressed);
    assert_eq!((pressed.font_size, pressed.line_height), (19800, 22000));
    let level = b.level_style(ButtonState::Hover);
    assert_eq!((level.font_size, level.line_height), (15120, 16800));
    assert_eq!(level.style, Slant::Italic);
    let tooltip = b.tooltip_style(ButtonState::Normal);
    assert_eq!((tooltip.font_size, tooltip.line_height), (10800, 11340));
    assert_eq!(tooltip.style, Slant::Normal);
    let measure = b.level_measure_style();
    assert_eq!((measure.font_size, measure.line_height), (12600, 14000));
    assert_eq!(measure.style, Slant::Italic);
    let measure = b.tooltip_measure_style();
    assert_eq!((measure.font_size, measure.line_height), (9900, 10395));
}

#[test]
fn wrap_button_fits_its_label() {
    let mut m = manager();
    m.add_button(wrap_button("a", 10000, 10000));
    let b = &m.buttons[0];
    assert_eq!((b.position.width, b.position.height), (92000, 36000));
    let label = m.text_renderer.get_buffer("button_a").unwrap();
    assert_eq!(label.text_content, "Go");
    assert_eq!(label.position, place(26000, 18000, 60000, 20000));
}

#[test]
fn hbar_button_takes_a_share_of_the_window_width() {
    let mut m = manager();
    m.add_button(
        Button::new("a", "Go")
            .with_position(ButtonPosition::new(500000, 100000, 1, 1).with_anchor(ButtonAnchor::Center))
            .with_metrics(metrics()),
    );
    let b = &m.buttons[0];
    assert_eq!((b.position.width, b.position.height), (300000, 36000));
    let label = m.text_renderer.get_buffer("button_a").unwrap();
    assert_eq!(label.position, place(470000, 90000, 268000, 20000));
}

#[test]
fn a_wrapping_widget_is_padded_on_each_axis_by_the_padding_of_that_axis() {
    let mut m = manager();
    let mut style = styled(ButtonSpacing::Wrap);
    style.padding = (2000, 6000);
    m.add_button(
        Button::new("a", "Go")
            .with_style(style)
            .with_position(ButtonPosition::new(0, 0, 0, 0))
            .with_metrics(metrics()),
    );
    let b = &m.buttons[0];
    assert_eq!((b.position.width, b.position.height), (64000, 32000));
    let label = m.text_renderer.get_buffer("button_a").unwrap();
    assert_eq!(label.position, place(2000, 6000, 60000, 20000));
}

#[test]
fn alignment_places_the_label() {
    let mut m = manager();
    let hbar = |id: &str, align: TextAlign| {
        Button::new(id, "Go")
            .with_position(ButtonPosition::new(0, 0, 1, 1))
            .with_metrics(metrics())
            .with_text_align(align)
    };
    m.add_button(hbar("l", TextAlign::Left));
    m.add_button(hbar("r", TextAlign::Right));
    m.add_button(hbar("c", TextAlign::Center));
    assert_eq!(m.text_renderer.get_buffer("button_l").unwrap().position.x, 16000);
    assert_eq!(m.text_renderer.get_buffer("button_r").unwrap().position.x, 224000);
    assert_eq!(m.text_renderer.get_buffer("button_c").unwrap().position.x, 120000);
}

#[test]
fn tall_button_takes_a_share_of_the_window_height() {
    let mut m = manager();
    m.add_button(tall_button());
    let b = &m.buttons[0];
    assert_eq!((b.position.width, b.position.height), (200000, 100000));
    let mut narrow = tall_button();
    narrow.id = "narrow".to_string();
    narrow.position.width = 0;
    m.add_button(narrow);
    assert_eq!(m.buttons[1].position.width, 92000);
}

#[test]
fn texts_are_created_without_colour_and_revealed_by_the_first_update() {
    let mut m = manager();
    m.add_button(tall_button().with_level_text().with_tooltip_text());
    let transparent = Color::rgba(0, 0, 0, 0);
    let label = m.text_renderer.get_buffer("button_slot").unwrap();
    assert_eq!(label.style.color, transparent);
    assert_eq!(label.position, place(170000, 58000, 168000, 84000));
    let level = m.text_renderer.get_buffer("level_slot").unwrap();
    assert_eq!(level.text_content, "Level 1");
    assert_eq!(level.style.color, transparent);
    assert_eq!((level.style.font_size, level.style.line_height), (12600, 14000));
    assert_eq!(level.style.style, Slant::Italic);
    assert_eq!(level.position, place(175000, 105000, 168000, 14000));
    let tooltip = m.text_renderer.get_buffer("tooltip_slot").unwrap();
    assert!(tooltip.text_content.starts_with("This is a place to describe an upgrade"));
    assert_eq!(tooltip.style.color, transparent);
    assert_eq!((tooltip.style.font_size, tooltip.style.line_height), (9900, 10395));
    assert_eq!(tooltip.position, place(126000, 118000, 148000, 28000));
    assert!(m.reveal_pending);
    m.update_button_states();
    assert!(!m.reveal_pending);
    let revealed = Color::rgb(35, 42, 52);
    assert_eq!(m.text_renderer.get_buffer("button_slot").unwrap().style.color, revealed);
    assert_eq!(m.text_renderer.get_buffer("level_slot").unwrap().style.color, revealed);
    assert_eq!(m.text_renderer.get_buffer("tooltip_slot").unwrap().style.color, revealed);
    assert_eq!(
        m.text_renderer.get_buffer("button_slot").unwrap().position,
        place(170000, 58000, 168000, 20000)
    );
}

#[test]
fn adding_a_button_again_replaces_it_in_place() {
    let mut m = manager();
    m.add_button(wrap_button("a", 0, 0));
    m.add_button(wrap_button("b", 0, 0));
    let mut again = wrap_button("a", 5000, 0);
    again.text = "Again".to_string();
    m.add_button(again);
    assert_eq!(m.buttons.len(), 2);
    assert_eq!(m.buttons[0].id, "a");
    assert_eq!(m.buttons[0].text, "Again");
    assert_eq!(m.buttons[1].id, "b");
    assert_eq!(m.text_renderer.text_buffers.len(), 2);
    assert_eq!(m.text_renderer.get_buffer("button_a").unwrap().text_content, "Again");
    assert_eq!(m.find("b"), Some(1));
    assert_eq!(m.find("c"), None);
}

#[test]
fn states_are_not_derived_again_for_the_same_pointer() {
    let mut m = manager();
    m.add_button(wrap_button("a", 10000, 10000));
    m.handle_input(&moved(20000, 20000));
    assert_eq!(m.buttons[0].state, ButtonState::Hover);
    m.buttons[0].state = ButtonState::Normal;
    m.update_button_states();
    assert_eq!(m.buttons[0].state, ButtonState::Normal);
    m.handle_input(&moved(20000, 20001));
    assert_eq!(m.buttons[0].state, ButtonState::Hover);
    assert_eq!(m.last_mouse_position, (20000, 20001));
}

#[test]
fn press_and_release_inside_is_one_click() {
    let mut m = manager();
    m.add_button(wrap_button("a", 10000, 10000));
    m.add_button(wrap_button("b", 200000, 10000));
    m.handle_input(&moved(20000, 20000));
    assert_eq!(m.buttons[0].state, ButtonState::Hover);
    assert_eq!(m.buttons[1].state, ButtonState::Normal);
    m.handle_input(&PRESS);
    assert_eq!(m.buttons[0].state, ButtonState::Pressed);
    assert_eq!(m.just_clicked, None);
    m.handle_input(&RELEASE);
    assert_eq!(m.buttons[0].state, ButtonState::Hover);
    assert_eq!(m.just_clicked, Some("a".to_string()));
    assert!(!m.is_button_clicked("b"));
    assert!(m.is_button_clicked("a"));
    assert!(!m.is_button_clicked("a"));
    assert_eq!(m.just_clicked, None);
}

#[test]
fn press_inside_and_release_outside_is_no_click() {
    let mut m = manager();
    m.add_button(wrap_button("a", 10000, 10000));
    m.handle_input(&moved(20000, 20000));
    m.handle_input(&PRESS);
    assert_eq!(m.buttons[0].state, ButtonState::Pressed);
    m.handle_input(&moved(500000, 150000));
    assert_eq!(m.buttons[0].state, ButtonState::Normal);
    m.handle_input(&RELEASE);
    assert!(!m.is_button_clicked("a"));
    assert_eq!(m.just_clicked, None);
}

#[test]
fn only_the_left_button_counts() {
    let mut m = manager();
    m.add_button(wrap_button("a", 10000, 10000));
    m.handle_input(&moved(20000, 20000));
    m.handle_input(&InputEvent::MouseInput { pressed: true, button: MouseButton::Right });
    assert_eq!(m.buttons[0].state, ButtonState::Hover);
    assert!(!m.mouse_pressed);
    m.handle_input(&InputEvent::MouseInput { pressed: false, button: MouseButton::Middle });
    m.handle_input(&InputEvent::Other);
    assert!(!m.is_button_clicked("a"));
}

#[test]
fn the_topmost_pressed_button_takes_the_click() {
    let mut m = manager();
    m.add_button(wrap_button("under", 10000, 10000));
    m.add_button(wrap_button("over", 30000, 10000));
    m.handle_input(&moved(40000, 20000));
    m.handle_input(&PRESS);
    assert_eq!(m.buttons[0].state, ButtonState::Pressed);
    assert_eq!(m.buttons[1].state, ButtonState::Pressed);
    m.handle_input(&RELEASE);
    assert!(m.is_button_clicked("over"));
    assert!(!m.is_button_clicked("under"));
}

#[test]
fn a_button_out_of_use_is_disabled_and_its_text_hidden() {
    let mut m = manager();
    m.add_button(wrap_button("a", 10000, 10000));
    m.update_button_states();
    m.get_button_mut("a").unwrap().enabled = false;
    assert!(m.get_button_mut("b").is_none());
    m.handle_input(&moved(20000, 20000));
    assert_eq!(m.buttons[0].state, ButtonState::Disabled);
    assert_eq!(
        m.text_renderer.get_buffer("button_a").unwrap().style.color,
        Color::rgba(0, 0, 0, 0)
    );
    m.handle_input(&PRESS);
    m.handle_input(&RELEASE);
    assert!(!m.is_button_clicked("a"));
    m.render();
    assert_eq!(m.rectangle_renderer.rectangles[0].color, Color::rgb(148, 163, 184));
    m.buttons[0].enabled = true;
    m.handle_input(&moved(20000, 20001));
    assert_eq!(m.buttons[0].state, ButtonState::Hover);
    assert_eq!(
        m.text_renderer.get_buffer("button_a").unwrap().style.color,
        Color::rgb(54, 82, 122)
    );
}

#[test]
fn a_tall_button_grows_about_its_middle_under_the_pointer() {
    let mut m = manager();
    m.add_button(tall_button());
    m.update_button_states();
    m.render();
    assert_eq!(
        m.rectangle_renderer.rectangles,
        vec![Rectangle {
            x: 100000,
            y: 50000,
            width: 200000,
            height: 100000,
            color: Color::rgb(55, 65, 81),
            corner_radius: 8000,
        }]
    );
    m.handle_input(&moved(150000, 60000));
    assert_eq!(m.buttons[0].state, ButtonState::Hover);
    m.render();
    let r = m.rectangle_renderer.rectangles[0];
    assert_eq!((r.width, r.height), (220000, 110000));
    assert_eq!((r.x, r.y), (90000, 45000));
    assert_eq!((r.x + r.width / 2, r.y + r.height / 2), (200000, 100000));
    assert_eq!(r.color, Color::rgb(71, 85, 105));
    assert_eq!(r.corner_radius, 8800);
    assert_eq!((m.buttons[0].position.width, m.buttons[0].position.height), (200000, 100000));
    m.handle_input(&PRESS);
    m.render();
    let r = m.rectangle_renderer.rectangles[0];
    assert_eq!((r.x, r.y, r.width, r.height), (95000, 47500, 210000, 105000));
    assert_eq!(r.color, Color::rgb(30, 41, 59));
}

#[test]
fn the_texts_of_a_tall_button_move_away_from_its_middle() {
    let mut m = manager();
    m.add_button(tall_button().with_level_text().with_tooltip_text());
    m.handle_input(&moved(150000, 60000));
    let label = m.text_renderer.get_buffer("button_slot").unwrap();
    assert_eq!((label.style.font_size, label.style.line_height), (21600, 24000));
    assert_eq!(label.style.weight, 700);
    assert_eq!(label.position, place(167000, 53800, 184800, 22000));
    let level = m.text_renderer.get_buffer("level_slot").unwrap();
    assert_eq!((level.style.font_size, level.style.line_height), (15120, 16800));
    assert_eq!(level.position, place(172500, 105500, 184800, 15400));
    let tooltip = m.text_renderer.get_buffer("tooltip_slot").unwrap();
    assert_eq!((tooltip.style.font_size, tooltip.style.line_height), (12960, 13608));
    assert_eq!(tooltip.position, place(118600, 119800, 164800, 30800));
}

#[test]
fn a_tall_button_has_an_icon_that_grows_with_it() {
    let mut m = manager();
    m.add_button(tall_button());
    m.add_button(wrap_button("plain", 0, 0));
    m.update_button_states();
    assert_eq!(m.icon_renderer.icons.len(), 1);
    let icon = &m.icon_renderer.icons[0];
    assert_eq!((icon.x, icon.y, icon.width, icon.height), (180000, 100000, 40000, 40000));
    assert_eq!(icon.texture_id, "blank_icon");
    m.handle_input(&moved(150000, 60000));
    let icon = &m.icon_renderer.icons[0];
    assert_eq!((icon.x, icon.y, icon.width, icon.height), (178000, 100000, 44000, 44000));
    m.buttons[0].set_visible(false);
    m.update_icon_positions();
    assert!(m.icon_renderer.icons.is_empty());
}

#[test]
fn layout_centres_the_label_and_fits_the_height() {
    let mut m = manager();
    let mut b = wrap_button("a", 10000, 10000).with_level_text().with_tooltip_text();
    b.metrics.label = extent(60000, 30000);
    m.add_button(b);
    assert_eq!(m.buttons[0].position.height, 46000);
    m.buttons[0].metrics.label = extent(50000, 20000);
    m.update_button_positions();
    assert_eq!(
        m.text_renderer.get_buffer("button_a").unwrap().position,
        place(31000, 23000, 60000, 20000)
    );
    assert_eq!(
        m.text_renderer.get_buffer("level_a").unwrap().position,
        place(31000, 34000, 50000, 14000)
    );
    assert_eq!(
        m.text_renderer.get_buffer("tooltip_a").unwrap().position,
        place(36000, 18000, 40000, 12880)
    );
    assert_eq!(m.buttons[0].position.height, 36000);
    assert_eq!(m.buttons[0].position.width, 92000);
}

#[test]
fn a_resize_event_lays_the_widgets_out_again() {
    let mut m = manager();
    m.add_button(wrap_button("a", 10000, 10000));
    m.buttons[0].metrics.label = extent(60000, 50000);
    m.handle_input(&InputEvent::Resized { width: 640, height: 480 });
    assert_eq!(m.window_size, WindowSize { width: 640, height: 480 });
    assert_eq!(m.buttons[0].position.height, 66000);
    assert_eq!(
        m.text_renderer.get_buffer("button_a").unwrap().position,
        place(26000, 3000, 60000, 50000)
    );
}

#[test]
fn a_frame_is_drawn_in_a_fixed_order() {
    let mut m = manager();
    m.icon_renderer.load_texture("blank_icon");
    m.container_rect = Some(Rectangle::new(1, 2, 3, 4, Color::rgb(102, 102, 102)));
    m.add_button(tall_button());
    m.add_button(wrap_button("hidden", 0, 0));
    m.buttons[1].set_visible(false);
    m.update_button_states();
    let steps = m.render();
    assert_eq!(
        steps,
        vec![
            DrawStep::Rectangles(RectangleDraw::Batch { rebuilt: true, index_count: 12 }),
            DrawStep::Icons(IconDraw { cache_index: 0, rebuilt: true, index_count: 6 }),
            DrawStep::Text,
        ]
    );
    assert_eq!(m.rectangle_renderer.rectangles.len(), 2);
    assert_eq!(m.rectangle_renderer.rectangles[0], Rectangle::new(1, 2, 3, 4, Color::rgb(102, 102, 102)));
    assert_eq!(m.rectangle_renderer.rectangles[1].x, 100000);
    let steps = m.render();
    assert_eq!(
        steps,
        vec![
            DrawStep::Rectangles(RectangleDraw::Batch { rebuilt: true, index_count: 12 }),
            DrawStep::Icons(IconDraw { cache_index: 0, rebuilt: false, index_count: 6 }),
            DrawStep::Text,
        ]
    );
}

#[test]
fn a_frame_without_widgets() {
    let mut m = manager();
    assert_eq!(m.render(), vec![DrawStep::Rectangles(RectangleDraw::Nothing), DrawStep::Text]);
    assert!(m.prepare().is_empty());
}

#[test]
fn resize_tells_the_batchers() {
    let mut m = manager();
    m.resize(640, 480);
    assert_eq!((m.rectangle_renderer.window_width, m.rectangle_renderer.window_height), (640, 480));
    assert_eq!((m.icon_renderer.window_width, m.icon_renderer.window_height), (640, 480));
    assert_eq!(m.window_size, WindowSize { width: 1000, height: 200 });
}

#[test]
fn prepare_lists_the_texts_of_the_widgets() {
    let mut m = manager();
    m.add_button(wrap_button("a", 10000, 10000));
    let areas = m.prepare();
    assert_eq!(areas.len(), 1);
    assert_eq!(areas[0].buffer_index, 0);
    assert_eq!((areas[0].left, areas[0].top), (26000, 18000));
    assert_eq!((areas[0].bounds.left, areas[0].bounds.right), (26, 86));
    assert_eq!((areas[0].bounds.top, areas[0].bounds.bottom), (18, 38));
}
