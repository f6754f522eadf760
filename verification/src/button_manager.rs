//! The widget manager: it owns the widgets and the engines they share, turns
//! input into states, states into styles and places, and says what is drawn
//! in which order.

use vstd::prelude::*;
use crate::button::{Button, ButtonView, LEVEL_TEXT, TOOLTIP_TEXT};
use crate::button_types::ButtonState;
use crate::color::Color;
use crate::icon::{IconDraw, IconRenderer, IconRendererView, IconView, icon_views};
use crate::keys::{
    distinct, has_key, index_of, lemma_index_of_bounds, lemma_index_of_is,
    lemma_with_key_distinct, with_key,
};
use crate::rectangle::{Rectangle, RectangleDraw, RectangleRenderer, RectangleRendererView};
use crate::text::{
    lemma_buffer_put_keeps_names, visible_areas, TextArea, TextRenderer, TextRendererView,
    TextStyleView,
};
use crate::units::WindowSize;

verus! {

/// A button of the pointing device.
#[derive(Clone, Copy, Debug, PartialEq, Eq, Structural)]
pub enum MouseButton {
    Left,
    Right,
    Middle,
    Other,
}

/// What the window reports.
#[derive(Clone, Copy, Debug, PartialEq, Eq, Structural)]
pub enum InputEvent {
    /// A button of the pointing device went down or up.
    MouseInput { pressed: bool, button: MouseButton },
    /// The pointer moved to a place, in units.
    CursorMoved { x: i32, y: i32 },
    /// The window took a new size, in pixels.
    Resized { width: u32, height: u32 },
    /// Anything else.
    Other,
}

/// One step of drawing a frame.
#[derive(Clone, Copy, Debug, PartialEq, Eq, Structural)]
pub enum DrawStep {
    /// The backgrounds of the widgets.
    Rectangles(RectangleDraw),
    /// The icons of one texture.
    Icons(IconDraw),
    /// All prepared text.
    Text,
}

/// The widget manager.
#[derive(Debug)]
pub struct ButtonManager {
    /// The widgets, in the order in which their names first came; this is
    /// the order in which they are drawn.
    pub buttons: Vec<Button>,
    pub text_renderer: TextRenderer,
    pub rectangle_renderer: RectangleRenderer,
    pub icon_renderer: IconRenderer,
    pub window_size: WindowSize,
    pub mouse_position: (i32, i32),
    pub mouse_pressed: bool,
    /// The widget that was clicked and not yet asked for.
    pub just_clicked: Option<String>,
    /// A rectangle drawn behind all widgets.
    pub container_rect: Option<Rectangle>,
    /// The pointer as the states were last derived from it.
    pub last_mouse_position: (i32, i32),
    pub last_mouse_pressed: bool,
    /// Whether a widget was added whose texts still wait for the colour of
    /// its state.
    pub reveal_pending: bool,
}

/// A `ButtonManager` as sequences.
pub struct ButtonManagerView {
    pub buttons: Seq<ButtonView>,
    pub text_renderer: TextRendererView,
    pub rectangle_renderer: RectangleRendererView,
    pub icon_renderer: IconRendererView,
    pub window_size: WindowSize,
    pub mouse_position: (i32, i32),
    pub mouse_pressed: bool,
    pub just_clicked: Option<Seq<char>>,
    pub container_rect: Option<Rectangle>,
    pub last_mouse_position: (i32, i32),
    pub last_mouse_pressed: bool,
    pub reveal_pending: bool,
}

/// The views of a list of widgets.
pub open spec fn button_views(buttons: Seq<Button>) -> Seq<ButtonView> {
    buttons.map_values(|b: Button| b@)
}

impl View for ButtonManager {
    type V = ButtonManagerView;

    open spec fn view(&self) -> ButtonManagerView {
        ButtonManagerView {
            buttons: button_views(self.buttons@),
            text_renderer: self.text_renderer@,
            rectangle_renderer: self.rectangle_renderer@,
            icon_renderer: self.icon_renderer@,
            window_size: self.window_size,
            mouse_position: self.mouse_position,
            mouse_pressed: self.mouse_pressed,
            just_clicked: crate::button::name_view(self.just_clicked),
            container_rect: self.container_rect,
            last_mouse_position: self.last_mouse_position,
            last_mouse_pressed: self.last_mouse_pressed,
            reveal_pending: self.reveal_pending,
        }
    }
}

/// The names of a list of widgets, in order.
pub open spec fn button_ids(buttons: Seq<ButtonView>) -> Seq<Seq<char>> {
    buttons.map_values(|b: ButtonView| b.id)
}

/// The place of the widget named `id`, or the length of the list.
pub open spec fn find_button(buttons: Seq<ButtonView>, id: Seq<char>) -> int {
    index_of(button_ids(buttons), id)
}

/// Whether a widget is named `id`.
pub open spec fn has_button(buttons: Seq<ButtonView>, id: Seq<char>) -> bool {
    has_key(button_ids(buttons), id)
}

/// The list with a widget put in place of the one of its name, or at the
/// end where there was none.
pub open spec fn with_button(buttons: Seq<ButtonView>, button: ButtonView) -> Seq<ButtonView> {
    let i = find_button(buttons, button.id);
    if i < buttons.len() {
        buttons.update(i, button)
    } else {
        buttons.push(button)
    }
}

/// A style without colour.
pub open spec fn colorless(style: TextStyleView) -> TextStyleView {
    TextStyleView { color: Color { r: 0, g: 0, b: 0, a: 0 }, ..style }
}

/// The engine with the text blocks of a widget that is added: the label,
/// then the secondary label and the tooltip where the widget has them, all
/// without colour until the widget's state is first derived.
pub open spec fn text_with_button(text: TextRendererView, b: ButtonView) -> TextRendererView {
    let labelled = text.created(
        b.text_id,
        b.text,
        Some(b.hidden_style()),
        Some(b.initial_label_position()),
    );
    let levelled = match b.level_text_id {
        Some(id) => labelled.created(
            id,
            LEVEL_TEXT@,
            Some(colorless(b.level_base_style())),
            Some(b.initial_level_position()),
        ),
        None => labelled,
    };
    match b.tooltip_text_id {
        Some(id) => levelled.created(
            id,
            TOOLTIP_TEXT@,
            Some(colorless(b.tooltip_base_style())),
            Some(b.initial_tooltip_position()),
        ),
        None => levelled,
    }
}

/// The engine with the texts of a widget hidden.
pub open spec fn text_hidden(text: TextRendererView, b: ButtonView) -> TextRendererView {
    let labelled = text.restyled(b.text_id, b.hidden_style());
    let levelled = match b.level_text_id {
        Some(id) => labelled.restyled(id, b.hidden_style()),
        None => labelled,
    };
    match b.tooltip_text_id {
        Some(id) => levelled.restyled(id, b.hidden_style()),
        None => levelled,
    }
}

/// The engine with the texts of a widget in the style of the widget's
/// state, and, for a tall widget, in the places of that state.
pub open spec fn text_in_state(text: TextRendererView, b: ButtonView) -> TextRendererView {
    let labelled = text.restyled(b.text_id, b.label_style_in(b.state));
    let levelled = match b.level_text_id {
        Some(id) => labelled.restyled(id, b.level_style_in(b.state)),
        None => labelled,
    };
    let styled = match b.tooltip_text_id {
        Some(id) => levelled.restyled(id, b.tooltip_style_in(b.state)),
        None => levelled,
    };
    if b.style.spacing.is_tall() {
        let placed = styled.repositioned(b.text_id, b.tall_label_position());
        let level_placed = match b.level_text_id {
            Some(id) => placed.repositioned(id, b.tall_level_position()),
            None => placed,
        };
        match b.tooltip_text_id {
            Some(id) => level_placed.repositioned(id, b.tall_tooltip_position()),
            None => level_placed,
        }
    } else {
        styled
    }
}

/// A widget in the state that the pointer puts it in.
pub open spec fn restated(b: ButtonView, mouse: (i32, i32), pressed: bool) -> ButtonView {
    ButtonView { state: b.next_state(mouse, pressed), ..b }
}

/// The engine after the state of one widget was derived. The texts of a
/// widget that went out of use are hidden; those of a widget that changed
/// its state, or that waits for its first colours, are styled for the new
/// state; those of any other widget are left alone.
pub open spec fn text_after_state(
    text: TextRendererView,
    b: ButtonView,
    mouse: (i32, i32),
    pressed: bool,
    reveal: bool,
) -> TextRendererView {
    let next = b.next_state(mouse, pressed);
    if !b.visible || !b.enabled {
        if b.state != ButtonState::Disabled {
            text_hidden(text, b)
        } else {
            text
        }
    } else if b.state == next && !reveal {
        text
    } else {
        text_in_state(text, restated(b, mouse, pressed))
    }
}

/// The engine after the states of the first `n` widgets were derived.
pub open spec fn text_after_states(
    text: TextRendererView,
    buttons: Seq<ButtonView>,
    mouse: (i32, i32),
    pressed: bool,
    reveal: bool,
    n: int,
) -> TextRendererView
    decreases n,
{
    if n <= 0 {
        text
    } else {
        text_after_state(
            text_after_states(text, buttons, mouse, pressed, reveal, n - 1),
            buttons[n - 1],
            mouse,
            pressed,
            reveal,
        )
    }
}

/// The engine with the texts of a widget in their places after a layout.
pub open spec fn text_laid_out(text: TextRendererView, b: ButtonView) -> TextRendererView {
    let placed = text.repositioned(b.text_id, b.laid_label_position());
    let level_placed = match b.level_text_id {
        Some(id) => placed.repositioned(id, b.laid_level_position()),
        None => placed,
    };
    match b.tooltip_text_id {
        Some(id) => level_placed.repositioned(id, b.laid_tooltip_position()),
        None => level_placed,
    }
}

/// The engine after the first `n` widgets were laid out.
pub open spec fn text_after_layout(text: TextRendererView, buttons: Seq<ButtonView>, n: int) -> TextRendererView
    decreases n,
{
    if n <= 0 {
        text
    } else {
        text_laid_out(text_after_layout(text, buttons, n - 1), buttons[n - 1])
    }
}

/// A widget with the height it has after a layout.
pub open spec fn laid_out(b: ButtonView) -> ButtonView {
    ButtonView {
        position: crate::button_types::ButtonPosition { height: b.laid_height(), ..b.position },
        ..b
    }
}

/// The icons of the first `n` widgets: one for each that is visible and
/// tall.
pub open spec fn icons_of(buttons: Seq<ButtonView>, n: int) -> Seq<IconView>
    decreases n,
{
    if n <= 0 {
        Seq::empty()
    } else {
        let before = icons_of(buttons, n - 1);
        if buttons[n - 1].visible && buttons[n - 1].style.spacing.is_tall() {
            before.push(buttons[n - 1].icon())
        } else {
            before
        }
    }
}

/// The rectangles of the first `n` widgets, behind them the rectangles
/// `before`: one for each widget that is visible.
pub open spec fn rectangles_of(before: Seq<Rectangle>, buttons: Seq<ButtonView>, n: int) -> Seq<
    Rectangle,
>
    decreases n,
{
    if n <= 0 {
        before
    } else {
        let earlier = rectangles_of(before, buttons, n - 1);
        if buttons[n - 1].visible {
            earlier.push(buttons[n - 1].drawn_rectangle())
        } else {
            earlier
        }
    }
}

/// The topmost of the first `n` widgets that is in use and pressed: the
/// last of them in drawing order.
pub open spec fn pressed_among(buttons: Seq<ButtonView>, n: int) -> Option<int>
    decreases n,
{
    if n <= 0 {
        None
    } else if buttons[n - 1].visible && buttons[n - 1].enabled && buttons[n - 1].state
        == ButtonState::Pressed {
        Some(n - 1)
    } else {
        pressed_among(buttons, n - 1)
    }
}

/// The steps of a frame: the backgrounds, then the icons, then the text.
pub open spec fn frame_steps(rectangles: RectangleDraw, icons: Seq<IconDraw>) -> Seq<DrawStep> {
    seq![DrawStep::Rectangles(rectangles)] + icons.map_values(|d: IconDraw| DrawStep::Icons(d))
        + seq![DrawStep::Text]
}

/// A manager with the widget named `id` changed; unchanged where no widget
/// has that name.
pub open spec fn with_changed(
    manager: ButtonManagerView,
    id: Seq<char>,
    changed: ButtonView,
) -> ButtonManagerView {
    let i = find_button(manager.buttons, id);
    if i < manager.buttons.len() {
        ButtonManagerView { buttons: manager.buttons.update(i, changed), ..manager }
    } else {
        manager
    }
}

/// The widget named `id`, where there is one.
pub open spec fn button_named(manager: ButtonManagerView, id: Seq<char>) -> ButtonView {
    manager.buttons[find_button(manager.buttons, id)]
}

/// A list of widgets, all shown or all hidden.
pub open spec fn all_visible(buttons: Seq<ButtonView>, visible: bool) -> Seq<ButtonView> {
    buttons.map_values(|b: ButtonView| ButtonView { visible, ..b })
}

impl ButtonManagerView {
    /// The manager after `add_button`.
    pub open spec fn added(self, button: ButtonView) -> ButtonManagerView {
        let sized = button.sized(self.window_size);
        ButtonManagerView {
            buttons: with_button(self.buttons, sized),
            text_renderer: text_with_button(self.text_renderer, sized),
            reveal_pending: true,
            ..self
        }
    }

    /// The icon batcher with the icons of the widgets, and no cache.
    pub open spec fn fresh_icons(self) -> IconRendererView {
        IconRendererView {
            icons: icons_of(self.buttons, self.buttons.len() as int),
            cache: Seq::empty(),
            ..self.icon_renderer
        }
    }

    /// The manager after `update_icon_positions`.
    pub open spec fn icons_updated(self) -> ButtonManagerView {
        ButtonManagerView { icon_renderer: self.fresh_icons(), ..self }
    }

    /// Whether `update_button_states` has anything to do: the pointer
    /// moved or changed since the states were last derived, or a widget
    /// waits for its first colours.
    pub open spec fn states_stale(self) -> bool {
        self.mouse_position != self.last_mouse_position || self.mouse_pressed
            != self.last_mouse_pressed || self.reveal_pending
    }

    /// The manager after `update_button_states`.
    pub open spec fn states_updated(self) -> ButtonManagerView {
        if !self.states_stale() {
            self
        } else {
            (ButtonManagerView {
                buttons: self.buttons.map_values(
                    |b: ButtonView| restated(b, self.mouse_position, self.mouse_pressed),
                ),
                text_renderer: text_after_states(
                    self.text_renderer,
                    self.buttons,
                    self.mouse_position,
                    self.mouse_pressed,
                    self.reveal_pending,
                    self.buttons.len() as int,
                ),
                last_mouse_position: self.mouse_position,
                last_mouse_pressed: self.mouse_pressed,
                reveal_pending: false,
                ..self
            }).icons_updated()
        }
    }

    /// The manager after `update_button_positions`.
    pub open spec fn positions_updated(self) -> ButtonManagerView {
        (ButtonManagerView {
            buttons: self.buttons.map_values(|b: ButtonView| laid_out(b)),
            text_renderer: text_after_layout(
                self.text_renderer,
                self.buttons,
                self.buttons.len() as int,
            ),
            ..self
        }).icons_updated()
    }

    /// The widget that a release of the button clicks: the topmost that is
    /// in use and pressed; where there is none, the click that was already
    /// waiting.
    pub open spec fn click_on_release(self) -> Option<Seq<char>> {
        match pressed_among(self.buttons, self.buttons.len() as int) {
            Some(i) => Some(self.buttons[i].id),
            None => self.just_clicked,
        }
    }

    /// The manager after `handle_input`.
    pub open spec fn handled(self, event: InputEvent) -> ButtonManagerView {
        match event {
            InputEvent::MouseInput { pressed: true, button: MouseButton::Left } => (ButtonManagerView {
                mouse_pressed: true,
                ..self
            }).states_updated(),
            InputEvent::MouseInput { pressed: false, button: MouseButton::Left } => (ButtonManagerView {
                just_clicked: self.click_on_release(),
                mouse_pressed: false,
                ..self
            }).states_updated(),
            InputEvent::CursorMoved { x, y } => (ButtonManagerView {
                mouse_position: (x, y),
                ..self
            }).states_updated(),
            InputEvent::Resized { width, height } => (ButtonManagerView {
                window_size: WindowSize { width, height },
                ..self
            }).positions_updated(),
            _ => self,
        }
    }

    /// The manager after `is_button_clicked`: the waiting click is used up
    /// where it is on the widget asked for.
    pub open spec fn click_taken(self, id: Seq<char>) -> ButtonManagerView {
        if self.just_clicked == Some(id) {
            ButtonManagerView { just_clicked: None, ..self }
        } else {
            self
        }
    }

    /// The rectangles of a frame: the container where there is one, then
    /// the visible widgets in order.
    pub open spec fn frame_rectangles(self) -> Seq<Rectangle> {
        rectangles_of(
            match self.container_rect {
                Some(r) => seq![r],
                None => Seq::empty(),
            },
            self.buttons,
            self.buttons.len() as int,
        )
    }

    /// The rectangle batcher as `render` queues it, before it is drawn.
    pub open spec fn queued(self) -> RectangleRendererView {
        RectangleRendererView {
            rectangles: self.frame_rectangles(),
            ..self.rectangle_renderer.cleared()
        }
    }

    /// The manager after `render`.
    pub open spec fn rendered(self) -> ButtonManagerView {
        ButtonManagerView {
            rectangle_renderer: self.queued().rendered(),
            icon_renderer: self.icon_renderer.rendered(),
            ..self
        }
    }

    /// The manager after `resize`.
    pub open spec fn resized(self, width: u32, height: u32) -> ButtonManagerView {
        ButtonManagerView {
            rectangle_renderer: self.rectangle_renderer.resized(width, height),
            icon_renderer: IconRendererView {
                window: (width, height),
                cache: Seq::empty(),
                ..self.icon_renderer
            },
            ..self
        }
    }
}

fn find_in(buttons: &Vec<Button>, id: &str) -> (found: Option<usize>)
    ensures
        match found {
            Some(i) => i < buttons.len() && i == find_button(button_views(buttons@), id@),
            None => find_button(button_views(buttons@), id@) == buttons.len(),
        },
{
    let key = String::from_str(id);
    let ghost ids = button_ids(button_views(buttons@));
    let mut i: usize = 0;
    while i < buttons.len()
        invariant
            i <= buttons.len(),
            ids == button_ids(button_views(buttons@)),
            key@ == id@,
            forall|j: int| 0 <= j < i ==> ids[j] != id@,
        decreases buttons.len() - i,
    {
        if buttons[i].id == key {
            proof {
                lemma_index_of_is(ids, id@, i as int);
            }
            return Some(i);
        }
        i += 1;
    }
    proof {
        lemma_index_of_is(ids, id@, i as int);
    }
    None
}

fn create_texts(text: &mut TextRenderer, button: &Button)
    ensures
        final(text)@ == text_with_button(old(text)@, button@),
{
    text.create_text_buffer(
        button.text_id.as_str(),
        button.text.as_str(),
        Some(button.hidden_text_style()),
        Some(button.initial_label_place()),
    );
    match &button.level_text_id {
        Some(id) => {
            let mut style = button.level_measure_style();
            style.color = Color::rgba(0, 0, 0, 0);
            text.create_text_buffer(
                id.as_str(),
                LEVEL_TEXT,
                Some(style),
                Some(button.initial_level_place()),
            );
        },
        None => {},
    }
    match &button.tooltip_text_id {
        Some(id) => {
            let mut style = button.tooltip_measure_style();
            style.color = Color::rgba(0, 0, 0, 0);
            text.create_text_buffer(
                id.as_str(),
                TOOLTIP_TEXT,
                Some(style),
                Some(button.initial_tooltip_place()),
            );
        },
        None => {},
    }
}

fn hide_texts(text: &mut TextRenderer, button: &Button)
    ensures
        final(text)@ == text_hidden(old(text)@, button@),
{
    let _ = text.update_style(button.text_id.as_str(), button.hidden_text_style());
    match &button.level_text_id {
        Some(id) => {
            let _ = text.update_style(id.as_str(), button.hidden_text_style());
        },
        None => {},
    }
    match &button.tooltip_text_id {
        Some(id) => {
            let _ = text.update_style(id.as_str(), button.hidden_text_style());
        },
        None => {},
    }
}

fn style_texts(text: &mut TextRenderer, button: &Button)
    ensures
        final(text)@ == text_in_state(old(text)@, button@),
{
    let _ = text.update_style(button.text_id.as_str(), button.label_style(button.state));
    match &button.level_text_id {
        Some(id) => {
            let _ = text.update_style(id.as_str(), button.level_style(button.state));
        },
        None => {},
    }
    match &button.tooltip_text_id {
        Some(id) => {
            let _ = text.update_style(id.as_str(), button.tooltip_style(button.state));
        },
        None => {},
    }
    if button.style.spacing.tall() {
        let _ = text.update_position(button.text_id.as_str(), button.tall_label_place());
        match &button.level_text_id {
            Some(id) => {
                let _ = text.update_position(id.as_str(), button.tall_level_place());
            },
            None => {},
        }
        match &button.tooltip_text_id {
            Some(id) => {
                let _ = text.update_position(id.as_str(), button.tall_tooltip_place());
            },
            None => {},
        }
    }
}

fn derive_state(
    text: &mut TextRenderer,
    button: &mut Button,
    mouse: (i32, i32),
    pressed: bool,
    reveal: bool,
)
    ensures
        final(text)@ == text_after_state(old(text)@, old(button)@, mouse, pressed, reveal),
        final(button)@ == restated(old(button)@, mouse, pressed),
{
    if !button.visible || !button.enabled {
        if button.state != ButtonState::Disabled {
            button.state = ButtonState::Disabled;
            hide_texts(text, button);
        }
        return ;
    }
    let next = button.state_under(mouse, pressed);
    if button.state == next && !reveal {
        return ;
    }
    button.state = next;
    style_texts(text, button);
}

fn derive_states(
    buttons: &mut Vec<Button>,
    text: &mut TextRenderer,
    mouse: (i32, i32),
    pressed: bool,
    reveal: bool,
)
    ensures
        button_views(final(buttons)@) == button_views(old(buttons)@).map_values(
            |b: ButtonView| restated(b, mouse, pressed),
        ),
        final(text)@ == text_after_states(
            old(text)@,
            button_views(old(buttons)@),
            mouse,
            pressed,
            reveal,
            old(buttons).len() as int,
        ),
{
    let ghost before = button_views(buttons@);
    let mut i: usize = 0;
    while i < buttons.len()
        invariant
            i <= buttons.len(),
            buttons.len() == before.len(),
            before == button_views(old(buttons)@),
            forall|j: int| 0 <= j < i ==> (#[trigger] buttons@[j])@ == restated(before[j], mouse, pressed),
            forall|j: int| i <= j < buttons.len() ==> (#[trigger] buttons@[j])@ == before[j],
            text@ == text_after_states(old(text)@, before, mouse, pressed, reveal, i as int),
        decreases buttons.len() - i,
    {
        derive_state(text, &mut buttons[i], mouse, pressed, reveal);
        i += 1;
    }
    proof {
        assert(button_views(buttons@) =~= before.map_values(
            |b: ButtonView| restated(b, mouse, pressed),
        ));
    }
}

fn place_texts(text: &mut TextRenderer, button: &Button)
    ensures
        final(text)@ == text_laid_out(old(text)@, button@),
{
    let _ = text.update_position(button.text_id.as_str(), button.laid_label_place());
    match &button.level_text_id {
        Some(id) => {
            let _ = text.update_position(id.as_str(), button.laid_level_place());
        },
        None => {},
    }
    match &button.tooltip_text_id {
        Some(id) => {
            let _ = text.update_position(id.as_str(), button.laid_tooltip_place());
        },
        None => {},
    }
}

fn lay_out_one(text: &mut TextRenderer, button: &mut Button)
    ensures
        final(text)@ == text_laid_out(old(text)@, old(button)@),
        final(button)@ == laid_out(old(button)@),
{
    place_texts(text, button);
    if !button.style.spacing.tall() {
        button.position.height = crate::units::store(
            button.metrics.label.height as i64 + 2 * button.style.padding.1 as i64,
        );
    }
}

fn lay_out_all(buttons: &mut Vec<Button>, text: &mut TextRenderer)
    ensures
        button_views(final(buttons)@) == button_views(old(buttons)@).map_values(
            |b: ButtonView| laid_out(b),
        ),
        final(text)@ == text_after_layout(
            old(text)@,
            button_views(old(buttons)@),
            old(buttons).len() as int,
        ),
{
    let ghost before = button_views(buttons@);
    let mut i: usize = 0;
    while i < buttons.len()
        invariant
            i <= buttons.len(),
            buttons.len() == before.len(),
            before == button_views(old(buttons)@),
            forall|j: int| 0 <= j < i ==> (#[trigger] buttons@[j])@ == laid_out(before[j]),
            forall|j: int| i <= j < buttons.len() ==> (#[trigger] buttons@[j])@ == before[j],
            text@ == text_after_layout(old(text)@, before, i as int),
        decreases buttons.len() - i,
    {
        lay_out_one(text, &mut buttons[i]);
        i += 1;
    }
    proof {
        assert(button_views(buttons@) =~= before.map_values(|b: ButtonView| laid_out(b)));
    }
}

fn collect_icons(buttons: &Vec<Button>, icons: &mut IconRenderer)
    ensures
        final(icons)@ == (IconRendererView {
            icons: icons_of(button_views(buttons@), buttons.len() as int),
            cache: Seq::empty(),
            ..old(icons)@
        }),
{
    icons.clear_icons();
    let mut i: usize = 0;
    while i < buttons.len()
        invariant
            i <= buttons.len(),
            icons@ == (IconRendererView {
                icons: icons_of(button_views(buttons@), i as int),
                cache: Seq::empty(),
                ..old(icons)@
            }),
        decreases buttons.len() - i,
    {
        if buttons[i].visible && buttons[i].style.spacing.tall() {
            icons.add_icon(buttons[i].icon());
        }
        i += 1;
    }
}

fn queue_rectangles(
    buttons: &Vec<Button>,
    container: Option<Rectangle>,
    renderer: &mut RectangleRenderer,
)
    ensures
        final(renderer)@ == (RectangleRendererView {
            rectangles: rectangles_of(
                match container {
                    Some(r) => seq![r],
                    None => Seq::empty(),
                },
                button_views(buttons@),
                buttons.len() as int,
            ),
            ..old(renderer)@.cleared()
        }),
{
    renderer.clear_rectangles();
    match container {
        Some(r) => {
            renderer.add_rectangle(r);
        },
        None => {},
    }
    let ghost first: Seq<Rectangle> = match container {
        Some(r) => seq![r],
        None => Seq::empty(),
    };
    proof {
        assert(renderer@.rectangles =~= first);
    }
    let mut i: usize = 0;
    while i < buttons.len()
        invariant
            i <= buttons.len(),
            renderer@ == (RectangleRendererView {
                rectangles: rectangles_of(first, button_views(buttons@), i as int),
                ..old(renderer)@.cleared()
            }),
        decreases buttons.len() - i,
    {
        if buttons[i].visible {
            renderer.add_rectangle(buttons[i].rectangle());
        }
        i += 1;
    }
}

fn topmost_pressed(buttons: &Vec<Button>) -> (found: Option<usize>)
    ensures
        match found {
            Some(i) => i < buttons.len() && pressed_among(
                button_views(buttons@),
                buttons.len() as int,
            ) == Some(i as int),
            None => pressed_among(button_views(buttons@), buttons.len() as int).is_none(),
        },
{
    let ghost views = button_views(buttons@);
    let mut found: Option<usize> = None;
    let mut i: usize = 0;
    while i < buttons.len()
        invariant
            i <= buttons.len(),
            views == button_views(buttons@),
            match found {
                Some(k) => k < i && pressed_among(views, i as int) == Some(k as int),
                None => pressed_among(views, i as int).is_none(),
            },
        decreases buttons.len() - i,
    {
        let b = &buttons[i];
        if b.visible && b.enabled && b.state == ButtonState::Pressed {
            found = Some(i);
        }
        i += 1;
    }
    found
}

/// Shows or hides every widget of a list.
pub fn show_all(buttons: &mut Vec<Button>, visible: bool)
    ensures
        button_views(final(buttons)@) == all_visible(button_views(old(buttons)@), visible),
{
    let ghost before = button_views(buttons@);
    let mut i: usize = 0;
    while i < buttons.len()
        invariant
            i <= buttons.len(),
            buttons.len() == before.len(),
            forall|j: int|
                0 <= j < i ==> (#[trigger] buttons@[j])@ == (ButtonView { visible, ..before[j] }),
            forall|j: int| i <= j < buttons.len() ==> (#[trigger] buttons@[j])@ == before[j],
        decreases buttons.len() - i,
    {
        buttons[i].set_visible(visible);
        i += 1;
    }
    proof {
        assert(button_views(buttons@) =~= all_visible(before, visible));
    }
}

impl ButtonManager {
    /// The manager that `new` makes.
    pub open spec fn new_view(window_size: WindowSize) -> ButtonManagerView {
        ButtonManagerView {
            buttons: Seq::empty(),
            text_renderer: TextRendererView {
                text_buffers: Seq::empty(),
                window_size,
                loaded_fonts: Seq::empty(),
            },
            rectangle_renderer: RectangleRendererView {
                rectangles: Seq::empty(),
                window: (1360u32, 768u32),
                cached_batch: None,
                cached_rectangle_count: 0,
            },
            icon_renderer: IconRendererView {
                icons: Seq::empty(),
                textures: Seq::empty(),
                window: (1360u32, 768u32),
                cache: Seq::empty(),
            },
            window_size,
            mouse_position: (0i32, 0i32),
            mouse_pressed: false,
            just_clicked: None,
            container_rect: None,
            last_mouse_position: (0i32, 0i32),
            last_mouse_pressed: false,
            reveal_pending: false,
        }
    }

    /// A manager without widgets, for a window of the given size. The
    /// pointer is at the origin and not pressed.
    pub fn new(window_size: WindowSize) -> (manager: Self)
        ensures
            manager@ == Self::new_view(window_size),
    {
        let manager = ButtonManager {
            buttons: Vec::new(),
            text_renderer: TextRenderer::new(window_size),
            rectangle_renderer: RectangleRenderer::new(),
            icon_renderer: IconRenderer::new(),
            window_size,
            mouse_position: (0, 0),
            mouse_pressed: false,
            just_clicked: None,
            container_rect: None,
            last_mouse_position: (0, 0),
            last_mouse_pressed: false,
            reveal_pending: false,
        };
        proof {
            assert(manager@.buttons =~= Seq::empty());
        }
        manager
    }

    /// Adds a widget, in place of any widget of its name. The widget takes
    /// its size from its label or from the window, as its sizing mode says,
    /// and its text blocks are created without colour: they take the colour
    /// of the widget's state when the states are next derived.
    pub fn add_button(&mut self, button: Button)
        ensures
            final(self)@ == old(self)@.added(button@),
    {
        let mut button = button;
        button.take_initial_size(self.window_size);
        create_texts(&mut self.text_renderer, &button);
        let ghost sized = button@;
        match find_in(&self.buttons, button.id.as_str()) {
            Some(i) => {
                self.buttons[i] = button;
                proof {
                    assert(self@.buttons =~= with_button(old(self)@.buttons, sized));
                }
            },
            None => {
                self.buttons.push(button);
                proof {
                    assert(self@.buttons =~= with_button(old(self)@.buttons, sized));
                }
            },
        }
        self.reveal_pending = true;
    }

    /// Queues the icons anew: one for each visible tall widget, grown with
    /// its widget.
    pub fn update_icon_positions(&mut self)
        ensures
            final(self)@ == old(self)@.icons_updated(),
    {
        collect_icons(&self.buttons, &mut self.icon_renderer);
    }

    /// The place of the widget named `id`.
    pub fn find(&self, id: &str) -> (found: Option<usize>)
        ensures
            match found {
                Some(i) => i < self.buttons.len() && i == find_button(self@.buttons, id@)
                    && has_button(self@.buttons, id@),
                None => !has_button(self@.buttons, id@),
            },
    {
        find_in(&self.buttons, id)
    }

    /// The widget named `id`, to be changed in place.
    pub fn get_button_mut(&mut self, id: &str) -> (found: Option<&mut Button>)
        ensures
            match found {
                Some(b) => {
                    let i = find_button(old(self)@.buttons, id@);
                    &&& has_button(old(self)@.buttons, id@)
                    &&& 0 <= i < old(self).buttons.len()
                    &&& b@ == old(self)@.buttons[i]
                    &&& *b == old(self).buttons@[i]
                    &&& final(self).buttons@ == old(self).buttons@.update(i, *final(b))
                    &&& final(self)@ == (ButtonManagerView {
                        buttons: old(self)@.buttons.update(i, final(b)@),
                        ..old(self)@
                    })
                },
                None => !has_button(old(self)@.buttons, id@) && final(self)@ == old(self)@,
            },
    {
        match find_in(&self.buttons, id) {
            Some(i) => {
                proof {
                    assert forall|b: Button| #![auto] button_views(old(self).buttons@.update(i as int, b)) =~= old(self)@.buttons.update(i as int, b@) by {}
                }
                Some(&mut self.buttons[i])
            },
            None => None,
        }
    }

    /// Whether the widget named `id` was clicked. The click is used up: to
    /// ask again is to hear no.
    pub fn is_button_clicked(&mut self, id: &str) -> (clicked: bool)
        ensures
            clicked == (old(self)@.just_clicked == Some(id@)),
            final(self)@ == old(self)@.click_taken(id@),
    {
        let key = String::from_str(id);
        let hit = match &self.just_clicked {
            Some(clicked_id) => *clicked_id == key,
            None => false,
        };
        if hit {
            self.just_clicked = None;
        }
        hit
    }

    /// Takes an event of the window. The left button going down or up and
    /// the pointer moving derive the states anew; the button going up
    /// first registers a click on the topmost widget that is pressed. A
    /// new size of the window lays the widgets out again. Other events are
    /// passed over.
    pub fn handle_input(&mut self, event: &InputEvent)
        ensures
            final(self)@ == old(self)@.handled(*event),
    {
        match *event {
            InputEvent::MouseInput { pressed: true, button: MouseButton::Left } => {
                self.mouse_pressed = true;
                self.update_button_states();
            },
            InputEvent::MouseInput { pressed: false, button: MouseButton::Left } => {
                match topmost_pressed(&self.buttons) {
                    Some(i) => {
                        self.just_clicked = Some(self.buttons[i].id.clone());
                    },
                    None => {},
                }
                self.mouse_pressed = false;
                self.update_button_states();
            },
            InputEvent::CursorMoved { x, y } => {
                self.mouse_position = (x, y);
                self.update_button_states();
            },
            InputEvent::Resized { width, height } => {
                self.window_size = WindowSize { width, height };
                self.update_button_positions();
            },
            _ => {},
        }
    }

    /// Derives the state of every widget from the pointer, and styles the
    /// texts of those whose state changed. Nothing is done where the
    /// pointer is as it was when the states were last derived and no
    /// widget waits for its first colours.
    pub fn update_button_states(&mut self)
        ensures
            final(self)@ == old(self)@.states_updated(),
    {
        if self.mouse_position.0 == self.last_mouse_position.0 && self.mouse_position.1
            == self.last_mouse_position.1 && self.mouse_pressed == self.last_mouse_pressed
            && !self.reveal_pending {
            return ;
        }
        let reveal = self.reveal_pending;
        self.last_mouse_position = self.mouse_position;
        self.last_mouse_pressed = self.mouse_pressed;
        self.reveal_pending = false;
        derive_states(
            &mut self.buttons,
            &mut self.text_renderer,
            self.mouse_position,
            self.mouse_pressed,
            reveal,
        );
        self.update_icon_positions();
    }

    /// Puts the texts of every widget in their places, gives every widget
    /// that is not tall the height of its label and padding, and queues the
    /// icons anew.
    pub fn update_button_positions(&mut self)
        ensures
            final(self)@ == old(self)@.positions_updated(),
    {
        lay_out_all(&mut self.buttons, &mut self.text_renderer);
        self.update_icon_positions();
    }

    /// Tells the batchers the size of the viewport, in pixels.
    pub fn resize(&mut self, width: u32, height: u32)
        ensures
            final(self)@ == old(self)@.resized(width, height),
    {
        self.rectangle_renderer.resize(width, height);
        self.icon_renderer.resize(width, height);
    }

    /// The text areas to hand to the glyph renderer.
    pub fn prepare(&self) -> (areas: Vec<TextArea>)
        ensures
            areas@ == visible_areas(
                self@.text_renderer.text_buffers,
                self.text_renderer.window_size,
                self@.text_renderer.text_buffers.len() as int,
            ),
    {
        self.text_renderer.prepare()
    }

    /// Prepares a frame. The rectangles are queued anew: the container
    /// where there is one, then each visible widget in the order of the
    /// widgets. The steps come in the order in which they are to be drawn:
    /// rectangles, icons group by group, text.
    pub fn render(&mut self) -> (steps: Vec<DrawStep>)
        ensures
            final(self)@ == old(self)@.rendered(),
            steps@ == frame_steps(old(self)@.queued().draw(), old(self)@.icon_renderer.draws()),
    {
        queue_rectangles(&self.buttons, self.container_rect, &mut self.rectangle_renderer);
        let rectangles = self.rectangle_renderer.render();
        let icons = self.icon_renderer.render();
        let mut steps: Vec<DrawStep> = Vec::new();
        steps.push(DrawStep::Rectangles(rectangles));
        let mut i: usize = 0;
        while i < icons.len()
            invariant
                i <= icons.len(),
                steps@ =~= seq![DrawStep::Rectangles(rectangles)] + icons@.subrange(
                    0,
                    i as int,
                ).map_values(|d: IconDraw| DrawStep::Icons(d)),
            decreases icons.len() - i,
        {
            steps.push(DrawStep::Icons(icons[i]));
            i += 1;
        }
        steps.push(DrawStep::Text);
        proof {
            assert(icons@.subrange(0, icons.len() as int) =~= icons@);
            assert(steps@ =~= frame_steps(rectangles, icons@));
        }
        steps
    }
}

/// Among the first `n` widgets, the topmost that is in use and pressed is
/// the one at `i` where that one is so and none above it is.
pub proof fn lemma_pressed_among_is(buttons: Seq<ButtonView>, n: int, i: int)
    requires
        0 <= i < n <= buttons.len(),
        buttons[i].visible && buttons[i].enabled && buttons[i].state == ButtonState::Pressed,
        forall|j: int| i < j < n ==> buttons[j].state != ButtonState::Pressed,
    ensures
        pressed_among(buttons, n) == Some(i),
    decreases n,
{
    if n - 1 > i {
        lemma_pressed_among_is(buttons, n - 1, i);
    }
}

/// Among the first `n` widgets none is in use and pressed where none is in
/// the pressed state.
pub proof fn lemma_pressed_among_none(buttons: Seq<ButtonView>, n: int)
    requires
        0 <= n <= buttons.len(),
        forall|j: int| 0 <= j < n ==> buttons[j].state != ButtonState::Pressed,
    ensures
        pressed_among(buttons, n).is_none(),
    decreases n,
{
    if n > 0 {
        lemma_pressed_among_none(buttons, n - 1);
    }
}

/// The left button going down.
pub open spec fn press() -> InputEvent {
    InputEvent::MouseInput { pressed: true, button: MouseButton::Left }
}

/// The left button going up.
pub open spec fn release() -> InputEvent {
    InputEvent::MouseInput { pressed: false, button: MouseButton::Left }
}

/// From rest and with the pointer on a widget, and on no widget drawn
/// above it, the button going down and up again leaves one click, on that
/// widget. Asking for it uses it up: asked again, no click is there.
pub proof fn lemma_press_and_release_clicks(manager: ButtonManagerView, i: int)
    requires
        manager.at_rest(),
        0 <= i < manager.buttons.len(),
        manager.buttons[i].contains(
            manager.mouse_position.0 as int,
            manager.mouse_position.1 as int,
        ),
        forall|j: int|
            i < j < manager.buttons.len() ==> !manager.buttons[j].contains(
                manager.mouse_position.0 as int,
                manager.mouse_position.1 as int,
            ),
    ensures
        manager.handled(press()).handled(release()).just_clicked == Some(manager.buttons[i].id),
        manager.handled(press()).handled(release()).click_taken(
            manager.buttons[i].id,
        ).just_clicked.is_none(),
{
    let down = manager.handled(press());
    let mouse = manager.mouse_position;
    assert(down.buttons.len() == manager.buttons.len());
    assert forall|j: int| 0 <= j < down.buttons.len() implies down.buttons[j] == restated(
        manager.buttons[j],
        mouse,
        true,
    ) by {}
    assert(down.buttons[i].state == ButtonState::Pressed);
    assert forall|j: int| i < j < down.buttons.len() implies down.buttons[j].state
        != ButtonState::Pressed by {
        assert(down.buttons[j] == restated(manager.buttons[j], mouse, true));
    }
    lemma_pressed_among_is(down.buttons, down.buttons.len() as int, i);
}

/// From rest and with no click waiting, the button going down, the
/// pointer moving to a place that is on no widget, and the button going up
/// there leave no click, wherever the button went down.
pub proof fn lemma_release_outside_clicks_nothing(manager: ButtonManagerView, x: i32, y: i32)
    requires
        manager.at_rest(),
        manager.just_clicked.is_none(),
        forall|j: int|
            0 <= j < manager.buttons.len() ==> !manager.buttons[j].contains(x as int, y as int),
    ensures
        manager.handled(press()).handled(InputEvent::CursorMoved { x, y }).handled(
            release(),
        ).just_clicked.is_none(),
{
    let down = manager.handled(press());
    let mouse = manager.mouse_position;
    assert(down.buttons.len() == manager.buttons.len());
    assert forall|j: int| 0 <= j < down.buttons.len() implies down.buttons[j] == restated(
        manager.buttons[j],
        mouse,
        true,
    ) by {}
    let moved = down.handled(InputEvent::CursorMoved { x, y });
    let at = ButtonManagerView { mouse_position: (x, y), ..down };
    assert(moved.buttons.len() == manager.buttons.len());
    assert forall|j: int| 0 <= j < moved.buttons.len() implies moved.buttons[j].state
        != ButtonState::Pressed by {
        assert(down.buttons[j] == restated(manager.buttons[j], mouse, true));
        if at.states_stale() {
            assert(moved.buttons[j] == restated(down.buttons[j], (x, y), true));
        } else {
            assert(moved.buttons[j] == down.buttons[j]);
            assert(mouse == (x, y));
        }
    }
    lemma_pressed_among_none(moved.buttons, moved.buttons.len() as int);
}

/// Whether no two widgets of a list have the same name.
pub open spec fn ids_unique(buttons: Seq<ButtonView>) -> bool {
    distinct(button_ids(buttons))
}

impl ButtonManagerView {
    /// Whether no two widgets have the same name, and no two text blocks.
    /// It is so for a new manager, and every operation of the manager keeps
    /// it so.
    pub open spec fn names_unique(self) -> bool {
        ids_unique(self.buttons) && self.text_renderer.names_unique()
    }

    /// Whether the button of the pointer is up, and was up when the states
    /// were last derived. It is so for a new manager and after every release
    /// of the button, and nothing but a press of the button ends it.
    pub open spec fn at_rest(self) -> bool {
        !self.mouse_pressed && !self.last_mouse_pressed
    }
}

/// Putting a widget into a list changes the names of the list only by
/// adding its name at the end where no widget had it, so a list in which
/// every name occurs once stays such a list.
pub proof fn lemma_with_button_ids(buttons: Seq<ButtonView>, button: ButtonView)
    ensures
        button_ids(with_button(buttons, button)) == with_key(button_ids(buttons), button.id),
        ids_unique(buttons) ==> ids_unique(with_button(buttons, button)),
{
    let ids = button_ids(buttons);
    lemma_index_of_bounds(ids, button.id);
    assert(button_ids(with_button(buttons, button)) =~= with_key(ids, button.id));
    if ids_unique(buttons) {
        lemma_with_key_distinct(ids, button.id);
    }
}

/// The text blocks of a widget that is added leave every name of the
/// engine occurring once.
pub proof fn lemma_text_with_button_names(text: TextRendererView, b: ButtonView)
    requires
        text.names_unique(),
    ensures
        text_with_button(text, b).names_unique(),
{
    lemma_buffer_put_keeps_names(text, b.text_id);
    let labelled = text.created(
        b.text_id,
        b.text,
        Some(b.hidden_style()),
        Some(b.initial_label_position()),
    );
    let levelled = match b.level_text_id {
        Some(id) => labelled.created(
            id,
            LEVEL_TEXT@,
            Some(colorless(b.level_base_style())),
            Some(b.initial_level_position()),
        ),
        None => labelled,
    };
    if let Some(id) = b.level_text_id {
        lemma_buffer_put_keeps_names(labelled, id);
    }
    if let Some(id) = b.tooltip_text_id {
        lemma_buffer_put_keeps_names(levelled, id);
    }
}

/// Deriving the state of one widget leaves every name of the engine
/// occurring once.
pub proof fn lemma_text_after_state_names(
    text: TextRendererView,
    b: ButtonView,
    mouse: (i32, i32),
    pressed: bool,
    reveal: bool,
)
    requires
        text.names_unique(),
    ensures
        text_after_state(text, b, mouse, pressed, reveal).names_unique(),
{
    lemma_restyled_thrice_names(text, b, b.hidden_style(), b.hidden_style(), b.hidden_style());
    let r = restated(b, mouse, pressed);
    lemma_restyled_thrice_names(
        text,
        r,
        r.label_style_in(r.state),
        r.level_style_in(r.state),
        r.tooltip_style_in(r.state),
    );
    let labelled = text.restyled(r.text_id, r.label_style_in(r.state));
    let levelled = match r.level_text_id {
        Some(id) => labelled.restyled(id, r.level_style_in(r.state)),
        None => labelled,
    };
    let styled = match r.tooltip_text_id {
        Some(id) => levelled.restyled(id, r.tooltip_style_in(r.state)),
        None => levelled,
    };
    lemma_repositioned_thrice_names(
        styled,
        r,
        r.tall_label_position(),
        r.tall_level_position(),
        r.tall_tooltip_position(),
    );
}

/// Styling the three texts of a widget leaves every name of the engine
/// occurring once.
pub proof fn lemma_restyled_thrice_names(
    text: TextRendererView,
    b: ButtonView,
    label: TextStyleView,
    level: TextStyleView,
    tooltip: TextStyleView,
)
    requires
        text.names_unique(),
    ensures
        ({
            let labelled = text.restyled(b.text_id, label);
            let levelled = match b.level_text_id {
                Some(id) => labelled.restyled(id, level),
                None => labelled,
            };
            match b.tooltip_text_id {
                Some(id) => levelled.restyled(id, tooltip),
                None => levelled,
            }
        }).names_unique(),
{
    lemma_buffer_put_keeps_names(text, b.text_id);
    let labelled = text.restyled(b.text_id, label);
    let levelled = match b.level_text_id {
        Some(id) => labelled.restyled(id, level),
        None => labelled,
    };
    if let Some(id) = b.level_text_id {
        lemma_buffer_put_keeps_names(labelled, id);
    }
    if let Some(id) = b.tooltip_text_id {
        lemma_buffer_put_keeps_names(levelled, id);
    }
}

/// Moving the three texts of a widget leaves every name of the engine
/// occurring once.
pub proof fn lemma_repositioned_thrice_names(
    text: TextRendererView,
    b: ButtonView,
    label: crate::text::TextPosition,
    level: crate::text::TextPosition,
    tooltip: crate::text::TextPosition,
)
    requires
        text.names_unique(),
    ensures
        ({
            let placed = text.repositioned(b.text_id, label);
            let level_placed = match b.level_text_id {
                Some(id) => placed.repositioned(id, level),
                None => placed,
            };
            match b.tooltip_text_id {
                Some(id) => level_placed.repositioned(id, tooltip),
                None => level_placed,
            }
        }).names_unique(),
{
    lemma_buffer_put_keeps_names(text, b.text_id);
    let placed = text.repositioned(b.text_id, label);
    let level_placed = match b.level_text_id {
        Some(id) => placed.repositioned(id, level),
        None => placed,
    };
    if let Some(id) = b.level_text_id {
        lemma_buffer_put_keeps_names(placed, id);
    }
    if let Some(id) = b.tooltip_text_id {
        lemma_buffer_put_keeps_names(level_placed, id);
    }
}

/// Deriving the states of the first `n` widgets leaves every name of the
/// engine occurring once.
pub proof fn lemma_text_after_states_names(
    text: TextRendererView,
    buttons: Seq<ButtonView>,
    mouse: (i32, i32),
    pressed: bool,
    reveal: bool,
    n: int,
)
    requires
        text.names_unique(),
    ensures
        text_after_states(text, buttons, mouse, pressed, reveal, n).names_unique(),
    decreases n,
{
    if n > 0 {
        lemma_text_after_states_names(text, buttons, mouse, pressed, reveal, n - 1);
        lemma_text_after_state_names(
            text_after_states(text, buttons, mouse, pressed, reveal, n - 1),
            buttons[n - 1],
            mouse,
            pressed,
            reveal,
        );
    }
}

/// Laying out the first `n` widgets leaves every name of the engine
/// occurring once.
pub proof fn lemma_text_after_layout_names(text: TextRendererView, buttons: Seq<ButtonView>, n: int)
    requires
        text.names_unique(),
    ensures
        text_after_layout(text, buttons, n).names_unique(),
    decreases n,
{
    if n > 0 {
        lemma_text_after_layout_names(text, buttons, n - 1);
        let b = buttons[n - 1];
        lemma_repositioned_thrice_names(
            text_after_layout(text, buttons, n - 1),
            b,
            b.laid_label_position(),
            b.laid_level_position(),
            b.laid_tooltip_position(),
        );
    }
}

/// A new manager has no name twice, and a manager that has none keeps it
/// so whatever is added to it, whatever event it takes, and whenever its
/// states are derived, its widgets laid out, a click asked for, a frame
/// prepared or the viewport set.
pub proof fn lemma_manager_names_stay_unique(
    manager: ButtonManagerView,
    window: WindowSize,
    button: ButtonView,
    event: InputEvent,
    id: Seq<char>,
)
    requires
        manager.names_unique(),
    ensures
        ButtonManager::new_view(window).names_unique(),
        manager.added(button).names_unique(),
        manager.states_updated().names_unique(),
        manager.positions_updated().names_unique(),
        manager.icons_updated().names_unique(),
        manager.handled(event).names_unique(),
        manager.click_taken(id).names_unique(),
        manager.rendered().names_unique(),
        manager.resized(window.width, window.height).names_unique(),
{
    assert(button_ids(ButtonManager::new_view(window).buttons) =~= Seq::empty());
    assert(crate::text::entry_ids(ButtonManager::new_view(window).text_renderer.text_buffers)
        =~= Seq::empty());
    let sized = button.sized(manager.window_size);
    lemma_with_button_ids(manager.buttons, sized);
    lemma_text_with_button_names(manager.text_renderer, sized);
    lemma_derived_names(manager);
    match event {
        InputEvent::MouseInput { pressed: true, button: MouseButton::Left } => {
            lemma_derived_names(ButtonManagerView { mouse_pressed: true, ..manager });
        },
        InputEvent::MouseInput { pressed: false, button: MouseButton::Left } => {
            lemma_derived_names(
                ButtonManagerView {
                    just_clicked: manager.click_on_release(),
                    mouse_pressed: false,
                    ..manager
                },
            );
        },
        InputEvent::CursorMoved { x, y } => {
            lemma_derived_names(ButtonManagerView { mouse_position: (x, y), ..manager });
        },
        InputEvent::Resized { width, height } => {
            lemma_derived_names(
                ButtonManagerView { window_size: WindowSize { width, height }, ..manager },
            );
        },
        _ => {},
    }
}

/// Deriving the states and laying out the widgets leave every name
/// occurring once.
pub proof fn lemma_derived_names(manager: ButtonManagerView)
    requires
        manager.names_unique(),
    ensures
        manager.states_updated().names_unique(),
        manager.positions_updated().names_unique(),
{
    let n = manager.buttons.len() as int;
    lemma_text_after_states_names(
        manager.text_renderer,
        manager.buttons,
        manager.mouse_position,
        manager.mouse_pressed,
        manager.reveal_pending,
        n,
    );
    lemma_text_after_layout_names(manager.text_renderer, manager.buttons, n);
    assert(button_ids(
        manager.buttons.map_values(
            |b: ButtonView| restated(b, manager.mouse_position, manager.mouse_pressed),
        ),
    ) =~= button_ids(manager.buttons));
    assert(button_ids(manager.buttons.map_values(|b: ButtonView| laid_out(b))) =~= button_ids(
        manager.buttons,
    ));
}

/// A new manager is at rest; a manager at rest stays so whatever is added
/// to it and whatever event it takes but a press of the left button; and
/// after a release of the left button every manager is at rest.
pub proof fn lemma_rest(
    manager: ButtonManagerView,
    window: WindowSize,
    button: ButtonView,
    event: InputEvent,
    id: Seq<char>,
)
    ensures
        ButtonManager::new_view(window).at_rest(),
        manager.handled(release()).at_rest(),
        manager.at_rest() ==> manager.added(button).at_rest() && manager.click_taken(id).at_rest()
            && manager.states_updated().at_rest() && manager.positions_updated().at_rest()
            && manager.rendered().at_rest(),
        manager.at_rest() && event != press() ==> manager.handled(event).at_rest(),
{
}

/// Deriving the states changes the state of each widget and nothing else
/// of it, and leaves the pointer and the waiting click as they are.
pub proof fn lemma_states_updated_keeps(manager: ButtonManagerView)
    ensures
        manager.states_updated().buttons.len() == manager.buttons.len(),
        forall|j: int|
            0 <= j < manager.buttons.len() ==> (#[trigger] manager.states_updated().buttons[j])
                == (ButtonView {
                state: manager.states_updated().buttons[j].state,
                ..manager.buttons[j]
            }),
        manager.states_stale() ==> forall|j: int|
            0 <= j < manager.buttons.len() ==> (#[trigger] manager.states_updated().buttons[j])
                == restated(manager.buttons[j], manager.mouse_position, manager.mouse_pressed),
        manager.states_updated().mouse_position == manager.mouse_position,
        manager.states_updated().mouse_pressed == manager.mouse_pressed,
        manager.states_updated().just_clicked == manager.just_clicked,
{
}

/// From rest, the pointer moving onto a widget, and onto no widget drawn
/// above it, the left button going down and the button going up again
/// leave one click, on that widget and on no other. Asking for it uses it
/// up, and the manager is at rest again.
pub proof fn lemma_click_sequence(manager: ButtonManagerView, i: int, x: i32, y: i32)
    requires
        manager.at_rest(),
        0 <= i < manager.buttons.len(),
        manager.buttons[i].contains(x as int, y as int),
        forall|j: int|
            i < j < manager.buttons.len() ==> !manager.buttons[j].contains(x as int, y as int),
    ensures
        ({
            let after = manager.handled(InputEvent::CursorMoved { x, y }).handled(press()).handled(
                release(),
            );
            &&& after.just_clicked == Some(manager.buttons[i].id)
            &&& forall|other: Seq<char>|
                other != manager.buttons[i].id ==> after.just_clicked != Some(other)
                    && after.click_taken(other) == after
            &&& after.click_taken(manager.buttons[i].id).just_clicked.is_none()
            &&& after.at_rest()
        }),
{
    let at = ButtonManagerView { mouse_position: (x, y), ..manager };
    lemma_states_updated_keeps(at);
    let over = manager.handled(InputEvent::CursorMoved { x, y });
    assert(over == at.states_updated());
    assert(over.buttons[i] == (ButtonView { state: over.buttons[i].state, ..manager.buttons[i] }));
    assert forall|j: int| i < j < over.buttons.len() implies !over.buttons[j].contains(
        x as int,
        y as int,
    ) by {
        assert(over.buttons[j] == (ButtonView {
            state: over.buttons[j].state,
            ..manager.buttons[j]
        }));
    }
    lemma_press_and_release_clicks(over, i);
}

/// From rest and with no click waiting, the pointer moving anywhere, the
/// left button going down, the pointer moving to a place that is on no
/// widget, and the button going up there leave no click on any widget.
pub proof fn lemma_drag_out_sequence(manager: ButtonManagerView, x: i32, y: i32, out_x: i32, out_y: i32)
    requires
        manager.at_rest(),
        manager.just_clicked.is_none(),
        forall|j: int|
            0 <= j < manager.buttons.len() ==> !manager.buttons[j].contains(
                out_x as int,
                out_y as int,
            ),
    ensures
        ({
            let after = manager.handled(InputEvent::CursorMoved { x, y }).handled(press()).handled(
                InputEvent::CursorMoved { x: out_x, y: out_y },
            ).handled(release());
            &&& after.just_clicked.is_none()
            &&& forall|id: Seq<char>| after.click_taken(id) == after
            &&& after.at_rest()
        }),
{
    let at = ButtonManagerView { mouse_position: (x, y), ..manager };
    lemma_states_updated_keeps(at);
    let over = manager.handled(InputEvent::CursorMoved { x, y });
    assert(over == at.states_updated());
    assert forall|j: int| 0 <= j < over.buttons.len() implies !over.buttons[j].contains(
        out_x as int,
        out_y as int,
    ) by {
        assert(over.buttons[j] == (ButtonView {
            state: over.buttons[j].state,
            ..manager.buttons[j]
        }));
    }
    lemma_release_outside_clicks_nothing(over, out_x, out_y);
}

} // verus!
