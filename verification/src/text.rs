//! The text layout engine: named blocks of text, each with its style, its
//! place and its wrap box. Shaping glyphs is the host's work; the engine
//! keeps what is shaped from, and says which blocks are due for it.

use vstd::prelude::*;
use crate::color::Color;
use crate::keys::{
    distinct, has_key, index_of, lemma_index_of_bounds, lemma_index_of_is,
    lemma_with_key_distinct, with_key,
};
use crate::units::{
    clamped, confine, dpi_scale, dpi_scale_of, from_pixels, half, pixels, scale, scaled, store, stored,
    whole_pixels, WindowSize,
};

verus! {

/// Regular font weight.
pub const WEIGHT_NORMAL: u16 = 400;

/// Medium font weight.
pub const WEIGHT_MEDIUM: u16 = 500;

/// Bold font weight.
pub const WEIGHT_BOLD: u16 = 700;

/// Whether a face is upright, italic or oblique.
#[derive(Clone, Copy, Debug, PartialEq, Eq, Structural)]
pub enum Slant {
    Normal,
    Italic,
    Oblique,
}

/// How a block of text is set.
#[derive(Debug, PartialEq, Eq)]
pub struct TextStyle {
    pub font_family: String,
    pub font_size: i32,
    pub line_height: i32,
    pub color: Color,
    pub weight: u16,
    pub style: Slant,
}

/// A `TextStyle` with the family as a sequence of characters.
pub struct TextStyleView {
    pub font_family: Seq<char>,
    pub font_size: i32,
    pub line_height: i32,
    pub color: Color,
    pub weight: u16,
    pub style: Slant,
}

impl View for TextStyle {
    type V = TextStyleView;

    open spec fn view(&self) -> TextStyleView {
        TextStyleView {
            font_family: self.font_family@,
            font_size: self.font_size,
            line_height: self.line_height,
            color: self.color,
            weight: self.weight,
            style: self.style,
        }
    }
}

impl Clone for TextStyle {
    fn clone(&self) -> (out: Self)
        ensures
            out == *self,
    {
        TextStyle {
            font_family: self.font_family.clone(),
            font_size: self.font_size,
            line_height: self.line_height,
            color: self.color,
            weight: self.weight,
            style: self.style,
        }
    }
}

/// The style of a block that names none.
pub open spec fn default_text_style() -> TextStyleView {
    TextStyleView {
        font_family: "DejaVu Sans"@,
        font_size: 16000,
        line_height: 20000,
        color: Color { r: 255, g: 255, b: 255, a: 255 },
        weight: 400,
        style: Slant::Normal,
    }
}

impl Default for TextStyle {
    fn default() -> (out: Self)
        ensures
            out@ == default_text_style(),
    {
        TextStyle {
            font_family: String::from_str("DejaVu Sans"),
            font_size: 16000,
            line_height: 20000,
            color: Color::rgb(255, 255, 255),
            weight: WEIGHT_NORMAL,
            style: Slant::Normal,
        }
    }
}

/// Where a block of text stands, and the box it wraps and is clipped to.
#[derive(Clone, Copy, Debug, PartialEq, Eq, Structural)]
pub struct TextPosition {
    pub x: i32,
    pub y: i32,
    pub max_width: Option<i32>,
    pub max_height: Option<i32>,
}

/// The place of a block that names none: the origin, with no box.
pub open spec fn default_text_position() -> TextPosition {
    TextPosition { x: 0, y: 0, max_width: None, max_height: None }
}

impl Default for TextPosition {
    fn default() -> (out: Self)
        ensures
            out == default_text_position(),
    {
        TextPosition { x: 0, y: 0, max_width: None, max_height: None }
    }
}

/// The extent of a shaped text: where its first glyph starts, and its width
/// and height.
#[derive(Clone, Copy, Debug, PartialEq, Eq, Structural)]
pub struct TextMetrics {
    pub min_x: i32,
    pub width: i32,
    pub height: i32,
}

/// The first and last glyph of a shaped line: where the first starts and
/// where the last ends.
#[derive(Clone, Copy, Debug, PartialEq, Eq, Structural)]
pub struct GlyphSpan {
    pub first_left: i32,
    pub last_right: i32,
}

/// One shaped line as the host's shaper reports it.
#[derive(Clone, Copy, Debug, PartialEq, Eq, Structural)]
pub struct ShapedRun {
    pub glyphs: Option<GlyphSpan>,
    pub line_height: i32,
}

/// A named block of text.
#[derive(Debug, PartialEq, Eq)]
pub struct TextBuffer {
    pub style: TextStyle,
    pub position: TextPosition,
    /// The scale the block is drawn at, in thousandths.
    pub scale: i32,
    pub visible: bool,
    /// The text as it was given, from which every reshaping starts.
    pub text_content: String,
    /// Whether the glyphs the host holds for this block are out of date.
    pub needs_shaping: bool,
}

/// A `TextBuffer` with its strings as sequences of characters.
pub struct TextBufferView {
    pub style: TextStyleView,
    pub position: TextPosition,
    pub scale: i32,
    pub visible: bool,
    pub text_content: Seq<char>,
    pub needs_shaping: bool,
}

impl View for TextBuffer {
    type V = TextBufferView;

    open spec fn view(&self) -> TextBufferView {
        TextBufferView {
            style: self.style@,
            position: self.position,
            scale: self.scale,
            visible: self.visible,
            text_content: self.text_content@,
            needs_shaping: self.needs_shaping,
        }
    }
}

impl TextBuffer {
    /// The box the block is wrapped and clipped to: the box of its position,
    /// or the window where the position gives none.
    pub fn wrap_box(&self, window: WindowSize) -> (size: (i64, i64))
        ensures
            size.0 == wrap_width(self.position, window),
            size.1 == wrap_height(self.position, window),
    {
        (
            match self.position.max_width {
                Some(w) => w as i64,
                None => from_pixels(window.width),
            },
            match self.position.max_height {
                Some(h) => h as i64,
                None => from_pixels(window.height),
            },
        )
    }
}

/// A block of text under its name.
#[derive(Debug, PartialEq, Eq)]
pub struct TextEntry {
    pub id: String,
    pub buffer: TextBuffer,
}

/// A `TextEntry` with its strings as sequences of characters.
pub struct TextEntryView {
    pub id: Seq<char>,
    pub buffer: TextBufferView,
}

impl View for TextEntry {
    type V = TextEntryView;

    open spec fn view(&self) -> TextEntryView {
        TextEntryView { id: self.id@, buffer: self.buffer@ }
    }
}

/// The names of a list of blocks, in order.
pub open spec fn entry_ids(entries: Seq<TextEntryView>) -> Seq<Seq<char>> {
    entries.map_values(|e: TextEntryView| e.id)
}

/// The place of the block named `id`, or the length of the list.
pub open spec fn find_entry(entries: Seq<TextEntryView>, id: Seq<char>) -> int {
    index_of(entry_ids(entries), id)
}

/// Whether a block is named `id`.
pub open spec fn has_entry(entries: Seq<TextEntryView>, id: Seq<char>) -> bool {
    has_key(entry_ids(entries), id)
}

/// The list with `buffer` under `id`: in place of the block of that name,
/// or at the end where there was none.
pub open spec fn with_entry(
    entries: Seq<TextEntryView>,
    id: Seq<char>,
    buffer: TextBufferView,
) -> Seq<TextEntryView> {
    let i = find_entry(entries, id);
    if i < entries.len() {
        entries.update(i, TextEntryView { id, buffer })
    } else {
        entries.push(TextEntryView { id, buffer })
    }
}

/// The family a style is shaped with: the substitute where the style asks
/// for the bundled family and that family was never loaded.
pub open spec fn resolved_style(loaded: Seq<Seq<char>>, style: TextStyleView) -> TextStyleView {
    if !loaded.contains(style.font_family) && style.font_family == "HankenGrotesk"@ {
        TextStyleView { font_family: "DejaVu Sans"@, ..style }
    } else {
        style
    }
}

/// What `update_style` and `update_position` report for a name that no
/// block has.
pub open spec fn not_found_message(id: Seq<char>) -> Seq<char> {
    "Text buffer '"@ + id + "' not found"@
}

/// The box a position wraps to: its own, or the window where it has none.
pub open spec fn wrap_width(position: TextPosition, window: WindowSize) -> int {
    match position.max_width {
        Some(w) => w as int,
        None => pixels(window.width as int),
    }
}

/// The height of the box a position wraps to.
pub open spec fn wrap_height(position: TextPosition, window: WindowSize) -> int {
    match position.max_height {
        Some(h) => h as int,
        None => pixels(window.height as int),
    }
}

/// A block as it is handed to the glyph renderer.
#[derive(Clone, Copy, Debug, PartialEq, Eq, Structural)]
pub struct TextArea {
    /// The place of the block in the engine's list.
    pub buffer_index: usize,
    pub left: i32,
    pub top: i32,
    pub scale: i32,
    pub bounds: TextBounds,
    pub default_color: Color,
}

/// The clip rectangle of a block, in whole pixels.
#[derive(Clone, Copy, Debug, PartialEq, Eq, Structural)]
pub struct TextBounds {
    pub left: i32,
    pub top: i32,
    pub right: i32,
    pub bottom: i32,
}

/// The area of the block at place `i`.
pub open spec fn text_area_of(entry: TextBufferView, i: int, window: WindowSize) -> TextArea {
    TextArea {
        buffer_index: i as usize,
        left: entry.position.x,
        top: entry.position.y,
        scale: entry.scale,
        bounds: TextBounds {
            left: stored(whole_pixels(entry.position.x as int)),
            top: stored(whole_pixels(entry.position.y as int)),
            right: stored(
                whole_pixels(entry.position.x + wrap_width(entry.position, window)),
            ),
            bottom: stored(
                whole_pixels(entry.position.y + wrap_height(entry.position, window)),
            ),
        },
        default_color: entry.style.color,
    }
}

/// The areas of the visible blocks among the first `n`, in order.
pub open spec fn visible_areas(entries: Seq<TextEntryView>, window: WindowSize, n: int) -> Seq<
    TextArea,
>
    decreases n,
{
    if n <= 0 {
        Seq::empty()
    } else {
        let before = visible_areas(entries, window, n - 1);
        if entries[n - 1].buffer.visible {
            before.push(text_area_of(entries[n - 1].buffer, n - 1, window))
        } else {
            before
        }
    }
}

/// Where the leftmost first glyph of the first `n` runs starts; the largest
/// length where none of them has a glyph.
pub open spec fn runs_min_x(runs: Seq<ShapedRun>, n: int) -> int
    decreases n,
{
    if n <= 0 {
        i32::MAX as int
    } else {
        let before = runs_min_x(runs, n - 1);
        match runs[n - 1].glyphs {
            Some(g) => if (g.first_left as int) < before { g.first_left as int } else { before },
            None => before,
        }
    }
}

/// Where the rightmost last glyph of the first `n` runs ends; zero where
/// none ends to the right of the origin.
pub open spec fn runs_max_x(runs: Seq<ShapedRun>, n: int) -> int
    decreases n,
{
    if n <= 0 {
        0
    } else {
        let before = runs_max_x(runs, n - 1);
        match runs[n - 1].glyphs {
            Some(g) => if (g.last_right as int) > before { g.last_right as int } else { before },
            None => before,
        }
    }
}

/// The line heights of the first `n` runs added up.
pub open spec fn runs_height(runs: Seq<ShapedRun>, n: int) -> int
    decreases n,
{
    if n <= 0 {
        0
    } else {
        runs_height(runs, n - 1) + runs[n - 1].line_height
    }
}

/// The width estimated for a text of `len` bytes that could not be shaped:
/// six tenths of the font size for each byte.
pub open spec fn estimated_width(len: int, font_size: int) -> int {
    scaled(len * font_size, 600)
}

/// Whether one of the first `n` runs holds a glyph.
pub open spec fn runs_hold_glyph(runs: Seq<ShapedRun>, n: int) -> bool
    decreases n,
{
    if n <= 0 {
        false
    } else {
        runs[n - 1].glyphs.is_some() || runs_hold_glyph(runs, n - 1)
    }
}

/// The extent of a text from its shaped runs; where no run holds a glyph,
/// an estimate from its length: it starts at the origin, is as wide as
/// `estimated_width` says and one line high. The estimate for the empty text
/// has no width.
pub open spec fn measured(text: &str, style: TextStyleView, runs: Seq<ShapedRun>) -> TextMetrics {
    let n = runs.len() as int;
    if !runs_hold_glyph(runs, n) {
        TextMetrics {
            min_x: 0,
            width: stored(estimated_width(text.len() as int, style.font_size as int)),
            height: style.line_height,
        }
    } else {
        TextMetrics {
            min_x: stored(runs_min_x(runs, n)),
            width: stored(runs_max_x(runs, n) - runs_min_x(runs, n)),
            height: stored(runs_height(runs, n)),
        }
    }
}

/// The text layout engine.
#[derive(Debug)]
pub struct TextRenderer {
    /// The blocks, in the order in which their names first came.
    pub text_buffers: Vec<TextEntry>,
    pub window_size: WindowSize,
    /// The families whose font data the host has loaded.
    pub loaded_fonts: Vec<String>,
}

/// A `TextRenderer` with its strings as sequences of characters.
pub struct TextRendererView {
    pub text_buffers: Seq<TextEntryView>,
    pub window_size: WindowSize,
    pub loaded_fonts: Seq<Seq<char>>,
}

impl View for TextRenderer {
    type V = TextRendererView;

    open spec fn view(&self) -> TextRendererView {
        TextRendererView {
            text_buffers: self.text_buffers@.map_values(|e: TextEntry| e@),
            window_size: self.window_size,
            loaded_fonts: self.loaded_fonts@.map_values(|s: String| s@),
        }
    }
}

impl TextRendererView {
    /// Whether a block is named `id`.
    pub open spec fn has(self, id: Seq<char>) -> bool {
        has_entry(self.text_buffers, id)
    }

    /// The block named `id`.
    pub open spec fn buffer(self, id: Seq<char>) -> TextBufferView
        recommends
            self.has(id),
    {
        self.text_buffers[find_entry(self.text_buffers, id)].buffer
    }

    /// The engine with the block under `id` replaced.
    pub open spec fn with_buffer(self, id: Seq<char>, buffer: TextBufferView) -> TextRendererView {
        TextRendererView { text_buffers: with_entry(self.text_buffers, id, buffer), ..self }
    }

    /// The engine after `create_text_buffer`.
    pub open spec fn created(
        self,
        id: Seq<char>,
        text: Seq<char>,
        style: Option<TextStyleView>,
        position: Option<TextPosition>,
    ) -> TextRendererView {
        self.with_buffer(
            id,
            TextBufferView {
                style: resolved_style(
                    self.loaded_fonts,
                    match style {
                        Some(s) => s,
                        None => default_text_style(),
                    },
                ),
                position: match position {
                    Some(p) => p,
                    None => default_text_position(),
                },
                scale: 1000,
                visible: true,
                text_content: text,
                needs_shaping: true,
            },
        )
    }

    /// The engine after `update_style`; unchanged where no block is named
    /// `id`.
    pub open spec fn restyled(self, id: Seq<char>, style: TextStyleView) -> TextRendererView {
        if self.has(id) {
            self.with_buffer(
                id,
                TextBufferView {
                    style: resolved_style(self.loaded_fonts, style),
                    needs_shaping: true,
                    ..self.buffer(id)
                },
            )
        } else {
            self
        }
    }

    /// The engine after `update_position`; unchanged where no block is
    /// named `id`. The block is due for shaping where its box changed.
    pub open spec fn repositioned(self, id: Seq<char>, position: TextPosition) -> TextRendererView {
        if self.has(id) {
            let old_buffer = self.buffer(id);
            self.with_buffer(
                id,
                TextBufferView {
                    position,
                    needs_shaping: old_buffer.needs_shaping || old_buffer.position.max_width
                        != position.max_width || old_buffer.position.max_height
                        != position.max_height,
                    ..old_buffer
                },
            )
        } else {
            self
        }
    }

    /// The engine with the block named `id` shown or hidden; unchanged where
    /// no block has that name.
    pub open spec fn with_visibility(self, id: Seq<char>, visible: bool) -> TextRendererView {
        if self.has(id) {
            self.with_buffer(id, TextBufferView { visible, ..self.buffer(id) })
        } else {
            self
        }
    }

    /// The engine with the block named `id` no longer due for shaping;
    /// unchanged where no block has that name.
    pub open spec fn with_shaped(self, id: Seq<char>) -> TextRendererView {
        if self.has(id) {
            self.with_buffer(id, TextBufferView { needs_shaping: false, ..self.buffer(id) })
        } else {
            self
        }
    }

    /// The engine with the text of the block named `id` replaced; unchanged
    /// where no block has that name.
    pub open spec fn with_text(self, id: Seq<char>, text: Seq<char>) -> TextRendererView {
        if self.has(id) {
            self.with_buffer(id, TextBufferView { text_content: text, ..self.buffer(id) })
        } else {
            self
        }
    }
}

fn not_found(id: &str) -> (msg: String)
    ensures
        msg@ == not_found_message(id@),
{
    let mut msg = String::from_str("Text buffer '");
    msg.append(id);
    msg.append("' not found");
    msg
}

fn floor_div_wide(n: i128, d: i128) -> (q: i128)
    requires
        d > 0,
        n > i128::MIN,
    ensures
        q == n as int / d as int,
{
    if n >= 0 {
        n / d
    } else {
        let q: i128 = n / d;
        let r: i128 = n % d;
        proof {
            assert(q * d + r == n && -d < r <= 0) by (nonlinear_arith)
                requires
                    n < 0,
                    d > 0,
                    q == -((-n) / (d as int)),
                    r == -((-n) % (d as int)),
            ;
        }
        if r == 0 {
            proof {
                assert(n as int / d as int == q) by (nonlinear_arith)
                    requires
                        q * d == n,
                        d > 0,
                ;
            }
            q
        } else {
            proof {
                assert(n as int / d as int == q - 1) by (nonlinear_arith)
                    requires
                        q * d + r == n,
                        -d < r < 0,
                        d > 0,
                ;
                assert(q > i128::MIN) by (nonlinear_arith)
                    requires
                        q * d + r == n,
                        -d < r < 0,
                        d > 0,
                        n > i128::MIN,
                        q >= i128::MIN,
                ;
            }
            q - 1
        }
    }
}

fn estimate_width(len: usize, font_size: i32) -> (w: i32)
    ensures
        w == stored(estimated_width(len as int, font_size as int)),
{
    proof {
        assert(-0x8000_0000_0000_0000_0000_0000 <= len as int * font_size as int
            <= 0x8000_0000_0000_0000_0000_0000) by (nonlinear_arith)
            requires
                0 <= len <= 0xffff_ffff_ffff_ffff,
                -0x8000_0000 <= font_size <= 0x8000_0000,
        ;
    }
    let product: i128 = len as i128 * font_size as i128;
    let q: i128 = floor_div_wide(product * 600, 1000);
    if q < -2147483648 {
        -2147483648
    } else if q > 2147483647 {
        2147483647
    } else {
        q as i32
    }
}

impl TextRenderer {
    /// An engine with no block and no loaded family.
    pub fn new(window_size: WindowSize) -> (engine: Self)
        ensures
            engine@ == (TextRendererView {
                text_buffers: Seq::empty(),
                window_size,
                loaded_fonts: Seq::empty(),
            }),
    {
        let engine = TextRenderer {
            text_buffers: Vec::new(),
            window_size,
            loaded_fonts: Vec::new(),
        };
        proof {
            assert(engine@.text_buffers =~= Seq::empty());
            assert(engine@.loaded_fonts =~= Seq::empty());
        }
        engine
    }

    /// Records that the font data of a family is loaded.
    pub fn load_font(&mut self, font_name: &str)
        ensures
            final(self)@ == (TextRendererView {
                loaded_fonts: old(self)@.loaded_fonts.push(font_name@),
                ..old(self)@
            }),
    {
        self.loaded_fonts.push(String::from_str(font_name));
        proof {
            assert(self@.loaded_fonts =~= old(self)@.loaded_fonts.push(font_name@));
            assert(self@.text_buffers =~= old(self)@.text_buffers);
        }
    }

    /// Whether the font data of a family is loaded.
    pub fn is_font_loaded(&self, font_name: &String) -> (loaded: bool)
        ensures
            loaded == self@.loaded_fonts.contains(font_name@),
    {
        let mut i: usize = 0;
        while i < self.loaded_fonts.len()
            invariant
                i <= self.loaded_fonts.len(),
                forall|j: int| 0 <= j < i ==> self@.loaded_fonts[j] != font_name@,
            decreases self.loaded_fonts.len() - i,
        {
            if self.loaded_fonts[i] == *font_name {
                assert(self@.loaded_fonts[i as int] == font_name@);
                return true;
            }
            i += 1;
        }
        false
    }

    /// The style as it is shaped: with the substitute family where the
    /// bundled one is asked for and was never loaded.
    pub fn resolve_style(&self, style: TextStyle) -> (out: TextStyle)
        ensures
            out@ == resolved_style(self@.loaded_fonts, style@),
    {
        let bundled = String::from_str("HankenGrotesk");
        if style.font_family == bundled && !self.is_font_loaded(&style.font_family) {
            TextStyle {
                font_family: String::from_str("DejaVu Sans"),
                font_size: style.font_size,
                line_height: style.line_height,
                color: style.color,
                weight: style.weight,
                style: style.style,
            }
        } else {
            style
        }
    }

    /// The place of the block named `id`.
    pub fn find(&self, id: &str) -> (found: Option<usize>)
        ensures
            match found {
                Some(i) => i < self.text_buffers.len() && i == find_entry(
                    self@.text_buffers,
                    id@,
                ) && self@.has(id@),
                None => !self@.has(id@),
            },
    {
        let key = String::from_str(id);
        let ghost ids = entry_ids(self@.text_buffers);
        let mut i: usize = 0;
        while i < self.text_buffers.len()
            invariant
                i <= self.text_buffers.len(),
                ids == entry_ids(self@.text_buffers),
                key@ == id@,
                forall|j: int| 0 <= j < i ==> ids[j] != id@,
            decreases self.text_buffers.len() - i,
        {
            if self.text_buffers[i].id == key {
                proof {
                    lemma_index_of_is(ids, id@, i as int);
                }
                return Some(i);
            }
            i += 1;
        }
        proof {
            lemma_index_of_is(ids, id@, i as int);
        }
        None
    }

    /// The block named `id`.
    pub fn get_buffer(&self, id: &str) -> (found: Option<&TextBuffer>)
        ensures
            match found {
                Some(b) => self@.has(id@) && b@ == self@.buffer(id@),
                None => !self@.has(id@),
            },
    {
        match self.find(id) {
            Some(i) => Some(&self.text_buffers[i].buffer),
            None => None,
        }
    }

    fn put(&mut self, id: &str, buffer: TextBuffer)
        ensures
            final(self)@ == old(self)@.with_buffer(id@, buffer@),
    {
        match self.find(id) {
            Some(i) => {
                self.text_buffers[i].buffer = buffer;
                proof {
                    lemma_index_of_bounds(entry_ids(old(self)@.text_buffers), id@);
                    assert(self@.text_buffers =~= with_entry(
                        old(self)@.text_buffers,
                        id@,
                        buffer@,
                    ));
                    assert(self@.loaded_fonts =~= old(self)@.loaded_fonts);
                }
            },
            None => {
                self.text_buffers.push(TextEntry { id: String::from_str(id), buffer });
                proof {
                    assert(self@.text_buffers =~= with_entry(
                        old(self)@.text_buffers,
                        id@,
                        buffer@,
                    ));
                    assert(self@.loaded_fonts =~= old(self)@.loaded_fonts);
                }
            },
        }
    }

    /// Puts a block under `id`, in place of any block of that name. The
    /// block is visible and due for shaping; a missing style or position is
    /// the default one.
    pub fn create_text_buffer(
        &mut self,
        id: &str,
        text: &str,
        style: Option<TextStyle>,
        position: Option<TextPosition>,
    )
        ensures
            final(self)@ == old(self)@.created(
                id@,
                text@,
                match style {
                    Some(s) => Some(s@),
                    None => None,
                },
                position,
            ),
    {
        let style = match style {
            Some(s) => s,
            None => TextStyle::default(),
        };
        let position = match position {
            Some(p) => p,
            None => TextPosition::default(),
        };
        let style = self.resolve_style(style);
        let buffer = TextBuffer {
            style,
            position,
            scale: 1000,
            visible: true,
            text_content: String::from_str(text),
            needs_shaping: true,
        };
        self.put(id, buffer);
    }

    /// Sets the style of the block named `id` and marks it for shaping from
    /// its stored text. Fails, changing nothing, exactly where no block has
    /// that name.
    pub fn update_style(&mut self, id: &str, style: TextStyle) -> (result: Result<(), String>)
        ensures
            final(self)@ == old(self)@.restyled(id@, style@),
            result.is_ok() == old(self)@.has(id@),
            match result {
                Ok(_) => true,
                Err(msg) => msg@ == not_found_message(id@),
            },
    {
        match self.find(id) {
            Some(i) => {
                let style = self.resolve_style(style);
                self.text_buffers[i].buffer.style = style;
                self.text_buffers[i].buffer.needs_shaping = true;
                proof {
                    lemma_index_of_bounds(entry_ids(old(self)@.text_buffers), id@);
                    assert(self@.text_buffers =~= old(self)@.restyled(id@, style@).text_buffers);
                    assert(self@.loaded_fonts =~= old(self)@.loaded_fonts);
                }
                Ok(())
            },
            None => Err(not_found(id)),
        }
    }

    /// Moves the block named `id`. The block is marked for shaping where
    /// the box it wraps to changed. Fails, changing nothing, exactly where
    /// no block has that name.
    pub fn update_position(&mut self, id: &str, position: TextPosition) -> (result: Result<
        (),
        String,
    >)
        ensures
            final(self)@ == old(self)@.repositioned(id@, position),
            result.is_ok() == old(self)@.has(id@),
            match result {
                Ok(_) => true,
                Err(msg) => msg@ == not_found_message(id@),
            },
    {
        match self.find(id) {
            Some(i) => {
                let before = self.text_buffers[i].buffer.position;
                if before.max_width != position.max_width || before.max_height
                    != position.max_height {
                    self.text_buffers[i].buffer.needs_shaping = true;
                }
                self.text_buffers[i].buffer.position = position;
                proof {
                    lemma_index_of_bounds(entry_ids(old(self)@.text_buffers), id@);
                    assert(self@.text_buffers =~= old(self)@.repositioned(
                        id@,
                        position,
                    ).text_buffers);
                    assert(self@.loaded_fonts =~= old(self)@.loaded_fonts);
                }
                Ok(())
            },
            None => Err(not_found(id)),
        }
    }

    /// Shows or hides the block named `id`; returns whether there is one.
    pub fn set_visible(&mut self, id: &str, visible: bool) -> (found: bool)
        ensures
            final(self)@ == old(self)@.with_visibility(id@, visible),
            found == old(self)@.has(id@),
    {
        match self.find(id) {
            Some(i) => {
                self.text_buffers[i].buffer.visible = visible;
                proof {
                    lemma_index_of_bounds(entry_ids(old(self)@.text_buffers), id@);
                    assert(self@.text_buffers =~= old(self)@.with_visibility(
                        id@,
                        visible,
                    ).text_buffers);
                    assert(self@.loaded_fonts =~= old(self)@.loaded_fonts);
                }
                true
            },
            None => false,
        }
    }

    /// Notes that the host has shaped the block named `id` as it now is;
    /// returns whether there is one.
    pub fn mark_shaped(&mut self, id: &str) -> (found: bool)
        ensures
            final(self)@ == old(self)@.with_shaped(id@),
            found == old(self)@.has(id@),
    {
        match self.find(id) {
            Some(i) => {
                self.text_buffers[i].buffer.needs_shaping = false;
                proof {
                    lemma_index_of_bounds(entry_ids(old(self)@.text_buffers), id@);
                    assert(self@.text_buffers =~= old(self)@.with_shaped(id@).text_buffers);
                    assert(self@.loaded_fonts =~= old(self)@.loaded_fonts);
                }
                true
            },
            None => false,
        }
    }

    /// Replaces the stored text of the block named `id`; returns whether
    /// there is one. The style is applied to the new text by the next
    /// `update_style`.
    pub fn set_text(&mut self, id: &str, text: &str) -> (found: bool)
        ensures
            final(self)@ == old(self)@.with_text(id@, text@),
            found == old(self)@.has(id@),
    {
        match self.find(id) {
            Some(i) => {
                self.text_buffers[i].buffer.text_content = String::from_str(text);
                proof {
                    lemma_index_of_bounds(entry_ids(old(self)@.text_buffers), id@);
                    assert(self@.text_buffers =~= old(self)@.with_text(id@, text@).text_buffers);
                    assert(self@.loaded_fonts =~= old(self)@.loaded_fonts);
                }
                true
            },
            None => false,
        }
    }

    /// The areas to hand to the glyph renderer: one for each visible block,
    /// in the order of the blocks.
    pub fn prepare(&self) -> (areas: Vec<TextArea>)
        ensures
            areas@ == visible_areas(
                self@.text_buffers,
                self.window_size,
                self.text_buffers.len() as int,
            ),
    {
        let mut areas: Vec<TextArea> = Vec::new();
        let mut i: usize = 0;
        while i < self.text_buffers.len()
            invariant
                i <= self.text_buffers.len(),
                areas@ == visible_areas(self@.text_buffers, self.window_size, i as int),
            decreases self.text_buffers.len() - i,
        {
            let buffer = &self.text_buffers[i].buffer;
            if buffer.visible {
                let x: i64 = buffer.position.x as i64;
                let y: i64 = buffer.position.y as i64;
                let width: i64 = match buffer.position.max_width {
                    Some(w) => w as i64,
                    None => from_pixels(self.window_size.width),
                };
                let height: i64 = match buffer.position.max_height {
                    Some(h) => h as i64,
                    None => from_pixels(self.window_size.height),
                };
                areas.push(
                    TextArea {
                        buffer_index: i,
                        left: buffer.position.x,
                        top: buffer.position.y,
                        scale: buffer.scale,
                        bounds: TextBounds {
                            left: store(x / 1000),
                            top: store(y / 1000),
                            right: store((x + width) / 1000),
                            bottom: store((y + height) / 1000),
                        },
                        default_color: buffer.style.color,
                    },
                );
            }
            i += 1;
        }
        areas
    }

    /// The extent of a text set in a style, from the runs that the host's
    /// shaper laid it out in; an estimate from the length of the text where
    /// the shaper laid out no glyph.
    pub fn measure_text(&self, text: &str, style: &TextStyle, runs: &Vec<ShapedRun>) -> (metrics:
        TextMetrics)
        ensures
            metrics == measured(text, style@, runs@),
    {
        let mut min_x: i32 = i32::MAX;
        let mut max_x: i32 = 0;
        let mut height: i128 = 0;
        let mut found = false;
        let mut i: usize = 0;
        while i < runs.len()
            invariant
                i <= runs.len(),
                found == runs_hold_glyph(runs@, i as int),
                min_x == runs_min_x(runs@, i as int),
                max_x == runs_max_x(runs@, i as int),
                height == runs_height(runs@, i as int),
                -(i as int) * 0x8000_0000 <= height <= (i as int) * 0x8000_0000,
            decreases runs.len() - i,
        {
            let run = runs[i];
            match run.glyphs {
                Some(g) => {
                    found = true;
                    if g.first_left < min_x {
                        min_x = g.first_left;
                    }
                    if g.last_right > max_x {
                        max_x = g.last_right;
                    }
                },
                None => {},
            }
            height = height + run.line_height as i128;
            i += 1;
        }
        if !found {
            TextMetrics {
                min_x: 0,
                width: estimate_width(text.len(), style.font_size),
                height: style.line_height,
            }
        } else {
            let total: i32 = if height < -2147483648 {
                -2147483648
            } else if height > 2147483647 {
                2147483647
            } else {
                height as i32
            };
            TextMetrics { min_x, width: store(max_x as i64 - min_x as i64), height: total }
        }
    }
}

/// The style of the title of the game-over display for a window of the
/// given height in pixels: 72 pixels with lines of 90 at a height of 1080,
/// scaled with the interface, bold and white.
pub open spec fn game_over_title_style(height: u32) -> TextStyleView {
    let factor = dpi_scale_of(height as int);
    TextStyleView {
        font_family: "HankenGrotesk"@,
        font_size: clamped(scaled(72000, factor), 32000, 180000) as i32,
        line_height: clamped(scaled(90000, factor), 36000, 220000) as i32,
        color: Color { r: 255, g: 255, b: 255, a: 255 },
        weight: 700,
        style: Slant::Normal,
    }
}

/// The style of the line below the title: 24 pixels with lines of 30 at a
/// height of 1080, scaled with the interface, regular and white.
pub open spec fn game_over_restart_style(height: u32) -> TextStyleView {
    let factor = dpi_scale_of(height as int);
    TextStyleView {
        font_family: "HankenGrotesk"@,
        font_size: clamped(scaled(24000, factor), 12000, 60000) as i32,
        line_height: clamped(scaled(30000, factor), 16000, 80000) as i32,
        color: Color { r: 255, g: 255, b: 255, a: 255 },
        weight: 400,
        style: Slant::Normal,
    }
}

/// Where the title of the game-over display is created: a box of 450 by 90
/// scaled pixels that ends at the middle of the window, a little above the
/// middle.
pub open spec fn game_over_title_box(width: u32, height: u32) -> TextPosition {
    let factor = dpi_scale_of(height as int);
    let box_width = scaled(450000, factor);
    let box_height = scaled(90000, factor);
    TextPosition {
        x: stored(pixels(width as int) / 2 - box_width),
        y: stored(pixels(height as int) / 2 - box_height / 2 - scaled(50000, factor)),
        max_width: Some(stored(box_width)),
        max_height: Some(stored(box_height)),
    }
}

/// Where the line below the title is created: a box of 350 by 30 scaled
/// pixels that ends at the middle of the window, a little below the middle.
pub open spec fn game_over_restart_box(width: u32, height: u32) -> TextPosition {
    let factor = dpi_scale_of(height as int);
    let box_width = scaled(350000, factor);
    TextPosition {
        x: stored(pixels(width as int) / 2 - box_width),
        y: stored(pixels(height as int) / 2 + scaled(40000, factor)),
        max_width: Some(stored(box_width)),
        max_height: Some(stored(scaled(30000, factor))),
    }
}

/// A measured text centred across the window, `above` above or `below`
/// below the middle of it, in a box with a margin to the right and below.
/// The lengths `above`, `below` and the margins are scaled with the
/// interface; a text that stands above is also raised by half its height.
pub open spec fn centered_box(
    width: u32,
    height: u32,
    metrics: TextMetrics,
    raised: bool,
    offset: int,
    margin: (int, int),
) -> TextPosition {
    let factor = dpi_scale_of(height as int);
    let middle = pixels(height as int) / 2;
    TextPosition {
        x: stored(pixels(width as int) / 2 - metrics.width / 2),
        y: stored(
            if raised {
                middle - metrics.height / 2 - scaled(offset, factor)
            } else {
                middle + scaled(offset, factor)
            },
        ),
        max_width: Some(stored(metrics.width + scaled(margin.0, factor))),
        max_height: Some(stored(metrics.height + scaled(margin.1, factor))),
    }
}

/// A measured text at a place, in a box with a margin of twenty by ten
/// scaled pixels.
pub open spec fn corner_box(height: u32, x: int, y: int, metrics: TextMetrics) -> TextPosition {
    let factor = dpi_scale_of(height as int);
    TextPosition {
        x: stored(x),
        y: stored(y),
        max_width: Some(stored(metrics.width + scaled(20000, factor))),
        max_height: Some(stored(metrics.height + scaled(10000, factor))),
    }
}

/// A font size that follows the width of the window: a share of the width
/// in thousandths, scaled with the interface, between two bounds.
pub open spec fn fluid_size(width: u32, height: u32, share: int, low: int, high: int) -> int {
    clamped(
        scaled(scaled(pixels(width as int), share), dpi_scale_of(height as int)),
        low,
        high,
    )
}

/// A line height that follows a font size: the size times a factor in
/// thousandths, between two bounds.
pub open spec fn fluid_line(size: int, factor: int, low: int, high: int) -> int {
    clamped(scaled(size, factor), low, high)
}

/// The size of the title of the game-over display when it follows the
/// window: twelve hundredths of the width, between 48 and 240 pixels.
pub open spec fn title_size(width: u32, height: u32) -> int {
    fluid_size(width, height, 120, 48000, 240000)
}

/// The size of the line below the title when it follows the window: 25
/// thousandths of the width, between 16 and 120 pixels.
pub open spec fn subtitle_size(width: u32, height: u32) -> int {
    fluid_size(width, height, 25, 16000, 120000)
}

/// The size of the score and the level when they follow the window: 22
/// thousandths of the width, between 16 and 48 pixels.
pub open spec fn score_size(width: u32, height: u32) -> int {
    fluid_size(width, height, 22, 16000, 48000)
}

impl TextRendererView {
    /// The engine with the block named `id` set in another size and moved;
    /// unchanged where no block has that name.
    pub open spec fn refitted(
        self,
        id: Seq<char>,
        font_size: int,
        line_height: int,
        position: TextPosition,
    ) -> TextRendererView {
        if self.has(id) {
            self.restyled(
                id,
                TextStyleView {
                    font_size: font_size as i32,
                    line_height: line_height as i32,
                    ..self.buffer(id).style
                },
            ).repositioned(id, position)
        } else {
            self
        }
    }

    /// The engine after `create_game_over_display`.
    pub open spec fn with_game_over_display(self, width: u32, height: u32) -> TextRendererView {
        self.created(
            "game_over_title"@,
            "Game Over!"@,
            Some(game_over_title_style(height)),
            Some(game_over_title_box(width, height)),
        ).created(
            "game_over_restart"@,
            "Click anywhere to play again."@,
            Some(game_over_restart_style(height)),
            Some(game_over_restart_box(width, height)),
        ).with_game_over_shown(false)
    }

    /// The engine with both blocks of the game-over display shown or
    /// hidden.
    pub open spec fn with_game_over_shown(self, visible: bool) -> TextRendererView {
        self.with_visibility("game_over_title"@, visible).with_visibility(
            "game_over_restart"@,
            visible,
        )
    }

    /// The engine after `handle_game_over_text`.
    pub open spec fn with_game_over_fitted(
        self,
        width: u32,
        height: u32,
        title: TextMetrics,
        restart: TextMetrics,
    ) -> TextRendererView {
        self.refitted(
            "game_over_title"@,
            title_size(width, height),
            fluid_line(title_size(width, height), 1250, 60000, 300000),
            centered_box(width, height, title, true, 60000, (40000, 20000)),
        ).refitted(
            "game_over_restart"@,
            subtitle_size(width, height),
            fluid_line(subtitle_size(width, height), 1300, 20000, 156000),
            centered_box(width, height, restart, false, 60000, (60000, 30000)),
        )
    }

    /// The engine after `handle_score_and_level_text`.
    pub open spec fn with_score_fitted(
        self,
        width: u32,
        height: u32,
        score: TextMetrics,
        level: TextMetrics,
    ) -> TextRendererView {
        let factor = dpi_scale_of(height as int);
        let size = score_size(width, height);
        let line = fluid_line(size, 1250, 20000, 60000);
        self.refitted(
            "score"@,
            size,
            line,
            corner_box(height, scaled(32000, factor), scaled(24000, factor), score),
        ).refitted(
            "level"@,
            size,
            line,
            corner_box(
                height,
                scaled(32000, factor),
                scaled(24000, factor) + line + scaled(8000, factor),
                level,
            ),
        )
    }
}

fn fluid(width: u32, height: u32, share: i64, low: i64, high: i64) -> (out: i64)
    requires
        0 <= share <= 1000,
        low <= high,
    ensures
        out == fluid_size(width, height, share as int, low as int, high as int),
        low <= out <= high,
{
    confine(scale(scale(from_pixels(width), share), dpi_scale(height)), low, high)
}

fn center_box(
    width: u32,
    height: u32,
    metrics: TextMetrics,
    raised: bool,
    offset: i64,
    margin: (i64, i64),
) -> (out: TextPosition)
    requires
        0 <= offset <= 1000000,
        0 <= margin.0 <= 1000000,
        0 <= margin.1 <= 1000000,
    ensures
        out == centered_box(width, height, metrics, raised, offset as int, (
            margin.0 as int,
            margin.1 as int,
        )),
{
    let factor = dpi_scale(height);
    let middle = half(from_pixels(height));
    let y: i64 = if raised {
        middle - half(metrics.height as i64) - scale(offset, factor)
    } else {
        middle + scale(offset, factor)
    };
    TextPosition {
        x: store(half(from_pixels(width)) - half(metrics.width as i64)),
        y: store(y),
        max_width: Some(store(metrics.width as i64 + scale(margin.0, factor))),
        max_height: Some(store(metrics.height as i64 + scale(margin.1, factor))),
    }
}

fn place_box(height: u32, x: i64, y: i64, metrics: TextMetrics) -> (out: TextPosition)
    ensures
        out == corner_box(height, x as int, y as int, metrics),
{
    let factor = dpi_scale(height);
    TextPosition {
        x: store(x),
        y: store(y),
        max_width: Some(store(metrics.width as i64 + scale(20000, factor))),
        max_height: Some(store(metrics.height as i64 + scale(10000, factor))),
    }
}

impl TextRenderer {
    /// The style of the title of the game-over display.
    pub fn game_over_title_text_style(height: u32) -> (style: TextStyle)
        ensures
            style@ == game_over_title_style(height),
    {
        let factor = dpi_scale(height);
        TextStyle {
            font_family: String::from_str("HankenGrotesk"),
            font_size: confine(scale(72000, factor), 32000, 180000) as i32,
            line_height: confine(scale(90000, factor), 36000, 220000) as i32,
            color: Color::rgb(255, 255, 255),
            weight: WEIGHT_BOLD,
            style: Slant::Normal,
        }
    }

    /// The style of the line below the title of the game-over display.
    pub fn game_over_restart_text_style(height: u32) -> (style: TextStyle)
        ensures
            style@ == game_over_restart_style(height),
    {
        let factor = dpi_scale(height);
        TextStyle {
            font_family: String::from_str("HankenGrotesk"),
            font_size: confine(scale(24000, factor), 12000, 60000) as i32,
            line_height: confine(scale(30000, factor), 16000, 80000) as i32,
            color: Color::rgb(255, 255, 255),
            weight: WEIGHT_NORMAL,
            style: Slant::Normal,
        }
    }

    /// Sets the block named `id` in another size and moves it, where there
    /// is such a block.
    pub fn refit(&mut self, id: &str, font_size: i32, line_height: i32, position: TextPosition)
        ensures
            final(self)@ == old(self)@.refitted(
                id@,
                font_size as int,
                line_height as int,
                position,
            ),
    {
        match self.find(id) {
            Some(i) => {
                let mut style = self.text_buffers[i].buffer.style.clone();
                style.font_size = font_size;
                style.line_height = line_height;
                let _ = self.update_style(id, style);
                let _ = self.update_position(id, position);
            },
            None => {},
        }
    }

    /// Creates the two blocks of the game-over display for a window of the
    /// given size in pixels, hidden.
    pub fn create_game_over_display(&mut self, width: u32, height: u32)
        ensures
            final(self)@ == old(self)@.with_game_over_display(width, height),
    {
        let factor = dpi_scale(height);
        let title_width = scale(450000, factor);
        let title_height = scale(90000, factor);
        let center_x = half(from_pixels(width));
        let center_y = half(from_pixels(height));
        self.create_text_buffer(
            "game_over_title",
            "Game Over!",
            Some(Self::game_over_title_text_style(height)),
            Some(
                TextPosition {
                    x: store(center_x - title_width),
                    y: store(center_y - half(title_height) - scale(50000, factor)),
                    max_width: Some(store(title_width)),
                    max_height: Some(store(title_height)),
                },
            ),
        );
        let restart_width = scale(350000, factor);
        self.create_text_buffer(
            "game_over_restart",
            "Click anywhere to play again.",
            Some(Self::game_over_restart_text_style(height)),
            Some(
                TextPosition {
                    x: store(center_x - restart_width),
                    y: store(center_y + scale(40000, factor)),
                    max_width: Some(store(restart_width)),
                    max_height: Some(store(scale(30000, factor))),
                },
            ),
        );
        self.hide_game_over_display();
    }

    /// Shows the blocks of the game-over display that exist.
    pub fn show_game_over_display(&mut self)
        ensures
            final(self)@ == old(self)@.with_game_over_shown(true),
    {
        self.set_visible("game_over_title", true);
        self.set_visible("game_over_restart", true);
    }

    /// Hides the blocks of the game-over display that exist.
    pub fn hide_game_over_display(&mut self)
        ensures
            final(self)@ == old(self)@.with_game_over_shown(false),
    {
        self.set_visible("game_over_title", false);
        self.set_visible("game_over_restart", false);
    }

    /// Whether the title of the game-over display exists and is shown.
    pub fn is_game_over_visible(&self) -> (visible: bool)
        ensures
            visible == (self@.has("game_over_title"@) && self@.buffer(
                "game_over_title"@,
            ).visible),
    {
        match self.get_buffer("game_over_title") {
            Some(buffer) => buffer.visible,
            None => false,
        }
    }

    /// Centres the two blocks of the game-over display in a window of the
    /// given size in pixels, from the extents that their texts were
    /// measured with. Fails at the first of the two blocks that does not
    /// exist: the title is then not moved, or moved alone.
    pub fn update_game_over_position(
        &mut self,
        width: u32,
        height: u32,
        title: TextMetrics,
        restart: TextMetrics,
    ) -> (result: Result<(), String>)
        ensures
            !old(self)@.has("game_over_title"@) ==> final(self)@ == old(self)@ && result.is_err()
                && result->Err_0@ == not_found_message("game_over_title"@),
            old(self)@.has("game_over_title"@) ==> final(self)@ == old(self)@.repositioned(
                "game_over_title"@,
                centered_box(width, height, title, true, 50000, (20000, 10000)),
            ).repositioned(
                "game_over_restart"@,
                centered_box(width, height, restart, false, 40000, (20000, 10000)),
            ),
            result.is_ok() == (old(self)@.has("game_over_title"@) && old(self)@.repositioned(
                "game_over_title"@,
                centered_box(width, height, title, true, 50000, (20000, 10000)),
            ).has("game_over_restart"@)),
            old(self)@.has("game_over_title"@) && result.is_err() ==> result->Err_0@
                == not_found_message("game_over_restart"@),
    {
        let title_place = center_box(width, height, title, true, 50000, (20000, 10000));
        match self.update_position("game_over_title", title_place) {
            Ok(_) => {},
            Err(message) => {
                return Err(message);
            },
        }
        let restart_place = center_box(width, height, restart, false, 40000, (20000, 10000));
        self.update_position("game_over_restart", restart_place)
    }

    /// Fits the two blocks of the game-over display to a window of the
    /// given size in pixels: their font follows the width of the window,
    /// and they are centred from the extents that their texts were
    /// measured with in that font. A block that does not exist is passed
    /// over.
    pub fn handle_game_over_text(
        &mut self,
        width: u32,
        height: u32,
        title: TextMetrics,
        restart: TextMetrics,
    )
        ensures
            final(self)@ == old(self)@.with_game_over_fitted(width, height, title, restart),
    {
        let title_font = fluid(width, height, 120, 48000, 240000);
        let title_line = confine(scale(title_font, 1250), 60000, 300000);
        let subtitle_font = fluid(width, height, 25, 16000, 120000);
        let subtitle_line = confine(scale(subtitle_font, 1300), 20000, 156000);
        self.refit(
            "game_over_title",
            title_font as i32,
            title_line as i32,
            center_box(width, height, title, true, 60000, (40000, 20000)),
        );
        self.refit(
            "game_over_restart",
            subtitle_font as i32,
            subtitle_line as i32,
            center_box(width, height, restart, false, 60000, (60000, 30000)),
        );
    }

    /// Fits the score and the level to a window of the given size in
    /// pixels: their font follows the width of the window, and they stand
    /// in the upper left corner, the level a line below the score. A block
    /// that does not exist is passed over.
    pub fn handle_score_and_level_text(
        &mut self,
        width: u32,
        height: u32,
        score: TextMetrics,
        level: TextMetrics,
    )
        ensures
            final(self)@ == old(self)@.with_score_fitted(width, height, score, level),
    {
        let factor = dpi_scale(height);
        let font = fluid(width, height, 22, 16000, 48000);
        let line = confine(scale(font, 1250), 20000, 60000);
        let left = scale(32000, factor);
        let top = scale(24000, factor);
        self.refit("score", font as i32, line as i32, place_box(height, left, top, score));
        self.refit(
            "level",
            font as i32,
            line as i32,
            place_box(height, left, top + line + scale(8000, factor), level),
        );
    }

    /// The font size and line height that `handle_game_over_text` sets the
    /// title in: what its text is to be measured with.
    pub fn game_over_title_font(width: u32, height: u32) -> (out: (i32, i32))
        ensures
            out.0 == title_size(width, height),
            out.1 == fluid_line(title_size(width, height), 1250, 60000, 300000),
    {
        let font = fluid(width, height, 120, 48000, 240000);
        (font as i32, confine(scale(font, 1250), 60000, 300000) as i32)
    }

    /// The font size and line height that `handle_game_over_text` sets the
    /// line below the title in.
    pub fn game_over_restart_font(width: u32, height: u32) -> (out: (i32, i32))
        ensures
            out.0 == subtitle_size(width, height),
            out.1 == fluid_line(subtitle_size(width, height), 1300, 20000, 156000),
    {
        let font = fluid(width, height, 25, 16000, 120000);
        (font as i32, confine(scale(font, 1300), 20000, 156000) as i32)
    }

    /// The font size and line height that `handle_score_and_level_text`
    /// sets the score and the level in.
    pub fn score_font(width: u32, height: u32) -> (out: (i32, i32))
        ensures
            out.0 == score_size(width, height),
            out.1 == fluid_line(score_size(width, height), 1250, 20000, 60000),
    {
        let font = fluid(width, height, 22, 16000, 48000);
        (font as i32, confine(scale(font, 1250), 20000, 60000) as i32)
    }
}

/// The substitute family is not the family it stands in for, so resolving
/// a style twice is resolving it once.
pub proof fn lemma_resolve_idempotent(loaded: Seq<Seq<char>>, style: TextStyleView)
    ensures
        resolved_style(loaded, resolved_style(loaded, style)) == resolved_style(loaded, style),
{
    reveal_strlit("HankenGrotesk");
    reveal_strlit("DejaVu Sans");
    assert("HankenGrotesk"@.len() != "DejaVu Sans"@.len());
}

/// Putting a block under a name leaves the names as they were, or adds the
/// name at the end; the block is then found under it.
pub proof fn lemma_with_entry(entries: Seq<TextEntryView>, id: Seq<char>, buffer: TextBufferView)
    ensures
        has_entry(with_entry(entries, id, buffer), id),
        find_entry(with_entry(entries, id, buffer), id) == find_entry(entries, id),
        with_entry(entries, id, buffer)[find_entry(entries, id)].buffer == buffer,
        has_entry(entries, id) ==> with_entry(entries, id, buffer).len() == entries.len(),
{
    let ids = entry_ids(entries);
    let after = with_entry(entries, id, buffer);
    let i = find_entry(entries, id);
    lemma_index_of_bounds(ids, id);
    assert forall|j: int| 0 <= j < i implies entry_ids(after)[j] != id by {
        assert(ids[j] != id);
    }
    lemma_index_of_is(entry_ids(after), id, i);
}

/// Putting a block under a name leaves every block of another name where
/// and as it was.
pub proof fn lemma_with_entry_keeps_others(
    entries: Seq<TextEntryView>,
    id: Seq<char>,
    buffer: TextBufferView,
    other: Seq<char>,
)
    requires
        other != id,
    ensures
        has_entry(with_entry(entries, id, buffer), other) == has_entry(entries, other),
        has_entry(entries, other) ==> find_entry(with_entry(entries, id, buffer), other)
            == find_entry(entries, other) && with_entry(entries, id, buffer)[find_entry(
            entries,
            other,
        )] == entries[find_entry(entries, other)],
{
    let ids = entry_ids(entries);
    let after = with_entry(entries, id, buffer);
    let i = find_entry(entries, id);
    let j = find_entry(entries, other);
    lemma_index_of_bounds(ids, id);
    lemma_index_of_bounds(ids, other);
    if j < entries.len() {
        assert forall|k: int| 0 <= k < j implies entry_ids(after)[k] != other by {
            assert(ids[k] != other);
        }
        assert(entry_ids(after)[j] == other);
        lemma_index_of_is(entry_ids(after), other, j);
    } else {
        assert forall|k: int| 0 <= k < after.len() implies entry_ids(after)[k] != other by {
            if k < entries.len() {
                assert(ids[k] != other);
            }
        }
        lemma_index_of_is(entry_ids(after), other, after.len() as int);
    }
}

/// Whether no two blocks of a list have the same name.
pub open spec fn names_unique(entries: Seq<TextEntryView>) -> bool {
    distinct(entry_ids(entries))
}

/// Putting a block under a name changes the names of a list only by
/// adding that name at the end where no block had it, so a list in which
/// every name occurs once stays such a list.
pub proof fn lemma_with_entry_names(entries: Seq<TextEntryView>, id: Seq<char>, buffer: TextBufferView)
    ensures
        entry_ids(with_entry(entries, id, buffer)) == with_key(entry_ids(entries), id),
        names_unique(entries) ==> names_unique(with_entry(entries, id, buffer)),
{
    let ids = entry_ids(entries);
    lemma_index_of_bounds(ids, id);
    assert(entry_ids(with_entry(entries, id, buffer)) =~= with_key(ids, id));
    if names_unique(entries) {
        lemma_with_key_distinct(ids, id);
    }
}

impl TextRendererView {
    /// Whether no two blocks of the engine have the same name. It is so
    /// for a new engine, and every operation of the engine keeps it so.
    pub open spec fn names_unique(self) -> bool {
        names_unique(self.text_buffers)
    }
}

/// An engine in which every name occurs once stays such an engine, whatever
/// is created, styled, moved, shown, hidden, rewritten or refitted in it.
pub proof fn lemma_names_stay_unique(
    engine: TextRendererView,
    id: Seq<char>,
    text: Seq<char>,
    style: TextStyleView,
    position: TextPosition,
    visible: bool,
)
    requires
        engine.names_unique(),
    ensures
        engine.created(id, text, Some(style), Some(position)).names_unique(),
        engine.created(id, text, None, Some(position)).names_unique(),
        engine.created(id, text, Some(style), None).names_unique(),
        engine.created(id, text, None, None).names_unique(),
        engine.restyled(id, style).names_unique(),
        engine.repositioned(id, position).names_unique(),
        engine.with_visibility(id, visible).names_unique(),
        engine.with_text(id, text).names_unique(),
        engine.with_shaped(id).names_unique(),
        engine.refitted(
            id,
            style.font_size as int,
            style.line_height as int,
            position,
        ).names_unique(),
{
    lemma_buffer_put_keeps_names(engine, id);
    if engine.has(id) {
        let restyled = engine.restyled(
            id,
            TextStyleView {
                font_size: style.font_size,
                line_height: style.line_height,
                ..engine.buffer(id).style
            },
        );
        lemma_buffer_put_keeps_names(restyled, id);
    }
}

/// Whatever block is put under a name, an engine in which every name occurs
/// once stays such an engine.
pub proof fn lemma_buffer_put_keeps_names(engine: TextRendererView, id: Seq<char>)
    requires
        engine.names_unique(),
    ensures
        forall|buffer: TextBufferView| #[trigger] engine.with_buffer(id, buffer).names_unique(),
{
    assert forall|buffer: TextBufferView| #[trigger]
        engine.with_buffer(id, buffer).names_unique() by {
        lemma_with_entry_names(engine.text_buffers, id, buffer);
    }
}

/// Setting the same style twice is setting it once: the engine is the same
/// after the second call as after the first, and so is the text and the
/// style that the block is shaped from.
pub proof fn lemma_restyle_idempotent(engine: TextRendererView, id: Seq<char>, style: TextStyleView)
    ensures
        engine.restyled(id, style).restyled(id, style) == engine.restyled(id, style),
        engine.has(id) ==> engine.restyled(id, style).buffer(id).text_content == engine.buffer(
            id,
        ).text_content,
{
    if engine.has(id) {
        let once = engine.restyled(id, style);
        let first = TextBufferView {
            style: resolved_style(engine.loaded_fonts, style),
            needs_shaping: true,
            ..engine.buffer(id)
        };
        lemma_with_entry(engine.text_buffers, id, first);
        lemma_resolve_idempotent(engine.loaded_fonts, style);
        let i = find_entry(engine.text_buffers, id);
        assert(once.buffer(id) == first);
        lemma_with_entry(once.text_buffers, id, first);
        lemma_index_of_bounds(entry_ids(engine.text_buffers), id);
        assert(0 <= i < engine.text_buffers.len());
        assert(once.text_buffers == engine.text_buffers.update(
            i,
            TextEntryView { id, buffer: first },
        ));
        assert(once.text_buffers[i] == TextEntryView { id, buffer: first });
        assert(once.has(id));
        assert(find_entry(once.text_buffers, id) == i);
        let again = TextBufferView {
            style: resolved_style(once.loaded_fonts, style),
            needs_shaping: true,
            ..once.buffer(id)
        };
        assert(again == first);
        assert(with_entry(once.text_buffers, id, again) =~= once.text_buffers);
    }
}

} // verus!
