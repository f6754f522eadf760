//! The rectangle batcher: queued rectangles become one list of quads, built
//! again only when the number of queued rectangles differs from the number
//! the cached list was built from.

use vstd::prelude::*;
use crate::color::Color;
use crate::units::{from_pixels, pixels};

verus! {

/// An axis-aligned rectangle in screen space, origin top left, y down.
#[derive(Clone, Copy, Debug, PartialEq, Eq, Structural)]
pub struct Rectangle {
    pub x: i32,
    pub y: i32,
    pub width: i32,
    pub height: i32,
    pub color: Color,
    pub corner_radius: i32,
}

impl Rectangle {
    /// A rectangle with square corners.
    pub fn new(x: i32, y: i32, width: i32, height: i32, color: Color) -> (rect: Rectangle)
        ensures
            rect == (Rectangle { x, y, width, height, color, corner_radius: 0 }),
    {
        Rectangle { x, y, width, height, color, corner_radius: 0 }
    }

    /// The same rectangle with rounded corners.
    pub fn with_corner_radius(self, radius: i32) -> (rect: Rectangle)
        ensures
            rect == (Rectangle { corner_radius: radius, ..self }),
    {
        Rectangle {
            x: self.x,
            y: self.y,
            width: self.width,
            height: self.height,
            color: self.color,
            corner_radius: radius,
        }
    }
}

/// One corner of a quad. Its position is in normalised device coordinates,
/// as numerators over the width and the height of the viewport in units.
#[derive(Clone, Copy, Debug, PartialEq, Eq)]
pub struct Vertex {
    pub position: (i64, i64),
    pub color: Color,
    pub uv: (i32, i32),
    pub rect_size: (i32, i32),
    pub corner_radius: i32,
}

/// Corner `corner` of the quad of a rectangle, counted from the top left
/// clockwise. Across, a length `x` lies at `2x/W - 1`; down, a length `y`
/// lies at `1 - 2y/H`.
pub open spec fn quad_vertex(rect: Rectangle, corner: int, window: (u32, u32)) -> Vertex {
    let left = 2 * rect.x - pixels(window.0 as int);
    let top = pixels(window.1 as int) - 2 * rect.y;
    let right = left + 2 * rect.width;
    let bottom = top - 2 * rect.height;
    Vertex {
        position: (
            (if corner == 1 || corner == 2 { right } else { left }) as i64,
            (if corner == 2 || corner == 3 { bottom } else { top }) as i64,
        ),
        color: rect.color,
        uv: (
            if corner == 1 || corner == 2 { rect.width } else { 0i32 },
            if corner == 2 || corner == 3 { rect.height } else { 0i32 },
        ),
        rect_size: (rect.width, rect.height),
        corner_radius: rect.corner_radius,
    }
}

/// Which corner of its quad the `k`-th index of a quad names: two
/// triangles, `0 1 2` and `0 2 3`.
pub open spec fn triangle_corner(k: int) -> int {
    if k == 0 || k == 3 {
        0
    } else if k == 1 {
        1
    } else if k == 2 || k == 4 {
        2
    } else {
        3
    }
}

/// The `k`-th index of a batch. Indices have sixteen bits: the first vertex
/// of quad `q` is `4q` cut to sixteen bits.
pub open spec fn batch_index(k: int) -> u16 {
    ((4 * (k / 6)) % 65536 + triangle_corner(k % 6)) as u16
}

/// The indices of a batch of `n` quads.
pub open spec fn batch_indices(n: int) -> Seq<u16> {
    Seq::new((6 * n) as nat, |k: int| batch_index(k))
}

/// The number of indices to draw for `n` quads, cut to thirty-two bits.
pub open spec fn index_count(n: int) -> u32 {
    ((6 * n) % 0x1_0000_0000) as u32
}

/// The vertices of a batch: four for each rectangle, in order.
pub open spec fn batch_vertices(rects: Seq<Rectangle>, window: (u32, u32)) -> Seq<Vertex> {
    Seq::new((4 * rects.len()) as nat, |k: int| quad_vertex(rects[k / 4], k % 4, window))
}

/// The triangulated quads of one draw call.
#[derive(Debug, PartialEq, Eq)]
pub struct RectangleBatch {
    pub vertices: Vec<Vertex>,
    pub indices: Vec<u16>,
    /// The width and height of the viewport in units: what the vertex
    /// positions are over.
    pub viewport: (i64, i64),
}

/// A `RectangleBatch` as sequences.
pub struct RectangleBatchView {
    pub vertices: Seq<Vertex>,
    pub indices: Seq<u16>,
    pub viewport: (i64, i64),
}

impl View for RectangleBatch {
    type V = RectangleBatchView;

    open spec fn view(&self) -> RectangleBatchView {
        RectangleBatchView {
            vertices: self.vertices@,
            indices: self.indices@,
            viewport: self.viewport,
        }
    }
}

/// Whether `low` and `high` are the low and the high byte of `v`.
pub open spec fn bytes_of(v: u16, low: u8, high: u8) -> bool {
    low as int + 256 * (high as int) == v as int
}

/// Whether `bytes` holds the indices as they lie in memory: two bytes for
/// each index, in one byte order for all of them.
pub open spec fn is_index_memory(indices: Seq<u16>, bytes: Seq<u8>) -> bool {
    &&& bytes.len() == 2 * indices.len()
    &&& {
        ||| forall|k: int|
            0 <= k < indices.len() ==> bytes_of(
                #[trigger] indices[k],
                bytes[2 * k],
                bytes[2 * k + 1],
            )
        ||| forall|k: int|
            0 <= k < indices.len() ==> bytes_of(
                #[trigger] indices[k],
                bytes[2 * k + 1],
                bytes[2 * k],
            )
    }
}

/// `bytemuck::cast_slice` from sixteen-bit indices to bytes: the memory of
/// the indices, read as bytes. The contract claims two bytes for each index,
/// which are the low and the high byte of that index in the byte order of
/// the machine.
#[verifier::external_body]
pub(crate) fn cast_indices(indices: &Vec<u16>) -> (bytes: Vec<u8>)
    ensures
        is_index_memory(indices@, bytes@),
{
    bytemuck::cast_slice::<u16, u8>(indices.as_slice()).to_vec()
}

impl RectangleBatch {
    /// The indices of the batch as the bytes of an index buffer.
    pub fn index_bytes(&self) -> (bytes: Vec<u8>)
        ensures
            is_index_memory(self.indices@, bytes@),
    {
        cast_indices(&self.indices)
    }
}

/// The batch built from a queue of rectangles.
pub open spec fn batch_of(rects: Seq<Rectangle>, window: (u32, u32)) -> RectangleBatchView {
    RectangleBatchView {
        vertices: batch_vertices(rects, window),
        indices: batch_indices(rects.len() as int),
        viewport: (pixels(window.0 as int) as i64, pixels(window.1 as int) as i64),
    }
}

/// What a call of `render` asks the host to draw.
#[derive(Clone, Copy, Debug, PartialEq, Eq, Structural)]
pub enum RectangleDraw {
    /// Nothing is drawn.
    Nothing,
    /// The cached batch is drawn; `rebuilt` says that it was built in this
    /// call and has to be uploaded.
    Batch { rebuilt: bool, index_count: u32 },
}

/// The rectangle batcher.
#[derive(Debug)]
pub struct RectangleRenderer {
    pub rectangles: Vec<Rectangle>,
    /// The viewport in pixels.
    pub window_width: u32,
    pub window_height: u32,
    pub cached_batch: Option<RectangleBatch>,
    pub cached_rectangle_count: usize,
}

/// A `RectangleRenderer` as sequences.
pub struct RectangleRendererView {
    pub rectangles: Seq<Rectangle>,
    pub window: (u32, u32),
    pub cached_batch: Option<RectangleBatchView>,
    pub cached_rectangle_count: usize,
}

impl View for RectangleRenderer {
    type V = RectangleRendererView;

    open spec fn view(&self) -> RectangleRendererView {
        RectangleRendererView {
            rectangles: self.rectangles@,
            window: (self.window_width, self.window_height),
            cached_batch: match self.cached_batch {
                Some(b) => Some(b@),
                None => None,
            },
            cached_rectangle_count: self.cached_rectangle_count,
        }
    }
}

impl RectangleRendererView {
    /// Whether a cache that claims a length holds a batch. Every batcher
    /// made by `new` and changed by its methods is so.
    pub open spec fn consistent(self) -> bool {
        self.cached_rectangle_count != 0 ==> self.cached_batch.is_some()
    }

    /// The batcher with one more rectangle queued.
    pub open spec fn added(self, rect: Rectangle) -> RectangleRendererView {
        RectangleRendererView { rectangles: self.rectangles.push(rect), ..self }
    }

    /// The batcher with several more rectangles queued, one after another.
    pub open spec fn added_all(self, rects: Seq<Rectangle>) -> RectangleRendererView
        decreases rects.len(),
    {
        if rects.len() == 0 {
            self
        } else {
            self.added_all(rects.drop_last()).added(rects.last())
        }
    }

    /// The batcher with an empty queue and no cache.
    pub open spec fn cleared(self) -> RectangleRendererView {
        RectangleRendererView {
            rectangles: Seq::empty(),
            cached_batch: None,
            cached_rectangle_count: 0,
            ..self
        }
    }

    /// The batcher with another viewport and no cache.
    pub open spec fn resized(self, width: u32, height: u32) -> RectangleRendererView {
        RectangleRendererView {
            window: (width, height),
            cached_batch: None,
            cached_rectangle_count: 0,
            ..self
        }
    }

    /// Whether `render` builds the batch anew: the queue is not empty and
    /// its length is not the length the cache was built from.
    pub open spec fn rebuilds(self) -> bool {
        self.rectangles.len() != 0 && self.cached_rectangle_count != self.rectangles.len()
    }

    /// The batcher after `render`.
    pub open spec fn rendered(self) -> RectangleRendererView {
        if self.rebuilds() {
            RectangleRendererView {
                cached_batch: Some(batch_of(self.rectangles, self.window)),
                cached_rectangle_count: self.rectangles.len() as usize,
                ..self
            }
        } else {
            self
        }
    }

    /// What `render` asks the host to draw.
    pub open spec fn draw(self) -> RectangleDraw {
        if self.rectangles.len() == 0 || self.rendered().cached_batch.is_none() {
            RectangleDraw::Nothing
        } else {
            RectangleDraw::Batch {
                rebuilt: self.rebuilds(),
                index_count: index_count(self.rectangles.len() as int),
            }
        }
    }
}

pub(crate) fn quad_index(quad: usize, corner: u16) -> (index: u16)
    requires
        corner <= 3,
    ensures
        index == (4 * quad as int) % 65536 + corner,
{
    ((quad % 16384) * 4) as u16 + corner
}

pub(crate) fn count_indices(quads: usize) -> (count: u32)
    ensures
        count == index_count(quads as int),
{
    let low: u64 = quads as u64 % 0x1_0000_0000;
    ((low * 6) % 0x1_0000_0000) as u32
}

fn build_batch(rects: &Vec<Rectangle>, window_width: u32, window_height: u32) -> (batch:
    RectangleBatch)
    ensures
        batch@ == batch_of(rects@, (window_width, window_height)),
{
    let ghost window = (window_width, window_height);
    let viewport_width: i64 = from_pixels(window_width);
    let viewport_height: i64 = from_pixels(window_height);
    let mut vertices: Vec<Vertex> = Vec::new();
    let mut indices: Vec<u16> = Vec::new();
    let mut i: usize = 0;
    while i < rects.len()
        invariant
            i <= rects.len(),
            viewport_width == pixels(window_width as int),
            viewport_height == pixels(window_height as int),
            window == (window_width, window_height),
            vertices@ =~= Seq::new(
                (4 * i) as nat,
                |k: int| quad_vertex(rects@[k / 4], k % 4, window),
            ),
            indices@ =~= Seq::new((6 * i) as nat, |k: int| batch_index(k)),
        decreases rects.len() - i,
    {
        let rect = rects[i];
        let left: i64 = 2 * rect.x as i64 - viewport_width;
        let top: i64 = viewport_height - 2 * rect.y as i64;
        let right: i64 = left + 2 * rect.width as i64;
        let bottom: i64 = top - 2 * rect.height as i64;
        let size = (rect.width, rect.height);
        vertices.push(
            Vertex {
                position: (left, top),
                color: rect.color,
                uv: (0, 0),
                rect_size: size,
                corner_radius: rect.corner_radius,
            },
        );
        vertices.push(
            Vertex {
                position: (right, top),
                color: rect.color,
                uv: (rect.width, 0),
                rect_size: size,
                corner_radius: rect.corner_radius,
            },
        );
        vertices.push(
            Vertex {
                position: (right, bottom),
                color: rect.color,
                uv: (rect.width, rect.height),
                rect_size: size,
                corner_radius: rect.corner_radius,
            },
        );
        vertices.push(
            Vertex {
                position: (left, bottom),
                color: rect.color,
                uv: (0, rect.height),
                rect_size: size,
                corner_radius: rect.corner_radius,
            },
        );
        indices.push(quad_index(i, 0));
        indices.push(quad_index(i, 1));
        indices.push(quad_index(i, 2));
        indices.push(quad_index(i, 0));
        indices.push(quad_index(i, 2));
        indices.push(quad_index(i, 3));
        i += 1;
    }
    RectangleBatch { vertices, indices, viewport: (viewport_width, viewport_height) }
}

impl RectangleRenderer {
    /// A batcher with an empty queue, no cache, and a viewport of 1360 by
    /// 768 pixels.
    pub fn new() -> (renderer: Self)
        ensures
            renderer@ == (RectangleRendererView {
                rectangles: Seq::empty(),
                window: (1360u32, 768u32),
                cached_batch: None,
                cached_rectangle_count: 0,
            }),
    {
        RectangleRenderer {
            rectangles: Vec::new(),
            window_width: 1360,
            window_height: 768,
            cached_batch: None,
            cached_rectangle_count: 0,
        }
    }

    /// Queues a rectangle behind those already queued.
    pub fn add_rectangle(&mut self, rectangle: Rectangle)
        ensures
            final(self)@ == old(self)@.added(rectangle),
    {
        self.rectangles.push(rectangle);
    }

    /// Empties the queue and drops the cache.
    pub fn clear_rectangles(&mut self)
        ensures
            final(self)@ == old(self)@.cleared(),
    {
        self.rectangles.clear();
        self.cached_batch = None;
        self.cached_rectangle_count = 0;
    }

    /// Sets the viewport, in pixels, and drops the cache.
    pub fn resize(&mut self, width: u32, height: u32)
        ensures
            final(self)@ == old(self)@.resized(width, height),
    {
        self.window_width = width;
        self.window_height = height;
        self.cached_batch = None;
        self.cached_rectangle_count = 0;
    }

    /// Prepares the draw call for the queue. An empty queue draws nothing.
    /// The batch is built anew exactly when the length of the queue is not
    /// the length the cache was built from; otherwise the cache is drawn as
    /// it is, whatever the queue holds now.
    pub fn render(&mut self) -> (draw: RectangleDraw)
        ensures
            final(self)@ == old(self)@.rendered(),
            draw == old(self)@.draw(),
    {
        if self.rectangles.len() == 0 {
            return RectangleDraw::Nothing;
        }
        let need_new_buffers = self.cached_rectangle_count != self.rectangles.len();
        if need_new_buffers {
            let batch = build_batch(&self.rectangles, self.window_width, self.window_height);
            self.cached_batch = Some(batch);
            self.cached_rectangle_count = self.rectangles.len();
        }
        match &self.cached_batch {
            Some(_) => RectangleDraw::Batch {
                rebuilt: need_new_buffers,
                index_count: count_indices(self.rectangles.len()),
            },
            None => RectangleDraw::Nothing,
        }
    }
}

/// Queuing rectangles one after another appends them to the queue and
/// leaves the viewport and the cache alone.
pub proof fn lemma_added_all(renderer: RectangleRendererView, rects: Seq<Rectangle>)
    ensures
        renderer.added_all(rects) == (RectangleRendererView {
            rectangles: renderer.rectangles + rects,
            ..renderer
        }),
    decreases rects.len(),
{
    if rects.len() == 0 {
        assert(renderer.rectangles + rects =~= renderer.rectangles);
    } else {
        lemma_added_all(renderer, rects.drop_last());
        assert((renderer.rectangles + rects.drop_last()).push(rects.last()) =~= renderer.rectangles
            + rects);
    }
}

/// After the queue was cleared, the next `render`, of however many
/// rectangles were queued since, builds its batch from those rectangles,
/// whatever was cached before.
pub proof fn lemma_render_after_clear_rebuilds(
    renderer: RectangleRendererView,
    rects: Seq<Rectangle>,
)
    requires
        0 < rects.len() <= usize::MAX,
    ensures
        renderer.cleared().added_all(rects).rebuilds(),
        renderer.cleared().added_all(rects).rendered().cached_batch == Some(
            batch_of(rects, renderer.window),
        ),
        renderer.cleared().added_all(rects).draw() == (RectangleDraw::Batch {
            rebuilt: true,
            index_count: index_count(rects.len() as int),
        }),
{
    lemma_added_all(renderer.cleared(), rects);
    assert(Seq::<Rectangle>::empty() + rects =~= rects);
}

/// Each operation of the batcher keeps its cache consistent.
pub proof fn lemma_consistency_kept(renderer: RectangleRendererView, rect: Rectangle, size: (u32, u32))
    requires
        renderer.consistent(),
    ensures
        renderer.added(rect).consistent(),
        renderer.cleared().consistent(),
        renderer.resized(size.0, size.1).consistent(),
        renderer.rendered().consistent(),
{
}

/// A second `render` of an unchanged queue builds nothing: the batcher is
/// left as the first `render` left it, and the same cached batch is drawn.
pub proof fn lemma_second_render_reuses(renderer: RectangleRendererView)
    requires
        renderer.consistent(),
        renderer.rectangles.len() <= usize::MAX,
    ensures
        !renderer.rendered().rebuilds(),
        renderer.rendered().rendered() == renderer.rendered(),
        renderer.rectangles.len() > 0 ==> renderer.rendered().draw() == (RectangleDraw::Batch {
            rebuilt: false,
            index_count: index_count(renderer.rectangles.len() as int),
        }),
{
}

/// The cache is compared by length alone: a queue of the same length with
/// other rectangles is drawn from the batch of the earlier queue.
pub proof fn lemma_same_count_serves_cache(
    renderer: RectangleRendererView,
    other: Seq<Rectangle>,
)
    requires
        renderer.rectangles.len() <= usize::MAX,
        other.len() == renderer.rectangles.len(),
    ensures
        (RectangleRendererView { rectangles: other, ..renderer.rendered() }).rendered().cached_batch
            == renderer.rendered().cached_batch,
{
}

} // verus!
