use overlay_ui::color::Color;
use overlay_ui::rectangle::{Rectangle, RectangleDraw, RectangleRenderer};

fn rect(x: i32, y: i32, w: i32, h: i32) -> Rectangle {
    Rectangle::new(x, y, w, h, Color::rgb(9, 8, 7)).with_corner_radius(4000)
}

#[test]
fn rectangle_starts_with_square_corners() {
    let r = Rectangle::new(1, 2, 3, 4, Color::rgb(9, 8, 7));
    assert_eq!(r.corner_radius, 0);
    assert_eq!(r.with_corner_radius(5).corner_radius, 5);
    assert_eq!((r.x, r.y, r.width, r.height), (1, 2, 3, 4));
}

#[test]
fn empty_queue_draws_nothing() {
    let mut r = RectangleRenderer::new();
    assert_eq!(r.render(), RectangleDraw::Nothing);
    assert!(r.cached_batch.is_none());
    assert_eq!(r.cached_rectangle_count, 0);
}

#[test]
fn rectangle_y_axis_is_flipped() {
    let mut r = RectangleRenderer::new();
    r.add_rectangle(rect(0, 0, 680000, 384000));
    assert_eq!(r.render(), RectangleDraw::Batch { rebuilt: true, index_count: 6 });
    let batch = r.cached_batch.as_ref().unwrap();
    assert_eq!(batch.viewport, (1360000, 768000));
    let positions: Vec<(i64, i64)> = batch.vertices.iter().map(|v| v.position).collect();
    // Numerators over the viewport: the upper left quarter of the screen
    // spans -1..0 across and 1..0 down.
    assert_eq!(positions, vec![(-1360000, 768000), (0, 768000), (0, 0), (-1360000, 0)]);
    let uvs: Vec<(i32, i32)> = batch.vertices.iter().map(|v| v.uv).collect();
    assert_eq!(uvs, vec![(0, 0), (680000, 0), (680000, 384000), (0, 384000)]);
    for v in &batch.vertices {
        assert_eq!(v.color, Color::rgb(9, 8, 7));
        assert_eq!(v.rect_size, (680000, 384000));
        assert_eq!(v.corner_radius, 4000);
    }
    assert_eq!(batch.indices, vec![0, 1, 2, 0, 2, 3]);
}

#[test]
fn quads_are_batched_in_order() {
    let mut r = RectangleRenderer::new();
    r.resize(100, 100);
    r.add_rectangle(rect(0, 0, 10000, 10000));
    r.add_rectangle(rect(50000, 50000, 50000, 50000));
    assert_eq!(r.render(), RectangleDraw::Batch { rebuilt: true, index_count: 12 });
    let batch = r.cached_batch.as_ref().unwrap();
    assert_eq!(batch.vertices.len(), 8);
    assert_eq!(batch.indices, vec![0, 1, 2, 0, 2, 3, 4, 5, 6, 4, 6, 7]);
    assert_eq!(batch.vertices[4].position, (0, 0));
    assert_eq!(batch.vertices[6].position, (100000, -100000));
    assert_eq!(batch.viewport, (100000, 100000));
}

#[test]
fn second_render_of_the_same_queue_reuses_the_batch() {
    let mut r = RectangleRenderer::new();
    r.add_rectangle(rect(0, 0, 10000, 10000));
    assert_eq!(r.render(), RectangleDraw::Batch { rebuilt: true, index_count: 6 });
    let first = r.cached_batch.as_ref().unwrap().vertices.clone();
    assert_eq!(r.render(), RectangleDraw::Batch { rebuilt: false, index_count: 6 });
    assert_eq!(r.cached_batch.as_ref().unwrap().vertices, first);
}

#[test]
fn render_after_clear_always_rebuilds() {
    let mut r = RectangleRenderer::new();
    r.add_rectangle(rect(0, 0, 10000, 10000));
    r.render();
    r.clear_rectangles();
    assert!(r.cached_batch.is_none());
    assert!(r.rectangles.is_empty());
    r.add_rectangle(rect(20000, 0, 10000, 10000));
    assert_eq!(r.render(), RectangleDraw::Batch { rebuilt: true, index_count: 6 });
    assert_eq!(r.cached_batch.as_ref().unwrap().vertices[0].position, (40000 - 1360000, 768000));
}

#[test]
fn resize_drops_the_cache_and_changes_the_transform() {
    let mut r = RectangleRenderer::new();
    r.add_rectangle(rect(0, 0, 10000, 10000));
    r.render();
    r.resize(200, 100);
    assert!(r.cached_batch.is_none());
    assert_eq!(r.rectangles.len(), 1);
    assert_eq!(r.render(), RectangleDraw::Batch { rebuilt: true, index_count: 6 });
    let batch = r.cached_batch.as_ref().unwrap();
    assert_eq!(batch.viewport, (200000, 100000));
    assert_eq!(batch.vertices[2].position, (-180000, 80000));
}

#[test]
fn a_queue_of_the_same_length_is_served_from_the_cache() {
    let mut r = RectangleRenderer::new();
    r.add_rectangle(rect(0, 0, 10000, 10000));
    r.render();
    r.rectangles[0] = rect(500000, 0, 10000, 10000);
    assert_eq!(r.render(), RectangleDraw::Batch { rebuilt: false, index_count: 6 });
    assert_eq!(r.cached_batch.as_ref().unwrap().vertices[0].position, (-1360000, 768000));
    r.add_rectangle(rect(0, 0, 1, 1));
    assert_eq!(r.render(), RectangleDraw::Batch { rebuilt: true, index_count: 12 });
    assert_eq!(r.cached_batch.as_ref().unwrap().vertices[0].position, (-360000, 768000));
}

#[test]
fn index_bytes_are_the_indices_in_memory() {
    let mut r = RectangleRenderer::new();
    for _ in 0..70 {
        r.add_rectangle(rect(0, 0, 10000, 10000));
    }
    r.render();
    let batch = r.cached_batch.as_ref().unwrap();
    let bytes = batch.index_bytes();
    assert_eq!(bytes.len(), 2 * batch.indices.len());
    let expected: Vec<u8> = batch.indices.iter().flat_map(|i| i.to_ne_bytes()).collect();
    assert_eq!(bytes, expected);
    assert_eq!(batch.indices[69 * 6 + 5], 279);
    let low_first = bytes[2 * 419] as u16 + 256 * bytes[2 * 419 + 1] as u16 == 279;
    let high_first = bytes[2 * 419 + 1] as u16 + 256 * bytes[2 * 419] as u16 == 279;
    assert!(low_first || high_first);
}
