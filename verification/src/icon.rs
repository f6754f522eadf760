//! The icon batcher: queued icons are grouped by texture, each group one
//! list of quads with a cache of its own.

use vstd::prelude::*;
use crate::keys::{find_key, index_of, key_views, lemma_index_of_bounds, lemma_index_of_is};
use crate::rectangle::{
    batch_index, batch_indices, cast_indices, count_indices, index_count, is_index_memory,
    quad_index,
};
use crate::units::{from_pixels, pixels};

verus! {

/// A textured square in screen space, origin top left.
#[derive(Debug, PartialEq, Eq)]
pub struct Icon {
    pub x: i32,
    pub y: i32,
    pub width: i32,
    pub height: i32,
    pub texture_id: String,
}

/// An `Icon` with its texture key as a sequence of characters.
pub struct IconView {
    pub x: i32,
    pub y: i32,
    pub width: i32,
    pub height: i32,
    pub texture_id: Seq<char>,
}

impl View for Icon {
    type V = IconView;

    open spec fn view(&self) -> IconView {
        IconView {
            x: self.x,
            y: self.y,
            width: self.width,
            height: self.height,
            texture_id: self.texture_id@,
        }
    }
}

impl Clone for Icon {
    fn clone(&self) -> (out: Self)
        ensures
            out == *self,
    {
        Icon {
            x: self.x,
            y: self.y,
            width: self.width,
            height: self.height,
            texture_id: self.texture_id.clone(),
        }
    }
}

impl Icon {
    /// An icon at a place, of a size, with the texture under a key.
    pub fn new(x: i32, y: i32, width: i32, height: i32, texture_id: String) -> (icon: Icon)
        ensures
            icon == (Icon { x, y, width, height, texture_id }),
    {
        Icon { x, y, width, height, texture_id }
    }
}

/// One corner of an icon's quad. Its position is in normalised device
/// coordinates, as numerators over the width and the height of the viewport
/// in units.
#[derive(Clone, Copy, Debug, PartialEq, Eq)]
pub struct IconVertex {
    pub position: (i64, i64),
    pub uv: (u8, u8),
}

/// Corner `corner` of the quad of an icon, counted from the top left
/// clockwise. Across, a length `x` lies at `2x/W - 1`; down, a length `y`
/// lies at `2y/H - 1`: icons are not flipped as rectangles are.
pub open spec fn icon_vertex(icon: IconView, corner: int, window: (u32, u32)) -> IconVertex {
    let left = 2 * icon.x - pixels(window.0 as int);
    let top = 2 * icon.y - pixels(window.1 as int);
    let right = left + 2 * icon.width;
    let bottom = top + 2 * icon.height;
    IconVertex {
        position: (
            (if corner == 1 || corner == 2 { right } else { left }) as i64,
            (if corner == 2 || corner == 3 { bottom } else { top }) as i64,
        ),
        uv: (
            if corner == 1 || corner == 2 { 1u8 } else { 0u8 },
            if corner == 2 || corner == 3 { 1u8 } else { 0u8 },
        ),
    }
}

/// The quads of the icons of one texture.
#[derive(Debug, PartialEq, Eq)]
pub struct IconBatch {
    pub vertices: Vec<IconVertex>,
    pub indices: Vec<u16>,
    /// The width and height of the viewport in units: what the vertex
    /// positions are over.
    pub viewport: (i64, i64),
}

/// An `IconBatch` as sequences.
pub struct IconBatchView {
    pub vertices: Seq<IconVertex>,
    pub indices: Seq<u16>,
    pub viewport: (i64, i64),
}

impl View for IconBatch {
    type V = IconBatchView;

    open spec fn view(&self) -> IconBatchView {
        IconBatchView {
            vertices: self.vertices@,
            indices: self.indices@,
            viewport: self.viewport,
        }
    }
}

impl IconBatch {
    /// The indices of the batch as the bytes of an index buffer.
    pub fn index_bytes(&self) -> (bytes: Vec<u8>)
        ensures
            is_index_memory(self.indices@, bytes@),
    {
        cast_indices(&self.indices)
    }
}

/// The batch cached for one texture, and the number of icons it was built
/// from.
#[derive(Debug, PartialEq, Eq)]
pub struct IconCache {
    pub texture_id: String,
    pub batch: IconBatch,
    pub icon_count: usize,
}

/// An `IconCache` as sequences.
pub struct IconCacheView {
    pub texture_id: Seq<char>,
    pub batch: IconBatchView,
    pub icon_count: usize,
}

impl View for IconCache {
    type V = IconCacheView;

    open spec fn view(&self) -> IconCacheView {
        IconCacheView {
            texture_id: self.texture_id@,
            batch: self.batch@,
            icon_count: self.icon_count,
        }
    }
}

/// One draw call: the cached batch at `cache_index`, with its texture
/// bound. `rebuilt` says that the batch was built in this call and has to be
/// uploaded.
#[derive(Clone, Copy, Debug, PartialEq, Eq, Structural)]
pub struct IconDraw {
    pub cache_index: usize,
    pub rebuilt: bool,
    pub index_count: u32,
}

/// The views of a list of icons.
pub open spec fn icon_views(icons: Seq<Icon>) -> Seq<IconView> {
    icons.map_values(|i: Icon| i@)
}

/// The views of a list of caches.
pub open spec fn cache_views(cache: Seq<IconCache>) -> Seq<IconCacheView> {
    cache.map_values(|c: IconCache| c@)
}

/// The texture keys of a list of icons, in order.
pub open spec fn texture_ids(icons: Seq<IconView>) -> Seq<Seq<char>> {
    icons.map_values(|i: IconView| i.texture_id)
}

/// The texture keys of a list of caches, in order.
pub open spec fn cache_ids(cache: Seq<IconCacheView>) -> Seq<Seq<char>> {
    cache.map_values(|c: IconCacheView| c.texture_id)
}

/// Those of the first `n` icons that use the texture `texture`, in order.
pub open spec fn group_of(icons: Seq<IconView>, texture: Seq<char>, n: int) -> Seq<IconView>
    decreases n,
{
    if n <= 0 {
        Seq::empty()
    } else {
        let before = group_of(icons, texture, n - 1);
        if icons[n - 1].texture_id == texture {
            before.push(icons[n - 1])
        } else {
            before
        }
    }
}

/// The vertices of a group: four for each icon, in order.
pub open spec fn group_vertices(group: Seq<IconView>, window: (u32, u32)) -> Seq<IconVertex> {
    Seq::new((4 * group.len()) as nat, |k: int| icon_vertex(group[k / 4], k % 4, window))
}

/// The batch built from the icons of one texture.
pub open spec fn icon_batch_of(group: Seq<IconView>, window: (u32, u32)) -> IconBatchView {
    IconBatchView {
        vertices: group_vertices(group, window),
        indices: batch_indices(group.len() as int),
        viewport: (pixels(window.0 as int) as i64, pixels(window.1 as int) as i64),
    }
}

/// The number of icons that the cache claims for a texture: zero where it
/// holds nothing for it.
pub open spec fn cached_count(cache: Seq<IconCacheView>, texture: Seq<char>) -> int {
    let i = index_of(cache_ids(cache), texture);
    if i < cache.len() {
        cache[i].icon_count as int
    } else {
        0
    }
}

/// The cache with an entry for a texture put in place of the one it had,
/// or at the end.
pub open spec fn with_cache(cache: Seq<IconCacheView>, entry: IconCacheView) -> Seq<IconCacheView> {
    let i = index_of(cache_ids(cache), entry.texture_id);
    if i < cache.len() {
        cache.update(i, entry)
    } else {
        cache.push(entry)
    }
}

/// The cache and the draw calls while the groups are gone through.
pub struct IconPass {
    pub cache: Seq<IconCacheView>,
    pub draws: Seq<IconDraw>,
}

/// A `IconRenderer` as sequences.
pub struct IconRendererView {
    pub icons: Seq<IconView>,
    pub textures: Seq<Seq<char>>,
    pub window: (u32, u32),
    pub cache: Seq<IconCacheView>,
}

impl IconRendererView {
    /// Whether the icon at place `k` starts a group that is drawn: no icon
    /// before it uses its texture, and that texture is loaded.
    pub open spec fn starts_group(self, k: int) -> bool {
        let texture = self.icons[k].texture_id;
        index_of(texture_ids(self.icons), texture) == k && self.textures.contains(texture)
    }

    /// The pass after the group that the icon at place `k` starts. The
    /// group's batch is built anew exactly when the number of its icons is
    /// not the number that the cache claims for its texture.
    pub open spec fn group_done(self, pass: IconPass, k: int) -> IconPass {
        let texture = self.icons[k].texture_id;
        let group = group_of(self.icons, texture, self.icons.len() as int);
        let rebuilt = cached_count(pass.cache, texture) != group.len();
        let cache = if rebuilt {
            with_cache(
                pass.cache,
                IconCacheView {
                    texture_id: texture,
                    batch: icon_batch_of(group, self.window),
                    icon_count: group.len() as usize,
                },
            )
        } else {
            pass.cache
        };
        IconPass {
            cache,
            draws: pass.draws.push(
                IconDraw {
                    cache_index: index_of(cache_ids(cache), texture) as usize,
                    rebuilt,
                    index_count: index_count(group.len() as int),
                },
            ),
        }
    }

    /// The pass after the first `n` icons: each texture is dealt with once,
    /// at the first icon that uses it.
    pub open spec fn pass_upto(self, n: int) -> IconPass
        decreases n,
    {
        if n <= 0 {
            IconPass { cache: self.cache, draws: Seq::empty() }
        } else {
            let before = self.pass_upto(n - 1);
            if self.starts_group(n - 1) {
                self.group_done(before, n - 1)
            } else {
                before
            }
        }
    }

    /// The batcher after `render`.
    pub open spec fn rendered(self) -> IconRendererView {
        IconRendererView { cache: self.pass_upto(self.icons.len() as int).cache, ..self }
    }

    /// The draw calls that `render` returns.
    pub open spec fn draws(self) -> Seq<IconDraw> {
        self.pass_upto(self.icons.len() as int).draws
    }
}

/// The icon batcher.
#[derive(Debug)]
pub struct IconRenderer {
    pub icons: Vec<Icon>,
    /// The keys of the textures that the host has loaded.
    pub textures: Vec<String>,
    /// The viewport in pixels.
    pub window_width: u32,
    pub window_height: u32,
    /// The cached batches, one for a texture.
    pub cache: Vec<IconCache>,
}

impl View for IconRenderer {
    type V = IconRendererView;

    open spec fn view(&self) -> IconRendererView {
        IconRendererView {
            icons: icon_views(self.icons@),
            textures: key_views(self.textures@),
            window: (self.window_width, self.window_height),
            cache: cache_views(self.cache@),
        }
    }
}

impl IconRenderer {
    /// A batcher with no icon, no texture and no cache, and a viewport of
    /// 1360 by 768 pixels.
    pub fn new() -> (renderer: Self)
        ensures
            renderer@ == (IconRendererView {
                icons: Seq::empty(),
                textures: Seq::empty(),
                window: (1360u32, 768u32),
                cache: Seq::empty(),
            }),
    {
        let renderer = IconRenderer {
            icons: Vec::new(),
            textures: Vec::new(),
            window_width: 1360,
            window_height: 768,
            cache: Vec::new(),
        };
        proof {
            assert(renderer@.icons =~= Seq::empty());
            assert(renderer@.textures =~= Seq::empty());
            assert(renderer@.cache =~= Seq::empty());
        }
        renderer
    }

    /// Records that the texture under a key is loaded. A key that is
    /// already there is not recorded twice.
    pub fn load_texture(&mut self, texture_id: &str)
        ensures
            final(self)@ == (IconRendererView {
                textures: if old(self)@.textures.contains(texture_id@) {
                    old(self)@.textures
                } else {
                    old(self)@.textures.push(texture_id@)
                },
                ..old(self)@
            }),
    {
        let key = String::from_str(texture_id);
        if find_key(&self.textures, &key) >= self.textures.len() {
            self.textures.push(key);
        }
        proof {
            assert(self@.icons =~= old(self)@.icons);
            assert(self@.cache =~= old(self)@.cache);
            if !old(self)@.textures.contains(texture_id@) {
                assert(self@.textures =~= old(self)@.textures.push(texture_id@));
            } else {
                assert(self@.textures =~= old(self)@.textures);
            }
        }
    }

    /// Queues an icon behind those already queued.
    pub fn add_icon(&mut self, icon: Icon)
        ensures
            final(self)@ == (IconRendererView {
                icons: old(self)@.icons.push(icon@),
                ..old(self)@
            }),
    {
        self.icons.push(icon);
        proof {
            assert(self@.icons =~= old(self)@.icons.push(icon@));
            assert(self@.cache =~= old(self)@.cache);
            assert(self@.textures =~= old(self)@.textures);
        }
    }

    /// Empties the queue and drops every cached batch.
    pub fn clear_icons(&mut self)
        ensures
            final(self)@ == (IconRendererView {
                icons: Seq::empty(),
                cache: Seq::empty(),
                ..old(self)@
            }),
    {
        self.icons.clear();
        self.cache.clear();
        proof {
            assert(self@.icons =~= Seq::empty());
            assert(self@.cache =~= Seq::empty());
            assert(self@.textures =~= old(self)@.textures);
        }
    }

    /// Sets the viewport, in pixels, and drops every cached batch.
    pub fn resize(&mut self, width: u32, height: u32)
        ensures
            final(self)@ == (IconRendererView {
                window: (width, height),
                cache: Seq::empty(),
                ..old(self)@
            }),
    {
        self.window_width = width;
        self.window_height = height;
        self.cache.clear();
        proof {
            assert(self@.icons =~= old(self)@.icons);
            assert(self@.cache =~= Seq::empty());
            assert(self@.textures =~= old(self)@.textures);
        }
    }

    fn first_with_texture(&self, texture: &String) -> (place: usize)
        ensures
            place == index_of(texture_ids(self@.icons), texture@),
            place <= self.icons.len(),
    {
        let ghost ids = texture_ids(self@.icons);
        let mut i: usize = 0;
        while i < self.icons.len()
            invariant
                i <= self.icons.len(),
                ids == texture_ids(self@.icons),
                forall|j: int| 0 <= j < i ==> ids[j] != texture@,
            decreases self.icons.len() - i,
        {
            if self.icons[i].texture_id == *texture {
                proof {
                    lemma_index_of_is(ids, texture@, i as int);
                }
                return i;
            }
            i += 1;
        }
        proof {
            lemma_index_of_is(ids, texture@, i as int);
        }
        i
    }

    fn find_cache(&self, texture: &String) -> (place: usize)
        ensures
            place == index_of(cache_ids(self@.cache), texture@),
            place <= self.cache.len(),
    {
        let ghost ids = cache_ids(self@.cache);
        let mut i: usize = 0;
        while i < self.cache.len()
            invariant
                i <= self.cache.len(),
                ids == cache_ids(self@.cache),
                forall|j: int| 0 <= j < i ==> ids[j] != texture@,
            decreases self.cache.len() - i,
        {
            if self.cache[i].texture_id == *texture {
                proof {
                    lemma_index_of_is(ids, texture@, i as int);
                }
                return i;
            }
            i += 1;
        }
        proof {
            lemma_index_of_is(ids, texture@, i as int);
        }
        i
    }

    fn count_group(&self, texture: &String) -> (count: usize)
        ensures
            count == group_of(self@.icons, texture@, self.icons.len() as int).len(),
    {
        let mut count: usize = 0;
        let mut i: usize = 0;
        while i < self.icons.len()
            invariant
                i <= self.icons.len(),
                count <= i,
                count == group_of(self@.icons, texture@, i as int).len(),
            decreases self.icons.len() - i,
        {
            if self.icons[i].texture_id == *texture {
                count += 1;
            }
            i += 1;
        }
        count
    }

    fn build_group(&self, texture: &String) -> (batch: IconBatch)
        ensures
            batch@ == icon_batch_of(
                group_of(self@.icons, texture@, self.icons.len() as int),
                (self.window_width, self.window_height),
            ),
    {
        let ghost window = (self.window_width, self.window_height);
        let viewport_width: i64 = from_pixels(self.window_width);
        let viewport_height: i64 = from_pixels(self.window_height);
        let mut vertices: Vec<IconVertex> = Vec::new();
        let mut indices: Vec<u16> = Vec::new();
        let mut members: usize = 0;
        let mut i: usize = 0;
        while i < self.icons.len()
            invariant
                i <= self.icons.len(),
                members <= i,
                viewport_width == pixels(self.window_width as int),
                viewport_height == pixels(self.window_height as int),
                window == (self.window_width, self.window_height),
                members == group_of(self@.icons, texture@, i as int).len(),
                vertices@ =~= group_vertices(group_of(self@.icons, texture@, i as int), window),
                indices@ =~= Seq::new((6 * members) as nat, |k: int| batch_index(k)),
            decreases self.icons.len() - i,
        {
            if self.icons[i].texture_id == *texture {
                let icon = &self.icons[i];
                let left: i64 = 2 * icon.x as i64 - viewport_width;
                let top: i64 = 2 * icon.y as i64 - viewport_height;
                let right: i64 = left + 2 * icon.width as i64;
                let bottom: i64 = top + 2 * icon.height as i64;
                vertices.push(IconVertex { position: (left, top), uv: (0, 0) });
                vertices.push(IconVertex { position: (right, top), uv: (1, 0) });
                vertices.push(IconVertex { position: (right, bottom), uv: (1, 1) });
                vertices.push(IconVertex { position: (left, bottom), uv: (0, 1) });
                indices.push(quad_index(members, 0));
                indices.push(quad_index(members, 1));
                indices.push(quad_index(members, 2));
                indices.push(quad_index(members, 0));
                indices.push(quad_index(members, 2));
                indices.push(quad_index(members, 3));
                members += 1;
            }
            i += 1;
        }
        IconBatch { vertices, indices, viewport: (viewport_width, viewport_height) }
    }

    /// Prepares the draw calls for the queue, one for each texture that is
    /// loaded, in the order in which the textures first occur in the queue.
    /// Icons of a texture that is not loaded are passed over. A group's
    /// batch is built anew exactly when the number of its icons is not the
    /// number its cached batch was built from.
    pub fn render(&mut self) -> (draws: Vec<IconDraw>)
        ensures
            final(self)@ == old(self)@.rendered(),
            draws@ == old(self)@.draws(),
    {
        let mut draws: Vec<IconDraw> = Vec::new();
        let mut k: usize = 0;
        while k < self.icons.len()
            invariant
                k <= self.icons.len(),
                self@.icons == old(self)@.icons,
                self@.textures == old(self)@.textures,
                self@.window == old(self)@.window,
                self.icons.len() == old(self).icons.len(),
                self@.cache == old(self)@.pass_upto(k as int).cache,
                draws@ == old(self)@.pass_upto(k as int).draws,
            decreases self.icons.len() - k,
        {
            let texture = self.icons[k].texture_id.clone();
            if self.first_with_texture(&texture) == k && find_key(&self.textures, &texture)
                < self.textures.len() {
                let count = self.count_group(&texture);
                let place = self.find_cache(&texture);
                let claimed: usize = if place < self.cache.len() {
                    self.cache[place].icon_count
                } else {
                    0
                };
                let rebuilt = claimed != count;
                if rebuilt {
                    let batch = self.build_group(&texture);
                    let ghost before = self@.cache;
                    let ghost entry = IconCacheView {
                        texture_id: texture@,
                        batch: batch@,
                        icon_count: count,
                    };
                    let entry_value = IconCache {
                        texture_id: texture.clone(),
                        batch,
                        icon_count: count,
                    };
                    if place < self.cache.len() {
                        self.cache[place] = entry_value;
                    } else {
                        self.cache.push(entry_value);
                    }
                    proof {
                        assert(self@.cache =~= with_cache(before, entry));
                        assert(self@.icons =~= old(self)@.icons);
                        assert(self@.textures =~= old(self)@.textures);
                    }
                }
                let now = self.find_cache(&texture);
                draws.push(
                    IconDraw {
                        cache_index: now,
                        rebuilt,
                        index_count: count_indices(count),
                    },
                );
            }
            k += 1;
        }
        draws
    }
}

} // verus!
