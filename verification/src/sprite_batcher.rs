//! The canvas: a 2D surface that buffers shapes and flushes them on demand.
//!
//! Drawing into a canvas only appends to its batches. `draw` records the
//! batches on the GPU context, oldest first, and leaves the canvas as it
//! was: a canvas that is drawn again without a `clear` in between submits
//! the same batches again.

use vstd::prelude::*;

use crate::batch::{
    append_shape, batches_ok, fits, push_rebased, push_vertices, shape_ok, BatchBuilder, BatchView,
    DrawBatch, RenderState, TextureId, Vertex, MAX_BATCH_VERTICES,
};
use crate::color::Color;
use crate::error::Error;
use crate::gpu::{CommandView, GpuCommand, GpuContextHandle};
use crate::math::{Point, TexCoord};
use crate::text::atlas::{glyph_key, AtlasView, GlyphInfo};
use crate::text::{atlas_of, cached, Font, FontsStorage};
use crate::texture::{TextureHandle, TexturesContext};

verus! {

/// An untextured vertex in the canvas plane.
pub open spec fn flat_vertex(x: int, y: int, u: u32, v: u32, color: Color) -> Vertex {
    Vertex {
        x: x as i64,
        y: y as i64,
        z: 0,
        u: TexCoord { num: u, den: 1 },
        v: TexCoord { num: v, den: 1 },
        color,
    }
}

/// The corners of an axis-aligned rectangle, clockwise from `(x, y)`.
pub open spec fn rectangle_vertices(x: i32, y: i32, w: i32, h: i32, color: Color) -> Seq<Vertex> {
    seq![
        flat_vertex(x as int, y as int, 0, 0, color),
        flat_vertex(x + w, y as int, 1, 0, color),
        flat_vertex(x + w, y + h, 1, 1, color),
        flat_vertex(x as int, y + h, 0, 1, color),
    ]
}

/// The corners of a sprite: a quad of the texture's extent with its top
/// left corner at `(x, y)`, over the whole of the texture.
pub open spec fn sprite_vertices(x: i32, y: i32, width: u32, height: u32, color: Color) -> Seq<Vertex> {
    seq![
        flat_vertex(x as int, y as int, 0, 0, color),
        flat_vertex(x + width, y as int, 1, 0, color),
        flat_vertex(x + width, y + height, 1, 1, color),
        flat_vertex(x as int, y + height, 0, 1, color),
    ]
}

/// The two triangles of a quad over corners 0 to 3.
pub open spec fn quad_indices() -> Seq<u32> {
    seq![0u32, 1u32, 2u32, 0u32, 2u32, 3u32]
}

/// The vertices of a fan: the centre, then the rim in the order given.
pub open spec fn fan_vertices(center: Point, rim: Seq<Point>, color: Color) -> Seq<Vertex> {
    seq![flat_vertex(center.x as int, center.y as int, 0, 0, color)] + Seq::new(
        rim.len(),
        |i: int| flat_vertex(rim[i].x as int, rim[i].y as int, 0, 0, color),
    )
}

/// The index at place `k` of a closed fan over `n` rim points: triangle
/// `k / 3` joins the centre, rim point `k / 3` and the rim point after it,
/// the last rim point being followed by the first.
pub open spec fn fan_index(n: int, k: int) -> u32 {
    if k % 3 == 0 {
        0u32
    } else if k % 3 == 1 {
        (k / 3 + 1) as u32
    } else if k / 3 + 1 == n {
        1u32
    } else {
        (k / 3 + 2) as u32
    }
}

/// The indices of a closed fan over `n` rim points: one triangle for each.
pub open spec fn fan_indices(n: int) -> Seq<u32> {
    Seq::new((3 * n) as nat, |k: int| fan_index(n, k))
}

/// The store knows the font and has cached every character of the text at
/// the size.
pub open spec fn text_cached(store: Seq<AtlasView>, font: Font, text: Seq<char>, size: u16) -> bool {
    &&& atlas_of(store, font) is Some
    &&& forall|i: int|
        0 <= i < text.len() ==> cached(store, font, glyph_key(#[trigger] text[i], size)) is Some
}

/// The glyphs of a text, character by character.
pub open spec fn glyph_run(atlas: AtlasView, text: Seq<char>, size: u16) -> Seq<GlyphInfo> {
    Seq::new(text.len(), |i: int| atlas.glyphs[glyph_key(text[i], size)])
}

/// How far the pen has moved when it reaches glyph `k` of a run: the sum of
/// the advances of the glyphs before it.
pub open spec fn pen_offset(run: Seq<GlyphInfo>, k: int) -> int
    decreases k,
{
    if k <= 0 {
        0
    } else {
        pen_offset(run, k - 1) + run[k - 1].advance
    }
}

/// One corner of a glyph's quad, the corners counted clockwise from the
/// top left. The quad has the extent of the glyph's bitmap and lies at the
/// glyph's offset from the pen; its texture coordinates are the corners of
/// the glyph's rectangle as fractions of the atlas extent.
pub open spec fn glyph_vertex(
    g: GlyphInfo,
    pen_x: int,
    y: int,
    width: u32,
    height: u32,
    corner: int,
    color: Color,
) -> Vertex {
    let dx = if corner == 1 || corner == 2 {
        g.rect.w as int
    } else {
        0
    };
    let dy = if corner == 2 || corner == 3 {
        g.rect.h as int
    } else {
        0
    };
    Vertex {
        x: (pen_x + g.offset_x + dx) as i64,
        y: (y + g.offset_y + dy) as i64,
        z: 0,
        u: TexCoord { num: (g.rect.x + dx) as u32, den: width },
        v: TexCoord { num: (g.rect.y + dy) as u32, den: height },
        color,
    }
}

/// The vertices of a run of glyphs that starts with the pen at `(x, y)`:
/// four for each glyph.
pub open spec fn text_vertices(
    run: Seq<GlyphInfo>,
    x: i32,
    y: i32,
    width: u32,
    height: u32,
    color: Color,
) -> Seq<Vertex> {
    Seq::new(
        4 * run.len(),
        |k: int|
            glyph_vertex(run[k / 4], x + pen_offset(run, k / 4), y as int, width, height, k % 4, color),
    )
}

/// The indices of `n` quads, each over its own four vertices.
pub open spec fn text_indices(n: int) -> Seq<u32> {
    Seq::new((6 * n) as nat, |k: int| (4 * (k / 6) + quad_indices()[k % 6]) as u32)
}

/// The most glyphs that one call can draw: each takes four vertices of a
/// batch.
pub const MAX_TEXT_GLYPHS: u32 = 0x3fff_ffff;

/// A batch is bound when it is the first of a flush, or when its render
/// state differs from that of the batch before it.
pub open spec fn binds(batches: Seq<BatchView>, i: int) -> bool {
    i == 0 || batches[i - 1].state != batches[i].state
}

/// The commands that submit one batch.
pub open spec fn batch_commands(b: BatchView, bind: bool) -> Seq<CommandView> {
    let upload = CommandView::UpdateBuffers { vertices: b.vertices, indices: b.indices };
    let submit = CommandView::SubmitDraw { index_count: b.indices.len() as usize };
    if bind {
        seq![CommandView::BindState { state: b.state }, upload, submit]
    } else {
        seq![upload, submit]
    }
}

/// The commands that submit a batch list, oldest batch first.
pub open spec fn flush_plan(batches: Seq<BatchView>) -> Seq<CommandView>
    decreases batches.len(),
{
    if batches.len() == 0 {
        Seq::empty()
    } else {
        flush_plan(batches.drop_last()) + batch_commands(
            batches.last(),
            binds(batches, batches.len() - 1),
        )
    }
}

/// A 2D surface with its own batches.
pub struct SpriteBatcher {
    builder: BatchBuilder,
}

impl View for SpriteBatcher {
    type V = Seq<BatchView>;

    closed spec fn view(&self) -> Seq<BatchView> {
        self.builder@
    }
}

impl SpriteBatcher {
    /// An empty canvas.
    pub fn new() -> (canvas: SpriteBatcher)
        ensures
            canvas@ == Seq::<BatchView>::empty(),
    {
        SpriteBatcher { builder: BatchBuilder::new() }
    }

    /// The number of batches that `draw` would submit.
    pub fn batch_count(&self) -> (n: usize)
        ensures
            n == self@.len(),
            batches_ok(self@),
    {
        self.builder.len()
    }

    /// The batch at place `i`, counted from the oldest.
    pub fn batch(&self, i: usize) -> (b: Option<&DrawBatch>)
        ensures
            i < self@.len() ==> b is Some && b->0@ == self@[i as int],
            i >= self@.len() ==> b is None,
    {
        self.builder.batch(i)
    }

    /// Appends a shape with the given render state.
    ///
    /// Fails with `UnsupportedFormatError` when an index names no vertex of
    /// the shape, and with `ResourceError` when the batch that would hold
    /// the shape has no room for it. A failed call changes nothing.
    pub fn draw_shape(&mut self, vertices: &Vec<Vertex>, indices: &Vec<u32>, state: RenderState) -> (r:
        Result<(), Error>)
        ensures
            batches_ok(old(self)@),
            batches_ok(final(self)@),
            r is Ok <==> shape_ok(vertices@, indices@) && fits(old(self)@, state, vertices@),
            r is Ok ==> final(self)@ == append_shape(old(self)@, state, vertices@, indices@),
            r is Err ==> final(self)@ == old(self)@,
            r is Err ==> (r == Err::<(), Error>(Error::UnsupportedFormatError) <==> !shape_ok(
                vertices@,
                indices@,
            )),
            r is Err ==> (r == Err::<(), Error>(Error::ResourceError) <==> shape_ok(
                vertices@,
                indices@,
            )),
    {
        self.builder.draw_shape(vertices, indices, state)
    }

    /// Appends a filled rectangle with corner `(x, y)`, width `w` and height
    /// `h`, as two untextured triangles.
    ///
    /// Fails with `ResourceError`, and changes nothing, when the open batch
    /// has no room for four more vertices.
    pub fn draw_rectangle(&mut self, x: i32, y: i32, w: i32, h: i32, color: Color) -> (r: Result<
        (),
        Error,
    >)
        ensures
            batches_ok(final(self)@),
            r is Ok <==> fits(old(self)@, RenderState::solid_state(), rectangle_vertices(x, y, w, h, color)),
            r is Ok ==> final(self)@ == append_shape(
                old(self)@,
                RenderState::solid_state(),
                rectangle_vertices(x, y, w, h, color),
                quad_indices(),
            ),
            r is Err ==> r == Err::<(), Error>(Error::ResourceError) && final(self)@ == old(self)@,
    {
        let left = x as i64;
        let top = y as i64;
        let right = x as i64 + w as i64;
        let bottom = y as i64 + h as i64;
        let zero = TexCoord::zero();
        let one = TexCoord::one();
        let mut vertices: Vec<Vertex> = Vec::new();
        vertices.push(Vertex { x: left, y: top, z: 0, u: zero, v: zero, color });
        vertices.push(Vertex { x: right, y: top, z: 0, u: one, v: zero, color });
        vertices.push(Vertex { x: right, y: bottom, z: 0, u: one, v: one, color });
        vertices.push(Vertex { x: left, y: bottom, z: 0, u: zero, v: one, color });
        let mut indices: Vec<u32> = Vec::new();
        indices.push(0);
        indices.push(1);
        indices.push(2);
        indices.push(0);
        indices.push(2);
        indices.push(3);
        assert(vertices@ =~= rectangle_vertices(x, y, w, h, color));
        assert(indices@ =~= quad_indices());
        self.builder.draw_shape(&vertices, &indices, RenderState::solid())
    }

    /// Appends a sprite: a texture of the registry at its own extent, with
    /// its top left corner at `(x, y)` and tinted with `color`.
    ///
    /// The registry is only read. Fails with `ResourceError`, and changes
    /// nothing, when the handle names no texture or when the open batch has
    /// no room for four more vertices.
    pub fn draw_texture(
        &mut self,
        textures: &TexturesContext,
        texture: &TextureHandle,
        x: i32,
        y: i32,
        color: Color,
    ) -> (r: Result<(), Error>)
        ensures
            batches_ok(final(self)@),
            r is Err ==> r == Err::<(), Error>(Error::ResourceError) && final(self)@ == old(self)@,
            r is Ok <==> textures@.dom().contains(texture.spec_id()) && fits(
                old(self)@,
                RenderState::textured_state(TextureId::Texture(texture.spec_id())),
                sprite_vertices(
                    x,
                    y,
                    textures@[texture.spec_id()].width,
                    textures@[texture.spec_id()].height,
                    color,
                ),
            ),
            r is Ok ==> final(self)@ == append_shape(
                old(self)@,
                RenderState::textured_state(TextureId::Texture(texture.spec_id())),
                sprite_vertices(
                    x,
                    y,
                    textures@[texture.spec_id()].width,
                    textures@[texture.spec_id()].height,
                    color,
                ),
                quad_indices(),
            ),
    {
        // Asking the builder for its length brings along that its batches are sound.
        let _ = self.builder.len();
        let (width, height) = match textures.size(texture) {
            Some(extent) => extent,
            None => {
                return Err(Error::ResourceError);
            },
        };
        let left = x as i64;
        let top = y as i64;
        let right = x as i64 + width as i64;
        let bottom = y as i64 + height as i64;
        let zero = TexCoord::zero();
        let one = TexCoord::one();
        let mut vertices: Vec<Vertex> = Vec::new();
        vertices.push(Vertex { x: left, y: top, z: 0, u: zero, v: zero, color });
        vertices.push(Vertex { x: right, y: top, z: 0, u: one, v: zero, color });
        vertices.push(Vertex { x: right, y: bottom, z: 0, u: one, v: one, color });
        vertices.push(Vertex { x: left, y: bottom, z: 0, u: zero, v: one, color });
        let mut indices: Vec<u32> = Vec::new();
        indices.push(0);
        indices.push(1);
        indices.push(2);
        indices.push(0);
        indices.push(2);
        indices.push(3);
        assert(vertices@ =~= sprite_vertices(x, y, width, height, color));
        assert(indices@ =~= quad_indices());
        self.builder.draw_shape(
            &vertices,
            &indices,
            RenderState::textured(TextureId::Texture(texture.id())),
        )
    }

    /// Appends a filled circle as a closed fan of untextured triangles
    /// around `center`. `rim` holds the points of the circle's outline, in
    /// order around it; each rim point closes one triangle with the centre
    /// and the rim point that follows it.
    ///
    /// Fails with `ResourceError`, and changes nothing, when the open batch
    /// has no room for the centre and the rim.
    pub fn draw_circle(&mut self, center: Point, rim: &Vec<Point>, color: Color) -> (r: Result<
        (),
        Error,
    >)
        ensures
            batches_ok(final(self)@),
            r is Ok <==> fits(old(self)@, RenderState::solid_state(), fan_vertices(center, rim@, color)),
            r is Ok ==> final(self)@ == append_shape(
                old(self)@,
                RenderState::solid_state(),
                fan_vertices(center, rim@, color),
                fan_indices(rim@.len() as int),
            ),
            r is Err ==> r == Err::<(), Error>(Error::ResourceError) && final(self)@ == old(self)@,
    {
        // Asking the builder for its length brings along that its batches are sound.
        let _ = self.builder.len();
        let n = rim.len();
        if n >= MAX_BATCH_VERTICES {
            return Err(Error::ResourceError);
        }
        let zero = TexCoord::zero();
        let mut vertices: Vec<Vertex> = Vec::new();
        vertices.push(
            Vertex { x: center.x as i64, y: center.y as i64, z: 0, u: zero, v: zero, color },
        );
        let mut indices: Vec<u32> = Vec::new();
        let mut i: usize = 0;
        while i < n
            invariant
                i <= n,
                n == rim@.len(),
                n < MAX_BATCH_VERTICES,
                zero == (TexCoord { num: 0, den: 1 }),
                vertices@ == fan_vertices(center, rim@.take(i as int), color),
                indices@ == fan_indices(n as int).take(3 * i),
            decreases n - i,
        {
            let p = rim[i];
            vertices.push(Vertex { x: p.x as i64, y: p.y as i64, z: 0, u: zero, v: zero, color });
            let after: u32 = if i + 1 == n {
                1
            } else {
                (i + 2) as u32
            };
            indices.push(0);
            indices.push((i + 1) as u32);
            indices.push(after);
            proof {
                let k = 3 * i;
                assert(fan_index(n as int, k) == 0);
                assert(fan_index(n as int, k + 1) == (i + 1) as u32);
                assert(fan_index(n as int, k + 2) == after);
                assert(indices@ =~= fan_indices(n as int).take(3 * (i + 1)));
                assert(vertices@ =~= fan_vertices(center, rim@.take(i + 1), color));
            }
            i = i + 1;
        }
        proof {
            assert(rim@.take(n as int) == rim@);
            assert(fan_indices(n as int).take(3 * n) =~= fan_indices(n as int));
            assert forall|k: int| 0 <= k < indices@.len() implies (#[trigger] indices@[k])
                < vertices@.len() by {
                assert(indices@[k] == fan_index(n as int, k));
            }
        }
        self.builder.draw_shape(&vertices, &indices, RenderState::solid())
    }

    /// Appends a line of text with the pen starting at `(x, y)`: one
    /// textured quad for each character, all in the render state of the
    /// font's atlas, so that the characters of a text share a batch.
    ///
    /// Every glyph must be in the store already; the store is only read.
    /// Fails with `ResourceError`, and changes nothing, when the store does
    /// not know the font, when it has no glyph for one of the characters at
    /// this size, or when the open batch has no room for the quads.
    pub fn draw_text(
        &mut self,
        fonts: &FontsStorage,
        font: Font,
        text: &str,
        x: i32,
        y: i32,
        size: u16,
        color: Color,
    ) -> (r: Result<(), Error>)
        ensures
            batches_ok(final(self)@),
            r is Err ==> r == Err::<(), Error>(Error::ResourceError) && final(self)@ == old(self)@,
            r is Ok <==> text_cached(fonts@, font, text@, size) && fits(
                old(self)@,
                RenderState::textured_state(TextureId::Atlas(font.id)),
                text_vertices(
                    glyph_run(fonts@[font.id as int], text@, size),
                    x,
                    y,
                    fonts@[font.id as int].width,
                    fonts@[font.id as int].height,
                    color,
                ),
            ),
            r is Ok ==> final(self)@ == append_shape(
                old(self)@,
                RenderState::textured_state(TextureId::Atlas(font.id)),
                text_vertices(
                    glyph_run(fonts@[font.id as int], text@, size),
                    x,
                    y,
                    fonts@[font.id as int].width,
                    fonts@[font.id as int].height,
                    color,
                ),
                text_indices(text@.len() as int),
            ),
    {
        // Asking the builder for its length brings along that its batches are sound.
        let _ = self.builder.len();
        let (width, height) = match fonts.atlas_size(font) {
            Some(extent) => extent,
            None => {
                return Err(Error::ResourceError);
            },
        };
        let ghost atlas = fonts@[font.id as int];
        let ghost run = glyph_run(atlas, text@, size);
        let ghost all = text_vertices(run, x, y, width, height, color);
        let mut vertices: Vec<Vertex> = Vec::new();
        let mut indices: Vec<u32> = Vec::new();
        let mut pen: i64 = x as i64;
        let mut count: u32 = 0;
        for c in it: text.chars()
            invariant
                it.seq() == text@,
                atlas_of(fonts@, font) == Some(atlas),
                atlas.ok(),
                atlas.width == width,
                atlas.height == height,
                run == glyph_run(atlas, text@, size),
                all == text_vertices(run, x, y, width, height, color),
                count == it.index(),
                count <= MAX_TEXT_GLYPHS,
                forall|i: int|
                    0 <= i < count ==> cached(fonts@, font, glyph_key(#[trigger] text@[i], size))
                        is Some,
                0 <= pen_offset(run, count as int) <= count * 0xffff_ffff,
                pen == x + pen_offset(run, count as int),
                vertices@ == all.take(4 * count),
                indices@ == text_indices(text@.len() as int).take(6 * count),
                self@ == old(self)@,
                batches_ok(self@),
        {
            if count >= MAX_TEXT_GLYPHS {
                assert(all.len() > MAX_BATCH_VERTICES);
                return Err(Error::ResourceError);
            }
            let g = match fonts.lookup(font, c, size) {
                Some(g) => g,
                None => {
                    assert(cached(fonts@, font, glyph_key(text@[count as int], size)) is None);
                    return Err(Error::ResourceError);
                },
            };
            assert(g == run[count as int]);
            assert(atlas.glyphs.dom().contains(glyph_key(c, size)));
            assert(g.rect.within(width as int, height as int));
            let left = pen + g.offset_x as i64;
            let top = y as i64 + g.offset_y as i64;
            let right = left + g.rect.w as i64;
            let bottom = top + g.rect.h as i64;
            let u0 = TexCoord { num: g.rect.x, den: width };
            let u1 = TexCoord { num: g.rect.x + g.rect.w, den: width };
            let v0 = TexCoord { num: g.rect.y, den: height };
            let v1 = TexCoord { num: g.rect.y + g.rect.h, den: height };
            vertices.push(Vertex { x: left, y: top, z: 0, u: u0, v: v0, color });
            vertices.push(Vertex { x: right, y: top, z: 0, u: u1, v: v0, color });
            vertices.push(Vertex { x: right, y: bottom, z: 0, u: u1, v: v1, color });
            vertices.push(Vertex { x: left, y: bottom, z: 0, u: u0, v: v1, color });
            let base = count * 4;
            indices.push(base);
            indices.push(base + 1);
            indices.push(base + 2);
            indices.push(base);
            indices.push(base + 2);
            indices.push(base + 3);
            proof {
                let k = 4 * count;
                assert(all[k as int] == vertices@[k as int]);
                assert(all[k + 1] == vertices@[k + 1]);
                assert(all[k + 2] == vertices@[k + 2]);
                assert(all[k + 3] == vertices@[k + 3]);
                assert(vertices@ =~= all.take(4 * (count + 1)));
                let every = text_indices(text@.len() as int);
                let j = 6 * count;
                assert(every[j as int] == base);
                assert(every[j + 1] == base + 1);
                assert(every[j + 2] == base + 2);
                assert(every[j + 3] == base);
                assert(every[j + 4] == base + 2);
                assert(every[j + 5] == base + 3);
                assert(indices@ =~= every.take(6 * (count + 1)));
            }
            pen = pen + g.advance as i64;
            count = count + 1;
        }
        proof {
            assert(all.take(4 * count) =~= all);
            assert(text_indices(text@.len() as int).take(6 * count) =~= text_indices(
                text@.len() as int,
            ));
            assert forall|k: int| 0 <= k < indices@.len() implies (#[trigger] indices@[k])
                < vertices@.len() by {
                assert(indices@[k] == (4 * (k / 6) + quad_indices()[k % 6]) as u32);
            }
        }
        self.builder.draw_shape(
            &vertices,
            &indices,
            RenderState::textured(TextureId::Atlas(font.id)),
        )
    }

    /// Discards every batch. A cleared canvas is as a new one.
    pub fn clear(&mut self)
        ensures
            final(self)@ == Seq::<BatchView>::empty(),
    {
        self.builder.clear();
    }

    /// Records the canvas on the GPU context: for each batch, oldest first,
    /// a bind of its render state unless the batch before it had the same,
    /// then its buffers, then its draw call.
    ///
    /// The canvas is not changed. On a context that has been torn down the
    /// call fails with `GpuContextUnavailable` and records nothing.
    pub fn draw(&self, gpu: &mut GpuContextHandle) -> (r: Result<(), Error>)
        ensures
            final(gpu).available() == old(gpu).available(),
            old(gpu).available() ==> r is Ok && final(gpu).queue() == old(gpu).queue() + flush_plan(
                self@,
            ),
            !old(gpu).available() ==> r == Err::<(), Error>(Error::GpuContextUnavailable)
                && final(gpu).queue() == old(gpu).queue(),
    {
        if !gpu.is_available() {
            return Err(Error::GpuContextUnavailable);
        }
        let count = self.builder.len();
        let mut bound: Option<RenderState> = None;
        let mut i: usize = 0;
        while i < count
            invariant
                i <= count,
                count == self@.len(),
                gpu.available(),
                gpu.queue() == old(gpu).queue() + flush_plan(self@.take(i as int)),
                bound == (if i == 0 {
                    None::<RenderState>
                } else {
                    Some(self@[i - 1].state)
                }),
            decreases count - i,
        {
            match self.builder.batch(i) {
                Some(batch) => {
                    let bind = match bound {
                        Some(state) => !state.same(&batch.state),
                        None => true,
                    };
                    assert(bind == binds(self@, i as int));
                    if bind {
                        let _ = gpu.submit(GpuCommand::BindState { state: batch.state });
                    }
                    let mut vertices: Vec<Vertex> = Vec::new();
                    push_vertices(&mut vertices, &batch.vertices);
                    let mut indices: Vec<u32> = Vec::new();
                    push_rebased(&mut indices, &batch.indices, 0);
                    assert(indices@ =~= batch.indices@);
                    assert(vertices@ =~= batch.vertices@);
                    let _ = gpu.submit(GpuCommand::UpdateBuffers { vertices, indices });
                    let _ = gpu.submit(GpuCommand::SubmitDraw { index_count: batch.indices.len() });
                    bound = Some(batch.state);
                    proof {
                        let prefix = self@.take(i + 1);
                        assert(prefix.drop_last() =~= self@.take(i as int));
                        assert(prefix.last() == self@[i as int]);
                        assert(binds(prefix, prefix.len() - 1) == binds(self@, i as int));
                        assert(gpu.queue() =~= old(gpu).queue() + flush_plan(prefix));
                    }
                },
                None => {},
            }
            i = i + 1;
        }
        assert(self@.take(count as int) == self@);
        Ok(())
    }
}

/// The geometry of one draw call.
pub struct DrawCallView {
    pub vertices: Seq<Vertex>,
    pub indices: Seq<u32>,
}

/// The geometry that a batch is submitted with.
pub open spec fn draw_call_of(b: BatchView) -> DrawCallView {
    DrawCallView { vertices: b.vertices, indices: b.indices }
}

/// The draw calls of a canvas, one for each batch, oldest first.
pub open spec fn draw_calls_of(batches: Seq<BatchView>) -> Seq<DrawCallView> {
    Seq::new(batches.len(), |i: int| draw_call_of(batches[i]))
}

/// The draw calls that a run of commands submits, in the order of the
/// commands: the buffers of each draw of a batch.
pub open spec fn submitted(commands: Seq<CommandView>) -> Seq<DrawCallView>
    decreases commands.len(),
{
    if commands.len() == 0 {
        Seq::empty()
    } else {
        match commands.last() {
            CommandView::UpdateBuffers { vertices, indices } => submitted(commands.drop_last()).push(
                DrawCallView { vertices, indices },
            ),
            _ => submitted(commands.drop_last()),
        }
    }
}

/// What two runs of commands submit one after the other is what the first
/// submits, followed by what the second submits.
pub proof fn lemma_submitted_concat(first: Seq<CommandView>, second: Seq<CommandView>)
    ensures
        submitted(first + second) == submitted(first) + submitted(second),
    decreases second.len(),
{
    if second.len() == 0 {
        assert(first + second == first);
        assert(submitted(first) + submitted(second) == submitted(first));
    } else {
        let all = first + second;
        assert(all.drop_last() == first + second.drop_last());
        assert(all.last() == second.last());
        lemma_submitted_concat(first, second.drop_last());
        match second.last() {
            CommandView::UpdateBuffers { vertices, indices } => {
                assert(submitted(all) == (submitted(first) + submitted(second.drop_last())).push(
                    DrawCallView { vertices, indices },
                ));
                assert(submitted(all) == submitted(first) + submitted(second));
            },
            _ => {},
        }
    }
}

/// A flush submits the batches of the canvas, each once, in the order in
/// which they were made.
pub proof fn lemma_flush_submits_batches_in_order(batches: Seq<BatchView>)
    ensures
        submitted(flush_plan(batches)) == draw_calls_of(batches),
    decreases batches.len(),
{
    if batches.len() > 0 {
        let front = batches.drop_last();
        let tail = batch_commands(batches.last(), binds(batches, batches.len() - 1));
        lemma_flush_submits_batches_in_order(front);
        lemma_submitted_concat(flush_plan(front), tail);
        let upload = CommandView::UpdateBuffers {
            vertices: batches.last().vertices,
            indices: batches.last().indices,
        };
        assert(submitted(tail) == seq![draw_call_of(batches.last())]) by {
            reveal_with_fuel(submitted, 4);
            if binds(batches, batches.len() - 1) {
                assert(tail.drop_last().drop_last().drop_last() == Seq::<CommandView>::empty());
                assert(tail.drop_last().last() == upload);
            } else {
                assert(tail.drop_last().drop_last() == Seq::<CommandView>::empty());
                assert(tail.drop_last().last() == upload);
            }
        }
        assert(draw_calls_of(batches) == draw_calls_of(front) + seq![draw_call_of(batches.last())]);
    } else {
        assert(draw_calls_of(batches) == Seq::<DrawCallView>::empty());
    }
}

/// In a batch list as the builder keeps it no bind is left out: every
/// batch is flushed as a bind, its buffers and its draw call.
pub proof fn lemma_flush_binds_every_batch(batches: Seq<BatchView>)
    requires
        batches_ok(batches),
    ensures
        flush_plan(batches).len() == 3 * batches.len(),
    decreases batches.len(),
{
    if batches.len() > 0 {
        let front = batches.drop_last();
        assert forall|i: int| 0 <= i < front.len() implies crate::batch::batch_ok(
            #[trigger] front[i],
        ) by {
            assert(front[i] == batches[i]);
        }
        assert forall|i: int, j: int| 0 <= i && j == i + 1 && j < front.len() implies (
        #[trigger] front[i]).state != (#[trigger] front[j]).state by {
            assert(front[i] == batches[i]);
            assert(front[j] == batches[j]);
        }
        lemma_flush_binds_every_batch(front);
        if batches.len() > 1 {
            let i = batches.len() - 2;
            assert(batches[i].state != batches[i + 1].state);
        }
        assert(binds(batches, batches.len() - 1));
    }
}

/// A canvas without batches, such as one that was just cleared, records
/// nothing when it is drawn.
pub proof fn lemma_empty_canvas_submits_nothing()
    ensures
        flush_plan(Seq::empty()) == Seq::<CommandView>::empty(),
        submitted(flush_plan(Seq::empty())) == Seq::<DrawCallView>::empty(),
{
}

/// Drawing a canvas twice with nothing drawn into it in between records the
/// same commands the second time as the first, and so submits the same
/// batches.
pub proof fn lemma_draw_again_submits_the_same(queue: Seq<CommandView>, batches: Seq<BatchView>)
    ensures
        ({
            let once = queue + flush_plan(batches);
            let twice = once + flush_plan(batches);
            &&& once.subrange(queue.len() as int, once.len() as int) == flush_plan(batches)
            &&& twice.subrange(once.len() as int, twice.len() as int) == flush_plan(batches)
            &&& submitted(twice) == submitted(queue) + draw_calls_of(batches) + draw_calls_of(batches)
        }),
{
    let once = queue + flush_plan(batches);
    let twice = once + flush_plan(batches);
    assert(once.subrange(queue.len() as int, once.len() as int) == flush_plan(batches));
    assert(twice.subrange(once.len() as int, twice.len() as int) == flush_plan(batches));
    lemma_flush_submits_batches_in_order(batches);
    lemma_submitted_concat(queue, flush_plan(batches));
    lemma_submitted_concat(once, flush_plan(batches));
}

/// Canvases drawn one after another are submitted one after another: what
/// the canvas drawn last holds is submitted last, behind everything of the
/// canvases drawn before it.
pub proof fn lemma_draw_order_is_submission_order(
    queue: Seq<CommandView>,
    first: Seq<BatchView>,
    second: Seq<BatchView>,
    third: Seq<BatchView>,
)
    ensures
        submitted(queue + flush_plan(first) + flush_plan(second) + flush_plan(third)) == submitted(
            queue,
        ) + draw_calls_of(first) + draw_calls_of(second) + draw_calls_of(third),
{
    lemma_flush_submits_batches_in_order(first);
    lemma_flush_submits_batches_in_order(second);
    lemma_flush_submits_batches_in_order(third);
    lemma_submitted_concat(queue, flush_plan(first));
    lemma_submitted_concat(queue + flush_plan(first), flush_plan(second));
    lemma_submitted_concat(queue + flush_plan(first) + flush_plan(second), flush_plan(third));
}

} // verus!
