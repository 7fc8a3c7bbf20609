//! Draw batches and the builder that merges consecutive draws.
//!
//! A batch is a run of geometry that shares one render state and goes to
//! the GPU as one draw call. The builder appends each new shape to the
//! batch that was opened last when the render states agree, and opens a
//! new batch when they do not. Only the last batch is ever looked at, so
//! the order of the batches is the order in which the shapes were drawn.

use vstd::prelude::*;

use crate::color::Color;
use crate::error::Error;
use crate::math::TexCoord;

verus! {

/// How a batch is blended with what is already on the target.
#[derive(Clone, Copy, Debug, PartialEq, Eq)]
pub enum BlendMode {
    Alpha,
    Additive,
    Opaque,
}

/// The texture a batch samples: one of the texture registry, by its
/// identifier, or the glyph atlas of a font, by the font's number.
#[derive(Clone, Copy, Debug, PartialEq, Eq, Hash)]
pub enum TextureId {
    Texture(u64),
    Atlas(u32),
}

/// The key that decides whether two draws can share a batch.
#[derive(Clone, Copy, Debug, PartialEq, Eq)]
pub struct RenderState {
    pub texture: Option<TextureId>,
    pub blend: BlendMode,
}

/// One corner of a triangle.
#[derive(Clone, Copy, Debug, PartialEq, Eq)]
pub struct Vertex {
    pub x: i64,
    pub y: i64,
    pub z: i64,
    pub u: TexCoord,
    pub v: TexCoord,
    pub color: Color,
}

/// Geometry that shares one render state.
#[derive(Debug)]
pub struct DrawBatch {
    pub state: RenderState,
    pub vertices: Vec<Vertex>,
    pub indices: Vec<u32>,
}

/// What a batch holds, as sequences.
pub struct BatchView {
    pub state: RenderState,
    pub vertices: Seq<Vertex>,
    pub indices: Seq<u32>,
}

impl View for DrawBatch {
    type V = BatchView;

    open spec fn view(&self) -> BatchView {
        BatchView { state: self.state, vertices: self.vertices@, indices: self.indices@ }
    }
}

/// The largest number of vertices in one batch: every vertex must have an
/// index of 32 bits.
pub const MAX_BATCH_VERTICES: usize = 0xffff_ffff;

/// Every index names one of the `count` vertices.
pub open spec fn indices_within(indices: Seq<u32>, count: int) -> bool {
    forall|i: int| 0 <= i < indices.len() ==> (#[trigger] indices[i]) < count
}

/// The indices of a shape, moved behind the `base` vertices that the batch
/// already holds.
pub open spec fn rebase(indices: Seq<u32>, base: int) -> Seq<u32> {
    Seq::new(indices.len(), |i: int| (indices[i] + base) as u32)
}

/// A shape whose indices all name vertices of the shape.
pub open spec fn shape_ok(vertices: Seq<Vertex>, indices: Seq<u32>) -> bool {
    indices_within(indices, vertices.len() as int)
}

/// A shape with this state joins the last batch.
pub open spec fn merges(batches: Seq<BatchView>, state: RenderState) -> bool {
    batches.len() > 0 && batches.last().state == state
}

/// The number of vertices in front of a shape with this state, in the batch
/// that will hold it.
pub open spec fn base_of(batches: Seq<BatchView>, state: RenderState) -> int {
    if merges(batches, state) {
        batches.last().vertices.len() as int
    } else {
        0
    }
}

/// The batch that will hold the shape has room for its vertices.
pub open spec fn fits(batches: Seq<BatchView>, state: RenderState, vertices: Seq<Vertex>) -> bool {
    base_of(batches, state) + vertices.len() <= MAX_BATCH_VERTICES
}

/// The batches after one more shape: the last batch grown by it when the
/// states agree, a new batch behind the others when they do not.
pub open spec fn append_shape(
    batches: Seq<BatchView>,
    state: RenderState,
    vertices: Seq<Vertex>,
    indices: Seq<u32>,
) -> Seq<BatchView> {
    if merges(batches, state) {
        let last = batches.last();
        batches.drop_last().push(
            BatchView {
                state,
                vertices: last.vertices + vertices,
                indices: last.indices + rebase(indices, last.vertices.len() as int),
            },
        )
    } else {
        batches.push(BatchView { state, vertices, indices })
    }
}

/// A batch whose indices all name vertices of the batch.
pub open spec fn batch_ok(b: BatchView) -> bool {
    b.vertices.len() <= MAX_BATCH_VERTICES && indices_within(b.indices, b.vertices.len() as int)
}

/// A batch list as the builder keeps it: every batch is sound, and no two
/// neighbours share a render state.
pub open spec fn batches_ok(batches: Seq<BatchView>) -> bool {
    &&& forall|i: int| 0 <= i < batches.len() ==> batch_ok(#[trigger] batches[i])
    &&& forall|i: int, j: int|
        0 <= i && j == i + 1 && j < batches.len() ==> (#[trigger] batches[i]).state != (
        #[trigger] batches[j]).state
}

/// The views of a run of batches.
pub open spec fn views_of(batches: Seq<DrawBatch>) -> Seq<BatchView> {
    Seq::new(batches.len(), |i: int| batches[i]@)
}

impl BlendMode {
    pub fn same(&self, other: &BlendMode) -> (b: bool)
        ensures
            b == (*self == *other),
    {
        match (self, other) {
            (BlendMode::Alpha, BlendMode::Alpha) => true,
            (BlendMode::Additive, BlendMode::Additive) => true,
            (BlendMode::Opaque, BlendMode::Opaque) => true,
            _ => false,
        }
    }
}

impl TextureId {
    pub fn same(&self, other: &TextureId) -> (b: bool)
        ensures
            b == (*self == *other),
    {
        match (self, other) {
            (TextureId::Texture(a), TextureId::Texture(b)) => *a == *b,
            (TextureId::Atlas(a), TextureId::Atlas(b)) => *a == *b,
            _ => false,
        }
    }
}

impl RenderState {
    /// The state of untextured, alpha-blended fills.
    pub open spec fn solid_state() -> RenderState {
        RenderState { texture: None, blend: BlendMode::Alpha }
    }

    /// The state of alpha-blended fills that sample `texture`.
    pub open spec fn textured_state(texture: TextureId) -> RenderState {
        RenderState { texture: Some(texture), blend: BlendMode::Alpha }
    }

    /// The state of untextured, alpha-blended fills.
    pub fn solid() -> (s: RenderState)
        ensures
            s == RenderState::solid_state(),
    {
        RenderState { texture: None, blend: BlendMode::Alpha }
    }

    /// The state of alpha-blended fills that sample `texture`.
    pub fn textured(texture: TextureId) -> (s: RenderState)
        ensures
            s == RenderState::textured_state(texture),
    {
        RenderState { texture: Some(texture), blend: BlendMode::Alpha }
    }

    pub fn same(&self, other: &RenderState) -> (b: bool)
        ensures
            b == (*self == *other),
    {
        let textures = match (&self.texture, &other.texture) {
            (Some(a), Some(b)) => a.same(b),
            (None, None) => true,
            _ => false,
        };
        textures && self.blend.same(&other.blend)
    }
}

/// Whether every index names one of `count` vertices.
pub fn check_indices(indices: &Vec<u32>, count: usize) -> (ok: bool)
    ensures
        ok == indices_within(indices@, count as int),
{
    let mut i: usize = 0;
    while i < indices.len()
        invariant
            i <= indices.len(),
            indices_within(indices@.take(i as int), count as int),
        decreases indices.len() - i,
    {
        if indices[i] as usize >= count {
            return false;
        }
        assert forall|k: int| 0 <= k < i + 1 implies (#[trigger] indices@.take(i + 1)[k]) < count by {
            if k < i {
                assert(indices@.take(i as int)[k] == indices@[k]);
            }
        }
        i = i + 1;
    }
    assert(indices@.take(i as int) == indices@);
    true
}

/// Appends the vertices of `src` to `dst`.
pub(crate) fn push_vertices(dst: &mut Vec<Vertex>, src: &Vec<Vertex>)
    ensures
        final(dst)@ == old(dst)@ + src@,
{
    let mut i: usize = 0;
    while i < src.len()
        invariant
            i <= src.len(),
            dst@ == old(dst)@ + src@.take(i as int),
        decreases src.len() - i,
    {
        dst.push(src[i]);
        assert(src@.take(i + 1) == src@.take(i as int).push(src@[i as int]));
        i = i + 1;
    }
    assert(src@.take(i as int) == src@);
}

/// Appends the indices of `src`, each raised by `base`, to `dst`.
pub(crate) fn push_rebased(dst: &mut Vec<u32>, src: &Vec<u32>, base: u32)
    requires
        forall|i: int| 0 <= i < src.len() ==> (#[trigger] src[i]) + base <= u32::MAX,
    ensures
        final(dst)@ == old(dst)@ + rebase(src@, base as int),
{
    let mut i: usize = 0;
    while i < src.len()
        invariant
            i <= src.len(),
            forall|k: int| 0 <= k < src.len() ==> (#[trigger] src[k]) + base <= u32::MAX,
            dst@ == old(dst)@ + rebase(src@, base as int).take(i as int),
        decreases src.len() - i,
    {
        dst.push(src[i] + base);
        assert(rebase(src@, base as int).take(i + 1) == rebase(src@, base as int).take(
            i as int,
        ).push((src@[i as int] + base) as u32));
        i = i + 1;
    }
    assert(rebase(src@, base as int).take(i as int) == rebase(src@, base as int));
}

/// Accumulates the geometry of one canvas as a list of batches, oldest
/// first. The last batch is the one still open: it alone can grow.
pub struct BatchBuilder {
    batches: Vec<DrawBatch>,
}

impl View for BatchBuilder {
    type V = Seq<BatchView>;

    closed spec fn view(&self) -> Seq<BatchView> {
        views_of(self.batches@)
    }
}

impl BatchBuilder {
    #[verifier::type_invariant]
    spec fn inv(self) -> bool {
        batches_ok(self@)
    }

    /// A builder with no batch.
    pub fn new() -> (b: BatchBuilder)
        ensures
            b@ == Seq::<BatchView>::empty(),
    {
        let b = BatchBuilder { batches: Vec::new() };
        assert(b@ =~= Seq::<BatchView>::empty());
        b
    }

    /// The number of batches.
    pub fn len(&self) -> (n: usize)
        ensures
            n == self@.len(),
            batches_ok(self@),
    {
        proof {
            use_type_invariant(self);
        }
        self.batches.len()
    }

    /// The batch at place `i`, counted from the oldest.
    pub fn batch(&self, i: usize) -> (b: Option<&DrawBatch>)
        ensures
            i < self@.len() ==> b is Some && b->0@ == self@[i as int],
            i >= self@.len() ==> b is None,
    {
        if i < self.batches.len() {
            Some(&self.batches[i])
        } else {
            None
        }
    }

    /// Discards every batch.
    pub fn clear(&mut self)
        ensures
            final(self)@ == Seq::<BatchView>::empty(),
    {
        *self = BatchBuilder::new();
    }

    /// Appends a shape.
    ///
    /// The shape joins the last batch when that batch has the same render
    /// state, and opens a new batch otherwise. It is refused, and the
    /// builder left as it was, when an index names no vertex of the shape
    /// (`UnsupportedFormatError`) or when the batch that would hold it has
    /// no room for its vertices (`ResourceError`).
    pub fn draw_shape(&mut self, vertices: &Vec<Vertex>, indices: &Vec<u32>, state: RenderState) -> (r:
        Result<(), Error>)
        ensures
            batches_ok(old(self)@),
            batches_ok(final(self)@),
            r is Ok <==> shape_ok(vertices@, indices@) && fits(old(self)@, state, vertices@),
            r is Ok ==> final(self)@ == append_shape(old(self)@, state, vertices@, indices@),
            r is Err ==> final(self)@ == old(self)@,
            r is Err ==> (r == Err::<(), Error>(Error::UnsupportedFormatError) <==> !shape_ok(
                vertices@,
                indices@,
            )),
            r is Err ==> (r == Err::<(), Error>(Error::ResourceError) <==> shape_ok(
                vertices@,
                indices@,
            )),
    {
        proof {
            use_type_invariant(&*self);
        }
        if !check_indices(indices, vertices.len()) {
            return Err(Error::UnsupportedFormatError);
        }
        let count = self.batches.len();
        let merging = count > 0 && self.batches[count - 1].state.same(&state);
        let base: usize = if merging {
            self.batches[count - 1].vertices.len()
        } else {
            0
        };
        assert(merging == merges(self@, state));
        assert(base == base_of(self@, state));
        assert(base <= MAX_BATCH_VERTICES) by {
            if merging {
                assert(batch_ok(self@.last()));
            }
        }
        if vertices.len() > MAX_BATCH_VERTICES - base {
            return Err(Error::ResourceError);
        }
        let ghost before = self@;
        let mut taken = BatchBuilder::new();
        core::mem::swap(self, &mut taken);
        let BatchBuilder { mut batches } = taken;
        let open = if merging {
            let mut open = batches.pop().unwrap();
            assert(open@ == before.last());
            assert(batch_ok(open@));
            push_vertices(&mut open.vertices, vertices);
            push_rebased(&mut open.indices, indices, base as u32);
            open
        } else {
            let mut own_vertices: Vec<Vertex> = Vec::new();
            push_vertices(&mut own_vertices, vertices);
            let mut own_indices: Vec<u32> = Vec::new();
            push_rebased(&mut own_indices, indices, 0);
            assert(own_indices@ =~= indices@);
            assert(own_vertices@ =~= vertices@);
            DrawBatch { state, vertices: own_vertices, indices: own_indices }
        };
        batches.push(open);
        proof {
            lemma_append_shape_ok(before, state, vertices@, indices@);
            assert(views_of(batches@) =~= append_shape(before, state, vertices@, indices@));
        }
        *self = BatchBuilder { batches };
        Ok(())
    }
}

/// Appending a sound shape that fits keeps a batch list sound.
pub proof fn lemma_append_shape_ok(
    batches: Seq<BatchView>,
    state: RenderState,
    vertices: Seq<Vertex>,
    indices: Seq<u32>,
)
    requires
        batches_ok(batches),
        shape_ok(vertices, indices),
        fits(batches, state, vertices),
    ensures
        batches_ok(append_shape(batches, state, vertices, indices)),
{
    let after = append_shape(batches, state, vertices, indices);
    if merges(batches, state) {
        let last = batches.last();
        let grown = after.last();
        assert(batch_ok(last));
        assert forall|i: int| 0 <= i < grown.indices.len() implies (#[trigger] grown.indices[i])
            < grown.vertices.len() by {
            if i >= last.indices.len() {
                let k = i - last.indices.len();
                assert(indices[k] < vertices.len());
            }
        }
        assert forall|i: int| 0 <= i < after.len() implies batch_ok(#[trigger] after[i]) by {
            if i < after.len() - 1 {
                assert(after[i] == batches[i]);
            }
        }
        assert forall|i: int, j: int| 0 <= i && j == i + 1 && j < after.len() implies (
        #[trigger] after[i]).state != (#[trigger] after[j]).state by {
            assert(after[i] == batches[i]);
            assert(after[j].state == batches[j].state);
        }
    } else {
        assert forall|i: int| 0 <= i < after.len() implies batch_ok(#[trigger] after[i]) by {
            if i < after.len() - 1 {
                assert(after[i] == batches[i]);
            }
        }
        assert forall|i: int, j: int| 0 <= i && j == i + 1 && j < after.len() implies (
        #[trigger] after[i]).state != (#[trigger] after[j]).state by {
            assert(after[i] == batches[i]);
            if j < after.len() - 1 {
                assert(after[j] == batches[j]);
            }
        }
    }
}

/// One draw: a shape with the render state it is drawn in.
pub struct ShapeView {
    pub state: RenderState,
    pub vertices: Seq<Vertex>,
    pub indices: Seq<u32>,
}

/// The batches after a run of draws, each appended in turn.
pub open spec fn draw_shapes(batches: Seq<BatchView>, shapes: Seq<ShapeView>) -> Seq<BatchView>
    decreases shapes.len(),
{
    if shapes.len() == 0 {
        batches
    } else {
        let shape = shapes.last();
        append_shape(
            draw_shapes(batches, shapes.drop_last()),
            shape.state,
            shape.vertices,
            shape.indices,
        )
    }
}

/// Draws that all have one render state end up in one batch: the last
/// batch there was, when it has that state, and else one new batch.
pub proof fn lemma_same_state_merges(batches: Seq<BatchView>, shapes: Seq<ShapeView>, state: RenderState)
    requires
        shapes.len() > 0,
        forall|i: int| 0 <= i < shapes.len() ==> (#[trigger] shapes[i]).state == state,
    ensures
        draw_shapes(batches, shapes).len() == batches.len() + if merges(batches, state) {
            0int
        } else {
            1int
        },
        draw_shapes(batches, shapes).last().state == state,
    decreases shapes.len(),
{
    let front = shapes.drop_last();
    assert(shapes.last().state == state);
    if front.len() == 0 {
        assert(draw_shapes(batches, front) == batches);
    } else {
        assert forall|i: int| 0 <= i < front.len() implies (#[trigger] front[i]).state == state by {
            assert(front[i] == shapes[i]);
        }
        lemma_same_state_merges(batches, front, state);
    }
}

/// On an empty canvas, any number of draws in one render state makes
/// exactly one batch.
pub proof fn lemma_same_state_one_batch(shapes: Seq<ShapeView>, state: RenderState)
    requires
        shapes.len() > 0,
        forall|i: int| 0 <= i < shapes.len() ==> (#[trigger] shapes[i]).state == state,
    ensures
        draw_shapes(Seq::empty(), shapes).len() == 1,
        draw_shapes(Seq::empty(), shapes)[0].state == state,
{
    lemma_same_state_merges(Seq::empty(), shapes, state);
}

/// On an empty canvas, draws of which each has another render state than
/// the one before it make one batch apiece: a batch is never joined by a
/// draw that comes after a draw in another state.
pub proof fn lemma_alternating_never_merges(shapes: Seq<ShapeView>)
    requires
        forall|i: int, j: int|
            0 <= i && j == i + 1 && j < shapes.len() ==> (#[trigger] shapes[i]).state != (
            #[trigger] shapes[j]).state,
    ensures
        draw_shapes(Seq::empty(), shapes).len() == shapes.len(),
        forall|i: int|
            0 <= i < shapes.len() ==> (#[trigger] draw_shapes(Seq::empty(), shapes)[i]).state
                == shapes[i].state,
    decreases shapes.len(),
{
    if shapes.len() > 0 {
        let front = shapes.drop_last();
        assert forall|i: int, j: int| 0 <= i && j == i + 1 && j < front.len() implies (
        #[trigger] front[i]).state != (#[trigger] front[j]).state by {
            assert(front[i] == shapes[i]);
            assert(front[j] == shapes[j]);
        }
        lemma_alternating_never_merges(front);
        let before = draw_shapes(Seq::empty(), front);
        if front.len() > 0 {
            let i = front.len() - 1;
            assert(before[i].state == front[i].state);
            assert(front[i] == shapes[i]);
            assert(shapes[i].state != shapes[i + 1].state);
        }
        assert(!merges(before, shapes.last().state));
        assert forall|i: int| 0 <= i < shapes.len() implies (#[trigger] draw_shapes(
            Seq::empty(),
            shapes,
        )[i]).state == shapes[i].state by {
            if i < front.len() {
                assert(draw_shapes(Seq::empty(), shapes)[i] == before[i]);
                assert(front[i] == shapes[i]);
            }
        }
    }
}

/// Three draws in the states A, B, A, with A other than B, make three
/// batches on an empty canvas.
pub proof fn lemma_two_states_three_batches(first: ShapeView, second: ShapeView, third: ShapeView)
    requires
        first.state != second.state,
        third.state == first.state,
    ensures
        draw_shapes(Seq::empty(), seq![first, second, third]).len() == 3,
{
    lemma_alternating_never_merges(seq![first, second, third]);
}

} // verus!
