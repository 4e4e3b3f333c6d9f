//! The frame's render list and the rolling offsets into the vertex and
//! index buffers.

use super::rectangle::RectangleBatch;
use super::sprite::{
    Binding, SheetAssemblyFeedback, SpriteBatch, SpriteRenderer, SpriteRendererView,
};
use vstd::prelude::*;

verus! {

/// Size in bytes of the vertex buffer and of the index buffer.
pub const BUFFER_SIZE: u64 = 0x1000000;

/// Size in bytes of a vertex of a colored quad: two scalars for the
/// position and four for the color, four bytes each.
pub const RECTANGLE_VERTEX_SIZE: u64 = 24;

/// Size in bytes of a vertex of a textured quad: two scalars for the
/// position and two for the texture coordinates, four bytes each.
pub const SPRITE_VERTEX_SIZE: u64 = 16;

/// Size in bytes of an index.
pub const INDEX_SIZE: u64 = 4;

/// `zerocopy::IntoBytes::as_bytes` on a slice of indices: the bytes of the
/// slice as they lie in memory, of which there are four for each index.
/// Their order within an index is the machine's, so nothing is said of it.
#[verifier::external_body]
pub(crate) fn index_bytes(indices: &[u32]) -> (bytes: &[u8])
    ensures
        bytes@.len() == indices@.len() * INDEX_SIZE,
{
    zerocopy::IntoBytes::as_bytes(indices)
}

/// How far the frame has written into the vertex and index buffers.
pub struct Buffers {
    pub vertex_offset: u64,
    pub index_offset: u64,
}

impl Buffers {
    /// Nothing written yet.
    pub fn new() -> (r: Buffers)
        ensures
            r.vertex_offset == 0,
            r.index_offset == 0,
    {
        Buffers { vertex_offset: 0, index_offset: 0 }
    }
}

/// One indexed draw: the texture to bind, if the batch is one of sprites,
/// the byte ranges of the vertex and index buffers that hold the batch,
/// and the number of indices to draw.
#[derive(Clone, Copy, Debug, PartialEq, Eq, Structural)]
pub struct DrawCall {
    pub texture: Option<Binding>,
    pub vertex_offset: u64,
    pub vertex_size: u64,
    pub index_offset: u64,
    pub index_size: u64,
    pub index_count: u32,
}

/// An RGBA color over the scalar type `F`.
#[derive(Clone, Copy, Debug)]
pub struct Color<F> {
    pub r: F,
    pub g: F,
    pub b: F,
    pub a: F,
}

impl<F: Copy> Color<F> {
    /// Opaque black, given the scalars zero and one.
    pub open spec fn default_color(zero: F, one: F) -> Color<F> {
        Color { r: zero, g: zero, b: zero, a: one }
    }

    /// Opaque black, given the scalars zero and one.
    pub fn default(zero: F, one: F) -> (r: Color<F>)
        ensures
            r == Color::default_color(zero, one),
    {
        Color { r: zero, g: zero, b: zero, a: one }
    }
}

/// A batch of the render list.
pub enum RenderCommand<F> {
    RectangleBatch(RectangleBatch<F>),
    SpriteBatch(SpriteBatch<F>),
}

impl<F> RenderCommand<F> {
    /// The number of vertices of the batch.
    pub open spec fn vertex_count(self) -> nat {
        match self {
            RenderCommand::RectangleBatch(batch) => batch@.vertices.len(),
            RenderCommand::SpriteBatch(batch) => batch@.vertices.len(),
        }
    }

    /// The number of indices of the batch.
    pub open spec fn index_count(self) -> nat {
        match self {
            RenderCommand::RectangleBatch(batch) => batch@.indices.len(),
            RenderCommand::SpriteBatch(batch) => batch@.indices.len(),
        }
    }

    /// The texture that the batch samples, if it is one of sprites.
    pub open spec fn texture(self) -> Option<Binding> {
        match self {
            RenderCommand::RectangleBatch(_) => None,
            RenderCommand::SpriteBatch(batch) => Some(batch@.texture),
        }
    }

    /// The bytes that the batch takes of the vertex buffer.
    pub open spec fn vertex_bytes(self) -> int {
        match self {
            RenderCommand::RectangleBatch(batch) => batch@.vertices.len() * RECTANGLE_VERTEX_SIZE,
            RenderCommand::SpriteBatch(batch) => batch@.vertices.len() * SPRITE_VERTEX_SIZE,
        }
    }

    /// The bytes that the batch takes of the index buffer.
    pub open spec fn index_bytes(self) -> int {
        self.index_count() * INDEX_SIZE
    }

    /// The draw of the batch, with its vertices and indices at the given
    /// offsets.
    pub open spec fn draw_call(self, vertex_offset: int, index_offset: int) -> DrawCall {
        DrawCall {
            texture: self.texture(),
            vertex_offset: vertex_offset as u64,
            vertex_size: self.vertex_bytes() as u64,
            index_offset: index_offset as u64,
            index_size: self.index_bytes() as u64,
            index_count: self.index_count() as u32,
        }
    }
}

/// The bytes that the first `k` of `commands` take of the vertex buffer.
pub open spec fn vertex_bytes_before<F>(commands: Seq<RenderCommand<F>>, k: int) -> int
    decreases k,
{
    if k <= 0 {
        0
    } else {
        vertex_bytes_before(commands, k - 1) + commands[k - 1].vertex_bytes()
    }
}

/// The bytes that the first `k` of `commands` take of the index buffer.
pub open spec fn index_bytes_before<F>(commands: Seq<RenderCommand<F>>, k: int) -> int
    decreases k,
{
    if k <= 0 {
        0
    } else {
        index_bytes_before(commands, k - 1) + commands[k - 1].index_bytes()
    }
}

/// What a frame draws: the color it is cleared with, then the batches in
/// order.
pub struct RenderList<F> {
    pub clear_color: Color<F>,
    pub commands: Vec<RenderCommand<F>>,
}

impl<F: Copy> RenderList<F> {
    /// The last batch, if there is one, can take another quad without the
    /// indices leaving the `u32` range.
    pub open spec fn room(self) -> bool {
        self.commands@.len() > 0 ==> self.commands@.last().vertex_count() + 3 <= u32::MAX
    }

    /// An empty list that clears to opaque black.
    pub fn default(zero: F, one: F) -> (r: RenderList<F>)
        ensures
            r.clear_color == Color::default_color(zero, one),
            r.commands@ == Seq::<RenderCommand<F>>::empty(),
    {
        RenderList { clear_color: Color::default(zero, one), commands: Vec::new() }
    }

}

/// What renders a frame: the rolling buffer offsets and the sprite
/// registry.
pub struct Renderer {
    pub buffers: Buffers,
    pub sprite_renderer: SpriteRenderer,
}

impl Renderer {
    /// A renderer that has written nothing and knows no sprite.
    pub fn new() -> (r: Renderer)
        ensures
            r.buffers.vertex_offset == 0,
            r.buffers.index_offset == 0,
            r.sprite_renderer@ == SpriteRendererView::empty(),
    {
        Renderer { buffers: Buffers::new(), sprite_renderer: SpriteRenderer::new() }
    }

    /// Starts a frame: the registry takes in what the sheet assembler
    /// reported, if anything, and both buffers are written from their
    /// start again.
    pub fn reset(&mut self, feedback: Option<SheetAssemblyFeedback>)
        requires
            feedback matches Some(f) ==> old(self).sprite_renderer@.accepts(f),
        ensures
            final(self).sprite_renderer@ == old(self).sprite_renderer@.polled(feedback),
            final(self).buffers.vertex_offset == 0,
            final(self).buffers.index_offset == 0,
    {
        self.sprite_renderer.poll(feedback);
        self.buffers.vertex_offset = 0;
        self.buffers.index_offset = 0;
    }

    /// The batches of the list fit into what is left of both buffers.
    pub open spec fn fits<F>(self, render_list: RenderList<F>) -> bool {
        &&& self.buffers.vertex_offset + vertex_bytes_before(
            render_list.commands@,
            render_list.commands@.len() as int,
        ) <= BUFFER_SIZE
        &&& self.buffers.index_offset + index_bytes_before(
            render_list.commands@,
            render_list.commands@.len() as int,
        ) <= BUFFER_SIZE
    }

    /// Whether the batches of the list fit into what is left of both
    /// buffers.
    pub fn can_render<F: Copy>(&self, render_list: &RenderList<F>) -> (r: bool)
        ensures
            r == self.fits(*render_list),
    {
        if self.buffers.vertex_offset > BUFFER_SIZE || self.buffers.index_offset > BUFFER_SIZE {
            proof {
                lemma_bytes_before_grow(
                    render_list.commands@,
                    0,
                    render_list.commands@.len() as int,
                );
            }
            return false;
        }
        let mut vertex_end: u64 = self.buffers.vertex_offset;
        let mut index_end: u64 = self.buffers.index_offset;
        let mut k: usize = 0;
        while k < render_list.commands.len()
            invariant
                0 <= k <= render_list.commands@.len(),
                vertex_end == self.buffers.vertex_offset + vertex_bytes_before(
                    render_list.commands@,
                    k as int,
                ),
                index_end == self.buffers.index_offset + index_bytes_before(
                    render_list.commands@,
                    k as int,
                ),
                vertex_end <= BUFFER_SIZE,
                index_end <= BUFFER_SIZE,
            decreases render_list.commands@.len() - k,
        {
            let (vertices, vertex_size, indices) = match &render_list.commands[k] {
                RenderCommand::RectangleBatch(batch) => (
                    batch.vertices().len(),
                    RECTANGLE_VERTEX_SIZE,
                    batch.indices().len(),
                ),
                RenderCommand::SpriteBatch(batch) => (
                    batch.vertices().len(),
                    SPRITE_VERTEX_SIZE,
                    batch.indices().len(),
                ),
            };
            proof {
                lemma_bytes_before_grow(
                    render_list.commands@,
                    k + 1,
                    render_list.commands@.len() as int,
                );
            }
            if vertices > 0x1000000 || indices > 0x1000000 {
                return false;
            }
            vertex_end = vertex_end + vertices as u64 * vertex_size;
            index_end = index_end + indices as u64 * INDEX_SIZE;
            if vertex_end > BUFFER_SIZE || index_end > BUFFER_SIZE {
                return false;
            }
            k += 1;
        }
        true
    }

    /// Lays the batches of the list out in the vertex and index buffers,
    /// each right after the one before it, and returns the draws in order.
    pub fn render<F: Copy>(&mut self, render_list: &RenderList<F>) -> (calls: Vec<DrawCall>)
        requires
            old(self).fits(*render_list),
        ensures
            calls@.len() == render_list.commands@.len(),
            forall|k: int|
                #![trigger calls@[k]]
                0 <= k < calls@.len() ==> calls@[k] == render_list.commands@[k].draw_call(
                    old(self).buffers.vertex_offset + vertex_bytes_before(
                        render_list.commands@,
                        k,
                    ),
                    old(self).buffers.index_offset + index_bytes_before(render_list.commands@, k),
                ),
            final(self).buffers.vertex_offset == old(self).buffers.vertex_offset
                + vertex_bytes_before(render_list.commands@, render_list.commands@.len() as int),
            final(self).buffers.index_offset == old(self).buffers.index_offset
                + index_bytes_before(render_list.commands@, render_list.commands@.len() as int),
            final(self).sprite_renderer == old(self).sprite_renderer,
    {
        let mut calls: Vec<DrawCall> = Vec::new();
        let mut k: usize = 0;
        while k < render_list.commands.len()
            invariant
                0 <= k <= render_list.commands@.len(),
                old(self).fits(*render_list),
                self.sprite_renderer == old(self).sprite_renderer,
                self.buffers.vertex_offset == old(self).buffers.vertex_offset
                    + vertex_bytes_before(render_list.commands@, k as int),
                self.buffers.index_offset == old(self).buffers.index_offset + index_bytes_before(
                    render_list.commands@,
                    k as int,
                ),
                calls@.len() == k,
                forall|j: int|
                    #![trigger calls@[j]]
                    0 <= j < k ==> calls@[j] == render_list.commands@[j].draw_call(
                        old(self).buffers.vertex_offset + vertex_bytes_before(
                            render_list.commands@,
                            j,
                        ),
                        old(self).buffers.index_offset + index_bytes_before(
                            render_list.commands@,
                            j,
                        ),
                    ),
            decreases render_list.commands@.len() - k,
        {
            proof {
                lemma_bytes_before_grow(
                    render_list.commands@,
                    k + 1,
                    render_list.commands@.len() as int,
                );
            }
            let call = match &render_list.commands[k] {
                RenderCommand::RectangleBatch(batch) => batch.render(&mut self.buffers),
                RenderCommand::SpriteBatch(batch) => batch.render(&mut self.buffers),
            };
            calls.push(call);
            k += 1;
        }
        calls
    }
}

/// The batches take no fewer bytes the more of them are counted.
pub proof fn lemma_bytes_before_grow<F>(commands: Seq<RenderCommand<F>>, a: int, b: int)
    requires
        0 <= a <= b,
    ensures
        0 <= vertex_bytes_before(commands, a) <= vertex_bytes_before(commands, b),
        0 <= index_bytes_before(commands, a) <= index_bytes_before(commands, b),
    decreases b,
{
    if a < b {
        lemma_bytes_before_grow(commands, a, b - 1);
    } else if a > 0 {
        lemma_bytes_before_grow(commands, a - 1, a - 1);
        lemma_bytes_before_grow(commands, a - 1, b - 1);
    }
}

} // verus!
