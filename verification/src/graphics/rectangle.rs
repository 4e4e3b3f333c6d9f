//! Batches of colored rectangles.

use super::renderer::{
    index_bytes, Buffers, Color, DrawCall, BUFFER_SIZE, INDEX_SIZE, RECTANGLE_VERTEX_SIZE,
};
use vstd::prelude::*;

verus! {

/// A vertex of a colored quad.
#[derive(Clone, Copy, Debug)]
pub struct Vertex<F> {
    pub position: [F; 2],
    pub color: [F; 4],
}

/// A rectangle to draw: its corners after the current transform, in the
/// order top-left, top-right, bottom-left, bottom-right, and its color.
pub struct RectangleDrawInfo<F> {
    pub corners: [[F; 2]; 4],
    pub color: Color<F>,
}

/// The six indices of the quad whose first vertex is vertex `n`: two
/// triangles, counter-clockwise.
pub open spec fn quad_indices(n: int) -> Seq<u32> {
    seq![
        n as u32,
        (n + 2) as u32,
        (n + 1) as u32,
        (n + 3) as u32,
        (n + 1) as u32,
        (n + 2) as u32,
    ]
}

impl<F: Copy> RectangleDrawInfo<F> {
    /// The vertex at corner `i`.
    pub open spec fn vertex(self, i: int) -> Vertex<F> {
        Vertex {
            position: self.corners[i],
            color: [self.color.r, self.color.g, self.color.b, self.color.a],
        }
    }

    /// The four vertices of the rectangle.
    pub open spec fn vertices(self) -> Seq<Vertex<F>> {
        seq![self.vertex(0), self.vertex(1), self.vertex(2), self.vertex(3)]
    }
}

/// Colored quads that one draw call renders.
pub struct RectangleBatch<F> {
    vertices: Vec<Vertex<F>>,
    indices: Vec<u32>,
}

/// The vertices and indices of a batch.
pub ghost struct BatchView<V> {
    pub vertices: Seq<V>,
    pub indices: Seq<u32>,
}

impl<F> View for RectangleBatch<F> {
    type V = BatchView<Vertex<F>>;

    closed spec fn view(&self) -> BatchView<Vertex<F>> {
        BatchView { vertices: self.vertices@, indices: self.indices@ }
    }
}

impl<F: Copy> BatchView<Vertex<F>> {
    /// The batch with one more rectangle.
    pub open spec fn added(self, draw_info: RectangleDrawInfo<F>) -> BatchView<Vertex<F>> {
        BatchView {
            vertices: self.vertices + draw_info.vertices(),
            indices: self.indices + quad_indices(self.vertices.len() as int),
        }
    }

    /// The batch that holds one rectangle.
    pub open spec fn single(draw_info: RectangleDrawInfo<F>) -> BatchView<Vertex<F>> {
        BatchView { vertices: draw_info.vertices(), indices: quad_indices(0) }
    }
}

impl<F: Copy> RectangleBatch<F> {
    /// A batch that holds one rectangle.
    pub fn new(draw_info: &RectangleDrawInfo<F>) -> (r: RectangleBatch<F>)
        ensures
            r@ == BatchView::single(*draw_info),
    {
        let mut batch = RectangleBatch { vertices: Vec::new(), indices: Vec::new() };
        batch.add(draw_info);
        assert(batch@.vertices =~= draw_info.vertices());
        assert(batch@.indices =~= quad_indices(0));
        batch
    }

    /// Appends a rectangle: four vertices that share its color, and the
    /// indices of its two triangles.
    pub fn add(&mut self, draw_info: &RectangleDrawInfo<F>)
        requires
            old(self)@.vertices.len() + 3 <= u32::MAX,
        ensures
            final(self)@ == old(self)@.added(*draw_info),
    {
        let n: u32 = self.vertices.len() as u32;
        self.indices.push(n);
        self.indices.push(n + 2);
        self.indices.push(n + 1);
        self.indices.push(n + 3);
        self.indices.push(n + 1);
        self.indices.push(n + 2);
        let color: [F; 4] = [draw_info.color.r, draw_info.color.g, draw_info.color.b, draw_info.color.a];
        self.vertices.push(Vertex { position: draw_info.corners[0], color });
        self.vertices.push(Vertex { position: draw_info.corners[1], color });
        self.vertices.push(Vertex { position: draw_info.corners[2], color });
        self.vertices.push(Vertex { position: draw_info.corners[3], color });
        assert(self@.vertices =~= old(self)@.vertices + draw_info.vertices());
        assert(self@.indices =~= old(self)@.indices + quad_indices(
            old(self)@.vertices.len() as int,
        ));
    }

    /// Reserves this batch's part of the vertex and index buffers, right
    /// after what the frame has written so far, and says what to draw.
    pub fn render(&self, buffers: &mut Buffers) -> (call: DrawCall)
        requires
            old(buffers).vertex_offset + self@.vertices.len() * RECTANGLE_VERTEX_SIZE
                <= BUFFER_SIZE,
            old(buffers).index_offset + self@.indices.len() * INDEX_SIZE <= BUFFER_SIZE,
        ensures
            call == (DrawCall {
                texture: None,
                vertex_offset: old(buffers).vertex_offset,
                vertex_size: (self@.vertices.len() * RECTANGLE_VERTEX_SIZE) as u64,
                index_offset: old(buffers).index_offset,
                index_size: (self@.indices.len() * INDEX_SIZE) as u64,
                index_count: self@.indices.len() as u32,
            }),
            final(buffers).vertex_offset == call.vertex_offset + call.vertex_size,
            final(buffers).index_offset == call.index_offset + call.index_size,
    {
        let vertex_size: u64 = self.vertices.len() as u64 * RECTANGLE_VERTEX_SIZE;
        let index_size: u64 = self.index_bytes().len() as u64;
        let call = DrawCall {
            texture: None,
            vertex_offset: buffers.vertex_offset,
            vertex_size,
            index_offset: buffers.index_offset,
            index_size,
            index_count: self.indices.len() as u32,
        };
        buffers.vertex_offset = buffers.vertex_offset + vertex_size;
        buffers.index_offset = buffers.index_offset + index_size;
        call
    }

    /// The vertices of the batch.
    pub fn vertices(&self) -> (r: &[Vertex<F>])
        ensures
            r@ == self@.vertices,
    {
        self.vertices.as_slice()
    }

    /// The indices of the batch.
    pub fn indices(&self) -> (r: &[u32])
        ensures
            r@ == self@.indices,
    {
        self.indices.as_slice()
    }

    /// The indices of the batch as the bytes that go into the index buffer.
    pub fn index_bytes(&self) -> (r: &[u8])
        ensures
            r@.len() == self@.indices.len() * INDEX_SIZE,
    {
        index_bytes(self.indices.as_slice())
    }
}

} // verus!
