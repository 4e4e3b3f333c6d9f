//! Sprites: the registry that maps handles to textures or regions of the
//! shared sheet, and batches of textured quads.

pub mod packer;
pub mod sheet_assembly;

use self::packer::TextureRegion;
use self::sheet_assembly::SpriteData;
use super::rectangle::quad_indices;
use super::renderer::{
    index_bytes, Buffers, DrawCall, BUFFER_SIZE, INDEX_SIZE, SPRITE_VERTEX_SIZE,
};
use crate::image::Image;
use vstd::prelude::*;

verus! {

/// A sprite's handle: its index in the registry.
pub type Handle = usize;

/// The texture that a sprite draw samples: the sprite's own texture, or
/// one of the sheets, which are numbered as they arrive.
#[derive(Clone, Copy, Debug, PartialEq, Eq, Structural)]
pub enum Binding {
    Texture(Handle),
    Sheet(u64),
}

/// A registry entry.
#[derive(Clone, Copy, Debug)]
pub enum Sprite {
    /// The sprite has a texture of its own, `width` by `height` pixels.
    Texture { width: u32, height: u32 },
    /// The sprite lies in this region of the shared sheet.
    Sheet(TextureRegion),
}

/// What the sheet assembler reports after a pass: the sprites it placed,
/// and the edge of the new sheet.
pub struct SheetAssemblyFeedback {
    pub updated_sprites: Vec<(Handle, TextureRegion)>,
    pub sheet_size: u32,
}

/// What a draw of a sprite needs to know of it.
#[derive(Clone, Copy, Debug, PartialEq, Eq, Structural)]
pub struct Placement {
    /// The texture to sample.
    pub texture: Binding,
    /// The sprite's extent in pixels.
    pub width: u32,
    pub height: u32,
    /// The sprite's region of the sheet; `None` where the sprite fills a
    /// texture of its own.
    pub region: Option<TextureRegion>,
    /// The edge of the current sheet.
    pub sheet_size: u32,
}

/// The sprite registry.
pub struct SpriteRenderer {
    sprites: Vec<Sprite>,
    spritesheet: u64,
    sheet_size: u32,
}

/// What the registry holds: its entries, the number of the current sheet
/// and the sheet's edge.
pub ghost struct SpriteRendererView {
    pub sprites: Seq<Sprite>,
    pub spritesheet: u64,
    pub sheet_size: u32,
}

impl View for SpriteRenderer {
    type V = SpriteRendererView;

    closed spec fn view(&self) -> SpriteRendererView {
        SpriteRendererView {
            sprites: self.sprites@,
            spritesheet: self.spritesheet,
            sheet_size: self.sheet_size,
        }
    }
}

/// The region's right and bottom edges are not before its left and top.
pub open spec fn ordered(region: TextureRegion) -> bool {
    region.left <= region.right && region.top <= region.bottom
}

/// The width and height of a sprite in pixels.
pub open spec fn extent(sprite: Sprite) -> (int, int) {
    match sprite {
        Sprite::Texture { width, height } => (width as int, height as int),
        Sprite::Sheet(region) => (region.right - region.left, region.bottom - region.top),
    }
}

/// Every update names one of `sprites` and a region of that sprite's
/// width and height.
pub open spec fn fitting(sprites: Seq<Sprite>, updates: Seq<(Handle, TextureRegion)>) -> bool {
    forall|k: int|
        #![trigger updates[k]]
        0 <= k < updates.len() ==> updates[k].0 < sprites.len() && ordered(updates[k].1) && extent(
            Sprite::Sheet(updates[k].1),
        ) == extent(sprites[updates[k].0 as int])
}

/// `sprites` after every one of `updates` moved its sprite to its region
/// of the sheet, in order.
pub open spec fn migrated(sprites: Seq<Sprite>, updates: Seq<(Handle, TextureRegion)>) -> Seq<
    Sprite,
>
    decreases updates.len(),
{
    if updates.len() == 0 {
        sprites
    } else {
        migrated(sprites, updates.drop_last()).update(
            updates.last().0 as int,
            Sprite::Sheet(updates.last().1),
        )
    }
}

impl SpriteRendererView {
    /// The registry without sprites. Its sheet, number zero, is one pixel
    /// wide.
    pub open spec fn empty() -> SpriteRendererView {
        SpriteRendererView { sprites: Seq::empty(), spritesheet: 0, sheet_size: 1 }
    }

    /// Every handle of the feedback is one of the registry's, every region
    /// has the width and height of its sprite, and the sheets can still be
    /// numbered.
    pub open spec fn accepts(self, feedback: SheetAssemblyFeedback) -> bool {
        &&& self.spritesheet < u64::MAX
        &&& fitting(self.sprites, feedback.updated_sprites@)
    }

    /// The registry after it took in what the sheet assembler reported, if
    /// anything: the sprites it placed lie in their regions of the new
    /// sheet, which has the next number.
    pub open spec fn polled(self, feedback: Option<SheetAssemblyFeedback>) -> SpriteRendererView {
        match feedback {
            Some(f) => SpriteRendererView {
                sprites: migrated(self.sprites, f.updated_sprites@),
                spritesheet: (self.spritesheet + 1) as u64,
                sheet_size: f.sheet_size,
            },
            None => self,
        }
    }

    /// The texture that a draw of sprite `handle` samples.
    pub open spec fn binding(self, handle: Handle) -> Binding {
        match self.sprites[handle as int] {
            Sprite::Texture { .. } => Binding::Texture(handle),
            Sprite::Sheet(_) => Binding::Sheet(self.spritesheet),
        }
    }

    /// What a draw of sprite `handle` needs to know of it.
    pub open spec fn placement(self, handle: Handle) -> Placement {
        match self.sprites[handle as int] {
            Sprite::Texture { width, height } => Placement {
                texture: Binding::Texture(handle),
                width,
                height,
                region: None,
                sheet_size: self.sheet_size,
            },
            Sprite::Sheet(region) => Placement {
                texture: Binding::Sheet(self.spritesheet),
                width: (region.right - region.left) as u32,
                height: (region.bottom - region.top) as u32,
                region: Some(region),
                sheet_size: self.sheet_size,
            },
        }
    }
}

impl SpriteRenderer {
    #[verifier::type_invariant]
    spec fn inv(self) -> bool {
        forall|i: int|
            #![trigger self.sprites@[i]]
            0 <= i < self.sprites@.len() ==> (self.sprites@[i] matches Sprite::Sheet(region)
                ==> ordered(region))
    }

    /// A registry without sprites. Its sheet, number zero, is one pixel
    /// wide.
    pub fn new() -> (r: SpriteRenderer)
        ensures
            r@ == SpriteRendererView::empty(),
    {
        SpriteRenderer { sprites: Vec::new(), spritesheet: 0, sheet_size: 1 }
    }

    /// The number of sprites.
    pub fn len(&self) -> (r: usize)
        ensures
            r == self@.sprites.len(),
    {
        self.sprites.len()
    }

    /// Whether `poll` can take this feedback.
    pub fn accepts(&self, feedback: &SheetAssemblyFeedback) -> (r: bool)
        ensures
            r == self@.accepts(*feedback),
    {
        proof {
            use_type_invariant(self);
        }
        if self.spritesheet == u64::MAX {
            return false;
        }
        let mut k: usize = 0;
        while k < feedback.updated_sprites.len()
            invariant
                0 <= k <= feedback.updated_sprites@.len(),
                forall|i: int|
                    #![trigger self.sprites@[i]]
                    0 <= i < self.sprites@.len() ==> (self.sprites@[i] matches Sprite::Sheet(region)
                        ==> ordered(region)),
                fitting(self.sprites@, feedback.updated_sprites@.take(k as int)),
            decreases feedback.updated_sprites@.len() - k,
        {
            let handle: Handle = feedback.updated_sprites[k].0;
            let region: TextureRegion = feedback.updated_sprites[k].1;
            if handle >= self.sprites.len() || region.left > region.right || region.top
                > region.bottom {
                assert(!fitting(self.sprites@, feedback.updated_sprites@)) by {
                    assert(feedback.updated_sprites@[k as int] == (handle, region));
                }
                return false;
            }
            let (width, height) = match self.sprites[handle] {
                Sprite::Texture { width, height } => (width, height),
                Sprite::Sheet(held) => (held.right - held.left, held.bottom - held.top),
            };
            if region.right - region.left != width || region.bottom - region.top != height {
                assert(!fitting(self.sprites@, feedback.updated_sprites@)) by {
                    assert(feedback.updated_sprites@[k as int] == (handle, region));
                }
                return false;
            }
            k += 1;
            assert(fitting(self.sprites@, feedback.updated_sprites@.take(k as int))) by {
                let updates = feedback.updated_sprites@;
                assert forall|j: int|
                    #![trigger updates.take(k as int)[j]]
                    0 <= j < k implies updates.take(k as int)[j].0 < self.sprites@.len()
                    && ordered(updates.take(k as int)[j].1) && extent(
                    Sprite::Sheet(updates.take(k as int)[j].1),
                ) == extent(self.sprites@[updates.take(k as int)[j].0 as int]) by {
                    if j < k - 1 {
                        assert(updates.take(k - 1)[j] == updates[j]);
                    }
                }
            }
        }
        proof {
            let updates = feedback.updated_sprites@;
            assert(updates.take(updates.len() as int) =~= updates);
        }
        true
    }

    /// Takes in what the sheet assembler reported, if anything: every
    /// sprite it placed now lies in its region of the new sheet.
    pub fn poll(&mut self, feedback: Option<SheetAssemblyFeedback>)
        requires
            feedback matches Some(f) ==> old(self)@.accepts(f),
        ensures
            final(self)@ == old(self)@.polled(feedback),
    {
        if let Some(feedback) = feedback {
            let mut sprites: Vec<Sprite> = Vec::new();
            proof {
                use_type_invariant(&*self);
            }
            core::mem::swap(&mut sprites, &mut self.sprites);
            let ghost start = sprites@;
            let mut k: usize = 0;
            while k < feedback.updated_sprites.len()
                invariant
                    0 <= k <= feedback.updated_sprites@.len(),
                    sprites@.len() == start.len(),
                    sprites@ == migrated(start, feedback.updated_sprites@.take(k as int)),
                    fitting(start, feedback.updated_sprites@),
                    forall|i: int|
                        #![trigger sprites@[i]]
                        0 <= i < sprites@.len() ==> (sprites@[i] matches Sprite::Sheet(region)
                            ==> ordered(region)),
                decreases feedback.updated_sprites@.len() - k,
            {
                let handle: Handle = feedback.updated_sprites[k].0;
                let region: TextureRegion = feedback.updated_sprites[k].1;
                proof {
                    let updates = feedback.updated_sprites@;
                    assert(updates.take(k + 1).drop_last() =~= updates.take(k as int));
                    assert(updates.take(k + 1).last() == updates[k as int]);
                }
                sprites[handle] = Sprite::Sheet(region);
                k += 1;
            }
            proof {
                let updates = feedback.updated_sprites@;
                assert(updates.take(updates.len() as int) =~= updates);
            }
            self.sprites = sprites;
            self.spritesheet = self.spritesheet + 1;
            self.sheet_size = feedback.sheet_size;
        }
    }

    /// Registers the image as a sprite with a texture of its own and
    /// returns what goes to the sheet assembler: the new handle with the
    /// image's pixels.
    pub fn create_sprite(&mut self, image: Image) -> (r: SpriteData)
        ensures
            r.handle == old(self)@.sprites.len(),
            r.data@ == image@.data,
            r.width == image@.width,
            r.height == image@.height,
            r.wf(),
            final(self)@.sprites == old(self)@.sprites.push(
                Sprite::Texture { width: image@.width, height: image@.height },
            ),
            final(self)@.spritesheet == old(self)@.spritesheet,
            final(self)@.sheet_size == old(self)@.sheet_size,
    {
        proof {
            use_type_invariant(&*self);
        }
        let (data, width, height) = image.into_parts();
        let handle: Handle = self.sprites.len();
        let mut sprites: Vec<Sprite> = Vec::new();
        core::mem::swap(&mut sprites, &mut self.sprites);
        sprites.push(Sprite::Texture { width, height });
        self.sprites = sprites;
        SpriteData { handle, data, width, height }
    }

    /// The texture that a draw of sprite `handle` samples.
    pub fn binding(&self, handle: Handle) -> (r: Binding)
        requires
            handle < self@.sprites.len(),
        ensures
            r == self@.binding(handle),
    {
        match self.sprites[handle] {
            Sprite::Texture { .. } => Binding::Texture(handle),
            Sprite::Sheet(_) => Binding::Sheet(self.spritesheet),
        }
    }

    /// What a draw of sprite `handle` needs to know of it.
    pub fn placement(&self, handle: Handle) -> (r: Placement)
        requires
            handle < self@.sprites.len(),
        ensures
            r == self@.placement(handle),
            r.texture == self@.binding(handle),
            r.region matches Some(region) ==> region.left + r.width == region.right && region.top
                + r.height == region.bottom,
    {
        proof {
            use_type_invariant(self);
        }
        match self.sprites[handle] {
            Sprite::Texture { width, height } => Placement {
                texture: Binding::Texture(handle),
                width,
                height,
                region: None,
                sheet_size: self.sheet_size,
            },
            Sprite::Sheet(region) => Placement {
                texture: Binding::Sheet(self.spritesheet),
                width: region.right - region.left,
                height: region.bottom - region.top,
                region: Some(region),
                sheet_size: self.sheet_size,
            },
        }
    }
}

/// Texture coordinates of a sprite's four edges, each between zero and one.
#[derive(Clone, Copy, Debug)]
pub struct TexCoords<F> {
    pub left: F,
    pub top: F,
    pub right: F,
    pub bottom: F,
}

/// A sprite to draw: its handle, its corners after the current transform,
/// in the order top-left, top-right, bottom-left, bottom-right, and the
/// part of its texture that it shows.
pub struct SpriteDrawInfo<F> {
    pub handle: Handle,
    pub corners: [[F; 2]; 4],
    pub region: TexCoords<F>,
}

/// A vertex of a textured quad.
#[derive(Clone, Copy, Debug)]
pub struct Vertex<F> {
    pub position: [F; 2],
    pub tex_coords: [F; 2],
}

impl<F: Copy> SpriteDrawInfo<F> {
    /// The four vertices of the sprite.
    pub open spec fn vertices(self) -> Seq<Vertex<F>> {
        seq![
            Vertex { position: self.corners[0], tex_coords: [self.region.left, self.region.top] },
            Vertex { position: self.corners[1], tex_coords: [self.region.right, self.region.top] },
            Vertex {
                position: self.corners[2],
                tex_coords: [self.region.left, self.region.bottom],
            },
            Vertex {
                position: self.corners[3],
                tex_coords: [self.region.right, self.region.bottom],
            },
        ]
    }
}

/// Textured quads that sample one texture and that one draw call renders.
pub struct SpriteBatch<F> {
    texture: Binding,
    vertices: Vec<Vertex<F>>,
    indices: Vec<u32>,
}

/// The texture, vertices and indices of a sprite batch.
pub ghost struct SpriteBatchView<F> {
    pub texture: Binding,
    pub vertices: Seq<Vertex<F>>,
    pub indices: Seq<u32>,
}

impl<F> View for SpriteBatch<F> {
    type V = SpriteBatchView<F>;

    closed spec fn view(&self) -> SpriteBatchView<F> {
        SpriteBatchView {
            texture: self.texture,
            vertices: self.vertices@,
            indices: self.indices@,
        }
    }
}

impl<F: Copy> SpriteBatchView<F> {
    /// The batch with one more sprite.
    pub open spec fn added(self, draw_info: SpriteDrawInfo<F>) -> SpriteBatchView<F> {
        SpriteBatchView {
            texture: self.texture,
            vertices: self.vertices + draw_info.vertices(),
            indices: self.indices + quad_indices(self.vertices.len() as int),
        }
    }

    /// The batch that samples `texture` and holds one sprite.
    pub open spec fn single(texture: Binding, draw_info: SpriteDrawInfo<F>) -> SpriteBatchView<
        F,
    > {
        SpriteBatchView {
            texture,
            vertices: draw_info.vertices(),
            indices: quad_indices(0),
        }
    }
}

impl<F: Copy> SpriteBatch<F> {
    /// A batch that holds one sprite and samples the sprite's texture.
    pub fn new(draw_info: &SpriteDrawInfo<F>, renderer: &SpriteRenderer) -> (r: SpriteBatch<F>)
        requires
            draw_info.handle < renderer@.sprites.len(),
        ensures
            r@ == SpriteBatchView::single(renderer@.binding(draw_info.handle), *draw_info),
    {
        let mut batch = SpriteBatch {
            texture: renderer.binding(draw_info.handle),
            vertices: Vec::new(),
            indices: Vec::new(),
        };
        batch.add(draw_info);
        assert(batch@.vertices =~= draw_info.vertices());
        assert(batch@.indices =~= quad_indices(0));
        batch
    }

    /// Appends the sprite where it samples this batch's texture. Where it
    /// samples another, the batch stays as it is and a new batch comes
    /// back as the error: it samples the sprite's texture and holds the
    /// sprite.
    pub fn try_add(&mut self, draw_info: &SpriteDrawInfo<F>, renderer: &SpriteRenderer) -> (r:
        Result<(), SpriteBatch<F>>)
        requires
            draw_info.handle < renderer@.sprites.len(),
            old(self)@.texture == renderer@.binding(draw_info.handle) ==> old(self)@.vertices.len()
                + 3 <= u32::MAX,
        ensures
            old(self)@.texture == renderer@.binding(draw_info.handle) ==> r is Ok && final(self)@
                == old(self)@.added(*draw_info),
            old(self)@.texture != renderer@.binding(draw_info.handle) ==> *final(self) == *old(
                self,
            ) && r is Err && r->Err_0@ == SpriteBatchView::single(
                renderer@.binding(draw_info.handle),
                *draw_info,
            ),
    {
        let texture = renderer.binding(draw_info.handle);
        if self.texture != texture {
            let mut new_batch = SpriteBatch { texture, vertices: Vec::new(), indices: Vec::new() };
            new_batch.add(draw_info);
            assert(new_batch@.vertices =~= draw_info.vertices());
            assert(new_batch@.indices =~= quad_indices(0));
            return Err(new_batch);
        }
        self.add(draw_info);
        Ok(())
    }

    /// Appends a sprite: four vertices with the corners of its texture
    /// region, and the indices of its two triangles.
    pub fn add(&mut self, draw_info: &SpriteDrawInfo<F>)
        requires
            old(self)@.vertices.len() + 3 <= u32::MAX,
        ensures
            final(self)@ == old(self)@.added(*draw_info),
    {
        let n: u32 = self.vertices.len() as u32;
        self.indices.push(n);
        self.indices.push(n + 2);
        self.indices.push(n + 1);
        self.indices.push(n + 3);
        self.indices.push(n + 1);
        self.indices.push(n + 2);
        let region = draw_info.region;
        self.vertices.push(
            Vertex { position: draw_info.corners[0], tex_coords: [region.left, region.top] },
        );
        self.vertices.push(
            Vertex { position: draw_info.corners[1], tex_coords: [region.right, region.top] },
        );
        self.vertices.push(
            Vertex { position: draw_info.corners[2], tex_coords: [region.left, region.bottom] },
        );
        self.vertices.push(
            Vertex { position: draw_info.corners[3], tex_coords: [region.right, region.bottom] },
        );
        assert(self@.vertices =~= old(self)@.vertices + draw_info.vertices());
        assert(self@.indices =~= old(self)@.indices + quad_indices(
            old(self)@.vertices.len() as int,
        ));
    }

    /// Reserves this batch's part of the vertex and index buffers, right
    /// after what the frame has written so far, and says what to draw.
    pub fn render(&self, buffers: &mut Buffers) -> (call: DrawCall)
        requires
            old(buffers).vertex_offset + self@.vertices.len() * SPRITE_VERTEX_SIZE
                <= BUFFER_SIZE,
            old(buffers).index_offset + self@.indices.len() * INDEX_SIZE <= BUFFER_SIZE,
        ensures
            call == (DrawCall {
                texture: Some(self@.texture),
                vertex_offset: old(buffers).vertex_offset,
                vertex_size: (self@.vertices.len() * SPRITE_VERTEX_SIZE) as u64,
                index_offset: old(buffers).index_offset,
                index_size: (self@.indices.len() * INDEX_SIZE) as u64,
                index_count: self@.indices.len() as u32,
            }),
            final(buffers).vertex_offset == call.vertex_offset + call.vertex_size,
            final(buffers).index_offset == call.index_offset + call.index_size,
    {
        let vertex_size: u64 = self.vertices.len() as u64 * SPRITE_VERTEX_SIZE;
        let index_size: u64 = self.index_bytes().len() as u64;
        let call = DrawCall {
            texture: Some(self.texture),
            vertex_offset: buffers.vertex_offset,
            vertex_size,
            index_offset: buffers.index_offset,
            index_size,
            index_count: self.indices.len() as u32,
        };
        buffers.vertex_offset = buffers.vertex_offset + vertex_size;
        buffers.index_offset = buffers.index_offset + index_size;
        call
    }

    /// The texture that the batch samples.
    pub fn texture(&self) -> (r: Binding)
        ensures
            r == self@.texture,
    {
        self.texture
    }

    /// The vertices of the batch.
    pub fn vertices(&self) -> (r: &[Vertex<F>])
        ensures
            r@ == self@.vertices,
    {
        self.vertices.as_slice()
    }

    /// The indices of the batch.
    pub fn indices(&self) -> (r: &[u32])
        ensures
            r@ == self@.indices,
    {
        self.indices.as_slice()
    }

    /// The indices of the batch as the bytes that go into the index buffer.
    pub fn index_bytes(&self) -> (r: &[u8])
        ensures
            r@.len() == self@.indices.len() * INDEX_SIZE,
    {
        index_bytes(self.indices.as_slice())
    }
}

/// A sprite keeps its width and height when it moves to the sheet: after
/// updates that fit the sprites, every sprite has the extent it had.
pub proof fn lemma_migrated_extent(
    sprites: Seq<Sprite>,
    updates: Seq<(Handle, TextureRegion)>,
    handle: int,
)
    requires
        fitting(sprites, updates),
        0 <= handle < sprites.len(),
    ensures
        migrated(sprites, updates).len() == sprites.len(),
        extent(migrated(sprites, updates)[handle]) == extent(sprites[handle]),
    decreases updates.len(),
{
    if updates.len() > 0 {
        let shorter = updates.drop_last();
        assert forall|k: int|
            #![trigger shorter[k]]
            0 <= k < shorter.len() implies shorter[k].0 < sprites.len() && ordered(shorter[k].1)
            && extent(Sprite::Sheet(shorter[k].1)) == extent(sprites[shorter[k].0 as int]) by {
            assert(shorter[k] == updates[k]);
        }
        lemma_migrated_extent(sprites, shorter, handle);
        assert(updates.last() == updates[updates.len() - 1]);
    }
}

/// What the sheet assembler lays out for sprites of the registry fits the
/// registry: where every upload has the handle and the extent of one of
/// `sprites`, the regions laid out for the uploads are updates that fit.
pub proof fn lemma_laid_out_fits(
    sprites: Seq<Sprite>,
    uploads: Seq<SpriteData>,
    allocations: Seq<(Handle, TextureRegion)>,
    size: int,
)
    requires
        self::sheet_assembly::laid_out(allocations, uploads, size),
        forall|k: int|
            #![trigger uploads[k]]
            0 <= k < uploads.len() ==> allocations[k].0 == uploads[k].handle && uploads[k].handle
                < sprites.len() && extent(sprites[uploads[k].handle as int]) == (
                uploads[k].width as int,
                uploads[k].height as int,
            ),
    ensures
        fitting(sprites, allocations),
{
    assert forall|k: int|
        #![trigger allocations[k]]
        0 <= k < allocations.len() implies allocations[k].0 < sprites.len() && ordered(
        allocations[k].1,
    ) && extent(Sprite::Sheet(allocations[k].1)) == extent(sprites[allocations[k].0 as int]) by {
        assert(uploads[k].handle == allocations[k].0);
    }
}

} // verus!
