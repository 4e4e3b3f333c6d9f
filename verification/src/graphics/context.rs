//! The drawing context: the renderer, the frame's render list and the
//! current draw state.

use super::renderer::{Color, DrawCall, RenderCommand, RenderList, Renderer};
use super::sprite::{SheetAssemblyFeedback, SpriteRendererView};
use super::transform::Transform;
use vstd::prelude::*;

verus! {

/// What the next draw uses: the current color and transform.
#[derive(Clone, Copy, Debug)]
pub struct DrawState<F> {
    pub color: Color<F>,
    pub transform: Transform<F>,
}

impl<F: Copy> DrawState<F> {
    /// Opaque black and the identity transform, given the scalars zero and
    /// one.
    pub open spec fn default_state(zero: F, one: F) -> DrawState<F> {
        DrawState {
            color: Color::default_color(zero, one),
            transform: Transform::matrix(one, zero, zero, zero, one, zero, zero, zero, one),
        }
    }

    /// Opaque black and the identity transform, given the scalars zero and
    /// one.
    pub fn default(zero: F, one: F) -> (r: DrawState<F>)
        ensures
            r == DrawState::default_state(zero, one),
    {
        DrawState { color: Color::default(zero, one), transform: Transform::identity(zero, one) }
    }
}

/// The drawing context. `zero` and `one` are the scalars that the default
/// color and the identity transform are made of.
pub struct Context<F> {
    pub renderer: Renderer,
    pub render_list: RenderList<F>,
    pub draw_state: DrawState<F>,
    pub zero: F,
    pub one: F,
}

impl<F: Copy> Context<F> {
    /// A context that has drawn nothing and knows no sprite, in the default
    /// draw state.
    pub fn new(zero: F, one: F) -> (r: Context<F>)
        ensures
            r.renderer.buffers.vertex_offset == 0,
            r.renderer.buffers.index_offset == 0,
            r.renderer.sprite_renderer@ == SpriteRendererView::empty(),
            r.render_list.clear_color == Color::default_color(zero, one),
            r.render_list.commands@ == Seq::<RenderCommand<F>>::empty(),
            r.draw_state == DrawState::default_state(zero, one),
            r.zero == zero,
            r.one == one,
    {
        Context {
            renderer: Renderer::new(),
            render_list: RenderList::default(zero, one),
            draw_state: DrawState::default(zero, one),
            zero,
            one,
        }
    }

    /// Starts a frame: the renderer is reset, the render list is emptied
    /// and clears to the default color again, and the draw state is the
    /// default one.
    pub fn reset(&mut self, feedback: Option<SheetAssemblyFeedback>)
        requires
            feedback matches Some(f) ==> old(self).renderer.sprite_renderer@.accepts(f),
        ensures
            final(self).renderer.sprite_renderer@ == old(self).renderer.sprite_renderer@.polled(
                feedback,
            ),
            final(self).renderer.buffers.vertex_offset == 0,
            final(self).renderer.buffers.index_offset == 0,
            final(self).render_list.clear_color == Color::default_color(
                old(self).zero,
                old(self).one,
            ),
            final(self).render_list.commands@ == Seq::<RenderCommand<F>>::empty(),
            final(self).draw_state == DrawState::default_state(old(self).zero, old(self).one),
            final(self).zero == old(self).zero,
            final(self).one == old(self).one,
    {
        self.renderer.reset(feedback);
        self.render_list.clear_color = Color::default(self.zero, self.one);
        self.render_list.commands.clear();
        self.draw_state = DrawState::default(self.zero, self.one);
    }

    /// Lays the frame's batches out in the buffers and returns the draws in
    /// order.
    pub fn render(&mut self) -> (calls: Vec<DrawCall>)
        requires
            old(self).renderer.fits(old(self).render_list),
        ensures
            calls@.len() == old(self).render_list.commands@.len(),
            forall|k: int|
                #![trigger calls@[k]]
                0 <= k < calls@.len() ==> calls@[k] == old(self).render_list.commands@[k].draw_call(
                    old(self).renderer.buffers.vertex_offset + super::renderer::vertex_bytes_before(
                        old(self).render_list.commands@,
                        k,
                    ),
                    old(self).renderer.buffers.index_offset + super::renderer::index_bytes_before(
                        old(self).render_list.commands@,
                        k,
                    ),
                ),
            final(self).renderer.buffers.vertex_offset == old(self).renderer.buffers.vertex_offset
                + super::renderer::vertex_bytes_before(
                old(self).render_list.commands@,
                old(self).render_list.commands@.len() as int,
            ),
            final(self).renderer.buffers.index_offset == old(self).renderer.buffers.index_offset
                + super::renderer::index_bytes_before(
                old(self).render_list.commands@,
                old(self).render_list.commands@.len() as int,
            ),
            final(self).renderer.sprite_renderer == old(self).renderer.sprite_renderer,
            final(self).render_list == old(self).render_list,
            final(self).draw_state == old(self).draw_state,
            final(self).zero == old(self).zero,
            final(self).one == old(self).one,
    {
        self.renderer.render(&self.render_list)
    }
}

} // verus!
