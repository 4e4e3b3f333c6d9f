//! Drawing.
//!
//! Functions for drawing things, for manipulating the coordinate system
//! and for creating sprites, each on a drawing context.

pub mod context;
pub mod rectangle;
pub mod renderer;
pub mod sprite;
pub mod transform;

use self::context::{Context, DrawState};
use self::rectangle::{BatchView, RectangleBatch, RectangleDrawInfo};
use self::renderer::{Color, RenderCommand, RenderList};
use self::sprite::sheet_assembly::SpriteData;
use self::sprite::{
    Binding, Handle, Placement, SpriteBatch, SpriteBatchView, SpriteDrawInfo, TexCoords,
};
use self::transform::Transform;
use crate::image::Image;
use vstd::prelude::*;

verus! {

/// A handle to a sprite.
#[derive(Clone, Copy, Debug)]
pub struct Sprite(pub Handle);

impl<F: Copy> RenderList<F> {
    /// Every batch but the last is the same in both lists, and so is the
    /// clear color.
    pub open spec fn extended_to(self, after: RenderList<F>) -> bool {
        &&& after.clear_color == self.clear_color
        &&& after.commands@.len() == self.commands@.len()
        &&& after.commands@.drop_last() == self.commands@.drop_last()
    }

    /// `after` is this list with one more batch, and has the same clear
    /// color.
    pub open spec fn appended_to(self, after: RenderList<F>) -> bool {
        &&& after.clear_color == self.clear_color
        &&& after.commands@.len() == self.commands@.len() + 1
        &&& after.commands@.drop_last() == self.commands@
    }

    /// The list ends in a batch of rectangles.
    pub open spec fn ends_in_rectangles(self) -> bool {
        self.commands@.len() > 0 && self.commands@.last() is RectangleBatch
    }

    /// The list ends in a batch of sprites that samples `texture`.
    pub open spec fn ends_in_sprites(self, texture: Binding) -> bool {
        self.commands@.len() > 0 && self.commands@.last().texture() == Some(texture)
    }

    /// Whether a rectangle can be drawn: it starts a new batch, or the
    /// batch of rectangles at the end of the list has room for it.
    pub fn takes_rectangle(&self) -> (r: bool)
        ensures
            r == (self.ends_in_rectangles() ==> self.room()),
    {
        let n = self.commands.len();
        if n == 0 {
            true
        } else {
            match &self.commands[n - 1] {
                RenderCommand::RectangleBatch(batch) => batch.vertices().len() <= 0xffff_fffc,
                RenderCommand::SpriteBatch(_) => true,
            }
        }
    }

    /// Whether a sprite that samples `texture` can be drawn: it starts a
    /// new batch, or the batch of that texture at the end of the list has
    /// room for it.
    pub fn takes_sprite(&self, texture: Binding) -> (r: bool)
        ensures
            r == (self.ends_in_sprites(texture) ==> self.room()),
    {
        let n = self.commands.len();
        if n == 0 {
            true
        } else {
            match &self.commands[n - 1] {
                RenderCommand::RectangleBatch(_) => true,
                RenderCommand::SpriteBatch(batch) => batch.texture() != texture
                    || batch.vertices().len() <= 0xffff_fffc,
            }
        }
    }

    /// `after` is this list after the rectangle was drawn: the rectangle
    /// went into the last batch where that is one of rectangles, and into
    /// a new batch at the end otherwise.
    pub open spec fn drew_rectangle(
        self,
        after: RenderList<F>,
        draw_info: RectangleDrawInfo<F>,
    ) -> bool {
        if self.ends_in_rectangles() {
            &&& self.extended_to(after)
            &&& after.commands@.last() matches RenderCommand::RectangleBatch(batch) && batch@
                == self.commands@.last()->RectangleBatch_0@.added(draw_info)
        } else {
            &&& self.appended_to(after)
            &&& after.commands@.last() matches RenderCommand::RectangleBatch(batch) && batch@
                == BatchView::single(draw_info)
        }
    }

    /// `after` is this list after the sprite, which samples `texture`, was
    /// drawn: the sprite went into the last batch where that is one of
    /// sprites that samples the same texture, and into a new batch at the
    /// end otherwise.
    pub open spec fn drew_sprite(
        self,
        after: RenderList<F>,
        texture: Binding,
        draw_info: SpriteDrawInfo<F>,
    ) -> bool {
        if self.ends_in_sprites(texture) {
            &&& self.extended_to(after)
            &&& after.commands@.last() matches RenderCommand::SpriteBatch(batch) && batch@
                == self.commands@.last()->SpriteBatch_0@.added(draw_info)
        } else {
            &&& self.appended_to(after)
            &&& after.commands@.last() matches RenderCommand::SpriteBatch(batch) && batch@
                == SpriteBatchView::single(texture, draw_info)
        }
    }
}

/// Creates a sprite from an image. The sprite can be drawn at once, from a
/// texture of its own; what comes back with it goes to the sheet assembler.
pub fn create_sprite<F: Copy>(context: &mut Context<F>, image: Image) -> (r: (Sprite, SpriteData))
    ensures
        r.0.0 == old(context).renderer.sprite_renderer@.sprites.len(),
        r.1.handle == r.0.0,
        r.1.data@ == image@.data,
        r.1.width == image@.width,
        r.1.height == image@.height,
        r.1.wf(),
        final(context).renderer.sprite_renderer@.sprites == old(
            context,
        ).renderer.sprite_renderer@.sprites.push(
            sprite::Sprite::Texture { width: image@.width, height: image@.height },
        ),
        final(context).renderer.sprite_renderer@.spritesheet == old(
            context,
        ).renderer.sprite_renderer@.spritesheet,
        final(context).renderer.sprite_renderer@.sheet_size == old(
            context,
        ).renderer.sprite_renderer@.sheet_size,
        final(context).renderer.buffers == old(context).renderer.buffers,
        final(context).render_list == old(context).render_list,
        final(context).draw_state == old(context).draw_state,
        final(context).zero == old(context).zero,
        final(context).one == old(context).one,
{
    let data = context.renderer.sprite_renderer.create_sprite(image);
    (Sprite(data.handle), data)
}

/// Resets the drawing settings: the color is opaque black again and the
/// transform the identity. The render list stays as it is.
pub fn reset<F: Copy>(context: &mut Context<F>)
    ensures
        *final(context) == (Context {
            draw_state: DrawState::default_state(old(context).zero, old(context).one),
            ..*old(context)
        }),
{
    context.draw_state = DrawState::default(context.zero, context.one);
}

/// Sets the color used for drawing and for the next `clear`.
pub fn set_color<F: Copy>(context: &mut Context<F>, r: F, g: F, b: F, a: F)
    ensures
        *final(context) == (Context {
            draw_state: DrawState {
                color: Color { r, g, b, a },
                transform: old(context).draw_state.transform,
            },
            ..*old(context)
        }),
{
    context.draw_state.color = Color { r, g, b, a };
}

/// `after` is `before` with an empty render list that clears to the
/// current color. The draw state stays as it is.
pub open spec fn cleared<F>(before: Context<F>, after: Context<F>) -> bool {
    &&& after.render_list.commands@ == Seq::<RenderCommand<F>>::empty()
    &&& after.render_list.clear_color == before.draw_state.color
    &&& after.renderer == before.renderer
    &&& after.draw_state == before.draw_state
    &&& after.zero == before.zero
    &&& after.one == before.one
}

/// Clears the screen with the set color: the frame's batches so far are
/// dropped.
pub fn clear<F: Copy>(context: &mut Context<F>)
    ensures
        cleared(*old(context), *final(context)),
{
    context.render_list.commands.clear();
    context.render_list.clear_color = context.draw_state.color;
}

/// Draws a rectangle in the current color. `corners` are its corners after
/// the current transform, in the order top-left, top-right, bottom-left,
/// bottom-right.
pub fn rectangle<F: Copy>(context: &mut Context<F>, corners: [[F; 2]; 4])
    requires
        old(context).render_list.ends_in_rectangles() ==> old(context).render_list.room(),
    ensures
        old(context).render_list.drew_rectangle(
            final(context).render_list,
            RectangleDrawInfo { corners, color: old(context).draw_state.color },
        ),
        final(context).renderer == old(context).renderer,
        final(context).draw_state == old(context).draw_state,
        final(context).zero == old(context).zero,
        final(context).one == old(context).one,
{
    let draw_info = RectangleDrawInfo { corners, color: context.draw_state.color };
    let ghost before = context.render_list.commands@;
    match context.render_list.commands.pop() {
        Some(RenderCommand::RectangleBatch(mut batch)) => {
            batch.add(&draw_info);
            context.render_list.commands.push(RenderCommand::RectangleBatch(batch));
            assert(context.render_list.commands@.drop_last() =~= before.drop_last());
        },
        Some(other) => {
            context.render_list.commands.push(other);
            assert(context.render_list.commands@ =~= before);
            context.render_list.commands.push(
                RenderCommand::RectangleBatch(RectangleBatch::new(&draw_info)),
            );
            assert(context.render_list.commands@.drop_last() =~= before);
        },
        None => {
            context.render_list.commands.push(
                RenderCommand::RectangleBatch(RectangleBatch::new(&draw_info)),
            );
            assert(context.render_list.commands@.drop_last() =~= before);
        },
    }
}

/// Resets the coordinate system: the transform is the identity again.
pub fn origin<F: Copy>(context: &mut Context<F>)
    ensures
        *final(context) == (Context {
            draw_state: DrawState {
                color: old(context).draw_state.color,
                transform: Transform::matrix(
                    old(context).one,
                    old(context).zero,
                    old(context).zero,
                    old(context).zero,
                    old(context).one,
                    old(context).zero,
                    old(context).zero,
                    old(context).zero,
                    old(context).one,
                ),
            },
            ..*old(context)
        }),
{
    context.draw_state.transform = Transform::identity(context.zero, context.one);
}

impl Sprite {
    /// What a draw of this sprite needs to know of it: its extent in pixels
    /// and where its pixels are.
    pub fn placement<F: Copy>(&self, context: &Context<F>) -> (r: Placement)
        requires
            self.0 < context.renderer.sprite_renderer@.sprites.len(),
        ensures
            r == context.renderer.sprite_renderer@.placement(self.0),
    {
        context.renderer.sprite_renderer.placement(self.0)
    }

    /// Draws the sprite. `corners` are its corners after the current
    /// transform, in the order top-left, top-right, bottom-left,
    /// bottom-right, and `region` is the part of its texture that it shows.
    pub fn draw<F: Copy>(&self, context: &mut Context<F>, corners: [[F; 2]; 4], region: TexCoords<F>)
        requires
            self.0 < old(context).renderer.sprite_renderer@.sprites.len(),
            old(context).render_list.ends_in_sprites(
                old(context).renderer.sprite_renderer@.binding(self.0),
            ) ==> old(context).render_list.room(),
        ensures
            old(context).render_list.drew_sprite(
                final(context).render_list,
                old(context).renderer.sprite_renderer@.binding(self.0),
                SpriteDrawInfo { handle: self.0, corners, region },
            ),
            final(context).renderer == old(context).renderer,
            final(context).draw_state == old(context).draw_state,
            final(context).zero == old(context).zero,
            final(context).one == old(context).one,
    {
        let draw_info = SpriteDrawInfo { handle: self.0, corners, region };
        let ghost before = context.render_list.commands@;
        match context.render_list.commands.pop() {
            Some(RenderCommand::SpriteBatch(mut batch)) => {
                match batch.try_add(&draw_info, &context.renderer.sprite_renderer) {
                    Err(new_batch) => {
                        context.render_list.commands.push(RenderCommand::SpriteBatch(batch));
                        assert(context.render_list.commands@ =~= before);
                        context.render_list.commands.push(RenderCommand::SpriteBatch(new_batch));
                        assert(context.render_list.commands@.drop_last() =~= before);
                    },
                    Ok(()) => {
                        context.render_list.commands.push(RenderCommand::SpriteBatch(batch));
                        assert(context.render_list.commands@.drop_last() =~= before.drop_last());
                    },
                }
            },
            Some(other) => {
                context.render_list.commands.push(other);
                assert(context.render_list.commands@ =~= before);
                context.render_list.commands.push(
                    RenderCommand::SpriteBatch(
                        SpriteBatch::new(&draw_info, &context.renderer.sprite_renderer),
                    ),
                );
                assert(context.render_list.commands@.drop_last() =~= before);
            },
            None => {
                context.render_list.commands.push(
                    RenderCommand::SpriteBatch(
                        SpriteBatch::new(&draw_info, &context.renderer.sprite_renderer),
                    ),
                );
                assert(context.render_list.commands@.drop_last() =~= before);
            },
        }
    }
}

/// Rectangles drawn one after another, on a list that does not end in a
/// batch of rectangles, make one batch: `lists[i + 1]` is `lists[i]` after
/// `draw_infos[i]` was drawn, and the last list is the first with one more
/// batch, which holds four vertices and six indices for each rectangle.
pub proof fn lemma_rectangles_coalesce<F: Copy>(
    lists: Seq<RenderList<F>>,
    draw_infos: Seq<RectangleDrawInfo<F>>,
)
    requires
        draw_infos.len() >= 1,
        lists.len() == draw_infos.len() + 1,
        !lists[0].ends_in_rectangles(),
        forall|i: int|
            #![trigger lists[i], draw_infos[i]]
            0 <= i < draw_infos.len() ==> lists[i].drew_rectangle(lists[i + 1], draw_infos[i]),
    ensures
        lists[0].appended_to(lists.last()),
        lists.last().commands@.last() is RectangleBatch,
        lists.last().commands@.last().vertex_count() == 4 * draw_infos.len(),
        lists.last().commands@.last().index_count() == 6 * draw_infos.len(),
    decreases draw_infos.len(),
{
    let n = draw_infos.len() as int;
    assert(lists[n - 1].drew_rectangle(lists[n], draw_infos[n - 1]));
    if n > 1 {
        let shorter = lists.drop_last();
        assert forall|i: int|
            #![trigger shorter[i], draw_infos.drop_last()[i]]
            0 <= i < n - 1 implies shorter[i].drew_rectangle(
            shorter[i + 1],
            draw_infos.drop_last()[i],
        ) by {
            assert(lists[i].drew_rectangle(lists[i + 1], draw_infos[i]));
        }
        lemma_rectangles_coalesce(shorter, draw_infos.drop_last());
        assert(shorter.last() == lists[n - 1]);
        assert(lists[n].commands@.drop_last() =~= lists[0].commands@);
    }
}

/// Sprites that sample one texture, drawn one after another on a list that
/// does not end in a batch of that texture, make one batch: `lists[i + 1]`
/// is `lists[i]` after `draw_infos[i]` was drawn, and the last list is the
/// first with one more batch, which samples the texture and holds four
/// vertices and six indices for each sprite.
pub proof fn lemma_sprites_coalesce<F: Copy>(
    lists: Seq<RenderList<F>>,
    texture: Binding,
    draw_infos: Seq<SpriteDrawInfo<F>>,
)
    requires
        draw_infos.len() >= 1,
        lists.len() == draw_infos.len() + 1,
        !lists[0].ends_in_sprites(texture),
        forall|i: int|
            #![trigger lists[i], draw_infos[i]]
            0 <= i < draw_infos.len() ==> lists[i].drew_sprite(
                lists[i + 1],
                texture,
                draw_infos[i],
            ),
    ensures
        lists[0].appended_to(lists.last()),
        lists.last().commands@.last().texture() == Some(texture),
        lists.last().commands@.last().vertex_count() == 4 * draw_infos.len(),
        lists.last().commands@.last().index_count() == 6 * draw_infos.len(),
    decreases draw_infos.len(),
{
    let n = draw_infos.len() as int;
    assert(lists[n - 1].drew_sprite(lists[n], texture, draw_infos[n - 1]));
    if n > 1 {
        let shorter = lists.drop_last();
        assert forall|i: int|
            #![trigger shorter[i], draw_infos.drop_last()[i]]
            0 <= i < n - 1 implies shorter[i].drew_sprite(
            shorter[i + 1],
            texture,
            draw_infos.drop_last()[i],
        ) by {
            assert(lists[i].drew_sprite(lists[i + 1], texture, draw_infos[i]));
        }
        lemma_sprites_coalesce(shorter, texture, draw_infos.drop_last());
        assert(shorter.last() == lists[n - 1]);
        assert(lists[n].commands@.drop_last() =~= lists[0].commands@);
    }
}

/// A sprite that samples another texture than the batch of sprites at the
/// end of the list starts a new batch, and the batches before it stay as
/// they are.
pub proof fn lemma_other_texture_splits<F: Copy>(
    before: RenderList<F>,
    after: RenderList<F>,
    texture: Binding,
    draw_info: SpriteDrawInfo<F>,
)
    requires
        before.commands@.len() > 0,
        before.commands@.last().texture() != Some(texture),
        before.drew_sprite(after, texture, draw_info),
    ensures
        before.appended_to(after),
        after.commands@.last().texture() == Some(texture),
        after.commands@.last().vertex_count() == 4,
        after.commands@.last().index_count() == 6,
{
}

/// After the color was set, the screen cleared and a rectangle drawn, the
/// render list holds one batch, the rectangle in the color that was set,
/// and clears to that color; what was drawn before is gone.
pub proof fn lemma_clear_then_rectangle<F: Copy>(
    start: Context<F>,
    colored: Context<F>,
    emptied: Context<F>,
    drawn: Context<F>,
    color: Color<F>,
    corners: [[F; 2]; 4],
)
    requires
        colored == (Context {
            draw_state: DrawState { color, transform: start.draw_state.transform },
            ..start
        }),
        cleared(colored, emptied),
        emptied.render_list.drew_rectangle(
            drawn.render_list,
            RectangleDrawInfo { corners, color: emptied.draw_state.color },
        ),
    ensures
        drawn.render_list.clear_color == color,
        drawn.render_list.commands@.len() == 1,
        drawn.render_list.commands@[0] matches RenderCommand::RectangleBatch(batch) && batch@
            == BatchView::single(RectangleDrawInfo { corners, color }),
{
}

} // verus!
