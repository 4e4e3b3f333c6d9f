use heart::graphics::context::{Context, DrawState};
use heart::graphics::rectangle::{RectangleBatch, RectangleDrawInfo};
use heart::graphics::renderer::{
    Buffers, Color, DrawCall, RenderCommand, RenderList, Renderer, BUFFER_SIZE,
};
use heart::graphics::sprite::packer::TextureRegion;
use heart::graphics::sprite::{
    Binding, Placement, SheetAssemblyFeedback, SpriteBatch, SpriteDrawInfo, SpriteRenderer,
    TexCoords,
};
use heart::graphics::transform::Transform;
use heart::graphics::{clear, create_sprite, origin, rectangle, reset, set_color, Sprite};
use heart::image::Image;

fn context() -> Context<f32> {
    Context::new(0.0, 1.0)
}

fn apply(t: &Transform<f32>, x: f32, y: f32) -> [f32; 2] {
    let nx = t.x.x * x + t.x.y * y + t.x.z;
    let ny = t.y.x * x + t.y.y * y + t.y.z;
    let nz = t.z.x * x + t.z.y * y + t.z.z;
    [nx / nz, ny / nz]
}

fn combine(a: &Transform<f32>, b: &Transform<f32>) -> Transform<f32> {
    let row = |r: &heart::graphics::transform::Row<f32>| heart::graphics::transform::Row {
        x: r.x * b.x.x + r.y * b.y.x + r.z * b.z.x,
        y: r.x * b.x.y + r.y * b.y.y + r.z * b.z.y,
        z: r.x * b.x.z + r.y * b.y.z + r.z * b.z.z,
    };
    Transform { x: row(&a.x), y: row(&a.y), z: row(&a.z) }
}

fn corners(t: &Transform<f32>, x: f32, y: f32, w: f32, h: f32) -> [[f32; 2]; 4] {
    [apply(t, x, y), apply(t, x + w, y), apply(t, x, y + h), apply(t, x + w, y + h)]
}

fn draw_rectangle(context: &mut Context<f32>, x: f32, y: f32, w: f32, h: f32) {
    let quad = corners(&context.draw_state.transform, x, y, w, h);
    assert!(context.render_list.takes_rectangle());
    rectangle(context, quad);
}

fn whole() -> TexCoords<f32> {
    TexCoords { left: 0.0, top: 0.0, right: 1.0, bottom: 1.0 }
}

fn tex_coords(placement: &Placement) -> TexCoords<f32> {
    match placement.region {
        None => whole(),
        Some(region) => TexCoords {
            left: region.left as f32 / placement.sheet_size as f32,
            top: region.top as f32 / placement.sheet_size as f32,
            right: region.right as f32 / placement.sheet_size as f32,
            bottom: region.bottom as f32 / placement.sheet_size as f32,
        },
    }
}

fn draw_sprite(context: &mut Context<f32>, sprite: &Sprite, x: f32, y: f32) {
    let placement = sprite.placement(context);
    let quad = corners(
        &context.draw_state.transform,
        x,
        y,
        placement.width as f32,
        placement.height as f32,
    );
    assert!(context.render_list.takes_sprite(placement.texture));
    sprite.draw(context, quad, tex_coords(&placement));
}

fn image(width: u32, height: u32) -> Image {
    Image::from_data(vec![0; (width * height * 4) as usize], width, height)
}

fn rectangles(command: &RenderCommand<f32>) -> &RectangleBatch<f32> {
    match command {
        RenderCommand::RectangleBatch(batch) => batch,
        RenderCommand::SpriteBatch(_) => panic!("a batch of sprites"),
    }
}

fn sprites(command: &RenderCommand<f32>) -> &SpriteBatch<f32> {
    match command {
        RenderCommand::SpriteBatch(batch) => batch,
        RenderCommand::RectangleBatch(_) => panic!("a batch of rectangles"),
    }
}

fn color(c: &Color<f32>) -> [f32; 4] {
    [c.r, c.g, c.b, c.a]
}

fn matrix(t: &Transform<f32>) -> [f32; 9] {
    [t.x.x, t.x.y, t.x.z, t.y.x, t.y.y, t.y.z, t.z.x, t.z.y, t.z.z]
}

#[test]
fn transforms_are_built_from_zero_and_one() {
    assert_eq!(matrix(&Transform::identity(0.0, 1.0)), [1., 0., 0., 0., 1., 0., 0., 0., 1.]);
    assert_eq!(
        matrix(&Transform::translation(3.0, 4.0, 0.0, 1.0)),
        [1., 0., 3., 0., 1., 4., 0., 0., 1.]
    );
    assert_eq!(
        matrix(&Transform::scaling(3.0, 4.0, 0.0, 1.0)),
        [3., 0., 0., 0., 4., 0., 0., 0., 1.]
    );
    assert_eq!(
        matrix(&Transform::shearing(3.0, 4.0, 0.0, 1.0)),
        [1., 3., 0., 4., 1., 0., 0., 0., 1.]
    );
}

#[test]
fn transforms_move_points_as_their_matrices_say() {
    assert_eq!(apply(&Transform::translation(3.0, 4.0, 0.0, 1.0), 1.0, 2.0), [4.0, 6.0]);
    assert_eq!(apply(&Transform::scaling(3.0, 4.0, 0.0, 1.0), 1.0, 2.0), [3.0, 8.0]);
    assert_eq!(apply(&Transform::identity(0.0, 1.0), 1.5, -2.0), [1.5, -2.0]);
    assert_eq!(apply(&Transform::shearing(2.0, 3.0, 0.0, 1.0), 1.0, 1.0), [3.0, 4.0]);
    let then = combine(
        &Transform::translation(1.0, 0.0, 0.0, 1.0),
        &Transform::scaling(2.0, 2.0, 0.0, 1.0),
    );
    assert_eq!(apply(&then, 1.0, 1.0), [3.0, 2.0]);
}

#[test]
fn default_color_is_opaque_black() {
    assert_eq!(color(&Color::default(0.0f32, 1.0)), [0.0, 0.0, 0.0, 1.0]);
    let state = DrawState::default(0.0f32, 1.0);
    assert_eq!(color(&state.color), [0.0, 0.0, 0.0, 1.0]);
    assert_eq!(matrix(&state.transform), [1., 0., 0., 0., 1., 0., 0., 0., 1.]);
}

#[test]
fn identity_draw() {
    let mut context = context();
    draw_rectangle(&mut context, 0.0, 0.0, 10.0, 10.0);
    assert_eq!(context.render_list.commands.len(), 1);
    let batch = rectangles(&context.render_list.commands[0]);
    let positions: Vec<[f32; 2]> = batch.vertices().iter().map(|v| v.position).collect();
    assert_eq!(positions, vec![[0.0, 0.0], [10.0, 0.0], [0.0, 10.0], [10.0, 10.0]]);
    for vertex in batch.vertices() {
        assert_eq!(vertex.color, [0.0, 0.0, 0.0, 1.0]);
    }
    assert_eq!(batch.indices(), &[0, 2, 1, 3, 1, 2]);
}

#[test]
fn rotated_draw_uses_the_set_color() {
    let mut context = context();
    set_color(&mut context, 1.0, 0.0, 0.0, 1.0);
    let quarter = std::f32::consts::FRAC_PI_2;
    let rotation = Transform {
        x: heart::graphics::transform::Row { x: quarter.cos(), y: -quarter.sin(), z: 0.0 },
        y: heart::graphics::transform::Row { x: quarter.sin(), y: quarter.cos(), z: 0.0 },
        z: heart::graphics::transform::Row { x: 0.0, y: 0.0, z: 1.0 },
    };
    context.draw_state.transform = combine(&rotation, &context.draw_state.transform);
    draw_rectangle(&mut context, 0.0, 0.0, 10.0, 0.0);
    let batch = rectangles(&context.render_list.commands[0]);
    let expected = [[0.0, 0.0], [0.0, 10.0], [0.0, 0.0], [0.0, 10.0]];
    for (vertex, want) in batch.vertices().iter().zip(expected) {
        assert!((vertex.position[0] - want[0]).abs() < 1e-6);
        assert!((vertex.position[1] - want[1]).abs() < 1e-6);
        assert_eq!(vertex.color, [1.0, 0.0, 0.0, 1.0]);
    }
}

#[test]
fn rectangles_share_a_batch() {
    let mut context = context();
    draw_rectangle(&mut context, 0.0, 0.0, 1.0, 1.0);
    draw_rectangle(&mut context, 5.0, 5.0, 2.0, 3.0);
    draw_rectangle(&mut context, -1.0, 4.0, 7.0, 7.0);
    assert_eq!(context.render_list.commands.len(), 1);
    let batch = rectangles(&context.render_list.commands[0]);
    assert_eq!(batch.vertices().len(), 12);
    assert_eq!(
        batch.indices(),
        &[0, 2, 1, 3, 1, 2, 4, 6, 5, 7, 5, 6, 8, 10, 9, 11, 9, 10]
    );
    assert_eq!(batch.vertices()[5].position, [7.0, 5.0]);
    assert_eq!(batch.vertices()[11].position, [6.0, 11.0]);
}

#[test]
fn rectangle_batch_on_its_own() {
    let info = RectangleDrawInfo {
        corners: [[1u8, 2], [3, 4], [5, 6], [7, 8]],
        color: Color { r: 9, g: 10, b: 11, a: 12 },
    };
    let mut batch = RectangleBatch::new(&info);
    batch.add(&info);
    assert_eq!(batch.vertices().len(), 8);
    assert_eq!(batch.vertices()[6].position, [5, 6]);
    assert_eq!(batch.vertices()[6].color, [9, 10, 11, 12]);
    assert_eq!(batch.indices(), &[0, 2, 1, 3, 1, 2, 4, 6, 5, 7, 5, 6]);
}

#[test]
fn clear_takes_the_current_color_and_drops_the_batches() {
    let mut context = context();
    draw_rectangle(&mut context, 0.0, 0.0, 1.0, 1.0);
    context.draw_state.transform = Transform::translation(2.0, 3.0, 0.0, 1.0);
    set_color(&mut context, 0.25, 0.5, 0.75, 1.0);
    assert_eq!(color(&context.render_list.clear_color), [0.0, 0.0, 0.0, 1.0]);
    clear(&mut context);
    assert!(context.render_list.commands.is_empty());
    assert_eq!(color(&context.render_list.clear_color), [0.25, 0.5, 0.75, 1.0]);
    assert_eq!(matrix(&context.draw_state.transform), [1., 0., 2., 0., 1., 3., 0., 0., 1.]);
    draw_rectangle(&mut context, 0.0, 0.0, 1.0, 1.0);
    assert_eq!(context.render_list.commands.len(), 1);
    let batch = rectangles(&context.render_list.commands[0]);
    assert_eq!(batch.vertices()[0].color, [0.25, 0.5, 0.75, 1.0]);
    assert_eq!(batch.vertices()[0].position, [2.0, 3.0]);
    assert_eq!(color(&context.render_list.clear_color), [0.25, 0.5, 0.75, 1.0]);
}

#[test]
fn reset_restores_the_draw_state_and_keeps_the_batches() {
    let mut context = context();
    set_color(&mut context, 0.5, 0.5, 0.5, 0.5);
    context.draw_state.transform = Transform::scaling(2.0, 2.0, 0.0, 1.0);
    draw_rectangle(&mut context, 0.0, 0.0, 1.0, 1.0);
    reset(&mut context);
    assert_eq!(color(&context.draw_state.color), [0.0, 0.0, 0.0, 1.0]);
    assert_eq!(matrix(&context.draw_state.transform), [1., 0., 0., 0., 1., 0., 0., 0., 1.]);
    assert_eq!(context.render_list.commands.len(), 1);
}

#[test]
fn origin_restores_the_transform_only() {
    let mut context = context();
    set_color(&mut context, 0.5, 0.5, 0.5, 0.5);
    context.draw_state.transform = Transform::scaling(2.0, 2.0, 0.0, 1.0);
    origin(&mut context);
    assert_eq!(color(&context.draw_state.color), [0.5, 0.5, 0.5, 0.5]);
    assert_eq!(matrix(&context.draw_state.transform), [1., 0., 0., 0., 1., 0., 0., 0., 1.]);
}

#[test]
fn frame_reset_empties_everything() {
    let mut context = context();
    set_color(&mut context, 0.5, 0.5, 0.5, 0.5);
    clear(&mut context);
    draw_rectangle(&mut context, 0.0, 0.0, 1.0, 1.0);
    assert!(context.renderer.can_render(&context.render_list));
    context.render();
    assert_eq!(context.renderer.buffers.vertex_offset, 96);
    assert_eq!(context.renderer.buffers.index_offset, 24);
    context.reset(None);
    assert_eq!(context.renderer.buffers.vertex_offset, 0);
    assert_eq!(context.renderer.buffers.index_offset, 0);
    assert!(context.render_list.commands.is_empty());
    assert_eq!(color(&context.render_list.clear_color), [0.0, 0.0, 0.0, 1.0]);
    assert_eq!(color(&context.draw_state.color), [0.0, 0.0, 0.0, 1.0]);
}

#[test]
fn sprites_before_the_atlas_batch_by_texture() {
    let mut context = context();
    let (a, upload_a) = create_sprite(&mut context, image(4, 2));
    let (b, upload_b) = create_sprite(&mut context, image(1, 1));
    assert_eq!((a.0, b.0), (0, 1));
    assert_eq!((upload_a.handle, upload_a.width, upload_a.height), (0, 4, 2));
    assert_eq!((upload_b.handle, upload_b.data.len()), (1, 4));
    draw_sprite(&mut context, &a, 0.0, 0.0);
    draw_sprite(&mut context, &a, 10.0, 20.0);
    draw_sprite(&mut context, &b, 5.0, 5.0);
    assert_eq!(context.render_list.commands.len(), 2);
    let first = sprites(&context.render_list.commands[0]);
    assert_eq!(first.texture(), Binding::Texture(0));
    assert_eq!(first.vertices().len(), 8);
    assert_eq!(first.indices(), &[0, 2, 1, 3, 1, 2, 4, 6, 5, 7, 5, 6]);
    let got: Vec<([f32; 2], [f32; 2])> =
        first.vertices().iter().map(|v| (v.position, v.tex_coords)).collect();
    assert_eq!(
        got[4..],
        [
            ([10.0, 20.0], [0.0, 0.0]),
            ([14.0, 20.0], [1.0, 0.0]),
            ([10.0, 22.0], [0.0, 1.0]),
            ([14.0, 22.0], [1.0, 1.0]),
        ]
    );
    let second = sprites(&context.render_list.commands[1]);
    assert_eq!(second.texture(), Binding::Texture(1));
    assert_eq!(second.vertices().len(), 4);
    assert_eq!(second.indices(), &[0, 2, 1, 3, 1, 2]);
}

#[test]
fn sprites_after_the_atlas_share_a_batch() {
    let mut context = context();
    let (a, _) = create_sprite(&mut context, image(4, 2));
    let (b, _) = create_sprite(&mut context, image(1, 1));
    let feedback = SheetAssemblyFeedback {
        updated_sprites: vec![
            (0, TextureRegion { left: 0, top: 0, right: 4, bottom: 2 }),
            (1, TextureRegion { left: 4, top: 0, right: 5, bottom: 1 }),
        ],
        sheet_size: 8,
    };
    assert!(context.renderer.sprite_renderer.accepts(&feedback));
    context.reset(Some(feedback));
    draw_sprite(&mut context, &a, 0.0, 0.0);
    draw_sprite(&mut context, &a, 10.0, 20.0);
    draw_sprite(&mut context, &b, 5.0, 5.0);
    assert_eq!(context.render_list.commands.len(), 1);
    let batch = sprites(&context.render_list.commands[0]);
    assert_eq!(batch.texture(), Binding::Sheet(1));
    assert_eq!(batch.vertices().len(), 12);
    assert_eq!(batch.indices().len(), 18);
    let last: Vec<([f32; 2], [f32; 2])> =
        batch.vertices()[8..].iter().map(|v| (v.position, v.tex_coords)).collect();
    assert_eq!(
        last,
        vec![
            ([5.0, 5.0], [0.5, 0.0]),
            ([6.0, 5.0], [0.625, 0.0]),
            ([5.0, 6.0], [0.5, 0.125]),
            ([6.0, 6.0], [0.625, 0.125]),
        ]
    );
}

#[test]
fn a_rectangle_between_sprites_splits_the_batches() {
    let mut context = context();
    let (a, _) = create_sprite(&mut context, image(2, 2));
    draw_sprite(&mut context, &a, 0.0, 0.0);
    draw_rectangle(&mut context, 0.0, 0.0, 1.0, 1.0);
    draw_rectangle(&mut context, 0.0, 0.0, 1.0, 1.0);
    draw_sprite(&mut context, &a, 0.0, 0.0);
    draw_sprite(&mut context, &a, 0.0, 0.0);
    let kinds: Vec<(bool, usize)> = context
        .render_list
        .commands
        .iter()
        .map(|command| match command {
            RenderCommand::RectangleBatch(batch) => (false, batch.vertices().len()),
            RenderCommand::SpriteBatch(batch) => (true, batch.vertices().len()),
        })
        .collect();
    assert_eq!(kinds, vec![(true, 4), (false, 8), (true, 8)]);
}

#[test]
fn a_migrated_sprite_leaves_its_old_batch() {
    let mut registry = SpriteRenderer::new();
    registry.create_sprite(image(2, 2));
    let info = SpriteDrawInfo { handle: 0, corners: [[0.0f32; 2]; 4], region: whole() };
    let mut batch = SpriteBatch::new(&info, &registry);
    assert!(batch.try_add(&info, &registry).is_ok());
    assert_eq!(batch.vertices().len(), 8);
    registry.poll(Some(SheetAssemblyFeedback {
        updated_sprites: vec![(0, TextureRegion { left: 0, top: 0, right: 2, bottom: 2 })],
        sheet_size: 2,
    }));
    match batch.try_add(&info, &registry) {
        Err(new_batch) => {
            assert_eq!(new_batch.texture(), Binding::Sheet(1));
            assert_eq!(new_batch.vertices().len(), 4);
            assert_eq!(new_batch.indices(), &[0, 2, 1, 3, 1, 2]);
        }
        Ok(()) => panic!("the sprite stayed in the batch of its old texture"),
    }
    assert_eq!(batch.texture(), Binding::Texture(0));
    assert_eq!(batch.vertices().len(), 8);
}

#[test]
fn registry_tells_where_a_sprite_is() {
    let mut registry = SpriteRenderer::new();
    assert_eq!(registry.len(), 0);
    let upload = registry.create_sprite(image(3, 5));
    assert_eq!((upload.handle, upload.width, upload.height, upload.data.len()), (0, 3, 5, 60));
    registry.create_sprite(image(1, 1));
    assert_eq!(registry.len(), 2);
    assert_eq!(
        registry.placement(0),
        Placement { texture: Binding::Texture(0), width: 3, height: 5, region: None, sheet_size: 1 }
    );
    assert_eq!(registry.binding(1), Binding::Texture(1));
    registry.poll(None);
    assert_eq!(registry.binding(0), Binding::Texture(0));
    let region = TextureRegion { left: 8, top: 0, right: 11, bottom: 5 };
    registry.poll(Some(SheetAssemblyFeedback { updated_sprites: vec![(0, region)], sheet_size: 16 }));
    assert_eq!(
        registry.placement(0),
        Placement {
            texture: Binding::Sheet(1),
            width: 3,
            height: 5,
            region: Some(region),
            sheet_size: 16
        }
    );
    assert_eq!(
        registry.placement(1),
        Placement { texture: Binding::Texture(1), width: 1, height: 1, region: None, sheet_size: 16 }
    );
    let later = TextureRegion { left: 0, top: 0, right: 1, bottom: 1 };
    let moved = TextureRegion { left: 2, top: 2, right: 5, bottom: 7 };
    registry.poll(Some(SheetAssemblyFeedback {
        updated_sprites: vec![(1, later), (0, region), (0, moved)],
        sheet_size: 32,
    }));
    assert_eq!(registry.binding(1), Binding::Sheet(2));
    assert_eq!(registry.placement(0).region, Some(moved));
    assert_eq!(registry.placement(1).region, Some(later));
}

#[test]
fn registry_refuses_feedback_it_cannot_take() {
    let mut registry = SpriteRenderer::new();
    registry.create_sprite(image(1, 1));
    let region = TextureRegion { left: 0, top: 0, right: 1, bottom: 1 };
    assert!(registry.accepts(&SheetAssemblyFeedback {
        updated_sprites: vec![(0, region)],
        sheet_size: 1
    }));
    assert!(!registry.accepts(&SheetAssemblyFeedback {
        updated_sprites: vec![(0, region), (1, region)],
        sheet_size: 1
    }));
    assert!(!registry.accepts(&SheetAssemblyFeedback {
        updated_sprites: vec![(0, TextureRegion { left: 3, top: 0, right: 1, bottom: 1 })],
        sheet_size: 1
    }));
    assert!(!registry.accepts(&SheetAssemblyFeedback {
        updated_sprites: vec![(0, TextureRegion { left: 0, top: 2, right: 1, bottom: 1 })],
        sheet_size: 1
    }));
    assert!(!registry.accepts(&SheetAssemblyFeedback {
        updated_sprites: vec![(0, TextureRegion { left: 0, top: 0, right: 2, bottom: 1 })],
        sheet_size: 2
    }));
    assert!(!registry.accepts(&SheetAssemblyFeedback {
        updated_sprites: vec![(0, region), (0, TextureRegion { left: 4, top: 4, right: 5, bottom: 6 })],
        sheet_size: 8
    }));
    assert!(registry.accepts(&SheetAssemblyFeedback {
        updated_sprites: vec![(0, region), (0, TextureRegion { left: 4, top: 4, right: 5, bottom: 5 })],
        sheet_size: 8
    }));
}

#[test]
fn a_sprite_keeps_its_extent_in_the_sheet() {
    let mut registry = SpriteRenderer::new();
    registry.create_sprite(image(3, 5));
    let before = registry.placement(0);
    let feedback = SheetAssemblyFeedback {
        updated_sprites: vec![(0, TextureRegion { left: 16, top: 8, right: 19, bottom: 13 })],
        sheet_size: 32,
    };
    assert!(registry.accepts(&feedback));
    registry.poll(Some(feedback));
    let after = registry.placement(0);
    assert_eq!((after.width, after.height), (before.width, before.height));
    assert_eq!((after.width, after.height), (3, 5));
}

#[test]
fn draws_follow_each_other_in_the_buffers() {
    let mut context = context();
    let (a, _) = create_sprite(&mut context, image(2, 2));
    draw_rectangle(&mut context, 0.0, 0.0, 1.0, 1.0);
    draw_rectangle(&mut context, 0.0, 0.0, 1.0, 1.0);
    draw_sprite(&mut context, &a, 0.0, 0.0);
    draw_rectangle(&mut context, 0.0, 0.0, 1.0, 1.0);
    assert!(context.renderer.can_render(&context.render_list));
    let calls = context.render();
    assert_eq!(
        calls,
        vec![
            DrawCall {
                texture: None,
                vertex_offset: 0,
                vertex_size: 192,
                index_offset: 0,
                index_size: 48,
                index_count: 12
            },
            DrawCall {
                texture: Some(Binding::Texture(0)),
                vertex_offset: 192,
                vertex_size: 64,
                index_offset: 48,
                index_size: 24,
                index_count: 6
            },
            DrawCall {
                texture: None,
                vertex_offset: 256,
                vertex_size: 96,
                index_offset: 72,
                index_size: 24,
                index_count: 6
            },
        ]
    );
    assert_eq!(context.renderer.buffers.vertex_offset, 352);
    assert_eq!(context.renderer.buffers.index_offset, 96);
    assert_eq!(context.render_list.commands.len(), 3);
}

#[test]
fn a_frame_that_does_not_fit_is_refused() {
    let mut renderer = Renderer::new();
    let mut list: RenderList<f32> = RenderList::default(0.0, 1.0);
    assert!(list.takes_rectangle());
    assert!(list.takes_sprite(Binding::Sheet(0)));
    assert!(renderer.can_render(&list));
    let info = RectangleDrawInfo {
        corners: [[0.0; 2]; 4],
        color: Color { r: 0.0, g: 0.0, b: 0.0, a: 1.0 },
    };
    list.commands.push(RenderCommand::RectangleBatch(RectangleBatch::new(&info)));
    renderer.buffers = Buffers { vertex_offset: BUFFER_SIZE - 96, index_offset: BUFFER_SIZE - 24 };
    assert!(renderer.can_render(&list));
    renderer.buffers = Buffers { vertex_offset: BUFFER_SIZE - 95, index_offset: 0 };
    assert!(!renderer.can_render(&list));
    renderer.buffers = Buffers { vertex_offset: 0, index_offset: BUFFER_SIZE - 23 };
    assert!(!renderer.can_render(&list));
    renderer.buffers = Buffers::new();
    assert_eq!(renderer.render(&list).len(), 1);
    renderer.reset(None);
    assert_eq!((renderer.buffers.vertex_offset, renderer.buffers.index_offset), (0, 0));
}

#[test]
fn indices_go_to_the_gpu_as_bytes() {
    let info = RectangleDrawInfo {
        corners: [[0.0f32; 2]; 4],
        color: Color { r: 0.0, g: 0.0, b: 0.0, a: 1.0 },
    };
    let mut batch = RectangleBatch::new(&info);
    batch.add(&info);
    let expected: Vec<u8> = [0u32, 2, 1, 3, 1, 2, 4, 6, 5, 7, 5, 6]
        .iter()
        .flat_map(|index| index.to_ne_bytes())
        .collect();
    assert_eq!(batch.index_bytes(), &expected[..]);
    let mut registry = SpriteRenderer::new();
    registry.create_sprite(image(1, 1));
    let sprite = SpriteDrawInfo { handle: 0, corners: [[0.0f32; 2]; 4], region: whole() };
    let sprites = SpriteBatch::new(&sprite, &registry);
    assert_eq!(sprites.index_bytes(), &expected[..24]);
}

#[test]
fn a_draw_that_starts_a_batch_is_always_taken() {
    let mut context = context();
    assert!(context.render_list.takes_rectangle());
    assert!(context.render_list.takes_sprite(Binding::Texture(0)));
    let (a, _) = create_sprite(&mut context, image(1, 1));
    draw_sprite(&mut context, &a, 0.0, 0.0);
    assert!(context.render_list.takes_rectangle());
    assert!(context.render_list.takes_sprite(Binding::Texture(0)));
    assert!(context.render_list.takes_sprite(Binding::Sheet(0)));
    draw_rectangle(&mut context, 0.0, 0.0, 1.0, 1.0);
    assert!(context.render_list.takes_rectangle());
    assert!(context.render_list.takes_sprite(Binding::Texture(0)));
}
