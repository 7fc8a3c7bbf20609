use quad_gl::batch::{
    check_indices, BatchBuilder, BlendMode, RenderState, TextureId, Vertex, MAX_BATCH_VERTICES,
};
use quad_gl::color::{blue, red, Color};
use quad_gl::math::{Point, TexCoord};
use quad_gl::sprite_batcher::SpriteBatcher;
use quad_gl::Error;

fn vertex(x: i64, y: i64) -> Vertex {
    Vertex { x, y, z: 0, u: TexCoord::zero(), v: TexCoord::zero(), color: red() }
}

fn triangle(x: i64) -> (Vec<Vertex>, Vec<u32>) {
    (vec![vertex(x, 0), vertex(x + 1, 0), vertex(x, 1)], vec![0, 1, 2])
}

fn texture(id: u64) -> RenderState {
    RenderState::textured(TextureId::Texture(id))
}

#[test]
fn rectangle_vertices_and_indices() {
    let mut canvas = SpriteBatcher::new();
    assert_eq!(canvas.draw_rectangle(10, 20, 100, 50, red()), Ok(()));
    assert_eq!(canvas.batch_count(), 1);
    let batch = canvas.batch(0).unwrap();
    assert_eq!(batch.state, RenderState { texture: None, blend: BlendMode::Alpha });
    let zero = TexCoord { num: 0, den: 1 };
    let one = TexCoord { num: 1, den: 1 };
    assert_eq!(
        batch.vertices,
        vec![
            Vertex { x: 10, y: 20, z: 0, u: zero, v: zero, color: red() },
            Vertex { x: 110, y: 20, z: 0, u: one, v: zero, color: red() },
            Vertex { x: 110, y: 70, z: 0, u: one, v: one, color: red() },
            Vertex { x: 10, y: 70, z: 0, u: zero, v: one, color: red() },
        ]
    );
    assert_eq!(batch.indices, vec![0, 1, 2, 0, 2, 3]);
}

#[test]
fn rectangle_at_the_ends_of_the_coordinate_range() {
    let mut canvas = SpriteBatcher::new();
    assert_eq!(canvas.draw_rectangle(i32::MAX, i32::MIN, i32::MAX, i32::MIN, blue()), Ok(()));
    let batch = canvas.batch(0).unwrap();
    assert_eq!(batch.vertices[2].x, 2 * (i32::MAX as i64));
    assert_eq!(batch.vertices[2].y, 2 * (i32::MIN as i64));
}

#[test]
fn same_state_draws_make_one_batch() {
    let mut canvas = SpriteBatcher::new();
    for i in 0..50 {
        assert_eq!(canvas.draw_rectangle(i, i, 10, 10, red()), Ok(()));
        let rim = vec![Point { x: i + 5, y: i }, Point { x: i, y: i + 5 }, Point { x: i - 5, y: i }];
        assert_eq!(canvas.draw_circle(Point { x: i, y: i }, &rim, blue()), Ok(()));
    }
    assert_eq!(canvas.batch_count(), 1);
    let batch = canvas.batch(0).unwrap();
    assert_eq!(batch.vertices.len(), 50 * (4 + 4));
    assert_eq!(batch.indices.len(), 50 * (6 + 9));
}

#[test]
fn merged_indices_are_rebased() {
    let mut canvas = SpriteBatcher::new();
    assert_eq!(canvas.draw_rectangle(0, 0, 1, 1, red()), Ok(()));
    assert_eq!(canvas.draw_rectangle(5, 5, 1, 1, red()), Ok(()));
    let (vertices, indices) = triangle(9);
    assert_eq!(canvas.draw_shape(&vertices, &indices, RenderState::solid()), Ok(()));
    let batch = canvas.batch(0).unwrap();
    assert_eq!(batch.indices, vec![0, 1, 2, 0, 2, 3, 4, 5, 6, 4, 6, 7, 8, 9, 10]);
    assert_eq!(batch.vertices.len(), 11);
    assert_eq!(batch.vertices[8], vertex(9, 0));
}

#[test]
fn two_textures_a_b_a_make_three_batches() {
    let mut canvas = SpriteBatcher::new();
    let (vertices, indices) = triangle(0);
    assert_eq!(canvas.draw_shape(&vertices, &indices, texture(1)), Ok(()));
    assert_eq!(canvas.draw_shape(&vertices, &indices, texture(2)), Ok(()));
    assert_eq!(canvas.draw_shape(&vertices, &indices, texture(1)), Ok(()));
    assert_eq!(canvas.batch_count(), 3);
    assert_eq!(canvas.batch(0).unwrap().state, texture(1));
    assert_eq!(canvas.batch(1).unwrap().state, texture(2));
    assert_eq!(canvas.batch(2).unwrap().state, texture(1));
    assert_eq!(canvas.batch(2).unwrap().indices, vec![0, 1, 2]);
    assert!(canvas.batch(3).is_none());
}

#[test]
fn blend_mode_is_part_of_the_key() {
    let mut canvas = SpriteBatcher::new();
    let (vertices, indices) = triangle(0);
    let alpha = RenderState { texture: None, blend: BlendMode::Alpha };
    let additive = RenderState { texture: None, blend: BlendMode::Additive };
    assert_eq!(canvas.draw_shape(&vertices, &indices, alpha), Ok(()));
    assert_eq!(canvas.draw_shape(&vertices, &indices, additive), Ok(()));
    assert_eq!(canvas.draw_shape(&vertices, &indices, additive), Ok(()));
    assert_eq!(canvas.batch_count(), 2);
    assert_eq!(canvas.batch(1).unwrap().vertices.len(), 6);
}

#[test]
fn atlas_and_registry_textures_differ() {
    assert!(!TextureId::Texture(3).same(&TextureId::Atlas(3)));
    assert!(TextureId::Atlas(3).same(&TextureId::Atlas(3)));
    assert!(!texture(3).same(&RenderState::textured(TextureId::Atlas(3))));
    assert!(RenderState::solid().same(&RenderState::solid()));
    assert!(!BlendMode::Opaque.same(&BlendMode::Alpha));
}

#[test]
fn index_without_vertex_is_refused() {
    let mut canvas = SpriteBatcher::new();
    assert_eq!(canvas.draw_rectangle(0, 0, 1, 1, red()), Ok(()));
    let (vertices, _) = triangle(0);
    assert_eq!(
        canvas.draw_shape(&vertices, &vec![0, 1, 3], RenderState::solid()),
        Err(Error::UnsupportedFormatError)
    );
    assert_eq!(canvas.batch_count(), 1);
    assert_eq!(canvas.batch(0).unwrap().vertices.len(), 4);
    assert_eq!(canvas.batch(0).unwrap().indices.len(), 6);
    assert!(check_indices(&vec![0, 1, 2], 3));
    assert!(!check_indices(&vec![0, 1, 2], 2));
    assert!(check_indices(&vec![], 0));
}

#[test]
fn empty_shape_opens_a_batch() {
    let mut builder = BatchBuilder::new();
    assert_eq!(builder.draw_shape(&vec![], &vec![], texture(7)), Ok(()));
    assert_eq!(builder.len(), 1);
    assert_eq!(builder.batch(0).unwrap().vertices.len(), 0);
    builder.clear();
    assert_eq!(builder.len(), 0);
    assert!(builder.batch(0).is_none());
}

#[test]
fn circle_is_a_closed_fan() {
    let mut canvas = SpriteBatcher::new();
    let rim = vec![
        Point { x: 10, y: 0 },
        Point { x: 0, y: 10 },
        Point { x: -10, y: 0 },
        Point { x: 0, y: -10 },
    ];
    let color = Color::new(1, 2, 3, 4);
    assert_eq!(canvas.draw_circle(Point { x: 0, y: 0 }, &rim, color), Ok(()));
    let batch = canvas.batch(0).unwrap();
    assert_eq!(batch.vertices.len(), 5);
    assert_eq!(batch.vertices[0].x, 0);
    assert_eq!(batch.vertices[3].x, -10);
    assert_eq!(batch.vertices[4].y, -10);
    assert_eq!(batch.vertices[4].color, color);
    assert_eq!(batch.indices, vec![0, 1, 2, 0, 2, 3, 0, 3, 4, 0, 4, 1]);
}

#[test]
fn circle_without_rim_is_its_centre() {
    let mut canvas = SpriteBatcher::new();
    assert_eq!(canvas.draw_circle(Point { x: 3, y: 4 }, &vec![], red()), Ok(()));
    let batch = canvas.batch(0).unwrap();
    assert_eq!(batch.vertices.len(), 1);
    assert_eq!(batch.indices.len(), 0);
}

#[test]
fn batch_limit_is_the_index_range() {
    assert_eq!(MAX_BATCH_VERTICES as u64, u32::MAX as u64);
}
