use quad_gl::batch::{RenderState, TextureId, Vertex};
use quad_gl::color::{blue, red};
use quad_gl::gpu::{GpuCommand, GpuContextHandle};
use quad_gl::math::TexCoord;
use quad_gl::sprite_batcher::SpriteBatcher;
use quad_gl::Error;

fn draw_counts(commands: &Vec<GpuCommand>) -> Vec<usize> {
    let mut counts = Vec::new();
    for command in commands {
        if let GpuCommand::SubmitDraw { index_count } = command {
            counts.push(*index_count);
        }
    }
    counts
}

fn first_xs(commands: &Vec<GpuCommand>) -> Vec<i64> {
    let mut xs = Vec::new();
    for command in commands {
        if let GpuCommand::UpdateBuffers { vertices, .. } = command {
            xs.push(vertices[0].x);
        }
    }
    xs
}

fn shape(x: i64) -> (Vec<Vertex>, Vec<u32>) {
    let zero = TexCoord::zero();
    let v = |dx: i64| Vertex { x: x + dx, y: 0, z: 0, u: zero, v: zero, color: red() };
    (vec![v(0), v(1), v(2)], vec![0, 1, 2])
}

#[test]
fn draw_records_bind_buffers_and_draw_call() {
    let mut canvas = SpriteBatcher::new();
    assert_eq!(canvas.draw_rectangle(0, 0, 100, 100, red()), Ok(()));
    let mut gpu = GpuContextHandle::new();
    assert_eq!(canvas.draw(&mut gpu), Ok(()));
    assert_eq!(gpu.pending(), 3);
    let commands = gpu.take_commands();
    assert_eq!(gpu.pending(), 0);
    assert!(matches!(
        &commands[0],
        GpuCommand::BindState { state } if *state == RenderState::solid()
    ));
    match &commands[1] {
        GpuCommand::UpdateBuffers { vertices, indices } => {
            assert_eq!(vertices.len(), 4);
            assert_eq!(vertices[2].x, 100);
            assert_eq!(indices, &vec![0, 1, 2, 0, 2, 3]);
        }
        other => panic!("{:?}", other),
    }
    assert!(matches!(&commands[2], GpuCommand::SubmitDraw { index_count: 6 }));
}

#[test]
fn every_batch_is_bound_and_submitted_in_order() {
    let mut canvas = SpriteBatcher::new();
    let a = RenderState::textured(TextureId::Texture(1));
    let b = RenderState::textured(TextureId::Texture(2));
    let (v0, i0) = shape(10);
    let (v1, i1) = shape(20);
    let (v2, i2) = shape(30);
    assert_eq!(canvas.draw_shape(&v0, &i0, a), Ok(()));
    assert_eq!(canvas.draw_shape(&v1, &i1, b), Ok(()));
    assert_eq!(canvas.draw_shape(&v2, &i2, a), Ok(()));
    let mut gpu = GpuContextHandle::new();
    assert_eq!(canvas.draw(&mut gpu), Ok(()));
    let commands = gpu.take_commands();
    assert_eq!(commands.len(), 9);
    assert!(matches!(&commands[0], GpuCommand::BindState { state } if *state == a));
    assert!(matches!(&commands[3], GpuCommand::BindState { state } if *state == b));
    assert!(matches!(&commands[6], GpuCommand::BindState { state } if *state == a));
    assert_eq!(first_xs(&commands), vec![10, 20, 30]);
    assert_eq!(draw_counts(&commands), vec![3, 3, 3]);
}

#[test]
fn clear_then_draw_submits_nothing() {
    let mut canvas = SpriteBatcher::new();
    assert_eq!(canvas.draw_rectangle(0, 0, 100, 100, red()), Ok(()));
    canvas.clear();
    assert_eq!(canvas.batch_count(), 0);
    canvas.clear();
    assert_eq!(canvas.batch_count(), 0);
    let mut gpu = GpuContextHandle::new();
    assert_eq!(canvas.draw(&mut gpu), Ok(()));
    assert_eq!(gpu.pending(), 0);
    assert!(gpu.take_commands().is_empty());
}

#[test]
fn cleared_canvas_starts_over() {
    let mut canvas = SpriteBatcher::new();
    assert_eq!(canvas.draw_rectangle(0, 0, 1, 1, red()), Ok(()));
    canvas.clear();
    assert_eq!(canvas.draw_rectangle(7, 0, 1, 1, red()), Ok(()));
    assert_eq!(canvas.batch_count(), 1);
    assert_eq!(canvas.batch(0).unwrap().vertices.len(), 4);
    assert_eq!(canvas.batch(0).unwrap().indices, vec![0, 1, 2, 0, 2, 3]);
}

#[test]
fn drawing_twice_submits_the_same_batches() {
    let mut canvas = SpriteBatcher::new();
    assert_eq!(canvas.draw_rectangle(0, 0, 100, 100, red()), Ok(()));
    let (v, i) = shape(5);
    assert_eq!(canvas.draw_shape(&v, &i, RenderState::textured(TextureId::Atlas(0))), Ok(()));
    let mut gpu = GpuContextHandle::new();
    assert_eq!(canvas.draw(&mut gpu), Ok(()));
    let first = gpu.take_commands();
    assert_eq!(canvas.draw(&mut gpu), Ok(()));
    let second = gpu.take_commands();
    assert_eq!(format!("{:?}", first), format!("{:?}", second));
    assert_eq!(first.len(), 6);
    assert_eq!(canvas.batch_count(), 2);
}

#[test]
fn draw_does_not_clear_and_later_draws_still_merge() {
    let mut canvas = SpriteBatcher::new();
    let mut gpu = GpuContextHandle::new();
    for frame in 1..=3usize {
        assert_eq!(canvas.draw_rectangle(0, 0, 1, 1, red()), Ok(()));
        assert_eq!(canvas.draw(&mut gpu), Ok(()));
        let commands = gpu.take_commands();
        assert_eq!(draw_counts(&commands), vec![6 * frame]);
    }
    assert_eq!(canvas.batch_count(), 1);
}

#[test]
fn canvases_are_submitted_in_draw_order() {
    let mut x = SpriteBatcher::new();
    let mut y = SpriteBatcher::new();
    let mut z = SpriteBatcher::new();
    assert_eq!(z.draw_rectangle(3, 0, 10, 10, blue()), Ok(()));
    assert_eq!(x.draw_rectangle(1, 0, 10, 10, red()), Ok(()));
    assert_eq!(y.draw_rectangle(2, 0, 10, 10, red()), Ok(()));
    let mut gpu = GpuContextHandle::new();
    assert_eq!(x.draw(&mut gpu), Ok(()));
    assert_eq!(y.draw(&mut gpu), Ok(()));
    assert_eq!(z.draw(&mut gpu), Ok(()));
    let commands = gpu.take_commands();
    assert_eq!(first_xs(&commands), vec![1, 2, 3]);
    match commands.last().unwrap() {
        GpuCommand::SubmitDraw { index_count } => assert_eq!(*index_count, 6),
        other => panic!("{:?}", other),
    }
    match &commands[commands.len() - 2] {
        GpuCommand::UpdateBuffers { vertices, .. } => assert_eq!(vertices[0].color, blue()),
        other => panic!("{:?}", other),
    }
}

#[test]
fn torn_down_context_takes_no_draw() {
    let mut canvas = SpriteBatcher::new();
    assert_eq!(canvas.draw_rectangle(0, 0, 100, 100, red()), Ok(()));
    let mut gpu = GpuContextHandle::new();
    assert!(gpu.is_available());
    assert_eq!(canvas.draw(&mut gpu), Ok(()));
    gpu.tear_down();
    assert!(!gpu.is_available());
    assert_eq!(canvas.draw(&mut gpu), Err(Error::GpuContextUnavailable));
    assert_eq!(gpu.pending(), 3);
    assert_eq!(
        gpu.submit(GpuCommand::SubmitDraw { index_count: 0 }),
        Err(Error::GpuContextUnavailable)
    );
    assert_eq!(gpu.pending(), 3);
    assert_eq!(canvas.batch_count(), 1);
}
