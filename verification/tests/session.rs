use quad_gl::batch::TextureId;
use quad_gl::camera::Camera;
use quad_gl::check_sfnt;
use quad_gl::gpu::{GpuCommand, GpuContextHandle};
use quad_gl::models::Model;
use quad_gl::scene::{ModelRef, Scene};
use quad_gl::text::{Font, ATLAS_SIZE};
use quad_gl::{Context3, Error, MAX_TEXTURE_SIZE};

fn font_file(tag: [u8; 4], tables: u16, length: usize) -> Vec<u8> {
    let mut bytes = vec![0u8; length];
    for (i, b) in tag.iter().enumerate() {
        if i < length {
            bytes[i] = *b;
        }
    }
    if length >= 6 {
        bytes[4] = (tables >> 8) as u8;
        bytes[5] = (tables & 0xff) as u8;
    }
    bytes
}

const TRUETYPE: [u8; 4] = [0, 1, 0, 0];

#[test]
fn font_framing() {
    assert!(check_sfnt(&font_file(TRUETYPE, 1, 28)));
    assert!(check_sfnt(&font_file(*b"OTTO", 1, 28)));
    assert!(check_sfnt(&font_file(*b"true", 2, 44)));
    assert!(check_sfnt(&font_file(TRUETYPE, 257, 12 + 16 * 257)));
    assert!(!check_sfnt(&font_file(TRUETYPE, 257, 12 + 16 * 257 - 1)));
    assert!(!check_sfnt(&font_file(TRUETYPE, 1, 27)));
    assert!(!check_sfnt(&font_file(TRUETYPE, 0, 28)));
    assert!(!check_sfnt(&font_file(*b"ttcf", 1, 28)));
    assert!(!check_sfnt(&font_file([0, 1, 0, 1], 1, 28)));
    assert!(!check_sfnt(&font_file(TRUETYPE, 1, 11)));
    assert!(!check_sfnt(&[]));
}

#[test]
fn session_starts_empty() {
    let ctx = Context3::new(GpuContextHandle::new());
    assert!(ctx.quad_ctx.is_available());
    assert_eq!(ctx.quad_ctx.pending(), 0);
    assert_eq!(ctx.textures.len(), 0);
    assert_eq!(ctx.fonts_storage.font_count(), 0);
    assert_eq!(ctx.new_canvas().batch_count(), 0);
    assert_eq!(ctx.new_scene().len(), 0);
    assert_eq!(MAX_TEXTURE_SIZE, 16384);
}

#[test]
fn loading_a_font_adds_an_atlas() {
    let mut ctx = Context3::new(GpuContextHandle::new());
    assert_eq!(ctx.load_ttf_font_from_bytes(&font_file(TRUETYPE, 1, 28)), Ok(Font { id: 0 }));
    assert_eq!(ctx.load_ttf_font_from_bytes(&font_file(*b"OTTO", 1, 28)), Ok(Font { id: 1 }));
    assert_eq!(ctx.fonts_storage.atlas_size(Font { id: 1 }), Some((ATLAS_SIZE, ATLAS_SIZE)));
    let commands = ctx.quad_ctx.take_commands();
    assert_eq!(commands.len(), 2);
    assert!(matches!(
        &commands[0],
        GpuCommand::CreateTexture { texture: TextureId::Atlas(0), width: 512, height: 512, .. }
    ));
}

#[test]
fn malformed_font_is_a_decode_error() {
    let mut ctx = Context3::new(GpuContextHandle::new());
    assert_eq!(ctx.load_ttf_font_from_bytes(b"not a font"), Err(Error::DecodeError));
    assert_eq!(ctx.load_ttf_font_from_bytes(&[]), Err(Error::DecodeError));
    assert_eq!(ctx.fonts_storage.font_count(), 0);
    assert_eq!(ctx.quad_ctx.pending(), 0);
    ctx.quad_ctx.tear_down();
    assert_eq!(ctx.load_ttf_font_from_bytes(b"not a font"), Err(Error::DecodeError));
    assert_eq!(
        ctx.load_ttf_font_from_bytes(&font_file(TRUETYPE, 1, 28)),
        Err(Error::GpuContextUnavailable)
    );
    assert_eq!(ctx.fonts_storage.font_count(), 0);
}

#[test]
fn session_textures_respect_the_size_limit() {
    let mut ctx = Context3::new(GpuContextHandle::new());
    let handle = ctx.textures.register(&mut ctx.quad_ctx, vec![0; 16], 2, 2).unwrap();
    assert_eq!(ctx.textures.size(&handle), Some((2, 2)));
    assert!(matches!(
        ctx.textures.register(&mut ctx.quad_ctx, vec![], MAX_TEXTURE_SIZE + 1, 1),
        Err(Error::UnsupportedFormatError)
    ));
}

fn camera(seed: u32) -> Camera {
    let mut view_projection = [0u32; 16];
    for (i, entry) in view_projection.iter_mut().enumerate() {
        *entry = (1.0f32 + seed as f32 + i as f32).to_bits();
    }
    Camera { view_projection }
}

#[test]
fn scene_draws_models_in_registration_order() {
    let mut scene = Scene::new();
    assert_eq!(scene.add_model(&Model { id: 30 }), ModelRef { index: 0 });
    assert_eq!(scene.add_model(&Model { id: 10 }), ModelRef { index: 1 });
    assert_eq!(scene.add_model(&Model { id: 20 }), ModelRef { index: 2 });
    assert_eq!(scene.len(), 3);
    assert_eq!(scene.model(ModelRef { index: 1 }), Some(Model { id: 10 }));
    assert_eq!(scene.model(ModelRef { index: 3 }), None);
    let mut gpu = GpuContextHandle::new();
    let eye = camera(4);
    assert_eq!(scene.draw(&mut gpu, &eye), Ok(()));
    let commands = gpu.take_commands();
    assert_eq!(commands.len(), 3);
    let mut ids = Vec::new();
    for command in &commands {
        match command {
            GpuCommand::DrawModel { model, camera } => {
                assert_eq!(*camera, eye);
                ids.push(*model);
            }
            other => panic!("{:?}", other),
        }
    }
    assert_eq!(ids, vec![30, 10, 20]);
    assert_eq!(scene.len(), 3);
}

#[test]
fn scene_and_canvas_share_the_queue_in_call_order() {
    let mut ctx = Context3::new(GpuContextHandle::new());
    let mut scene = ctx.new_scene();
    let mut canvas = ctx.new_canvas();
    let _ = scene.add_model(&Model { id: 1 });
    assert_eq!(canvas.draw_rectangle(0, 0, 1, 1, quad_gl::color::white()), Ok(()));
    assert_eq!(scene.draw(&mut ctx.quad_ctx, &camera(0)), Ok(()));
    assert_eq!(canvas.draw(&mut ctx.quad_ctx), Ok(()));
    let commands = ctx.quad_ctx.take_commands();
    assert_eq!(commands.len(), 4);
    assert!(matches!(&commands[0], GpuCommand::DrawModel { model: 1, .. }));
    assert!(matches!(&commands[3], GpuCommand::SubmitDraw { index_count: 6 }));
}

#[test]
fn empty_scene_and_gone_context() {
    let scene = Scene::new();
    let mut gpu = GpuContextHandle::new();
    assert_eq!(scene.draw(&mut gpu, &camera(1)), Ok(()));
    assert_eq!(gpu.pending(), 0);
    gpu.tear_down();
    assert_eq!(scene.draw(&mut gpu, &camera(1)), Err(Error::GpuContextUnavailable));
}
