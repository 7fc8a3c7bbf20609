use quad_gl::batch::{RenderState, TextureId};
use quad_gl::color::white;
use quad_gl::gpu::{GpuCommand, GpuContextHandle};
use quad_gl::math::TexCoord;
use quad_gl::sprite_batcher::SpriteBatcher;
use quad_gl::texture::{TexturesContext, MAX_TEXTURES};
use quad_gl::Error;

fn pixels(width: u32, height: u32) -> Vec<u8> {
    vec![128; (4 * width * height) as usize]
}

#[test]
fn register_records_the_upload() {
    let mut textures = TexturesContext::new(64);
    let mut gpu = GpuContextHandle::new();
    let handle = textures.register(&mut gpu, pixels(4, 2), 4, 2).unwrap();
    assert_eq!(textures.len(), 1);
    assert_eq!(textures.size(&handle), Some((4, 2)));
    assert_eq!(textures.ref_count(&handle), Some(0));
    let commands = gpu.take_commands();
    assert_eq!(commands.len(), 1);
    match &commands[0] {
        GpuCommand::CreateTexture { texture, width, height, pixels } => {
            assert_eq!(*texture, TextureId::Texture(handle.id()));
            assert_eq!((*width, *height), (4, 2));
            assert_eq!(pixels.len(), 32);
        }
        other => panic!("{:?}", other),
    }
}

#[test]
fn handles_of_live_textures_differ() {
    let mut textures = TexturesContext::new(64);
    let mut gpu = GpuContextHandle::new();
    let a = textures.register(&mut gpu, pixels(1, 1), 1, 1).unwrap();
    let b = textures.register(&mut gpu, pixels(2, 2), 2, 2).unwrap();
    assert_ne!(a.id(), b.id());
    assert_eq!(textures.size(&a), Some((1, 1)));
    assert_eq!(textures.size(&b), Some((2, 2)));
    assert_eq!(textures.len(), 2);
}

#[test]
fn unsupported_formats_are_refused() {
    let mut textures = TexturesContext::new(64);
    let mut gpu = GpuContextHandle::new();
    assert!(matches!(textures.register(&mut gpu, pixels(0, 1), 0, 1), Err(Error::UnsupportedFormatError)));
    assert!(matches!(textures.register(&mut gpu, pixels(1, 0), 1, 0), Err(Error::UnsupportedFormatError)));
    assert!(matches!(textures.register(&mut gpu, pixels(65, 1), 65, 1), Err(Error::UnsupportedFormatError)));
    assert!(matches!(textures.register(&mut gpu, pixels(1, 65), 1, 65), Err(Error::UnsupportedFormatError)));
    assert!(matches!(textures.register(&mut gpu, vec![0; 15], 2, 2), Err(Error::UnsupportedFormatError)));
    assert!(matches!(textures.register(&mut gpu, vec![0; 17], 2, 2), Err(Error::UnsupportedFormatError)));
    assert_eq!(textures.len(), 0);
    assert_eq!(gpu.pending(), 0);
    assert!(textures.register(&mut gpu, pixels(64, 64), 64, 64).is_ok());
    gpu.tear_down();
    assert!(matches!(textures.register(&mut gpu, pixels(1, 1), 1, 1), Err(Error::GpuContextUnavailable)));
    assert!(matches!(textures.register(&mut gpu, vec![], 1, 1), Err(Error::UnsupportedFormatError)));
    assert_eq!(textures.len(), 1);
    assert_eq!(MAX_TEXTURES as u64, (1u64 << 32) - 3);
}

#[test]
fn texture_is_freed_with_the_last_release() {
    for n in 1..=5u32 {
        let mut textures = TexturesContext::new(64);
        let mut gpu = GpuContextHandle::new();
        let handle = textures.register(&mut gpu, pixels(1, 1), 1, 1).unwrap();
        let _ = gpu.take_commands();
        for i in 1..=n {
            assert_eq!(textures.retain(&handle), Ok(i));
        }
        for i in 1..n {
            assert_eq!(textures.release(&mut gpu, &handle), Ok(false));
            assert_eq!(textures.ref_count(&handle), Some(n - i));
            assert_eq!(gpu.pending(), 0);
        }
        assert_eq!(textures.release(&mut gpu, &handle), Ok(true));
        assert_eq!(textures.ref_count(&handle), None);
        assert_eq!(textures.len(), 0);
        let commands = gpu.take_commands();
        assert_eq!(commands.len(), 1);
        assert!(matches!(
            &commands[0],
            GpuCommand::DeleteTexture { texture } if *texture == TextureId::Texture(handle.id())
        ));
        assert_eq!(textures.release(&mut gpu, &handle), Err(Error::ResourceError));
        assert_eq!(textures.retain(&handle), Err(Error::ResourceError));
        assert_eq!(gpu.pending(), 0);
    }
}

#[test]
fn release_without_reference_is_refused() {
    let mut textures = TexturesContext::new(64);
    let mut gpu = GpuContextHandle::new();
    let handle = textures.register(&mut gpu, pixels(1, 1), 1, 1).unwrap();
    assert_eq!(textures.release(&mut gpu, &handle), Err(Error::ResourceError));
    assert_eq!(textures.ref_count(&handle), Some(0));
    assert_eq!(textures.len(), 1);
    assert_eq!(gpu.pending(), 1);
}

#[test]
fn last_release_needs_the_context() {
    let mut textures = TexturesContext::new(64);
    let mut gpu = GpuContextHandle::new();
    let handle = textures.register(&mut gpu, pixels(1, 1), 1, 1).unwrap();
    assert_eq!(textures.retain(&handle), Ok(1));
    assert_eq!(textures.retain(&handle), Ok(2));
    gpu.tear_down();
    assert_eq!(textures.release(&mut gpu, &handle), Ok(false));
    assert_eq!(textures.release(&mut gpu, &handle), Err(Error::GpuContextUnavailable));
    assert_eq!(textures.ref_count(&handle), Some(1));
    assert_eq!(gpu.pending(), 1);
}

#[test]
fn freed_handle_does_not_name_the_next_texture() {
    let mut textures = TexturesContext::new(64);
    let mut gpu = GpuContextHandle::new();
    let old = textures.register(&mut gpu, pixels(1, 1), 1, 1).unwrap();
    assert_eq!(textures.retain(&old), Ok(1));
    assert_eq!(textures.release(&mut gpu, &old), Ok(true));
    let new = textures.register(&mut gpu, pixels(3, 3), 3, 3).unwrap();
    assert_ne!(old.id(), new.id());
    assert_eq!(textures.size(&old), None);
    assert_eq!(textures.ref_count(&old), None);
    assert_eq!(textures.size(&new), Some((3, 3)));
    assert_eq!(textures.retain(&old), Err(Error::ResourceError));
    assert_eq!(textures.ref_count(&new), Some(0));
}

#[test]
fn references_are_counted_per_texture() {
    let mut textures = TexturesContext::new(64);
    let mut gpu = GpuContextHandle::new();
    let a = textures.register(&mut gpu, pixels(1, 1), 1, 1).unwrap();
    let b = textures.register(&mut gpu, pixels(1, 1), 1, 1).unwrap();
    assert_eq!(textures.retain(&a), Ok(1));
    assert_eq!(textures.retain(&a), Ok(2));
    assert_eq!(textures.retain(&b), Ok(1));
    assert_eq!(textures.release(&mut gpu, &a), Ok(false));
    assert_eq!(textures.ref_count(&a), Some(1));
    assert_eq!(textures.ref_count(&b), Some(1));
    assert_eq!(textures.release(&mut gpu, &b), Ok(true));
    assert_eq!(textures.ref_count(&a), Some(1));
    assert_eq!(textures.len(), 1);
}

#[test]
fn sprites_of_one_texture_share_a_batch() {
    let mut textures = TexturesContext::new(64);
    let mut gpu = GpuContextHandle::new();
    let a = textures.register(&mut gpu, pixels(8, 4), 8, 4).unwrap();
    let b = textures.register(&mut gpu, pixels(2, 2), 2, 2).unwrap();
    let mut canvas = SpriteBatcher::new();
    assert_eq!(canvas.draw_texture(&textures, &a, 10, 20, white()), Ok(()));
    assert_eq!(canvas.draw_texture(&textures, &a, -8, 0, white()), Ok(()));
    assert_eq!(canvas.draw_texture(&textures, &b, 0, 0, white()), Ok(()));
    assert_eq!(canvas.draw_texture(&textures, &a, 0, 0, white()), Ok(()));
    assert_eq!(canvas.batch_count(), 3);
    let first = canvas.batch(0).unwrap();
    assert_eq!(first.state, RenderState::textured(TextureId::Texture(a.id())));
    assert_eq!(first.vertices.len(), 8);
    assert_eq!((first.vertices[2].x, first.vertices[2].y), (18, 24));
    assert_eq!(first.vertices[2].u, TexCoord { num: 1, den: 1 });
    assert_eq!((first.vertices[4].x, first.vertices[5].x), (-8, 0));
    assert_eq!(canvas.batch(1).unwrap().state, RenderState::textured(TextureId::Texture(b.id())));
}

#[test]
fn sprite_of_a_freed_texture_is_a_resource_error() {
    let mut textures = TexturesContext::new(64);
    let mut gpu = GpuContextHandle::new();
    let handle = textures.register(&mut gpu, pixels(1, 1), 1, 1).unwrap();
    assert_eq!(textures.retain(&handle), Ok(1));
    assert_eq!(textures.release(&mut gpu, &handle), Ok(true));
    let mut canvas = SpriteBatcher::new();
    assert_eq!(canvas.draw_texture(&textures, &handle, 0, 0, white()), Err(Error::ResourceError));
    assert_eq!(canvas.batch_count(), 0);
}
