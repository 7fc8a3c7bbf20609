//! A batching 2D canvas and 3D scene layer over a recorded GPU command
//! stream.
//!
//! Canvases accumulate geometry into draw batches keyed by render state and
//! flush them, in creation order, into a command queue that the hosting
//! program replays on its graphics backend. Coordinates are integers in
//! caller-chosen fixed-point units, colours are 8-bit RGBA and texture
//! coordinates are exact fractions of the texture's extent, so that nothing
//! is rounded on the way to the queue.

use vstd::prelude::*;

use crate::gpu::{CommandView, GpuContextHandle};
use crate::scene::Scene;
use crate::sprite_batcher::SpriteBatcher;
use crate::text::atlas::AtlasView;
use crate::text::{Font, FontsStorage, ATLAS_MAX_SIZE, ATLAS_SIZE};
use crate::texture::{TextureEntry, TexturesContext};

pub mod batch;
pub mod camera;
pub mod color;
pub mod error;
pub mod gpu;
pub mod math;
pub mod models;
pub mod scene;
pub mod sprite_batcher;
pub mod text;
pub mod texture;

pub use error::Error;

verus! {

/// The largest width and height of a texture that a session registers.
pub const MAX_TEXTURE_SIZE: u32 = 16384;

/// The four bytes at the start of a font file are one of the tags of a
/// single-font container: TrueType outlines, OpenType with CFF outlines,
/// or the TrueType tag of older systems.
pub open spec fn sfnt_tag_ok(bytes: Seq<u8>) -> bool {
    ||| (bytes[0] == 0x00 && bytes[1] == 0x01 && bytes[2] == 0x00 && bytes[3] == 0x00)
    ||| (bytes[0] == 0x4f && bytes[1] == 0x54 && bytes[2] == 0x54 && bytes[3] == 0x4f)
    ||| (bytes[0] == 0x74 && bytes[1] == 0x72 && bytes[2] == 0x75 && bytes[3] == 0x65)
}

/// The number of tables that the header of a font file announces.
pub open spec fn sfnt_table_count(bytes: Seq<u8>) -> int {
    bytes[4] * 256 + bytes[5]
}

/// The bytes are framed as a font file: a header of twelve bytes with a
/// known tag, and behind it a directory of at least one table, sixteen
/// bytes for each, that lies within the file.
pub open spec fn sfnt_framed(bytes: Seq<u8>) -> bool {
    &&& bytes.len() >= 12
    &&& sfnt_tag_ok(bytes)
    &&& sfnt_table_count(bytes) > 0
    &&& 12 + 16 * sfnt_table_count(bytes) <= bytes.len()
}

/// Whether the bytes are framed as a font file.
pub fn check_sfnt(bytes: &[u8]) -> (ok: bool)
    ensures
        ok == sfnt_framed(bytes@),
{
    if bytes.len() < 12 {
        return false;
    }
    let truetype = bytes[0] == 0x00 && bytes[1] == 0x01 && bytes[2] == 0x00 && bytes[3] == 0x00;
    let opentype = bytes[0] == 0x4f && bytes[1] == 0x54 && bytes[2] == 0x54 && bytes[3] == 0x4f;
    let apple = bytes[0] == 0x74 && bytes[1] == 0x72 && bytes[2] == 0x75 && bytes[3] == 0x65;
    if !(truetype || opentype || apple) {
        return false;
    }
    let tables: usize = bytes[4] as usize * 256 + bytes[5] as usize;
    tables > 0 && 12 + 16 * tables <= bytes.len()
}

/// A rendering session: the one GPU context, texture registry and font
/// store that every canvas and scene made from it works with.
///
/// The parts are lent to the operations that need them: a canvas reads the
/// font store to lay out text and writes the GPU context to draw, one
/// borrower at a time.
pub struct Context3 {
    pub quad_ctx: GpuContextHandle,
    pub textures: TexturesContext,
    pub fonts_storage: FontsStorage,
}

impl Context3 {
    /// A session on the given GPU context, with no texture and no font.
    pub fn new(quad_ctx: GpuContextHandle) -> (ctx: Context3)
        ensures
            ctx.quad_ctx == quad_ctx,
            ctx.textures@ == Map::<u64, TextureEntry>::empty(),
            ctx.textures.max_size() == MAX_TEXTURE_SIZE,
            ctx.fonts_storage@ == Seq::<AtlasView>::empty(),
    {
        let fonts_storage = FontsStorage::new();
        let textures = TexturesContext::new(MAX_TEXTURE_SIZE);
        Context3 { quad_ctx, textures, fonts_storage }
    }

    /// A scene without models.
    pub fn new_scene(&self) -> (scene: Scene)
        ensures
            scene@ == Seq::<crate::models::Model>::empty(),
    {
        Scene::new()
    }

    /// An empty canvas.
    pub fn new_canvas(&self) -> (canvas: SpriteBatcher)
        ensures
            canvas@ == Seq::<crate::batch::BatchView>::empty(),
    {
        SpriteBatcher::new()
    }

    /// Adds a font to the session from the bytes of its file, with an empty
    /// glyph atlas of its own, and records the creation of the atlas
    /// texture.
    ///
    /// Fails with `DecodeError` when the bytes are not framed as a font
    /// file; else with `GpuContextUnavailable` on a context that is gone;
    /// else with `ResourceError` when the fonts can no longer be numbered.
    /// A failed call changes nothing.
    pub fn load_ttf_font_from_bytes(&mut self, bytes: &[u8]) -> (r: Result<Font, Error>)
        ensures
            final(self).textures == old(self).textures,
            final(self).quad_ctx.available() == old(self).quad_ctx.available(),
            r is Err ==> final(self).fonts_storage@ == old(self).fonts_storage@,
            r is Err ==> final(self).quad_ctx.queue() == old(self).quad_ctx.queue(),
            !sfnt_framed(bytes@) ==> r == Err::<Font, Error>(Error::DecodeError),
            sfnt_framed(bytes@) && !old(self).quad_ctx.available() ==> r == Err::<Font, Error>(
                Error::GpuContextUnavailable,
            ),
            sfnt_framed(bytes@) && old(self).quad_ctx.available() && old(self).fonts_storage@.len()
                >= u32::MAX ==> r == Err::<Font, Error>(Error::ResourceError),
            sfnt_framed(bytes@) && old(self).quad_ctx.available() && old(self).fonts_storage@.len()
                < u32::MAX ==> {
                let id = old(self).fonts_storage@.len() as u32;
                &&& r == Ok::<Font, Error>(Font { id })
                &&& final(self).fonts_storage@ == old(self).fonts_storage@.push(
                    AtlasView::empty(ATLAS_SIZE, ATLAS_MAX_SIZE),
                )
                &&& final(self).quad_ctx.queue() == old(self).quad_ctx.queue().push(
                    CommandView::CreateTexture {
                        texture: crate::batch::TextureId::Atlas(id),
                        width: ATLAS_SIZE,
                        height: ATLAS_SIZE,
                        pixels: Seq::empty(),
                    },
                )
            },
    {
        if !check_sfnt(bytes) {
            return Err(Error::DecodeError);
        }
        self.fonts_storage.add_font(&mut self.quad_ctx, ATLAS_SIZE, ATLAS_MAX_SIZE)
    }
}

} // verus!
