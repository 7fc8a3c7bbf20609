//! Fonts and the store of their glyph atlases.
//!
//! Each font of a session has one atlas texture. A glyph is rasterized and
//! uploaded the first time it is asked for; from then on the store answers
//! from its cache, with the rectangle it answered first.

use vstd::prelude::*;

use crate::batch::TextureId;
use crate::error::Error;
use crate::gpu::{CommandView, GpuCommand, GpuContextHandle};
use crate::math::Rect;
use crate::text::atlas::{
    glyph_key, lemma_insert_ok, Atlas, AtlasView, GlyphInfo, GlyphKey, GlyphMetrics,
};

pub mod atlas;

verus! {

/// The side of a new atlas texture.
pub const ATLAS_SIZE: u32 = 512;

/// The largest side an atlas texture may grow to.
pub const ATLAS_MAX_SIZE: u32 = 4096;

/// A font of a session, by its number in the store.
#[derive(Clone, Copy, Debug, PartialEq, Eq)]
pub struct Font {
    pub id: u32,
}

/// What the rasterizer made of a glyph: its metrics and its bitmap, one
/// byte of coverage for each texel, row by row.
#[derive(Debug)]
pub struct RasterizedGlyph {
    pub metrics: GlyphMetrics,
    pub pixels: Vec<u8>,
}

/// The bitmap has one byte for each texel of the glyph.
pub open spec fn bitmap_ok(metrics: GlyphMetrics, pixels: Seq<u8>) -> bool {
    pixels.len() == metrics.width * metrics.height
}

/// The atlas of a font, where the store knows the font.
pub open spec fn atlas_of(store: Seq<AtlasView>, font: Font) -> Option<AtlasView> {
    if font.id < store.len() {
        Some(store[font.id as int])
    } else {
        None
    }
}

/// The glyph that the store has cached for a font, character and size.
pub open spec fn cached(store: Seq<AtlasView>, font: Font, key: GlyphKey) -> Option<GlyphInfo> {
    match atlas_of(store, font) {
        Some(atlas) => atlas.glyph(key),
        None => None,
    }
}

/// The store knows the font and has no glyph cached for the key.
pub open spec fn misses(store: Seq<AtlasView>, font: Font, key: GlyphKey) -> bool {
    atlas_of(store, font) is Some && cached(store, font, key) is None
}

/// There is a rasterized glyph, its bitmap has one byte for each texel, and
/// the atlas has room for it.
pub open spec fn placeable(atlas: AtlasView, glyph: Option<RasterizedGlyph>) -> bool {
    &&& glyph is Some
    &&& bitmap_ok(glyph->0.metrics, glyph->0.pixels@)
    &&& atlas.has_room(glyph->0.metrics.width, glyph->0.metrics.height)
}

/// Every atlas of the store is sound.
pub open spec fn store_ok(store: Seq<AtlasView>) -> bool {
    forall|i: int| 0 <= i < store.len() ==> (#[trigger] store[i]).ok()
}

/// The commands that bring a new glyph into its atlas texture: a resize
/// when the atlas grew, then the bitmap.
pub open spec fn upload_commands(
    before: AtlasView,
    after: AtlasView,
    font: Font,
    region: Rect,
    pixels: Seq<u8>,
) -> Seq<CommandView> {
    let texture = TextureId::Atlas(font.id);
    let upload = CommandView::UpdateTexture { texture, region, pixels };
    if before.width != after.width || before.height != after.height {
        seq![
            CommandView::ResizeTexture { texture, width: after.width, height: after.height },
            upload,
        ]
    } else {
        seq![upload]
    }
}

/// The glyph atlases of the fonts of one session.
pub struct FontsStorage {
    atlases: Vec<Atlas>,
}

impl View for FontsStorage {
    type V = Seq<AtlasView>;

    closed spec fn view(&self) -> Seq<AtlasView> {
        Seq::new(self.atlases@.len(), |i: int| self.atlases@[i]@)
    }
}

impl FontsStorage {
    #[verifier::type_invariant]
    spec fn inv(self) -> bool {
        store_ok(self@)
    }

    /// A store without fonts.
    pub fn new() -> (store: FontsStorage)
        ensures
            store@ == Seq::<AtlasView>::empty(),
    {
        let store = FontsStorage { atlases: Vec::new() };
        assert(store@ =~= Seq::<AtlasView>::empty());
        store
    }

    /// The number of fonts.
    pub fn font_count(&self) -> (n: usize)
        ensures
            n == self@.len(),
            store_ok(self@),
    {
        proof {
            use_type_invariant(self);
        }
        self.atlases.len()
    }

    /// Adds a font, with an empty atlas of side `size` that may grow to
    /// side `max_size`, and records the creation of the atlas texture.
    ///
    /// Fails with `GpuContextUnavailable` on a context that is gone, with
    /// `UnsupportedFormatError` when `size` is zero or beyond `max_size`,
    /// and with `ResourceError` when the fonts can no longer be numbered.
    /// A failed call changes nothing.
    pub fn add_font(&mut self, gpu: &mut GpuContextHandle, size: u32, max_size: u32) -> (r: Result<
        Font,
        Error,
    >)
        ensures
            store_ok(final(self)@),
            final(gpu).available() == old(gpu).available(),
            r is Err ==> final(self)@ == old(self)@ && final(gpu).queue() == old(gpu).queue(),
            !old(gpu).available() ==> r == Err::<Font, Error>(Error::GpuContextUnavailable),
            old(gpu).available() && !(0 < size <= max_size) ==> r == Err::<Font, Error>(
                Error::UnsupportedFormatError,
            ),
            old(gpu).available() && 0 < size <= max_size && old(self)@.len() >= u32::MAX ==> r
                == Err::<Font, Error>(Error::ResourceError),
            old(gpu).available() && 0 < size <= max_size && old(self)@.len() < u32::MAX ==> r
                == Ok::<Font, Error>(Font { id: old(self)@.len() as u32 }) && final(self)@ == old(
                self,
            )@.push(AtlasView::empty(size, max_size)) && final(gpu).queue() == old(gpu).queue().push(
                CommandView::CreateTexture {
                    texture: TextureId::Atlas(old(self)@.len() as u32),
                    width: size,
                    height: size,
                    pixels: Seq::empty(),
                },
            ),
    {
        proof {
            use_type_invariant(&*self);
        }
        if !gpu.is_available() {
            return Err(Error::GpuContextUnavailable);
        }
        let atlas = match Atlas::new(size, max_size) {
            Some(atlas) => atlas,
            None => {
                return Err(Error::UnsupportedFormatError);
            },
        };
        let count = self.atlases.len();
        if count >= u32::MAX as usize {
            return Err(Error::ResourceError);
        }
        let id = count as u32;
        let ghost before = self@;
        let mut taken = FontsStorage::new();
        core::mem::swap(self, &mut taken);
        let FontsStorage { mut atlases } = taken;
        atlases.push(atlas);
        proof {
            let after = Seq::new(atlases@.len(), |i: int| atlases@[i]@);
            assert(after =~= before.push(AtlasView::empty(size, max_size)));
            assert forall|i: int| 0 <= i < after.len() implies (#[trigger] after[i]).ok() by {
                if i < before.len() {
                    assert(after[i] == before[i]);
                }
            }
        }
        *self = FontsStorage { atlases };
        let _ = gpu.submit(
            GpuCommand::CreateTexture {
                texture: TextureId::Atlas(id),
                width: size,
                height: size,
                pixels: Vec::new(),
            },
        );
        Ok(Font { id })
    }

    /// The extent of a font's atlas texture, as width and height.
    pub fn atlas_size(&self, font: Font) -> (size: Option<(u32, u32)>)
        ensures
            size == match atlas_of(self@, font) {
                Some(atlas) => Some((atlas.width, atlas.height)),
                None => None,
            },
            atlas_of(self@, font) is Some ==> atlas_of(self@, font)->0.ok(),
    {
        let id = font.id as usize;
        if id >= self.atlases.len() {
            return None;
        }
        let width = self.atlases[id].width();
        let height = self.atlases[id].height();
        Some((width, height))
    }

    /// The cached glyph of a font for a character at a size. Nothing is
    /// changed and the GPU is not needed.
    pub fn lookup(&self, font: Font, character: char, size: u16) -> (found: Option<GlyphInfo>)
        ensures
            found == cached(self@, font, glyph_key(character, size)),
            atlas_of(self@, font) is Some ==> atlas_of(self@, font)->0.ok(),
    {
        let id = font.id as usize;
        if id >= self.atlases.len() {
            return None;
        }
        self.atlases[id].get(GlyphKey { character, size })
    }

    /// The rectangle of a glyph in its font's atlas, placing and uploading
    /// the glyph when the store does not hold it yet.
    ///
    /// `glyph` is what the rasterizer yields for the font, character and
    /// size, or `None` where it yields nothing. It is looked at only when
    /// the glyph is not cached. A cached glyph is answered with the
    /// rectangle it has, and neither the store nor the GPU is touched.
    /// Otherwise the glyph is placed, its atlas grown if need be, the
    /// upload recorded, and the new rectangle returned.
    ///
    /// Fails with `ResourceError` when the font is unknown, and for a glyph
    /// that is not cached when there is no rasterized glyph, when its
    /// bitmap does not have one byte for each texel, or when the atlas has
    /// no room for it under its limit; with `GpuContextUnavailable` when
    /// the glyph is not cached and the context is gone. A failed call
    /// changes nothing.
    pub fn get_or_rasterize(
        &mut self,
        gpu: &mut GpuContextHandle,
        font: Font,
        character: char,
        size: u16,
        glyph: Option<RasterizedGlyph>,
    ) -> (r: Result<Rect, Error>)
        ensures
            store_ok(old(self)@),
            store_ok(final(self)@),
            final(gpu).available() == old(gpu).available(),
            final(self)@.len() == old(self)@.len(),
            forall|i: int| 0 <= i < old(self)@.len() && i != font.id ==> final(self)@[i] == old(self)@[i],
            r is Err ==> final(self)@ == old(self)@ && final(gpu).queue() == old(gpu).queue(),
            atlas_of(old(self)@, font) is None ==> r == Err::<Rect, Error>(Error::ResourceError),
            cached(old(self)@, font, glyph_key(character, size)) matches Some(info) ==> r == Ok::<
                Rect,
                Error,
            >(info.rect) && final(self)@ == old(self)@ && final(gpu).queue() == old(gpu).queue(),
            misses(old(self)@, font, glyph_key(character, size)) && !old(gpu).available() ==> r
                == Err::<Rect, Error>(Error::GpuContextUnavailable),
            misses(old(self)@, font, glyph_key(character, size)) && old(gpu).available()
                && !placeable(old(self)@[font.id as int], glyph) ==> r == Err::<Rect, Error>(
                Error::ResourceError,
            ),
            misses(old(self)@, font, glyph_key(character, size)) && old(gpu).available()
                && placeable(old(self)@[font.id as int], glyph) ==> {
                let key = glyph_key(character, size);
                let atlas = old(self)@[font.id as int];
                let metrics = glyph->0.metrics;
                let region = atlas.entry(metrics).rect;
                &&& r == Ok::<Rect, Error>(region)
                &&& final(self)@ == old(self)@.update(font.id as int, atlas.insert(key, metrics))
                &&& final(gpu).queue() == old(gpu).queue() + upload_commands(
                    atlas,
                    atlas.insert(key, metrics),
                    font,
                    region,
                    glyph->0.pixels@,
                )
            },
    {
        proof {
            use_type_invariant(&*self);
        }
        let id = font.id as usize;
        if id >= self.atlases.len() {
            return Err(Error::ResourceError);
        }
        let key = GlyphKey { character, size };
        match self.atlases[id].get(key) {
            Some(info) => {
                return Ok(info.rect);
            },
            None => {},
        }
        if !gpu.is_available() {
            return Err(Error::GpuContextUnavailable);
        }
        let glyph = match glyph {
            Some(glyph) => glyph,
            None => {
                return Err(Error::ResourceError);
            },
        };
        let RasterizedGlyph { metrics, pixels } = glyph;
        assert(metrics.width * metrics.height <= 0xffff_ffff * 0xffff_ffff) by (nonlinear_arith)
            requires
                metrics.width <= 0xffff_ffff,
                metrics.height <= 0xffff_ffff,
        ;
        if pixels.len() as u64 != metrics.width as u64 * metrics.height as u64 {
            return Err(Error::ResourceError);
        }
        let old_width = self.atlases[id].width();
        let old_height = self.atlases[id].height();
        let ghost store = self@;
        let ghost before = self@[id as int];
        let mut taken = FontsStorage::new();
        core::mem::swap(self, &mut taken);
        let FontsStorage { mut atlases } = taken;
        let placed = atlases[id].place(key, metrics);
        let width = atlases[id].width();
        let height = atlases[id].height();
        proof {
            let after = Seq::new(atlases@.len(), |i: int| atlases@[i]@);
            assert(after =~= store.update(id as int, atlases@[id as int]@));
            assert forall|i: int| 0 <= i < after.len() implies (#[trigger] after[i]).ok() by {
                if i != id {
                    assert(after[i] == store[i]);
                }
            }
        }
        *self = FontsStorage { atlases };
        let info = match placed {
            Some(info) => info,
            None => {
                assert(self@ =~= old(self)@);
                return Err(Error::ResourceError);
            },
        };
        let texture = TextureId::Atlas(font.id);
        if width != old_width || height != old_height {
            let _ = gpu.submit(GpuCommand::ResizeTexture { texture, width, height });
        }
        let _ = gpu.submit(GpuCommand::UpdateTexture { texture, region: info.rect, pixels });
        proof {
            assert(self@ =~= old(self)@.update(font.id as int, before.insert(key, metrics)));
            assert(gpu.queue() =~= old(gpu).queue() + upload_commands(
                before,
                before.insert(key, metrics),
                font,
                info.rect,
                pixels@,
            ));
        }
        Ok(info.rect)
    }
}

/// A glyph that has been placed is cached: the store then answers a
/// request for it with the rectangle it was placed at, and every atlas is
/// still sound.
pub proof fn lemma_placed_glyph_is_cached(
    store: Seq<AtlasView>,
    font: Font,
    key: GlyphKey,
    metrics: GlyphMetrics,
)
    requires
        store_ok(store),
        misses(store, font, key),
        store[font.id as int].has_room(metrics.width, metrics.height),
    ensures
        ({
            let atlas = store[font.id as int];
            let after = store.update(font.id as int, atlas.insert(key, metrics));
            &&& cached(after, font, key) == Some(atlas.entry(metrics))
            &&& store_ok(after)
        }),
{
    let atlas = store[font.id as int];
    let after = store.update(font.id as int, atlas.insert(key, metrics));
    lemma_insert_ok(atlas, key, metrics);
    assert forall|i: int| 0 <= i < after.len() implies (#[trigger] after[i]).ok() by {
        if i != font.id {
            assert(after[i] == store[i]);
        }
    }
}

/// A cached glyph stays where it is: placing another glyph, in the same
/// atlas or in that of another font, changes neither the answer to a
/// request for it nor its rectangle.
pub proof fn lemma_cached_glyph_stays(
    store: Seq<AtlasView>,
    font: Font,
    key: GlyphKey,
    other_font: Font,
    other_key: GlyphKey,
    metrics: GlyphMetrics,
)
    requires
        store_ok(store),
        cached(store, font, key) is Some,
        misses(store, other_font, other_key),
        store[other_font.id as int].has_room(metrics.width, metrics.height),
    ensures
        cached(
            store.update(
                other_font.id as int,
                store[other_font.id as int].insert(other_key, metrics),
            ),
            font,
            key,
        ) == cached(store, font, key),
{
    lemma_insert_ok(store[other_font.id as int], other_key, metrics);
}

} // verus!
