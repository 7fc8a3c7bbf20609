//! A glyph atlas: one texture into which glyph bitmaps are packed in rows.
//!
//! Glyphs are placed from left to right on the current row; a glyph that
//! does not fit starts a new row below the tallest glyph of the current
//! one. When the texture is too small it is given a larger extent, up to a
//! fixed limit. A rectangle that has been handed out is never moved and
//! never handed out again.

use vstd::prelude::*;

use crate::math::Rect;

verus! {

/// A glyph of one font: a character at a pixel size.
#[derive(Clone, Copy, Debug, PartialEq, Eq)]
pub struct GlyphKey {
    pub character: char,
    pub size: u16,
}

/// The key of a character at a size.
pub open spec fn glyph_key(character: char, size: u16) -> GlyphKey {
    GlyphKey { character, size }
}

/// What the rasterizer measured of a glyph: the extent of its bitmap, where
/// the bitmap lies relative to the pen, and how far the pen moves on.
#[derive(Clone, Copy, Debug, PartialEq, Eq)]
pub struct GlyphMetrics {
    pub width: u32,
    pub height: u32,
    pub offset_x: i32,
    pub offset_y: i32,
    pub advance: u32,
}

/// A glyph in the atlas: where its bitmap lies in the texture, and its
/// placement relative to the pen.
#[derive(Clone, Copy, Debug, PartialEq, Eq)]
pub struct GlyphInfo {
    pub rect: Rect,
    pub offset_x: i32,
    pub offset_y: i32,
    pub advance: u32,
}

/// The state of an atlas: the extent of its texture and the limit on it,
/// the place where the next glyph of the current row goes, the height of
/// that row so far, and the glyphs placed.
pub struct AtlasView {
    pub width: u32,
    pub height: u32,
    pub max_size: u32,
    pub cursor_x: u32,
    pub cursor_y: u32,
    pub row_height: u32,
    pub glyphs: Map<GlyphKey, GlyphInfo>,
}

/// The extent after making room for `need`: unchanged when it suffices,
/// else doubled, but not beyond `max` and not less than `need`.
pub open spec fn grown(extent: int, need: int, max: int) -> int {
    if need <= extent {
        extent
    } else if need <= 2 * extent && 2 * extent <= max {
        2 * extent
    } else if need <= max && max <= 2 * extent {
        max
    } else {
        need
    }
}

impl AtlasView {
    /// An atlas without glyphs.
    pub open spec fn empty(size: u32, max_size: u32) -> AtlasView {
        AtlasView {
            width: size,
            height: size,
            max_size,
            cursor_x: 0,
            cursor_y: 0,
            row_height: 0,
            glyphs: Map::empty(),
        }
    }

    /// The glyph cached for a key, if any.
    pub open spec fn glyph(self, key: GlyphKey) -> Option<GlyphInfo> {
        if self.glyphs.dom().contains(key) {
            Some(self.glyphs[key])
        } else {
            None
        }
    }

    /// The width of the texture once a bitmap `w` wide is to be placed.
    pub open spec fn width_for(self, w: u32) -> int {
        grown(self.width as int, w as int, self.max_size as int)
    }

    /// A bitmap `w` wide has no room left on the current row.
    pub open spec fn wraps(self, w: u32) -> bool {
        self.cursor_x + w > self.width_for(w)
    }

    /// The column where a bitmap `w` wide goes.
    pub open spec fn slot_x(self, w: u32) -> int {
        if self.wraps(w) {
            0
        } else {
            self.cursor_x as int
        }
    }

    /// The row where a bitmap `w` wide goes.
    pub open spec fn slot_y(self, w: u32) -> int {
        if self.wraps(w) {
            self.cursor_y + self.row_height
        } else {
            self.cursor_y as int
        }
    }

    /// The height of the texture once a bitmap of this extent is placed.
    pub open spec fn height_for(self, w: u32, h: u32) -> int {
        grown(self.height as int, self.slot_y(w) + h, self.max_size as int)
    }

    /// A bitmap of this extent can be placed without passing the limit on
    /// the texture's extent.
    pub open spec fn has_room(self, w: u32, h: u32) -> bool {
        w <= self.max_size && self.slot_y(w) + h <= self.max_size
    }

    /// The rectangle that a bitmap of this extent is given.
    pub open spec fn slot(self, w: u32, h: u32) -> Rect {
        Rect { x: self.slot_x(w) as u32, y: self.slot_y(w) as u32, w, h }
    }

    /// The entry that a glyph with these metrics gets.
    pub open spec fn entry(self, m: GlyphMetrics) -> GlyphInfo {
        GlyphInfo {
            rect: self.slot(m.width, m.height),
            offset_x: m.offset_x,
            offset_y: m.offset_y,
            advance: m.advance,
        }
    }

    /// The atlas after a glyph with these metrics has been placed.
    pub open spec fn insert(self, key: GlyphKey, m: GlyphMetrics) -> AtlasView {
        AtlasView {
            width: self.width_for(m.width) as u32,
            height: self.height_for(m.width, m.height) as u32,
            max_size: self.max_size,
            cursor_x: (self.slot_x(m.width) + m.width) as u32,
            cursor_y: self.slot_y(m.width) as u32,
            row_height: if self.wraps(m.width) || self.row_height < m.height {
                m.height
            } else {
                self.row_height
            },
            glyphs: self.glyphs.insert(key, self.entry(m)),
        }
    }

    /// A glyph's rectangle lies in a finished row, or on the current row in
    /// front of the cursor.
    pub open spec fn behind_cursor(self, r: Rect) -> bool {
        r.bottom() <= self.cursor_y || (r.right() <= self.cursor_x && r.bottom() <= self.cursor_y
            + self.row_height)
    }

    /// The atlas is sound: the texture respects its limit, the cursor lies
    /// in the texture, every glyph lies in the texture and behind the
    /// cursor, and no two glyphs share a texel.
    pub open spec fn ok(self) -> bool {
        &&& 0 < self.width <= self.max_size
        &&& 0 < self.height <= self.max_size
        &&& self.cursor_x <= self.width
        &&& self.cursor_y + self.row_height <= self.height
        &&& forall|k: GlyphKey| #[trigger]
            self.glyphs.dom().contains(k) ==> self.glyphs[k].rect.within(
                self.width as int,
                self.height as int,
            ) && self.behind_cursor(self.glyphs[k].rect)
        &&& forall|j: GlyphKey, k: GlyphKey|
            j != k && #[trigger] self.glyphs.dom().contains(j) && #[trigger] self.glyphs.dom().contains(
                k,
            ) ==> self.glyphs[j].rect.disjoint(self.glyphs[k].rect)
    }
}

/// Placing a new glyph for which there is room keeps an atlas sound, keeps
/// every glyph it held where it was, and puts the new glyph on texels that
/// no other glyph has.
pub proof fn lemma_insert_ok(a: AtlasView, key: GlyphKey, m: GlyphMetrics)
    requires
        a.ok(),
        a.has_room(m.width, m.height),
        !a.glyphs.dom().contains(key),
    ensures
        a.insert(key, m).ok(),
        a.insert(key, m).glyph(key) == Some(a.entry(m)),
        a.width <= a.insert(key, m).width,
        a.height <= a.insert(key, m).height,
        forall|k: GlyphKey| k != key ==> a.insert(key, m).glyph(k) == a.glyph(k),
        forall|k: GlyphKey| #[trigger]
            a.glyphs.dom().contains(k) ==> a.glyphs[k].rect.disjoint(a.entry(m).rect),
{
    let b = a.insert(key, m);
    let r = a.entry(m).rect;
    assert forall|k: GlyphKey| #[trigger] a.glyphs.dom().contains(k) implies a.glyphs[k].rect.disjoint(
        r,
    ) by {
        assert(a.behind_cursor(a.glyphs[k].rect));
    }
    assert forall|k: GlyphKey| #[trigger] b.glyphs.dom().contains(k) implies b.glyphs[k].rect.within(
        b.width as int,
        b.height as int,
    ) && b.behind_cursor(b.glyphs[k].rect) by {
        if k != key {
            assert(a.glyphs.dom().contains(k));
            assert(a.behind_cursor(a.glyphs[k].rect));
        }
    }
    assert forall|j: GlyphKey, k: GlyphKey|
        j != k && #[trigger] b.glyphs.dom().contains(j) && #[trigger] b.glyphs.dom().contains(
            k,
        ) implies b.glyphs[j].rect.disjoint(b.glyphs[k].rect) by {
        if j == key {
            assert(a.glyphs.dom().contains(k));
        } else if k == key {
            assert(a.glyphs.dom().contains(j));
        } else {
            assert(a.glyphs.dom().contains(j) && a.glyphs.dom().contains(k));
        }
    }
}

/// A glyph as the atlas stores it.
struct GlyphEntry {
    key: GlyphKey,
    info: GlyphInfo,
}

/// The glyphs of a list of entries, a later entry standing before an
/// earlier one with the same key.
spec fn glyph_map(entries: Seq<GlyphEntry>) -> Map<GlyphKey, GlyphInfo>
    decreases entries.len(),
{
    if entries.len() == 0 {
        Map::empty()
    } else {
        glyph_map(entries.drop_last()).insert(entries.last().key, entries.last().info)
    }
}

/// Entries behind place `i` that do not have the key do not matter to what
/// the key maps to.
proof fn lemma_glyph_map_tail(entries: Seq<GlyphEntry>, key: GlyphKey, i: int)
    requires
        0 <= i <= entries.len(),
        forall|j: int| i <= j < entries.len() ==> (#[trigger] entries[j]).key != key,
    ensures
        glyph_map(entries).dom().contains(key) == glyph_map(entries.take(i)).dom().contains(key),
        glyph_map(entries).dom().contains(key) ==> glyph_map(entries)[key] == glyph_map(
            entries.take(i),
        )[key],
    decreases entries.len() - i,
{
    if i == entries.len() {
        assert(entries.take(i) == entries);
    } else {
        let front = entries.drop_last();
        assert(entries.last().key != key);
        assert(front.take(i) == entries.take(i));
        lemma_glyph_map_tail(front, key, i);
    }
}

/// Whether two keys are the same glyph.
fn same_key(a: &GlyphKey, b: &GlyphKey) -> (same: bool)
    ensures
        same == (*a == *b),
{
    a.character == b.character && a.size == b.size
}

/// One texture with the glyphs packed into it.
pub struct Atlas {
    width: u32,
    height: u32,
    max_size: u32,
    cursor_x: u32,
    cursor_y: u32,
    row_height: u32,
    entries: Vec<GlyphEntry>,
}

impl View for Atlas {
    type V = AtlasView;

    closed spec fn view(&self) -> AtlasView {
        AtlasView {
            width: self.width,
            height: self.height,
            max_size: self.max_size,
            cursor_x: self.cursor_x,
            cursor_y: self.cursor_y,
            row_height: self.row_height,
            glyphs: glyph_map(self.entries@),
        }
    }
}

impl Atlas {
    #[verifier::type_invariant]
    spec fn inv(self) -> bool {
        self@.ok()
    }

    /// An atlas without glyphs over a square texture of side `size` that
    /// may grow to side `max_size`. There is none when `size` is zero or
    /// beyond the limit.
    pub fn new(size: u32, max_size: u32) -> (atlas: Option<Atlas>)
        ensures
            atlas is Some <==> 0 < size <= max_size,
            atlas is Some ==> atlas->0@ == AtlasView::empty(size, max_size),
    {
        if size == 0 || size > max_size {
            return None;
        }
        let atlas = Atlas {
            width: size,
            height: size,
            max_size,
            cursor_x: 0,
            cursor_y: 0,
            row_height: 0,
            entries: Vec::new(),
        };
        assert(atlas@.glyphs =~= Map::<GlyphKey, GlyphInfo>::empty());
        Some(atlas)
    }

    /// The width of the texture.
    pub fn width(&self) -> (w: u32)
        ensures
            w == self@.width,
            self@.ok(),
    {
        proof {
            use_type_invariant(self);
        }
        self.width
    }

    /// The height of the texture.
    pub fn height(&self) -> (h: u32)
        ensures
            h == self@.height,
            self@.ok(),
    {
        proof {
            use_type_invariant(self);
        }
        self.height
    }

    /// The cached glyph for a key. Nothing is changed and the GPU is not
    /// needed.
    pub fn get(&self, key: GlyphKey) -> (found: Option<GlyphInfo>)
        ensures
            found == self@.glyph(key),
            self@.ok(),
    {
        proof {
            use_type_invariant(self);
        }
        let mut i: usize = self.entries.len();
        while i > 0
            invariant
                self@.ok(),
                i <= self.entries@.len(),
                forall|j: int| i <= j < self.entries@.len() ==> (#[trigger] self.entries@[j]).key != key,
            decreases i,
        {
            i = i - 1;
            if same_key(&self.entries[i].key, &key) {
                proof {
                    lemma_glyph_map_tail(self.entries@, key, i + 1);
                    assert(self.entries@.take(i + 1).drop_last() == self.entries@.take(i as int));
                }
                return Some(self.entries[i].info);
            }
        }
        proof {
            lemma_glyph_map_tail(self.entries@, key, 0);
        }
        None
    }

    /// Places a glyph that the atlas does not hold yet, and says where.
    ///
    /// A key that is cached keeps its glyph: the call returns it and
    /// changes nothing. Without room under the limit on the texture's
    /// extent there is no result, and nothing is changed either.
    pub fn place(&mut self, key: GlyphKey, m: GlyphMetrics) -> (placed: Option<GlyphInfo>)
        ensures
            old(self)@.ok(),
            final(self)@.ok(),
            old(self)@.glyph(key) is Some ==> placed == old(self)@.glyph(key) && final(self)@ == old(
                self,
            )@,
            old(self)@.glyph(key) is None && !old(self)@.has_room(m.width, m.height) ==> placed is None
                && final(self)@ == old(self)@,
            old(self)@.glyph(key) is None && old(self)@.has_room(m.width, m.height) ==> placed == Some(
                old(self)@.entry(m),
            ) && final(self)@ == old(self)@.insert(key, m),
    {
        proof {
            use_type_invariant(&*self);
        }
        match self.get(key) {
            Some(info) => {
                return Some(info);
            },
            None => {},
        }
        let ghost before = self@;
        let max = self.max_size as u64;
        let w = m.width as u64;
        let h = m.height as u64;
        if w > max {
            return None;
        }
        let width = grow(self.width, m.width, self.max_size);
        let wraps = self.cursor_x as u64 + w > width as u64;
        let x: u32 = if wraps {
            0
        } else {
            self.cursor_x
        };
        let y: u64 = if wraps {
            self.cursor_y as u64 + self.row_height as u64
        } else {
            self.cursor_y as u64
        };
        if y + h > max {
            return None;
        }
        let height = grow(self.height, (y + h) as u32, self.max_size);
        let row_height = if wraps || self.row_height < m.height {
            m.height
        } else {
            self.row_height
        };
        let info = GlyphInfo {
            rect: Rect { x, y: y as u32, w: m.width, h: m.height },
            offset_x: m.offset_x,
            offset_y: m.offset_y,
            advance: m.advance,
        };
        let mut taken = Atlas {
            width: 1,
            height: 1,
            max_size: 1,
            cursor_x: 0,
            cursor_y: 0,
            row_height: 0,
            entries: Vec::new(),
        };
        core::mem::swap(self, &mut taken);
        let Atlas { width: _, height: _, max_size, cursor_x: _, cursor_y: _, row_height: _, mut entries } =
            taken;
        entries.push(GlyphEntry { key, info });
        proof {
            assert(entries@.drop_last() == old(self).entries@);
            lemma_insert_ok(before, key, m);
            assert(info == before.entry(m));
        }
        *self = Atlas {
            width,
            height,
            max_size,
            cursor_x: x + m.width,
            cursor_y: y as u32,
            row_height,
            entries,
        };
        assert(self@ == before.insert(key, m));
        Some(info)
    }
}

/// The extent after making room for `need`.
fn grow(extent: u32, need: u32, max: u32) -> (g: u32)
    requires
        need <= max,
        extent <= max,
    ensures
        g == grown(extent as int, need as int, max as int),
        need <= g <= max,
        extent <= g,
{
    if need <= extent {
        extent
    } else {
        let doubled = extent as u64 * 2;
        if need as u64 <= doubled && doubled <= max as u64 {
            doubled as u32
        } else if max as u64 <= doubled {
            max
        } else {
            need
        }
    }
}

} // verus!
