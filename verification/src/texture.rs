//! The texture registry: GPU textures with counted references.
//!
//! Textures live in a slot map. A handle is the key of a texture's slot.
//! The key of a new texture is never that of a texture that lives; the
//! slot map versions its keys, so that the key of a freed texture is not
//! handed out again before its slot has been reused 2^31 times.

use vstd::prelude::*;

use crate::batch::TextureId;
use crate::error::Error;
use crate::gpu::{CommandView, GpuCommand, GpuContextHandle};

verus! {

#[verifier::external_type_specification]
#[verifier::external_body]
pub struct ExDefaultKey(slotmap::DefaultKey);

/// What the registry keeps of a texture: the references held on it and its
/// extent.
#[derive(Clone, Copy, Debug, PartialEq, Eq)]
pub struct TextureEntry {
    pub refs: u32,
    pub width: u32,
    pub height: u32,
}

/// The slot map of the registry.
#[verifier::external_body]
pub struct TextureSlots {
    slots: slotmap::SlotMap<slotmap::DefaultKey, TextureEntry>,
}

/// The number that `slotmap::KeyData::as_ffi` gives for a key.
pub uninterp spec fn key_id(key: slotmap::DefaultKey) -> u64;

/// The entries that a slot map holds, each under the number of its key.
pub uninterp spec fn slot_entries(slots: TextureSlots) -> Map<u64, TextureEntry>;

/// `slotmap::SlotMap::new`: a slot map without entries.
#[verifier::external_body]
fn slots_new() -> (slots: TextureSlots)
    ensures
        (slot_entries(slots) == Map::<u64, TextureEntry>::empty()),
{
    TextureSlots { slots: slotmap::SlotMap::new() }
}

/// `slotmap::SlotMap::len`: the number of entries.
#[verifier::external_body]
fn slots_len(slots: &TextureSlots) -> (n: usize)
    ensures
        n == slot_entries(*slots).len(),
{
    slots.slots.len()
}

/// `slotmap::SlotMap::insert`: adds the value under a key that names no
/// entry of the map, and returns the key. The slot map panics when it is
/// full, which it is not while it holds fewer than 2^32 - 2 entries.
#[verifier::external_body]
fn slots_insert(slots: &mut TextureSlots, value: TextureEntry) -> (key: slotmap::DefaultKey)
    requires
        slot_entries(*old(slots)).dom().finite(),
        slot_entries(*old(slots)).len() < 0xffff_fffe,
    ensures
        !slot_entries(*old(slots)).dom().contains(key_id(key)),
        slot_entries(*final(slots)) == slot_entries(*old(slots)).insert(key_id(key), value),
{
    slots.slots.insert(value)
}

/// `slotmap::SlotMap::get`: the entry under the key, if the key names one.
#[verifier::external_body]
fn slots_get(slots: &TextureSlots, key: slotmap::DefaultKey) -> (value: Option<TextureEntry>)
    ensures
        value == (if slot_entries(*slots).dom().contains(key_id(key)) {
            Some(slot_entries(*slots)[key_id(key)])
        } else {
            None
        }),
{
    slots.slots.get(key).copied()
}

/// `slotmap::SlotMap::get_mut`: the entry under the key, to be written in
/// place, if the key names one. No other entry changes.
#[verifier::external_body]
fn slots_get_mut(slots: &mut TextureSlots, key: slotmap::DefaultKey) -> (value: Option<
    &mut TextureEntry,
>)
    ensures
        value is Some == slot_entries(*old(slots)).dom().contains(key_id(key)),
        value is None ==> slot_entries(*final(slots)) == slot_entries(*old(slots)),
        value matches Some(entry) ==> *entry == slot_entries(*old(slots))[key_id(key)]
            && slot_entries(*final(slots)) == slot_entries(*old(slots)).insert(
            key_id(key),
            *final(entry),
        ),
{
    slots.slots.get_mut(key)
}

/// `slotmap::SlotMap::remove`: takes the entry under the key out of the
/// map and returns it, if the key names one.
#[verifier::external_body]
fn slots_remove(slots: &mut TextureSlots, key: slotmap::DefaultKey) -> (value: Option<TextureEntry>)
    ensures
        value == (if slot_entries(*old(slots)).dom().contains(key_id(key)) {
            Some(slot_entries(*old(slots))[key_id(key)])
        } else {
            None
        }),
        slot_entries(*final(slots)) == slot_entries(*old(slots)).remove(key_id(key)),
{
    slots.slots.remove(key)
}

/// `slotmap::KeyData::as_ffi` of `slotmap::Key::data`: the key as a number.
#[verifier::external_body]
fn key_bits(key: slotmap::DefaultKey) -> (id: u64)
    ensures
        id == key_id(key),
{
    slotmap::Key::data(&key).as_ffi()
}

/// A texture of the registry. The handle names the texture for as long as
/// the texture lives.
#[derive(Clone, Copy, Debug)]
pub struct TextureHandle {
    key: slotmap::DefaultKey,
}

impl TextureHandle {
    /// The identifier under which the registry keeps the texture.
    pub closed spec fn spec_id(&self) -> u64 {
        key_id(self.key)
    }

    /// The identifier under which the registry keeps the texture, and by
    /// which batches and commands name it.
    pub fn id(&self) -> (id: u64)
        ensures
            id == self.spec_id(),
    {
        key_bits(self.key)
    }
}

/// The most textures that the registry holds at a time.
pub const MAX_TEXTURES: usize = 0xffff_fffd;

/// The pixels are RGBA, four bytes for each texel of an extent that the
/// backend takes.
pub open spec fn format_ok(pixels: Seq<u8>, width: u32, height: u32, max_size: u32) -> bool {
    &&& 0 < width <= max_size
    &&& 0 < height <= max_size
    &&& pixels.len() == 4 * width * height
}

/// The references held on a texture, where the registry has it.
pub open spec fn refs_of(textures: Map<u64, TextureEntry>, id: u64) -> Option<u32> {
    if textures.dom().contains(id) {
        Some(textures[id].refs)
    } else {
        None
    }
}

/// The registry after one more reference on a texture.
pub open spec fn retained(textures: Map<u64, TextureEntry>, id: u64) -> Map<u64, TextureEntry> {
    let entry = textures[id];
    textures.insert(
        id,
        TextureEntry { refs: (entry.refs + 1) as u32, width: entry.width, height: entry.height },
    )
}

/// The registry after one reference on a texture has been given up: the
/// texture is gone with its last reference.
pub open spec fn released(textures: Map<u64, TextureEntry>, id: u64) -> Map<u64, TextureEntry> {
    let entry = textures[id];
    if entry.refs == 1 {
        textures.remove(id)
    } else {
        textures.insert(
            id,
            TextureEntry { refs: (entry.refs - 1) as u32, width: entry.width, height: entry.height },
        )
    }
}

/// The textures of one session.
pub struct TexturesContext {
    slots: TextureSlots,
    max_size: u32,
}

impl View for TexturesContext {
    type V = Map<u64, TextureEntry>;

    closed spec fn view(&self) -> Map<u64, TextureEntry> {
        slot_entries(self.slots)
    }
}

impl TexturesContext {
    #[verifier::type_invariant]
    spec fn inv(self) -> bool {
        self@.dom().finite()
    }

    /// The largest width and height that the backend takes.
    pub closed spec fn max_size(&self) -> u32 {
        self.max_size
    }

    /// A registry without textures, for a backend that takes textures up to
    /// `max_size` texels wide and high.
    pub fn new(max_size: u32) -> (textures: TexturesContext)
        ensures
            textures@ == Map::<u64, TextureEntry>::empty(),
            textures.max_size() == max_size,
    {
        TexturesContext { slots: slots_new(), max_size }
    }

    /// The number of textures.
    pub fn len(&self) -> (n: usize)
        ensures
            n == self@.len(),
            self@.dom().finite(),
    {
        proof {
            use_type_invariant(self);
        }
        slots_len(&self.slots)
    }

    /// The references held on a texture, if the handle names one.
    pub fn ref_count(&self, handle: &TextureHandle) -> (refs: Option<u32>)
        ensures
            refs == refs_of(self@, handle.spec_id()),
    {
        match slots_get(&self.slots, handle.key) {
            Some(entry) => Some(entry.refs),
            None => None,
        }
    }

    /// The width and height of a texture, if the handle names one.
    pub fn size(&self, handle: &TextureHandle) -> (size: Option<(u32, u32)>)
        ensures
            size == (if self@.dom().contains(handle.spec_id()) {
                Some((self@[handle.spec_id()].width, self@[handle.spec_id()].height))
            } else {
                None
            }),
    {
        match slots_get(&self.slots, handle.key) {
            Some(entry) => Some((entry.width, entry.height)),
            None => None,
        }
    }

    /// Registers a texture of RGBA pixels and records its upload. The new
    /// texture has no reference on it yet.
    ///
    /// Fails with `UnsupportedFormatError` when the extent is zero or
    /// beyond what the backend takes, or when `pixels` does not hold four
    /// bytes for each texel; else with `GpuContextUnavailable` on a context
    /// that is gone; else with `ResourceError` when the registry is full.
    /// A failed call changes nothing.
    pub fn register(
        &mut self,
        gpu: &mut GpuContextHandle,
        pixels: Vec<u8>,
        width: u32,
        height: u32,
    ) -> (r: Result<TextureHandle, Error>)
        ensures
            final(self).max_size() == old(self).max_size(),
            final(gpu).available() == old(gpu).available(),
            r is Err ==> final(self)@ == old(self)@ && final(gpu).queue() == old(gpu).queue(),
            !format_ok(pixels@, width, height, old(self).max_size()) ==> r == Err::<
                TextureHandle,
                Error,
            >(Error::UnsupportedFormatError),
            format_ok(pixels@, width, height, old(self).max_size()) && !old(gpu).available() ==> r
                == Err::<TextureHandle, Error>(Error::GpuContextUnavailable),
            format_ok(pixels@, width, height, old(self).max_size()) && old(gpu).available() && old(
                self,
            )@.len() > MAX_TEXTURES ==> r == Err::<TextureHandle, Error>(Error::ResourceError),
            format_ok(pixels@, width, height, old(self).max_size()) && old(gpu).available() && old(
                self,
            )@.len() <= MAX_TEXTURES ==> r is Ok,
            r matches Ok(handle) ==> {
                &&& !old(self)@.dom().contains(handle.spec_id())
                &&& final(self)@ == old(self)@.insert(
                    handle.spec_id(),
                    TextureEntry { refs: 0, width, height },
                )
                &&& final(gpu).queue() == old(gpu).queue().push(
                    CommandView::CreateTexture {
                        texture: TextureId::Texture(handle.spec_id()),
                        width,
                        height,
                        pixels: pixels@,
                    },
                )
            },
    {
        proof {
            use_type_invariant(&*self);
        }
        if width == 0 || height == 0 || width > self.max_size || height > self.max_size {
            return Err(Error::UnsupportedFormatError);
        }
        assert(4 * width * height <= 4 * 0xffff_ffff * 0xffff_ffff) by (nonlinear_arith)
            requires
                width <= 0xffff_ffff,
                height <= 0xffff_ffff,
        ;
        if pixels.len() as u128 != 4 * (width as u128) * (height as u128) {
            return Err(Error::UnsupportedFormatError);
        }
        if !gpu.is_available() {
            return Err(Error::GpuContextUnavailable);
        }
        if slots_len(&self.slots) > MAX_TEXTURES {
            return Err(Error::ResourceError);
        }
        let mut taken = TexturesContext::new(self.max_size);
        core::mem::swap(self, &mut taken);
        let TexturesContext { mut slots, max_size } = taken;
        let key = slots_insert(&mut slots, TextureEntry { refs: 0, width, height });
        *self = TexturesContext { slots, max_size };
        let handle = TextureHandle { key };
        let id = handle.id();
        let _ = gpu.submit(
            GpuCommand::CreateTexture { texture: TextureId::Texture(id), width, height, pixels },
        );
        Ok(handle)
    }

    /// Takes one more reference on a texture, and returns how many are
    /// held then.
    ///
    /// Fails with `ResourceError`, and changes nothing, when the handle
    /// names no texture or the references can no longer be counted.
    pub fn retain(&mut self, handle: &TextureHandle) -> (r: Result<u32, Error>)
        ensures
            final(self).max_size() == old(self).max_size(),
            r is Err ==> r == Err::<u32, Error>(Error::ResourceError) && final(self)@ == old(self)@,
            r is Ok <==> (refs_of(old(self)@, handle.spec_id()) matches Some(refs) && refs < u32::MAX),
            r matches Ok(refs) ==> refs == old(self)@[handle.spec_id()].refs + 1 && final(self)@
                == retained(old(self)@, handle.spec_id()),
    {
        proof {
            use_type_invariant(&*self);
        }
        let refs = match slots_get(&self.slots, handle.key) {
            Some(entry) => entry.refs,
            None => {
                return Err(Error::ResourceError);
            },
        };
        if refs == u32::MAX {
            return Err(Error::ResourceError);
        }
        let mut taken = TexturesContext::new(self.max_size);
        core::mem::swap(self, &mut taken);
        let TexturesContext { mut slots, max_size } = taken;
        match slots_get_mut(&mut slots, handle.key) {
            Some(entry) => {
                entry.refs = refs + 1;
            },
            None => {},
        }
        *self = TexturesContext { slots, max_size };
        Ok(refs + 1)
    }

    /// Gives up one reference on a texture. With the last reference the
    /// texture leaves the registry and its deletion is recorded; the call
    /// returns whether that happened.
    ///
    /// Fails with `ResourceError` when the handle names no texture or no
    /// reference is held on it, and with `GpuContextUnavailable` when the
    /// last reference is given up on a context that is gone. A failed call
    /// changes nothing.
    pub fn release(&mut self, gpu: &mut GpuContextHandle, handle: &TextureHandle) -> (r: Result<
        bool,
        Error,
    >)
        ensures
            final(self).max_size() == old(self).max_size(),
            final(gpu).available() == old(gpu).available(),
            r is Err ==> final(self)@ == old(self)@ && final(gpu).queue() == old(gpu).queue(),
            refs_of(old(self)@, handle.spec_id()) is None || refs_of(old(self)@, handle.spec_id())
                == Some(0u32) ==> r == Err::<bool, Error>(Error::ResourceError),
            refs_of(old(self)@, handle.spec_id()) == Some(1u32) && !old(gpu).available() ==> r
                == Err::<bool, Error>(Error::GpuContextUnavailable),
            refs_of(old(self)@, handle.spec_id()) == Some(1u32) && old(gpu).available() ==> r == Ok::<
                bool,
                Error,
            >(true) && final(gpu).queue() == old(gpu).queue().push(
                CommandView::DeleteTexture { texture: TextureId::Texture(handle.spec_id()) },
            ),
            refs_of(old(self)@, handle.spec_id()) matches Some(refs) && refs > 1 ==> r == Ok::<
                bool,
                Error,
            >(false) && final(gpu).queue() == old(gpu).queue(),
            r is Ok ==> final(self)@ == released(old(self)@, handle.spec_id()),
    {
        proof {
            use_type_invariant(&*self);
        }
        let refs = match slots_get(&self.slots, handle.key) {
            Some(entry) => entry.refs,
            None => {
                return Err(Error::ResourceError);
            },
        };
        if refs == 0 {
            return Err(Error::ResourceError);
        }
        if refs == 1 && !gpu.is_available() {
            return Err(Error::GpuContextUnavailable);
        }
        let mut taken = TexturesContext::new(self.max_size);
        core::mem::swap(self, &mut taken);
        let TexturesContext { mut slots, max_size } = taken;
        if refs == 1 {
            let _ = slots_remove(&mut slots, handle.key);
            *self = TexturesContext { slots, max_size };
            let id = handle.id();
            let _ = gpu.submit(GpuCommand::DeleteTexture { texture: TextureId::Texture(id) });
            Ok(true)
        } else {
            match slots_get_mut(&mut slots, handle.key) {
                Some(entry) => {
                    entry.refs = refs - 1;
                },
                None => {},
            }
            *self = TexturesContext { slots, max_size };
            Ok(false)
        }
    }
}

/// The registry after `n` more references on a texture.
pub open spec fn retain_times(textures: Map<u64, TextureEntry>, id: u64, n: nat) -> Map<
    u64,
    TextureEntry,
>
    decreases n,
{
    if n == 0 {
        textures
    } else {
        retained(retain_times(textures, id, (n - 1) as nat), id)
    }
}

/// The registry after `n` references on a texture have been given up.
pub open spec fn release_times(textures: Map<u64, TextureEntry>, id: u64, n: nat) -> Map<
    u64,
    TextureEntry,
>
    decreases n,
{
    if n == 0 {
        textures
    } else {
        released(release_times(textures, id, (n - 1) as nat), id)
    }
}

/// A texture that is retained `n` times holds `n` references more.
pub proof fn lemma_retain_times(textures: Map<u64, TextureEntry>, id: u64, n: nat)
    requires
        textures.dom().contains(id),
        textures[id].refs + n <= u32::MAX,
    ensures
        retain_times(textures, id, n).dom().contains(id),
        retain_times(textures, id, n)[id].refs == textures[id].refs + n,
    decreases n,
{
    if n > 0 {
        lemma_retain_times(textures, id, (n - 1) as nat);
    }
}

/// A texture lives as long as a reference is held on it: while fewer
/// references have been given up than were held, the texture is in the
/// registry with the references that are left; it leaves the registry
/// with the last one.
pub proof fn lemma_release_times(textures: Map<u64, TextureEntry>, id: u64, k: nat)
    requires
        textures.dom().contains(id),
        k <= textures[id].refs,
    ensures
        k < textures[id].refs ==> release_times(textures, id, k).dom().contains(id)
            && release_times(textures, id, k)[id].refs == textures[id].refs - k,
        k == textures[id].refs && k > 0 ==> !release_times(textures, id, k).dom().contains(id),
    decreases k,
{
    if k > 0 {
        lemma_release_times(textures, id, (k - 1) as nat);
    }
}

/// After `n` references have been taken on a texture that had none, and
/// `n` given up, the texture is freed: with the last release, and not with
/// one before it.
pub proof fn lemma_retain_release_balance(textures: Map<u64, TextureEntry>, id: u64, n: nat, k: nat)
    requires
        textures.dom().contains(id),
        textures[id].refs == 0,
        0 < n <= u32::MAX,
        k <= n,
    ensures
        k < n ==> release_times(retain_times(textures, id, n), id, k).dom().contains(id),
        k == n ==> !release_times(retain_times(textures, id, n), id, k).dom().contains(id),
{
    lemma_retain_times(textures, id, n);
    lemma_release_times(retain_times(textures, id, n), id, k);
}

} // verus!
