//! The textures that hold the pictures of surfaces.
//!
//! The GPU keeps one texture per surface. A texture is reused as long as
//! the surface's buffers keep their size and format, and made anew when
//! they change.

use std::collections::HashMap;
use vstd::prelude::*;
use crate::compositor::surface::SurfaceId;
use crate::protocol::shm::ShmFormat;

verus! {

broadcast use vstd::std_specs::hash::group_hash_axioms;

/// What is known of a texture: its size and the format of its pixels.
#[derive(Debug, Clone, Copy, PartialEq, Eq, Structural)]
pub struct TextureEntry {
    pub width: u32,
    pub height: u32,
    pub format: ShmFormat,
}

/// The textures by the surfaces whose pictures they hold.
#[derive(Debug)]
pub struct TextureCache {
    /// Cached textures by surface ID
    textures: HashMap<u64, TextureEntry>,
}

impl View for TextureCache {
    type V = Map<u64, TextureEntry>;

    /// The textures by the number of their surface's identity.
    closed spec fn view(&self) -> Map<u64, TextureEntry> {
        self.textures@
    }
}

impl TextureCache {
    /// Whether an upload for a surface needs a new texture: the surface
    /// has none, or has one of another size or format.
    pub open spec fn stale(self, surface: SurfaceId, entry: TextureEntry) -> bool {
        !self@.contains_key(surface.0) || self@[surface.0] != entry
    }

    /// Create a new texture cache
    pub fn new() -> (c: Self)
        ensures
            c@ == Map::<u64, TextureEntry>::empty(),
    {
        TextureCache { textures: HashMap::new() }
    }

    /// Whether an upload of a picture of this size and format for the
    /// surface needs a new texture.
    pub fn needs_new_texture(
        &self,
        surface: SurfaceId,
        width: u32,
        height: u32,
        format: ShmFormat,
    ) -> (needed: bool)
        ensures
            needed == self.stale(surface, TextureEntry { width, height, format }),
    {
        match self.textures.get(&surface.0) {
            Some(entry) => entry.width != width || entry.height != height || entry.format != format,
            None => true,
        }
    }

    /// Notes the texture that now holds the picture of the surface. An
    /// upload of the same size and format needs no new one afterwards.
    pub fn record(&mut self, surface: SurfaceId, width: u32, height: u32, format: ShmFormat)
        ensures
            final(self)@ == old(self)@.insert(surface.0, TextureEntry { width, height, format }),
            !final(self).stale(surface, TextureEntry { width, height, format }),
    {
        self.textures.insert(surface.0, TextureEntry { width, height, format });
    }

    /// What is known of the texture of a surface.
    pub fn get(&self, surface: SurfaceId) -> (r: Option<TextureEntry>)
        ensures
            match r {
                Some(entry) => self@.contains_key(surface.0) && self@[surface.0] == entry,
                None => !self@.contains_key(surface.0),
            },
    {
        match self.textures.get(&surface.0) {
            Some(entry) => Some(*entry),
            None => None,
        }
    }

    /// Remove a texture
    pub fn remove(&mut self, surface: SurfaceId)
        ensures
            final(self)@ == old(self)@.remove(surface.0),
    {
        self.textures.remove(&surface.0);
    }

    /// Get the number of cached textures
    pub fn len(&self) -> (n: usize)
        ensures
            n == self@.len(),
    {
        self.textures.len()
    }

    /// Check if empty
    pub fn is_empty(&self) -> (b: bool)
        ensures
            b == (self@.len() == 0),
    {
        self.textures.is_empty()
    }
}

impl Default for TextureCache {
    fn default() -> (c: Self)
        ensures
            c@ == Map::<u64, TextureEntry>::empty(),
    {
        TextureCache::new()
    }
}

} // verus!
