//! The GUI renderer's texture registry: which handles the GUI can show, and
//! what each of them stands for.
//!
//! A handle is handed out once and never again, so a handle that has been
//! freed can never come to name another texture.

use vstd::prelude::*;
use std::collections::HashMap;
use crate::utility::structs::Extent;

verus! {

broadcast use vstd::std_specs::hash::group_hash_axioms;

/// The opaque handle by which the GUI refers to a registered texture view.
pub type TextureId = u64;

/// What a registry stands for.
#[verifier::ext_equal]
pub struct RegistryView {
    /// The extent of the texture behind every registered handle.
    pub textures: Map<TextureId, Extent>,
    /// The handle that the next registration hands out.
    pub next_id: TextureId,
}

impl RegistryView {
    /// Every registered handle has been handed out before.
    pub open spec fn wf(self) -> bool {
        forall|id: TextureId| self.textures.contains_key(id) ==> id < self.next_id
    }

    /// An empty registry.
    pub open spec fn empty() -> RegistryView {
        RegistryView { textures: Map::empty(), next_id: 0 }
    }

    /// Whether another handle can be handed out.
    pub open spec fn has_free_handle(self) -> bool {
        self.next_id < u64::MAX
    }

    /// The registry after the registration of a texture view of the given
    /// extent, which gets the handle `self.next_id`.
    pub open spec fn registered(self, extent: Extent) -> RegistryView
        recommends
            self.has_free_handle(),
    {
        RegistryView {
            textures: self.textures.insert(self.next_id, extent),
            next_id: (self.next_id + 1) as TextureId,
        }
    }

    /// The registry after a handle has been freed.
    pub open spec fn freed(self, id: TextureId) -> RegistryView {
        RegistryView { textures: self.textures.remove(id), next_id: self.next_id }
    }
}

/// A fresh handle is none of the registered ones, and a freed handle is
/// never handed out again: whatever is registered after it has been freed,
/// it stays unregistered.
pub proof fn lemma_freed_handle_stays_invalid(registry: RegistryView, id: TextureId, extent: Extent)
    requires
        registry.wf(),
        registry.has_free_handle(),
        registry.textures.contains_key(id),
    ensures
        !registry.textures.contains_key(registry.next_id),
        registry.next_id != id,
        !registry.freed(id).registered(extent).textures.contains_key(id),
        registry.freed(id).registered(extent).wf(),
        registry.registered(extent).wf(),
{
}

/// The part of the GUI renderer that the rest of the shell depends on: the
/// registry of the textures that widgets may embed.
pub struct EguiRenderer {
    textures: HashMap<TextureId, Extent>,
    next_user_texture_id: TextureId,
}

impl View for EguiRenderer {
    type V = RegistryView;

    closed spec fn view(&self) -> RegistryView {
        RegistryView { textures: self.textures@, next_id: self.next_user_texture_id }
    }
}

impl EguiRenderer {
    /// A renderer with no texture registered.
    pub fn new() -> (r: EguiRenderer)
        ensures
            r@ == RegistryView::empty(),
            r@.wf(),
    {
        EguiRenderer { textures: HashMap::new(), next_user_texture_id: 0 }
    }

    /// Whether another texture can be registered.
    pub fn has_free_handle(&self) -> (r: bool)
        ensures
            r == self@.has_free_handle(),
    {
        self.next_user_texture_id < u64::MAX
    }

    /// Registers a texture view of the given extent and returns its handle,
    /// which no texture had before.
    pub fn register_native_texture(&mut self, extent: Extent) -> (id: TextureId)
        requires
            old(self)@.has_free_handle(),
        ensures
            id == old(self)@.next_id,
            final(self)@ == old(self)@.registered(extent),
            old(self)@.wf() ==> final(self)@.wf() && !old(self)@.textures.contains_key(id),
    {
        let id = self.next_user_texture_id;
        self.textures.insert(id, extent);
        self.next_user_texture_id = id + 1;
        id
    }

    /// Frees a handle. Freeing a handle that is not registered changes
    /// nothing.
    pub fn free_texture(&mut self, id: TextureId)
        ensures
            final(self)@ == old(self)@.freed(id),
            old(self)@.wf() ==> final(self)@.wf(),
    {
        self.textures.remove(&id);
        assert(old(self)@.wf() ==> final(self)@.wf()) by {
            assert forall|k: TextureId| #[trigger]
                final(self)@.textures.contains_key(k) implies old(self)@.textures.contains_key(
                k,
            ) by {}
        }
    }

    /// The extent of the texture behind a handle, or `None` where the
    /// handle is not registered.
    pub fn texture(&self, id: TextureId) -> (r: Option<Extent>)
        ensures
            r == (if self@.textures.contains_key(id) {
                Some(self@.textures[id])
            } else {
                None
            }),
    {
        match self.textures.get(&id) {
            Some(extent) => Some(*extent),
            None => None,
        }
    }
}

} // verus!
