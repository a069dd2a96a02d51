//! Plain building blocks: pixel extents, double-buffered storage and the
//! offscreen texture that the GUI embeds.

use vstd::prelude::*;
use crate::inbuilt::gui_state::EguiRenderer;
use crate::inbuilt::gui_state::RegistryView;
use crate::inbuilt::gui_state::TextureId;
use crate::inbuilt::setup::TextureFormat;

verus! {

/// A width and a height in physical pixels.
#[derive(Clone, Copy, Debug, PartialEq, Eq, Structural)]
pub struct Extent {
    pub width: u32,
    pub height: u32,
}

impl Extent {
    /// An extent is degenerate when it covers no pixel at all.
    pub open spec fn is_degenerate(self) -> bool {
        self.width == 0 || self.height == 0
    }

    /// The extent with every zero dimension raised to one. A nonzero
    /// dimension is kept as it is.
    pub open spec fn clamped(self) -> Extent {
        Extent {
            width: if self.width > 0 { self.width } else { 1 },
            height: if self.height > 0 { self.height } else { 1 },
        }
    }

    pub fn new(width: u32, height: u32) -> (r: Extent)
        ensures
            r.width == width,
            r.height == height,
    {
        Extent { width, height }
    }

    /// Whether the extent covers no pixel.
    pub fn is_empty(&self) -> (r: bool)
        ensures
            r == self.is_degenerate(),
    {
        self.width == 0 || self.height == 0
    }

    /// The smallest extent of at least 1x1 that covers this one.
    pub fn at_least_one(&self) -> (r: Extent)
        ensures
            r == self.clamped(),
    {
        Extent {
            width: if self.width > 0 { self.width } else { 1 },
            height: if self.height > 0 { self.height } else { 1 },
        }
    }
}

/// Which of the two slots is the current one.
enum POP {
    First,
    Second,
}

/// Two values of which one is current and the other is waiting; a swap
/// exchanges the roles without moving either value.
pub struct PingPongData<T> {
    first: T,
    second: T,
    current: POP,
}

impl<T> PingPongData<T> {
    /// The value that `pull_current` hands out.
    pub closed spec fn current(&self) -> T {
        match self.current {
            POP::First => self.first,
            POP::Second => self.second,
        }
    }

    /// The value that `pull_other` hands out.
    pub closed spec fn other(&self) -> T {
        match self.current {
            POP::First => self.second,
            POP::Second => self.first,
        }
    }

    /// Starts with `first` as the current value and `second` as the other.
    pub fn new(first: T, second: T) -> (r: Self)
        ensures
            r.current() == first,
            r.other() == second,
    {
        Self { first, second, current: POP::First }
    }

    /// The current value.
    pub fn pull_current(&self) -> (r: &T)
        ensures
            *r == self.current(),
    {
        match self.current {
            POP::First => &self.first,
            POP::Second => &self.second,
        }
    }

    /// The value that is not current.
    pub fn pull_other(&self) -> (r: &T)
        ensures
            *r == self.other(),
    {
        match self.current {
            POP::First => &self.second,
            POP::Second => &self.first,
        }
    }

    /// The same two values with their roles exchanged.
    pub closed spec fn swapped(self) -> Self {
        PingPongData {
            first: self.first,
            second: self.second,
            current: match self.current {
                POP::First => POP::Second,
                POP::Second => POP::First,
            },
        }
    }

    /// Exchanges the roles of the two values.
    pub fn ping_pong(&mut self)
        ensures
            *final(self) == old(self).swapped(),
            final(self).current() == old(self).other(),
            final(self).other() == old(self).current(),
    {
        self.current = match self.current {
            POP::First => POP::Second,
            POP::Second => POP::First,
        }
    }
}

/// A swap makes the other value current and the current value the other,
/// and two swaps in a row leave everything as it was.
pub proof fn lemma_ping_pong_twice<T>(data: PingPongData<T>)
    ensures
        data.swapped().current() == data.other(),
        data.swapped().other() == data.current(),
        data.swapped().swapped() == data,
{
}

/// The number of dimensions of a texture.
#[derive(Clone, Copy, Debug, PartialEq, Eq, Structural)]
pub enum TextureDimension {
    D1,
    D2,
    D3,
}

/// What a texture may be used for.
#[derive(Clone, Copy, Debug, PartialEq, Eq, Structural)]
pub struct TextureUsages {
    pub copy_src: bool,
    pub copy_dst: bool,
    pub texture_binding: bool,
    pub storage_binding: bool,
    pub render_attachment: bool,
}

/// What a texture is created with.
#[derive(Clone, Copy, Debug, PartialEq, Eq, Structural)]
pub struct TextureDescriptor {
    pub size: Extent,
    pub depth_or_array_layers: u32,
    pub mip_level_count: u32,
    pub sample_count: u32,
    pub dimension: TextureDimension,
    pub format: TextureFormat,
    pub usage: TextureUsages,
}

/// The offscreen texture that the pipeline draws into and that the GUI
/// embeds as an image: the size the GUI asks for, the size the texture has,
/// and the handle under which its view is registered with the GUI renderer.
///
/// A texture cannot change its size. When another size is asked for, the
/// whole package is replaced: a new texture, a new view and a new handle,
/// while the old handle is freed and stays invalid for good.
#[derive(Clone, Copy, Debug, PartialEq, Eq, Structural)]
pub struct EguiTexturePackage {
    /// The size the GUI last asked for.
    pub size: Extent,
    /// The size of the backing texture.
    pub texture_size: Extent,
    /// The handle of the texture's view in the GUI renderer's registry.
    pub texture_id: TextureId,
}

impl EguiTexturePackage {
    /// The package's handle is registered for a texture of the package's
    /// size, and that size covers a pixel.
    pub open spec fn wf(self, registry: RegistryView) -> bool {
        &&& !self.texture_size.is_degenerate()
        &&& registry.textures.contains_key(self.texture_id)
        &&& registry.textures[self.texture_id] == self.texture_size
    }

    /// The format of every offscreen texture.
    pub open spec fn spec_format() -> TextureFormat {
        TextureFormat::Rgba8UnormSrgb
    }

    /// What an offscreen texture of a given size is created with: one layer
    /// of a two-dimensional texture with one mip level and one sample per
    /// pixel, in 8-bit sRGB, to be drawn into and to be sampled. Only the
    /// size differs from one texture to the next.
    pub open spec fn descriptor_of(size: Extent) -> TextureDescriptor {
        TextureDescriptor {
            size,
            depth_or_array_layers: 1,
            mip_level_count: 1,
            sample_count: 1,
            dimension: TextureDimension::D2,
            format: EguiTexturePackage::spec_format(),
            usage: TextureUsages {
                copy_src: false,
                copy_dst: false,
                texture_binding: true,
                storage_binding: false,
                render_attachment: true,
            },
        }
    }

    /// Whether the size asked for differs from the size the texture has.
    pub open spec fn needs_rebuild(self) -> bool {
        self.size != self.texture_size
    }

    /// The package that is built for a requested size with the registry's
    /// next handle: its texture has the requested size with every zero
    /// dimension raised to one.
    pub open spec fn created(registry: RegistryView, in_size: Extent) -> EguiTexturePackage {
        EguiTexturePackage {
            size: in_size.clamped(),
            texture_size: in_size.clamped(),
            texture_id: registry.next_id,
        }
    }

    /// The package and the registry after the package has been brought in
    /// line with the size asked for. Where the sizes agree, nothing changes.
    /// Where they differ, the old handle is freed and the package is built
    /// anew for the size asked for.
    pub open spec fn reconciled(self, registry: RegistryView) -> (
        EguiTexturePackage,
        RegistryView,
    ) {
        if self.needs_rebuild() {
            (
                EguiTexturePackage::created(registry, self.size),
                registry.freed(self.texture_id).registered(self.size.clamped()),
            )
        } else {
            (self, registry)
        }
    }

    /// Builds the texture for a requested size, at least 1x1, and registers
    /// its view with the GUI renderer.
    pub fn new(egui_renderer: &mut EguiRenderer, in_size: Extent) -> (r: EguiTexturePackage)
        requires
            old(egui_renderer)@.has_free_handle(),
        ensures
            r == EguiTexturePackage::created(old(egui_renderer)@, in_size),
            final(egui_renderer)@ == old(egui_renderer)@.registered(in_size.clamped()),
            old(egui_renderer)@.wf() ==> final(egui_renderer)@.wf() && r.wf(final(egui_renderer)@),
    {
        let size = in_size.at_least_one();
        let texture_id = egui_renderer.register_native_texture(size);
        EguiTexturePackage { size, texture_size: size, texture_id }
    }

    /// The format of every offscreen texture.
    #[verifier::when_used_as_spec(spec_format)]
    pub fn format() -> (r: TextureFormat)
        ensures
            r == EguiTexturePackage::spec_format(),
    {
        TextureFormat::Rgba8UnormSrgb
    }

    /// What the backing texture is created with.
    pub fn descriptor(&self) -> (r: TextureDescriptor)
        ensures
            r == EguiTexturePackage::descriptor_of(self.texture_size),
    {
        TextureDescriptor {
            size: self.texture_size,
            depth_or_array_layers: 1,
            mip_level_count: 1,
            sample_count: 1,
            dimension: TextureDimension::D2,
            format: EguiTexturePackage::format(),
            usage: TextureUsages {
                copy_src: false,
                copy_dst: false,
                texture_binding: true,
                storage_binding: false,
                render_attachment: true,
            },
        }
    }

    /// Brings the texture in line with the size asked for, and returns
    /// whether it had to be rebuilt.
    pub fn update(&mut self, egui_renderer: &mut EguiRenderer) -> (rebuilt: bool)
        requires
            old(self).needs_rebuild() ==> old(egui_renderer)@.has_free_handle(),
        ensures
            rebuilt == old(self).needs_rebuild(),
            (*final(self), final(egui_renderer)@) == old(self).reconciled(old(egui_renderer)@),
            !rebuilt ==> {
                &&& *final(self) == *old(self)
                &&& final(egui_renderer)@ == old(egui_renderer)@
            },
            rebuilt ==> {
                &&& final(self).texture_size == old(self).size.clamped()
                &&& final(self).size == final(self).texture_size
                &&& final(self).texture_id == old(egui_renderer)@.next_id
                &&& final(egui_renderer)@.textures.contains_key(final(self).texture_id)
                &&& final(egui_renderer)@.textures[final(self).texture_id]
                    == final(self).texture_size
            },
            old(egui_renderer)@.wf() && old(self).wf(old(egui_renderer)@) ==> {
                &&& final(egui_renderer)@.wf()
                &&& final(self).wf(final(egui_renderer)@)
                &&& rebuilt ==> final(self).texture_id != old(self).texture_id
                &&& rebuilt ==> !final(egui_renderer)@.textures.contains_key(old(self).texture_id)
            },
    {
        if self.texture_size != self.size {
            let size = self.size;
            egui_renderer.free_texture(self.texture_id);
            *self = EguiTexturePackage::new(egui_renderer, size);
            true
        } else {
            false
        }
    }
}

/// Reconciling a package whose sizes agree changes neither the package nor
/// the registry, so the handle stays the same. Reconciling one whose sizes
/// differ gives it a handle that differs from the old one, frees the old
/// handle, and leaves a texture of the size asked for, at least 1x1, with
/// which the registry agrees. Either way nothing is left to reconcile, and
/// the texture is created with the same format, dimension, mip count,
/// sample count and usage as before.
pub proof fn lemma_reconcile(package: EguiTexturePackage, registry: RegistryView)
    requires
        registry.wf(),
        package.wf(registry),
        registry.has_free_handle(),
    ensures
        ({
            let (after, after_registry) = package.reconciled(registry);
            &&& after_registry.wf()
            &&& after.wf(after_registry)
            &&& !after.needs_rebuild()
            &&& !package.needs_rebuild() ==> after == package && after_registry == registry
            &&& package.needs_rebuild() ==> {
                &&& after.texture_id != package.texture_id
                &&& after.texture_size == package.size.clamped()
                &&& after.texture_id == registry.next_id
                &&& EguiTexturePackage::descriptor_of(after.texture_size)
                    == (TextureDescriptor {
                    size: package.size.clamped(),
                    ..EguiTexturePackage::descriptor_of(package.texture_size)
                })
                &&& !after_registry.textures.contains_key(package.texture_id)
            }
            &&& after.reconciled(after_registry) == (after, after_registry)
        }),
{
}

} // verus!
