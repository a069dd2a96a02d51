//! What the GUI callback reads and writes while it lays out one frame: the
//! theme, the texture it embeds, and the size it would like that texture to
//! have.

use vstd::prelude::*;
use crate::inbuilt::gui_state::TextureId;
use crate::inbuilt::setup::ScaleSource;
use crate::inbuilt::setup::Setup;
use crate::utility::structs::EguiTexturePackage;
use crate::utility::structs::Extent;

verus! {

/// The colour themes the GUI offers.
#[derive(Clone, Copy, Debug, PartialEq, Eq, Structural)]
pub enum Theme {
    Frappe,
    Latte,
    Macchiato,
    Mocha,
}

/// The physical size of the GUI's target and where its scale factor comes
/// from.
#[derive(Clone, Copy, Debug, PartialEq, Eq, Structural)]
pub struct ScreenDescriptor {
    pub size_in_pixels: Extent,
    pub scale: ScaleSource,
}

/// A registered texture together with the size at which it is shown.
#[derive(Clone, Copy, Debug, PartialEq, Eq, Structural)]
pub struct SizedTexture {
    pub id: TextureId,
    pub size: Extent,
}

/// What the GUI reports after it has laid out a frame.
#[derive(Clone, Copy, Debug, PartialEq, Eq, Structural)]
pub struct UiFeedback {
    /// The theme the user picked in this frame, if any.
    pub theme: Option<Theme>,
    /// The space the image panel has for the embedded texture.
    pub image_space: Extent,
}

/// The GUI's own state.
#[derive(Clone, Copy, Debug, PartialEq, Eq, Structural)]
pub struct UiState {
    pub theme: Theme,
}

impl UiState {
    /// The state after a frame's feedback: a picked theme replaces the
    /// current one.
    pub open spec fn updated(self, feedback: UiFeedback) -> UiState {
        match feedback.theme {
            Some(theme) => UiState { theme },
            None => self,
        }
    }

    /// The screen descriptor for a surface context: the configuration's
    /// size, and the scale source of the context's platform.
    pub open spec fn screen_of(setup: Setup) -> ScreenDescriptor {
        ScreenDescriptor {
            size_in_pixels: Extent { width: setup.config.width, height: setup.config.height },
            scale: setup.profile.capabilities().scale,
        }
    }

    /// The image that shows a texture package: its current handle at the
    /// size of its texture.
    pub open spec fn image_of(package: EguiTexturePackage) -> SizedTexture {
        SizedTexture { id: package.texture_id, size: package.texture_size }
    }

    /// Starts with the Frappe theme.
    pub fn new() -> (r: UiState)
        ensures
            r.theme == Theme::Frappe,
    {
        UiState { theme: Theme::Frappe }
    }

    /// The screen descriptor the GUI is drawn with.
    pub fn screen_descriptor(setup: &Setup) -> (r: ScreenDescriptor)
        ensures
            r == UiState::screen_of(*setup),
    {
        ScreenDescriptor {
            size_in_pixels: Extent { width: setup.config.width, height: setup.config.height },
            scale: setup.profile.capabilities().scale,
        }
    }

    /// The image the GUI embeds for a texture package.
    pub fn image(package: &EguiTexturePackage) -> (r: SizedTexture)
        ensures
            r == UiState::image_of(*package),
    {
        SizedTexture { id: package.texture_id, size: package.texture_size }
    }

    /// Takes over what the GUI reported for a frame: a picked theme becomes
    /// the current theme, and the space of the image panel becomes the size
    /// asked of the texture package. The package's texture and handle stay as
    /// they are until the package is next reconciled.
    pub fn render_and_update(
        &mut self,
        egui_texture_package: &mut EguiTexturePackage,
        feedback: UiFeedback,
    )
        ensures
            *final(self) == old(self).updated(feedback),
            *final(egui_texture_package) == (EguiTexturePackage {
                size: feedback.image_space,
                ..*old(egui_texture_package)
            }),
    {
        match feedback.theme {
            Some(theme) => {
                self.theme = theme;
            },
            None => {},
        }
        egui_texture_package.size = feedback.image_space;
    }
}

} // verus!
