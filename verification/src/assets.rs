//! Images, and the handles by which entities hold them.

use vstd::prelude::*;

verus! {

/// An image file that the game draws with.
#[derive(Clone, Copy, Debug, PartialEq, Eq, Structural)]
pub enum ImageAsset {
    /// The bird that stands for the player.
    BevyBirdDark,
}

/// The path of an image, relative to the directory that the engine loads
/// assets from.
pub open spec fn image_path(asset: ImageAsset) -> Seq<char> {
    match asset {
        ImageAsset::BevyBirdDark => "bevy_bird_dark.png"@,
    }
}

impl ImageAsset {
    /// The path to hand to the engine's asset loader.
    pub fn path(self) -> (path: &'static str)
        ensures
            path@ == image_path(self),
    {
        match self {
            ImageAsset::BevyBirdDark => "bevy_bird_dark.png",
        }
    }
}

/// What an entity holds in place of an image.
#[derive(Clone, Copy, Debug, PartialEq, Eq, Structural)]
pub enum ImageHandle {
    /// The handle that an entity has when nothing was loaded for it. It keeps
    /// no image alive.
    Placeholder,
    /// A handle obtained by asking for `asset` to be loaded. It keeps the image
    /// alive, whether or not loading has finished.
    Strong(ImageAsset),
}

impl ImageHandle {
    /// Whether this handle came from a load.
    pub open spec fn spec_is_strong(self) -> bool {
        self is Strong
    }

    /// Whether this handle came from a load.
    #[verifier::when_used_as_spec(spec_is_strong)]
    pub fn is_strong(self) -> (strong: bool)
        ensures
            strong == self.spec_is_strong(),
    {
        match self {
            ImageHandle::Placeholder => false,
            ImageHandle::Strong(_) => true,
        }
    }
}

/// The asset-loading facility that a startup routine is handed.
#[derive(Clone, Copy, Debug)]
pub struct AssetServer;

impl AssetServer {
    /// Asks for `asset` to be loaded. The handle comes back at once.
    pub fn load(&self, asset: ImageAsset) -> (handle: ImageHandle)
        ensures
            handle == ImageHandle::Strong(asset),
    {
        ImageHandle::Strong(asset)
    }
}

} // verus!
