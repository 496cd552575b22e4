use player_app::assets::{AssetServer, ImageAsset, ImageHandle};

#[test]
fn the_bird_has_its_path() {
    assert_eq!(ImageAsset::BevyBirdDark.path(), "bevy_bird_dark.png");
}

#[test]
fn a_loaded_handle_is_strong_and_names_its_image() {
    let handle = AssetServer.load(ImageAsset::BevyBirdDark);
    assert_eq!(handle, ImageHandle::Strong(ImageAsset::BevyBirdDark));
    assert!(handle.is_strong());
}

#[test]
fn the_placeholder_is_not_strong() {
    assert!(!ImageHandle::Placeholder.is_strong());
    assert_ne!(ImageHandle::Placeholder, ImageHandle::Strong(ImageAsset::BevyBirdDark));
}
