//! What the asset loaders hand to the engine for each key the asset store
//! asks them to load.
use crate::vfs_path::{is_prefix_of, path_parts, vfs_path_of, warmy_to_ggez_path, AssetPath};
use vstd::prelude::*;

verus! {

/// The point size every font is loaded at.
pub const FONT_POINT_SIZE: u32 = 12;

/// A key of the asset store: a path on disk, or a logical name.
#[derive(Debug)]
pub enum AssetKey {
    Path(AssetPath),
    Logical(String),
}

/// An asset that loads from any key and holds nothing.
#[derive(Debug, Copy, Clone)]
pub struct TestAsset;

/// What a font is loaded from: the file, and the point size.
#[derive(Debug)]
pub struct FontRequest {
    pub path: AssetPath,
    pub point_size: u32,
}

impl AssetKey {
    /// The key of the file written as `text`.
    pub fn from_path(text: &str) -> (r: AssetKey)
        ensures
            r matches AssetKey::Path(p) && p@ == path_parts(text@),
    {
        AssetKey::Path(AssetPath::parse(text))
    }

    /// The path of a path key.
    pub fn into_path(self) -> (r: AssetPath)
        requires
            self is Path,
        ensures
            self matches AssetKey::Path(p) && r@ == p@,
    {
        match self {
            AssetKey::Path(p) => p,
            AssetKey::Logical(_) => {
                proof {
                    assert(false);
                }
                AssetPath { components: Vec::new() }
            },
        }
    }
}

impl TestAsset {
    /// Loads the test asset, which succeeds for every key.
    pub fn load(_key: AssetKey) -> TestAsset {
        TestAsset
    }
}

/// The path of the virtual filesystem that an image stored under the asset
/// store's root `store_root` is read from.
pub fn image_load_path(key: AssetKey, store_root: &AssetPath) -> (r: AssetPath)
    requires
        key matches AssetKey::Path(p) && is_prefix_of(store_root@, p@),
    ensures
        key matches AssetKey::Path(p) && r@ == vfs_path_of(p@, store_root@),
{
    let path = key.into_path();
    warmy_to_ggez_path(&path, store_root)
}

/// The path a sound is read from: the key's own path.
pub fn sound_load_path(key: AssetKey) -> (r: AssetPath)
    requires
        key is Path,
    ensures
        key matches AssetKey::Path(p) && r@ == p@,
{
    key.into_path()
}

/// What a font is loaded from: the key's own path, at the fixed point size.
pub fn font_load_request(key: AssetKey) -> (r: FontRequest)
    requires
        key is Path,
    ensures
        key matches AssetKey::Path(p) && r.path@ == p@,
        r.point_size == FONT_POINT_SIZE,
{
    FontRequest { path: key.into_path(), point_size: FONT_POINT_SIZE }
}

} // verus!
