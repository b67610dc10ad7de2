//! Asset-path translation, asset loading requests and level-scene decisions
//! for a small 2D game.
pub mod level;
pub mod loader;
pub mod vfs_path;
