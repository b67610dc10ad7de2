//! The level scene: it shows the kiwi at every position in the world, and
//! leaves when the menu button is pressed.
use crate::loader::AssetKey;
use crate::vfs_path::path_parts;
use vstd::prelude::*;

verus! {

/// What the scene stack does after an update of the scene on top.
#[derive(Debug, PartialEq, Eq, Structural)]
pub enum SceneSwitch {
    /// The scene stays.
    Stay,
    /// The scene is popped off the stack.
    Pop,
}

/// The level scene, holding the kiwi image `R` and the system dispatcher `D`.
pub struct LevelScene<R, D> {
    done: bool,
    kiwi: R,
    dispatcher: D,
}

/// The file the kiwi image is loaded from.
pub fn kiwi_image_key() -> (r: AssetKey)
    ensures
        r matches AssetKey::Path(p) && p@ == path_parts("/images/kiwi.png"@),
{
    AssetKey::from_path("/images/kiwi.png")
}

impl<R, D> LevelScene<R, D> {
    /// Whether the player has asked to leave the level.
    pub closed spec fn is_done(&self) -> bool {
        self.done
    }

    /// The image drawn at each position.
    pub closed spec fn kiwi_spec(&self) -> R {
        self.kiwi
    }

    /// The dispatcher that runs the systems on each update.
    pub closed spec fn dispatcher_spec(&self) -> D {
        self.dispatcher
    }

    /// A scene that has not been left, with its image and dispatcher.
    pub fn new(kiwi: R, dispatcher: D) -> (r: Self)
        ensures
            !r.is_done(),
            r.kiwi_spec() == kiwi,
            r.dispatcher_spec() == dispatcher,
    {
        LevelScene { done: false, kiwi, dispatcher }
    }

    /// What follows an update: the scene is popped once it is done.
    pub fn update(&self) -> (r: SceneSwitch)
        ensures
            r == (if self.is_done() { SceneSwitch::Pop } else { SceneSwitch::Stay }),
    {
        if self.done {
            SceneSwitch::Pop
        } else {
            SceneSwitch::Stay
        }
    }

    /// Takes an input event: the scene is done once the menu button has been
    /// pressed.
    pub fn input(&mut self, menu_pressed: bool)
        ensures
            final(self).is_done() == (old(self).is_done() || menu_pressed),
            final(self).kiwi_spec() == old(self).kiwi_spec(),
            final(self).dispatcher_spec() == old(self).dispatcher_spec(),
    {
        if menu_pressed {
            self.done = true;
        }
    }

    /// The scene's name.
    pub fn name(&self) -> (r: &'static str)
        ensures
            r@ == "LevelScene"@,
    {
        "LevelScene"
    }

    /// Whether the player has asked to leave the level.
    pub fn done(&self) -> (r: bool)
        ensures
            r == self.is_done(),
    {
        self.done
    }

    /// The image drawn at each position.
    pub fn kiwi(&self) -> (r: &R)
        ensures
            *r == self.kiwi_spec(),
    {
        &self.kiwi
    }

    /// The dispatcher, to run the systems with.
    pub fn dispatcher_mut(&mut self) -> (r: &mut D)
        ensures
            *r == old(self).dispatcher_spec(),
            final(self).dispatcher_spec() == *final(r),
            final(self).kiwi_spec() == old(self).kiwi_spec(),
            final(self).is_done() == old(self).is_done(),
    {
        &mut self.dispatcher
    }
}

} // verus!
