use asset_glue::level::{kiwi_image_key, LevelScene, SceneSwitch};
use asset_glue::loader::AssetKey;

#[test]
fn new_scene_stays_on_update() {
    let scene = LevelScene::new("kiwi", 7u32);
    assert!(!scene.done());
    assert_eq!(scene.update(), SceneSwitch::Stay);
    assert_eq!(*scene.kiwi(), "kiwi");
}

#[test]
fn menu_press_pops_the_scene() {
    let mut scene = LevelScene::new((), 0u32);
    scene.input(false);
    assert_eq!(scene.update(), SceneSwitch::Stay);
    scene.input(true);
    assert!(scene.done());
    assert_eq!(scene.update(), SceneSwitch::Pop);
    scene.input(false);
    assert_eq!(scene.update(), SceneSwitch::Pop);
}

#[test]
fn dispatcher_can_be_changed() {
    let mut scene = LevelScene::new((), 1u32);
    *scene.dispatcher_mut() += 1;
    assert_eq!(*scene.dispatcher_mut(), 2);
    assert!(!scene.done());
}

#[test]
fn scene_name() {
    let scene = LevelScene::new((), ());
    assert_eq!(scene.name(), "LevelScene");
}

#[test]
fn kiwi_key_names_the_image_file() {
    match kiwi_image_key() {
        AssetKey::Path(p) => assert_eq!(p.to_path_string(), "/images/kiwi.png"),
        AssetKey::Logical(_) => panic!("expected a path key"),
    }
}
