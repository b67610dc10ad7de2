use asset_glue::vfs_path::{warmy_to_ggez_path, AssetPath, PathComponent};

fn names(p: &AssetPath) -> Vec<String> {
    p.components
        .iter()
        .map(|c| match c {
            PathComponent::Prefix(s) => format!("prefix:{}", s),
            PathComponent::RootDir => "/".to_string(),
            PathComponent::CurDir => ".".to_string(),
            PathComponent::ParentDir => "..".to_string(),
            PathComponent::Normal(s) => s.clone(),
        })
        .collect()
}

#[test]
fn parse_splits_absolute_path() {
    let p = AssetPath::parse("/home/player/game/resources/images/kiwi.png");
    assert_eq!(
        names(&p),
        vec!["/", "home", "player", "game", "resources", "images", "kiwi.png"]
    );
}

#[test]
fn parse_drops_repeated_separators_and_inner_dots() {
    let p = AssetPath::parse("/a//b/./c/");
    assert_eq!(names(&p), vec!["/", "a", "b", "c"]);
}

#[test]
fn parse_keeps_leading_dot_and_parent() {
    let p = AssetPath::parse("./a/../b");
    assert_eq!(names(&p), vec![".", "a", "..", "b"]);
}

#[test]
fn parse_empty_text_has_no_components() {
    let p = AssetPath::parse("");
    assert!(p.components.is_empty());
    assert_eq!(p.to_path_string(), "");
}

#[test]
fn to_path_string_renders_components() {
    assert_eq!(AssetPath::parse("/images/kiwi.png").to_path_string(), "/images/kiwi.png");
    assert_eq!(AssetPath::parse("images/kiwi.png").to_path_string(), "images/kiwi.png");
    assert_eq!(AssetPath::parse("/").to_path_string(), "/");
    assert_eq!(AssetPath::parse("./a/../b").to_path_string(), "./a/../b");
}

#[test]
fn starts_with_compares_whole_components() {
    let p = AssetPath::parse("/game/resources/images/kiwi.png");
    assert!(p.starts_with(&AssetPath::parse("/game/resources")));
    assert!(p.starts_with(&AssetPath::parse("/game/resources/")));
    assert!(p.starts_with(&AssetPath::parse("")));
    assert!(p.starts_with(&p));
    assert!(!p.starts_with(&AssetPath::parse("/game/res")));
    assert!(!p.starts_with(&AssetPath::parse("/other")));
    assert!(!p.starts_with(&AssetPath::parse("game/resources")));
    assert!(!AssetPath::parse("/game").starts_with(&p));
}

#[test]
fn strip_prefix_returns_the_rest() {
    let p = AssetPath::parse("/game/resources/images/kiwi.png");
    let rest = p.strip_prefix(&AssetPath::parse("/game/resources")).unwrap();
    assert_eq!(names(&rest), vec!["images", "kiwi.png"]);
    let all = p.strip_prefix(&p).unwrap();
    assert!(all.components.is_empty());
}

#[test]
fn strip_prefix_outside_root_is_none() {
    let p = AssetPath::parse("/game/resources/images/kiwi.png");
    assert!(p.strip_prefix(&AssetPath::parse("/game/assets")).is_none());
    assert!(p.strip_prefix(&AssetPath::parse("/game/resources/images/kiwi.png/x")).is_none());
}

#[test]
fn under_vfs_root_prepends_root_to_relative_path() {
    let rel = AssetPath::parse("images/kiwi.png").under_vfs_root();
    assert_eq!(rel.to_path_string(), "/images/kiwi.png");
    let abs = AssetPath::parse("/sounds/boom.ogg").under_vfs_root();
    assert_eq!(abs.to_path_string(), "/sounds/boom.ogg");
    let empty = AssetPath::parse("").under_vfs_root();
    assert_eq!(empty.to_path_string(), "/");
}

#[test]
fn warmy_path_becomes_vfs_path() {
    let path = AssetPath::parse("/home/player/game/resources/images/kiwi.png");
    let root = AssetPath::parse("/home/player/game/resources");
    let r = warmy_to_ggez_path(&path, &root);
    assert_eq!(r.to_path_string(), "/images/kiwi.png");
    assert_eq!(names(&r), vec!["/", "images", "kiwi.png"]);
}

#[test]
fn warmy_path_equal_to_root_becomes_vfs_root() {
    let root = AssetPath::parse("/home/player/game/resources");
    let r = warmy_to_ggez_path(&root, &root);
    assert_eq!(r.to_path_string(), "/");
}

#[test]
fn warmy_path_with_empty_root_keeps_absolute_path() {
    let path = AssetPath::parse("/fonts/DejaVuSerif.ttf");
    let r = warmy_to_ggez_path(&path, &AssetPath::parse(""));
    assert_eq!(r.to_path_string(), "/fonts/DejaVuSerif.ttf");
}

#[test]
fn root_and_vfs_path_rebuild_the_path() {
    let path = AssetPath::parse("/srv/assets/levels/one/map.toml");
    let root = AssetPath::parse("/srv/assets");
    let vfs = warmy_to_ggez_path(&path, &root);
    let mut rebuilt = names(&root);
    rebuilt.extend(names(&vfs).into_iter().skip(1));
    assert_eq!(rebuilt, names(&path));
}

#[test]
fn duplicate_and_same_as_agree() {
    let a = PathComponent::Normal("kiwi.png".to_string());
    let b = a.duplicate();
    assert!(a.same_as(&b));
    assert!(!a.same_as(&PathComponent::Normal("kiwi.jpg".to_string())));
    assert!(!PathComponent::RootDir.same_as(&PathComponent::CurDir));
    assert!(PathComponent::RootDir.replaces_base());
    assert!(!PathComponent::ParentDir.replaces_base());
}

#[test]
fn suffix_from_takes_the_tail() {
    let p = AssetPath::parse("/a/b/c");
    assert_eq!(names(&p.suffix_from(2)), vec!["b", "c"]);
    assert!(p.suffix_from(4).components.is_empty());
}
