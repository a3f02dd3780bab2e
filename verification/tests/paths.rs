use factorio_server::paths::RelPath;

fn path(parts: &[&str]) -> RelPath {
    RelPath { segments: parts.iter().map(|part| part.to_string()).collect() }
}

#[test]
fn join_adds_one_component() {
    assert_eq!(RelPath::new().join("cache").join("mods"), path(&["cache", "mods"]));
    assert_eq!(RelPath::new(), path(&[]));
}

#[test]
fn join_path_adds_all_components() {
    assert_eq!(
        path(&["instances", "a"]).join_path(&path(&["bin", "x64", "factorio"])),
        path(&["instances", "a", "bin", "x64", "factorio"])
    );
    assert_eq!(path(&["a"]).join_path(&path(&[])), path(&["a"]));
}

#[test]
fn parent_and_file_name_take_the_path_apart() {
    let file = path(&["cache", "mods", "x.zip"]);
    assert_eq!(file.parent(), Some(path(&["cache", "mods"])));
    assert_eq!(file.file_name(), Some("x.zip".to_string()));
    assert_eq!(path(&[]).parent(), None);
    assert_eq!(path(&[]).file_name(), None);
    assert_eq!(path(&["a"]).parent(), Some(path(&[])));
}

#[test]
fn is_under_compares_components() {
    let file = path(&["cache", "mods", "x.zip"]);
    assert!(file.is_under(&path(&["cache"])));
    assert!(file.is_under(&path(&["cache", "mods"])));
    assert!(file.is_under(&file.clone()));
    assert!(file.is_under(&path(&[])));
    assert!(!file.is_under(&path(&["cach"])));
    assert!(!file.is_under(&path(&["cache", "mods", "x.zip", "y"])));
    assert!(!path(&["cachemods"]).is_under(&path(&["cache"])));
}

#[test]
fn absolute_puts_the_root_in_front() {
    let file = path(&["cache", "mods"]);
    assert_eq!(file.absolute("/srv/factorio"), "/srv/factorio/cache/mods");
    assert_eq!(file.absolute("/srv/factorio/"), "/srv/factorio/cache/mods");
    assert_eq!(file.absolute("/"), "/cache/mods");
    assert_eq!(file.absolute(""), "cache/mods");
    assert_eq!(file.absolute("."), "./cache/mods");
    assert_eq!(path(&[]).absolute("/srv"), "/srv");
}

#[test]
fn absolute_agrees_with_the_standard_join() {
    for root in ["/srv/factorio", "/srv/factorio/", "/", "", "relative/dir"] {
        let mut expected = std::path::PathBuf::from(root);
        expected.push("cache");
        expected.push("mods");
        assert_eq!(path(&["cache", "mods"]).absolute(root), expected.to_str().unwrap());
    }
}
