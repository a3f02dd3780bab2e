use factorio_server::data::{Data, FileOp};
use factorio_server::error::ServerError;
use factorio_server::paths::RelPath;
use std::collections::BTreeMap;

fn path(parts: &[&str]) -> RelPath {
    RelPath { segments: parts.iter().map(|part| part.to_string()).collect() }
}

fn data() -> Data {
    Data::new(path(&["data"]))
}

fn remove(parts: &[&str]) -> FileOp {
    FileOp::Remove(path(parts))
}

fn rename(from: &[&str], to: &[&str]) -> FileOp {
    FileOp::Rename { from: path(from), to: path(to) }
}

fn apply(files: &mut BTreeMap<RelPath2, String>, ops: &[FileOp]) {
    for op in ops {
        match op {
            FileOp::Remove(file) => {
                assert!(files.remove(&file.segments).is_some(), "removes a file that is there");
            }
            FileOp::Rename { from, to } => {
                let contents = files.remove(&from.segments).expect("renames a file that is there");
                files.insert(to.segments.clone(), contents);
            }
        }
    }
}

type RelPath2 = Vec<String>;

fn generation(number: usize) -> RelPath2 {
    vec!["data".to_string(), "files".to_string(), "a".to_string(), format!("console.log.{number}")]
}

fn current() -> RelPath2 {
    vec!["data".to_string(), "files".to_string(), "a".to_string(), "console.log".to_string()]
}

#[test]
fn the_directories_lie_below_the_root() {
    assert_eq!(
        data().directories(),
        vec![path(&["data"]), path(&["data", "saves"]), path(&["data", "files"])]
    );
    assert_eq!(data().saves_folder("test3"), path(&["data", "saves", "test3"]));
    assert_eq!(data().instance_files("a"), path(&["data", "files", "a"]));
    assert_eq!(data().get_file("a", "console.log"), path(&["data", "files", "a", "console.log"]));
}

#[test]
fn a_save_that_is_not_there_is_refused() {
    assert_eq!(data().get_saves_folder("test3", true), Ok(path(&["data", "saves", "test3"])));
    assert_eq!(
        data().get_saves_folder("test3", false),
        Err(ServerError::NotAllowed("Save folder not found".to_string()))
    );
}

#[test]
fn a_generation_is_named_by_its_number() {
    let file = path(&["data", "files", "a", "console.log"]);
    assert_eq!(Data::file_add_number(&file, 0), path(&["data", "files", "a", "console.log.0"]));
    assert_eq!(Data::file_add_number(&file, 9), path(&["data", "files", "a", "console.log.9"]));
    assert_eq!(Data::file_add_number(&file, 255), path(&["data", "files", "a", "console.log.255"]));
    assert_eq!(Data::file_add_number(&path(&[]), 3), path(&[".3"]));
}

#[test]
fn rotation_moves_every_generation_up() {
    let file = path(&["f"]);
    assert_eq!(
        Data::rotate_file(&file, &vec![true, true, true], 0, 2),
        vec![remove(&["f.2"]), rename(&["f.1"], &["f.2"]), rename(&["f.0"], &["f.1"])]
    );
}

#[test]
fn rotation_passes_over_what_is_not_there() {
    let file = path(&["f"]);
    assert_eq!(Data::rotate_file(&file, &vec![false, false, false], 0, 2), vec![]);
    assert_eq!(
        Data::rotate_file(&file, &vec![true, false, true, false], 0, 3),
        vec![rename(&["f.2"], &["f.3"]), rename(&["f.0"], &["f.1"])]
    );
    assert_eq!(Data::rotate_file(&file, &vec![true], 0, 3), vec![rename(&["f.0"], &["f.1"])]);
    assert_eq!(Data::rotate_file(&file, &vec![], 0, 3), vec![]);
}

#[test]
fn rotation_of_a_part_leaves_the_rest() {
    let file = path(&["f"]);
    assert_eq!(
        Data::rotate_file(&file, &vec![true, true, true, true], 1, 2),
        vec![remove(&["f.2"]), rename(&["f.1"], &["f.2"])]
    );
    assert_eq!(Data::rotate_file(&file, &vec![true], 0, 0), vec![remove(&["f.0"])]);
    assert_eq!(Data::rotate_file(&file, &vec![true, true], 2, 1), vec![remove(&["f.1"])]);
}

#[test]
fn a_file_that_is_empty_or_missing_is_not_rotated() {
    let place = path(&["data", "files", "a", "console.log"]);
    for size in [None, Some(0)] {
        let (file, ops) = data().get_and_rotate_file("a", "console.log", 9, size, &vec![true; 10]);
        assert_eq!(file, place);
        assert_eq!(ops, vec![]);
    }
}

#[test]
fn a_file_that_holds_something_becomes_generation_zero() {
    let (file, ops) = data().get_and_rotate_file("a", "console.log", 9, Some(1), &vec![]);
    assert_eq!(file, path(&["data", "files", "a", "console.log"]));
    assert_eq!(
        ops,
        vec![rename(&["data", "files", "a", "console.log"], &["data", "files", "a", "console.log.0"])]
    );
}

#[test]
fn rotation_keeps_the_contents_in_order() {
    for amount in [0u8, 1, 2, 9] {
        for filled in 0..=(amount as usize + 1) {
            let mut files: BTreeMap<RelPath2, String> = BTreeMap::new();
            files.insert(current(), "now".to_string());
            let mut present = Vec::new();
            for number in 0..=(amount as usize) {
                present.push(number < filled);
                if number < filled {
                    files.insert(generation(number), format!("was {number}"));
                }
            }
            let (file, ops) = data().get_and_rotate_file("a", "console.log", amount, Some(3), &present);
            apply(&mut files, &ops);
            assert!(!files.contains_key(&file.segments));
            assert_eq!(files.get(&generation(0)), Some(&"now".to_string()));
            for number in 1..=(amount as usize) {
                let expected = if number - 1 < filled { Some(format!("was {}", number - 1)) } else { None };
                assert_eq!(files.get(&generation(number)), expected.as_ref());
            }
            assert!(!files.contains_key(&generation(amount as usize + 1)));
            assert_eq!(files.len(), (filled + 1).min(amount as usize + 1));
        }
    }
}

#[test]
fn rotation_with_gaps_moves_each_file_up_by_one() {
    let mut files: BTreeMap<RelPath2, String> = BTreeMap::new();
    files.insert(current(), "now".to_string());
    files.insert(generation(0), "was 0".to_string());
    files.insert(generation(2), "was 2".to_string());
    files.insert(generation(3), "was 3".to_string());
    let present = vec![true, false, true, true];
    let (_, ops) = data().get_and_rotate_file("a", "console.log", 3, Some(3), &present);
    apply(&mut files, &ops);
    assert_eq!(files.get(&generation(0)), Some(&"now".to_string()));
    assert_eq!(files.get(&generation(1)), Some(&"was 0".to_string()));
    assert_eq!(files.get(&generation(2)), None);
    assert_eq!(files.get(&generation(3)), Some(&"was 2".to_string()));
    assert_eq!(files.len(), 3);
}
