use factorio_server::cache::Fetch;
use factorio_server::data::FileOp;
use factorio_server::error::ServerError;
use factorio_server::compose::{ComposeStep, Found};
use factorio_server::instance::InstanceSettings;
use factorio_server::manager::{Kept, Manager, Probes};
use factorio_server::paths::RelPath;
use factorio_server::platform::Platform;
use factorio_server::version::Version;

fn path(parts: &[&str]) -> RelPath {
    RelPath { segments: parts.iter().map(|part| part.to_string()).collect() }
}

fn manager() -> Manager {
    Manager::new("/srv/factorio".to_string(), None)
}

const NOTHING: Found = Found { instance: false, settings_dat: false, settings_json: false };

fn rename(from: &[&str], to: &[&str]) -> FileOp {
    FileOp::Rename { from: path(from), to: path(to) }
}

#[test]
fn manager_test() {
    let mut manager = manager();
    manager.login_with_token("user".to_string(), "token".to_string());
    let mut settings =
        InstanceSettings::new("test3".to_string(), Version::from([1, 1, 110]), Platform::Linux)
            .unwrap();
    settings.add_mod("AutoDeconstruct", Version::from([0, 4, 4]));
    settings.add_mod("RateCalculator", Version::from([3, 2, 7]));
    let preparation = manager
        .prepare_instance("test_1.1.110", settings, Platform::Linux, NOTHING, None, true)
        .unwrap();
    assert_eq!(preparation.fractions, 3);
    assert_eq!(preparation.engine_path, path(&["cache", "factorio", "1.1.110"]));
    assert_eq!(preparation.instance.name, "test_1.1.110");
    assert_eq!(preparation.instance.path, path(&["instances", "test_1.1.110"]));
    assert_eq!(preparation.steps.len(), 11);
    assert_eq!(
        preparation.steps[10],
        ComposeStep::WriteFile {
            path: path(&["instances", "test_1.1.110", "mods", "mod-list.json"]),
            contents: "{\"mods\":[{\"name\":\"base\",\"enabled\":true},{\"name\":\"AutoDeconstruct\",\"enabled\":true},{\"name\":\"RateCalculator\",\"enabled\":true}]}".to_string(),
        }
    );
    assert!(matches!(manager.get_factorio(&Version::from([1, 1, 110]), false), Fetch::Download { .. }));
    assert!(matches!(
        manager.get_mod("AutoDeconstruct", &Version::from([0, 4, 4]), false),
        Ok(Fetch::Download { .. })
    ));
    let mut instance = preparation.instance;
    instance.resolve_rcon_port(40000);
    let command = instance.launch_command("/srv/factorio");
    assert_eq!(command.working_dir, "/srv/factorio/instances/test_1.1.110");
    let mut running = instance.start(Some(1234)).unwrap();
    running.observe_line("   1.000 Info: changing state from(CreatingGame) to(InGame)");
    assert_eq!(running.stop().unwrap().len(), 5);
}

#[test]
fn the_parts_lie_below_the_root() {
    let manager = manager();
    assert_eq!(
        manager.directories(),
        vec![
            path(&[]),
            path(&["instances"]),
            path(&["data"]),
            path(&["data", "saves"]),
            path(&["data", "files"]),
        ]
    );
    assert_eq!(manager.instance_path("a"), path(&["instances", "a"]));
    assert_eq!(manager.pid_file("a"), path(&["instances", "a", "factorio.pid"]));
    assert_eq!(manager.saves_folder("test3"), path(&["data", "saves", "test3"]));
    assert_eq!(manager.load_backup_file("a", "mod-settings.dat"), path(&["data", "files", "a", "mod-settings.dat"]));
    assert_eq!(manager.absolute(&path(&["instances", "a"])), "/srv/factorio/instances/a");
    assert_eq!(manager.cache().factorio_dir(), path(&["cache", "factorio"]));
    assert!(!manager.cache().credentials().has_token());
}

#[test]
fn the_disk_is_looked_at_before_an_instance_is_prepared() {
    let settings =
        InstanceSettings::new("world".to_string(), Version::from([2, 0, 7]), Platform::Linux).unwrap();
    assert_eq!(
        manager().probes("a", &settings),
        Probes {
            instance: path(&["instances", "a"]),
            pid_file: path(&["instances", "a", "factorio.pid"]),
            save: path(&["data", "saves", "world"]),
            settings_dat: path(&["data", "files", "a", "mod-settings.dat"]),
            settings_json: path(&["data", "files", "a", "mod-settings.json"]),
        }
    );
}

#[test]
fn an_instance_is_built_from_the_cache_and_the_saves() {
    let settings =
        InstanceSettings::new("world".to_string(), Version::from([2, 0, 7]), Platform::Linux).unwrap();
    let sources = manager().sources("a", &settings);
    assert_eq!(sources.instance_path, path(&["instances", "a"]));
    assert_eq!(sources.factorio_cache_path, path(&["cache", "factorio", "2.0.7"]));
    assert_eq!(sources.saves_path, path(&["data", "saves", "world"]));
    assert_eq!(sources.mods_dir, path(&["cache", "mods"]));
    assert_eq!(sources.backups, path(&["data", "files", "a"]));
}

#[test]
fn an_instance_that_runs_is_not_prepared() {
    let settings = || {
        InstanceSettings::new("world".to_string(), Version::from([2, 0, 7]), Platform::Linux).unwrap()
    };
    let manager = manager();
    assert!(matches!(
        manager.prepare_instance("a", settings(), Platform::Linux, NOTHING, Some("garbage"), true),
        Err(ServerError::ParseIntError(text)) if text == "garbage"
    ));
    assert!(manager
        .prepare_instance("a", settings(), Platform::Linux, NOTHING, Some("4294967295"), true)
        .is_ok());
}

#[test]
fn a_save_that_is_not_there_is_not_prepared() {
    let settings =
        InstanceSettings::new("world".to_string(), Version::from([2, 0, 7]), Platform::Linux).unwrap();
    assert!(matches!(
        manager().prepare_instance("a", settings, Platform::Linux, NOTHING, None, false),
        Err(ServerError::NotAllowed(text)) if text == "Save folder not found"
    ));
}

#[test]
fn files_are_kept_with_their_generations() {
    let files = vec![
        Kept {
            path: path(&["instances", "a", "factorio-current.log"]),
            exists: true,
            kept_size: Some(10),
            generations: vec![true, true],
        },
        Kept {
            path: path(&["instances", "a", "console.log"]),
            exists: true,
            kept_size: None,
            generations: vec![],
        },
        Kept {
            path: path(&["instances", "a", "mods", "mod-settings.dat"]),
            exists: false,
            kept_size: Some(10),
            generations: vec![true],
        },
        Kept {
            path: path(&["instances", "a", "mods", "mod-settings.json"]),
            exists: true,
            kept_size: Some(0),
            generations: vec![true],
        },
    ];
    let (directory, ops) = manager().backup_files("a", &files);
    assert_eq!(directory, path(&["data", "files", "a"]));
    assert_eq!(
        ops,
        vec![
            rename(
                &["data", "files", "a", "factorio-current.log.1"],
                &["data", "files", "a", "factorio-current.log.2"]
            ),
            rename(
                &["data", "files", "a", "factorio-current.log.0"],
                &["data", "files", "a", "factorio-current.log.1"]
            ),
            rename(
                &["data", "files", "a", "factorio-current.log"],
                &["data", "files", "a", "factorio-current.log.0"]
            ),
            rename(
                &["instances", "a", "factorio-current.log"],
                &["data", "files", "a", "factorio-current.log"]
            ),
            rename(&["instances", "a", "console.log"], &["data", "files", "a", "console.log"]),
            rename(
                &["instances", "a", "mods", "mod-settings.json"],
                &["data", "files", "a", "mod-settings.json"]
            ),
        ]
    );
}

#[test]
fn a_full_shelf_drops_its_oldest_generation() {
    let files = vec![Kept {
        path: path(&["instances", "a", "console.log"]),
        exists: true,
        kept_size: Some(1),
        generations: vec![true; 10],
    }];
    let (_, ops) = manager().backup_files("a", &files);
    assert_eq!(ops.len(), 12);
    assert_eq!(ops[0], FileOp::Remove(path(&["data", "files", "a", "console.log.9"])));
    assert_eq!(
        ops[1],
        rename(&["data", "files", "a", "console.log.8"], &["data", "files", "a", "console.log.9"])
    );
    assert_eq!(
        ops[11],
        rename(&["instances", "a", "console.log"], &["data", "files", "a", "console.log"])
    );
}

#[test]
fn nothing_is_kept_of_nothing() {
    let (directory, ops) = manager().backup_files("a", &vec![]);
    assert_eq!(directory, path(&["data", "files", "a"]));
    assert_eq!(ops, vec![]);
    let (_, ops) = manager().backup_files(
        "a",
        &vec![Kept { path: path(&[]), exists: true, kept_size: None, generations: vec![] }],
    );
    assert_eq!(ops, vec![]);
}
