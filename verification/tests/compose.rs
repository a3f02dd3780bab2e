use factorio_server::error::ServerError;
use factorio_server::compose::{ComposeStep, Found, Sources};
use factorio_server::instance::{Instance, InstanceSettings};
use factorio_server::paths::RelPath;
use factorio_server::platform::Platform;
use factorio_server::version::Version;

fn path(parts: &[&str]) -> RelPath {
    RelPath { segments: parts.iter().map(|part| part.to_string()).collect() }
}

fn sources() -> Sources {
    Sources {
        instance_path: path(&["instances", "test_1.1.110"]),
        factorio_cache_path: path(&["cache", "factorio", "1.1.110"]),
        saves_path: path(&["data", "saves", "test3"]),
        mods_dir: path(&["cache", "mods"]),
        backups: path(&["data", "files", "test_1.1.110"]),
    }
}

fn settings() -> InstanceSettings {
    let mut settings =
        InstanceSettings::new("test3".to_string(), Version::from([1, 1, 110]), Platform::Linux)
            .unwrap();
    settings.add_mod("AutoDeconstruct", Version::from([0, 4, 4]));
    settings.add_mod("RateCalculator", Version::from([3, 2, 7]));
    settings
}

const NOTHING: Found = Found { instance: false, settings_dat: false, settings_json: false };

fn link_file(source: &[&str], link: &[&str]) -> ComposeStep {
    ComposeStep::LinkFile { source: path(source), link: path(link) }
}

fn link_dir(source: &[&str], link: &[&str]) -> ComposeStep {
    ComposeStep::LinkDir { source: path(source), link: path(link) }
}

fn first_steps() -> Vec<ComposeStep> {
    vec![
        ComposeStep::CreateDirs(path(&["instances", "test_1.1.110", "bin", "x64"])),
        link_file(
            &["cache", "factorio", "1.1.110", "bin", "x64", "factorio"],
            &["instances", "test_1.1.110", "bin", "x64", "factorio"],
        ),
        link_file(
            &["cache", "factorio", "1.1.110", "config-path.cfg"],
            &["instances", "test_1.1.110", "config-path.cfg"],
        ),
        link_dir(&["cache", "factorio", "1.1.110", "data"], &["instances", "test_1.1.110", "data"]),
        link_dir(&["data", "saves", "test3"], &["instances", "test_1.1.110", "saves"]),
        ComposeStep::CreateDirs(path(&["instances", "test_1.1.110", "mods"])),
        ComposeStep::FetchMod {
            name: "AutoDeconstruct".to_string(),
            version: Version::from([0, 4, 4]),
            fractions: 2,
        },
        link_file(
            &["cache", "mods", "AutoDeconstruct", "0.4.4", "AutoDeconstruct_0.4.4.zip"],
            &["instances", "test_1.1.110", "mods", "AutoDeconstruct_0.4.4.zip"],
        ),
        ComposeStep::FetchMod {
            name: "RateCalculator".to_string(),
            version: Version::from([3, 2, 7]),
            fractions: 2,
        },
        link_file(
            &["cache", "mods", "RateCalculator", "3.2.7", "RateCalculator_3.2.7.zip"],
            &["instances", "test_1.1.110", "mods", "RateCalculator_3.2.7.zip"],
        ),
        ComposeStep::WriteFile {
            path: path(&["instances", "test_1.1.110", "mods", "mod-list.json"]),
            contents: "LIST".to_string(),
        },
    ]
}

#[test]
fn a_first_composition_builds_the_directory() {
    let steps =
        Instance::compose_steps(&settings(), Platform::Linux, &sources(), NOTHING, "LIST".to_string())
            .unwrap();
    assert_eq!(steps, first_steps());
}

#[test]
fn a_later_composition_clears_the_directory_first() {
    let found = Found { instance: true, ..NOTHING };
    let steps =
        Instance::compose_steps(&settings(), Platform::Linux, &sources(), found, "LIST".to_string())
            .unwrap();
    let mut expected = vec![ComposeStep::RemoveTree(path(&["instances", "test_1.1.110"]))];
    expected.extend(first_steps());
    assert_eq!(steps, expected);
}

#[test]
fn the_binary_settings_are_restored_before_the_json_ones() {
    let copy = |name: &str| ComposeStep::CopyFile {
        source: path(&["data", "files", "test_1.1.110", name]),
        target: path(&["instances", "test_1.1.110", "mods", name]),
    };
    let cases = [
        (true, true, Some("mod-settings.dat")),
        (true, false, Some("mod-settings.dat")),
        (false, true, Some("mod-settings.json")),
        (false, false, None),
    ];
    for (settings_dat, settings_json, restored) in cases {
        let found = Found { instance: false, settings_dat, settings_json };
        let steps = Instance::compose_steps(
            &settings(),
            Platform::Linux,
            &sources(),
            found,
            "LIST".to_string(),
        )
        .unwrap();
        let mut expected = first_steps();
        if let Some(name) = restored {
            expected.push(copy(name));
        }
        assert_eq!(steps, expected);
    }
}

#[test]
fn the_windows_executable_is_linked_from_the_build() {
    let settings =
        InstanceSettings::new("s".to_string(), Version::from([2, 0, 0]), Platform::Windows).unwrap();
    let steps =
        Instance::compose_steps(&settings, Platform::Windows, &sources(), NOTHING, String::new())
            .unwrap();
    assert_eq!(
        steps[1],
        link_file(
            &["cache", "factorio", "1.1.110", "bin", "x64", "factorio.exe"],
            &["instances", "test_1.1.110", "bin", "x64", "factorio.exe"],
        )
    );
    assert_eq!(steps.len(), 7);
}

#[test]
fn an_executable_without_a_directory_is_refused() {
    let mut settings = settings();
    settings.executable_path = path(&[]);
    let mut sources = sources();
    sources.instance_path = path(&[]);
    assert_eq!(
        Instance::compose_steps(&settings, Platform::Linux, &sources, NOTHING, String::new()),
        Err(ServerError::NotAllowed("Configured executable path has no parent".to_string()))
    );
}

#[test]
fn prepare_writes_the_mod_list_of_the_settings() {
    let (instance, steps) =
        Instance::prepare("test_1.1.110", settings(), Platform::Linux, &sources(), NOTHING).unwrap();
    assert_eq!(instance.name, "test_1.1.110");
    assert_eq!(instance.path, path(&["instances", "test_1.1.110"]));
    assert_eq!(instance.settings.mods.len(), 2);
    let mut expected = first_steps();
    expected[10] = ComposeStep::WriteFile {
        path: path(&["instances", "test_1.1.110", "mods", "mod-list.json"]),
        contents: "{\"mods\":[{\"name\":\"base\",\"enabled\":true},{\"name\":\"AutoDeconstruct\",\"enabled\":true},{\"name\":\"RateCalculator\",\"enabled\":true}]}".to_string(),
    };
    assert_eq!(steps, expected);
}

#[test]
fn composing_twice_gives_the_same_steps() {
    let once = Instance::prepare("a", settings(), Platform::Linux, &sources(), NOTHING).unwrap();
    let twice = Instance::prepare("a", settings(), Platform::Linux, &sources(), NOTHING).unwrap();
    assert_eq!(once.1, twice.1);
}

#[test]
fn every_link_leads_into_the_cache_or_to_a_save() {
    let found = Found { instance: true, settings_dat: true, settings_json: true };
    let (_, steps) =
        Instance::prepare("test_1.1.110", settings(), Platform::Linux, &sources(), found).unwrap();
    let mut links = 0;
    for step in &steps {
        let (source, link) = match step {
            ComposeStep::LinkFile { source, link } => (source, link),
            ComposeStep::LinkDir { source, link } => (source, link),
            _ => continue,
        };
        links += 1;
        assert!(source.is_under(&path(&["cache"])) || source.is_under(&path(&["data", "saves"])));
        assert!(link.is_under(&path(&["instances", "test_1.1.110"])));
        for segment in source.segments.iter().chain(link.segments.iter()) {
            assert!(!segment.is_empty() && segment != "." && segment != "..");
            assert!(!segment.contains('/') && !segment.contains('\\'));
        }
    }
    assert_eq!(links, 6);
}

#[test]
fn no_pidfile_means_not_running() {
    assert_eq!(Instance::check_running(None), Ok(()));
}

#[test]
fn a_pidfile_that_holds_no_pid_is_an_error() {
    for text in ["", "abc", "12 ", "-1", "4294967296", "12\n"] {
        assert_eq!(
            Instance::check_running(Some(text)),
            Err(ServerError::ParseIntError(text.to_string())),
        );
    }
}

#[test]
fn a_stale_pidfile_means_not_running() {
    assert_eq!(Instance::check_running(Some("4294967295")), Ok(()));
}

#[test]
fn a_pidfile_of_a_live_process_forbids_a_new_run() {
    assert_eq!(Instance::check_running(Some("1")), Err(ServerError::AlreadyRunningError));
}

#[test]
fn a_live_process_forbids_a_new_run() {
    assert_eq!(Instance::running_verdict(true), Err(ServerError::AlreadyRunningError));
    assert_eq!(Instance::running_verdict(false), Ok(()));
}
