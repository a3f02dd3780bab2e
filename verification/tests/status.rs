use factorio_server::error::ServerError;
use factorio_server::instance::{
    status_name, Instance, InstanceSettings, RconRequest, RunningInstance, ShutdownStep, Status,
    BACKUP_GENERATIONS, CLOSED_MARK, GRACE_SECONDS, IN_GAME_MARK, LOG_CHANNEL_CAPACITY,
    PROCESS_STOPPED_LINE, QUIT_COMMAND,
};
use factorio_server::paths::RelPath;
use factorio_server::platform::Platform;
use factorio_server::version::Version;

fn path(parts: &[&str]) -> RelPath {
    RelPath { segments: parts.iter().map(|part| part.to_string()).collect() }
}

fn running(status: Status) -> RunningInstance {
    let mut settings =
        InstanceSettings::new("test3".to_string(), Version::from([1, 1, 110]), Platform::Linux)
            .unwrap();
    settings.rcon_pass("secret".to_string()).rcon_port(40123);
    let instance = Instance { settings, path: path(&["instances", "a"]), name: "a".to_string() };
    let mut running = instance.start(Some(77)).unwrap();
    running.status = status;
    running
}

fn kept_files() -> Vec<RelPath> {
    vec![
        path(&["instances", "a", "factorio-current.log"]),
        path(&["instances", "a", "console.log"]),
        path(&["instances", "a", "mods", "mod-settings.dat"]),
        path(&["instances", "a", "mods", "mod-settings.json"]),
    ]
}

fn stop_steps() -> Vec<ShutdownStep> {
    vec![
        ShutdownStep::Command(RconRequest {
            address: "127.0.0.1:40123".to_string(),
            password: "secret".to_string(),
            command: "/quit".to_string(),
        }),
        ShutdownStep::AwaitStatus(Status::Closed),
        ShutdownStep::AwaitExit { seconds: 3 },
        ShutdownStep::KillUnlessExited,
        ShutdownStep::Cleanup(kept_files()),
    ]
}

const ALL: [Status; 5] =
    [Status::Stopped, Status::Starting, Status::Running, Status::Stopping, Status::Closed];

#[test]
fn the_marks_are_the_engines_words() {
    assert_eq!(PROCESS_STOPPED_LINE, "factorio process stopped");
    assert_eq!(IN_GAME_MARK, "changing state from(CreatingGame) to(InGame)");
    assert_eq!(CLOSED_MARK, "changing state from(Disconnected) to(Closed)");
    assert_eq!(QUIT_COMMAND, "/quit");
    assert_eq!(GRACE_SECONDS, 3);
    assert_eq!(BACKUP_GENERATIONS, 9);
    assert_eq!(LOG_CHANNEL_CAPACITY, 32);
}

#[test]
fn a_line_that_enters_the_game_means_running() {
    for status in ALL {
        let mut instance = running(status);
        let done = instance
            .observe_line("  12.345 Info AppManager.cpp:306: changing state from(CreatingGame) to(InGame)");
        assert!(!done);
        assert_eq!(instance.status, Status::Running);
    }
}

#[test]
fn a_line_that_closes_means_closed() {
    for status in ALL {
        let mut instance = running(status);
        let done = instance.observe_line("  99.1 Info: changing state from(Disconnected) to(Closed)");
        assert!(!done);
        assert_eq!(instance.status, Status::Closed);
    }
}

#[test]
fn the_farewell_means_stopped_and_ends_the_reading() {
    for status in ALL {
        let mut instance = running(status);
        assert!(instance.observe_line("factorio process stopped"));
        assert_eq!(instance.status, Status::Stopped);
    }
}

#[test]
fn other_lines_change_nothing() {
    let lines = [
        "",
        "changing state from(CreatingGame) to(InGame) ",
        "changing state from(InGame) to(Disconnected)",
        "factorio process stopped ",
        " factorio process stopped",
        "Factorio initialised",
    ];
    for status in ALL {
        for line in lines {
            let mut instance = running(status);
            assert!(!instance.observe_line(line));
            assert_eq!(instance.status, status, "{line}");
        }
    }
}

#[test]
fn a_lifecycle_runs_through_the_statuses() {
    let mut instance = running(Status::Stopped);
    assert!(!instance.observe_line("   0.000 Factorio 1.1.110 (build 62357, linux64, headless)"));
    assert_eq!(instance.status, Status::Stopped);
    assert!(!instance.observe_line("   1.000 Info: changing state from(CreatingGame) to(InGame)"));
    assert_eq!(instance.status, Status::Running);
    let steps = instance.stop().unwrap();
    assert_eq!(steps, stop_steps());
    assert_eq!(instance.status, Status::Stopping);
    assert!(!instance.status.has_closed());
    assert!(!instance.observe_line("   5.000 Info: changing state from(Disconnected) to(Closed)"));
    assert_eq!(instance.status, Status::Closed);
    assert!(instance.status.has_closed());
    assert!(!RunningInstance::must_kill_after_grace(true));
    assert!(instance.observe_line("factorio process stopped"));
    assert_eq!(instance.status, Status::Stopped);
    assert_eq!(instance.cleanup(), kept_files());
}

#[test]
fn an_engine_that_has_exited_is_not_killed() {
    assert!(!RunningInstance::must_kill_after_grace(true));
    assert!(RunningInstance::must_kill_after_grace(false));
}

#[test]
fn statuses_are_named_as_they_are_written() {
    let names = ["Stopped", "Starting", "Running", "Stopping", "Closed"];
    for (status, name) in ALL.iter().zip(names) {
        assert_eq!(status_name(*status), name);
        assert_eq!(format!("{:?}", status), name);
    }
}

#[test]
fn check_status_names_both_statuses() {
    assert_eq!(running(Status::Running).check_status(Status::Running), Ok(()));
    assert_eq!(
        running(Status::Stopped).check_status(Status::Running),
        Err(ServerError::NotAllowed("Status not as expected Stopped != Running".to_string()))
    );
    assert_eq!(
        running(Status::Closed).check_status(Status::Stopping),
        Err(ServerError::NotAllowed("Status not as expected Closed != Stopping".to_string()))
    );
}

#[test]
fn check_and_set_moves_only_from_the_expected_status() {
    let mut instance = running(Status::Running);
    assert_eq!(instance.check_and_set_status(Status::Running, Status::Stopping), Ok(()));
    assert_eq!(instance.status, Status::Stopping);
    assert_eq!(
        instance.check_and_set_status(Status::Running, Status::Stopping),
        Err(ServerError::NotAllowed(
            "Status (with set) not as expected Stopping != Running".to_string()
        ))
    );
    assert_eq!(instance.status, Status::Stopping);
}

#[test]
fn kill_is_allowed_only_while_running() {
    for status in ALL {
        let mut instance = running(status);
        let result = instance.kill();
        if status == Status::Running {
            assert_eq!(result, Ok(vec![ShutdownStep::Kill, ShutdownStep::Cleanup(kept_files())]));
            assert_eq!(instance.status, Status::Stopping);
        } else {
            assert!(matches!(result, Err(ServerError::NotAllowed(_))));
            assert_eq!(instance.status, status);
        }
    }
}

#[test]
fn stop_is_allowed_only_while_running() {
    for status in ALL {
        let mut instance = running(status);
        let result = instance.stop();
        if status == Status::Running {
            assert_eq!(result, Ok(stop_steps()));
            assert_eq!(instance.status, Status::Stopping);
        } else {
            assert!(matches!(result, Err(ServerError::NotAllowed(_))));
            assert_eq!(instance.status, status);
        }
    }
}

#[test]
fn commands_are_allowed_only_while_running() {
    for status in ALL {
        let instance = running(status);
        let result = instance.send_command("/players");
        if status == Status::Running {
            assert_eq!(
                result,
                Ok(RconRequest {
                    address: "127.0.0.1:40123".to_string(),
                    password: "secret".to_string(),
                    command: "/players".to_string(),
                })
            );
        } else {
            assert_eq!(
                result,
                Err(ServerError::NotAllowed(format!(
                    "Status not as expected {:?} != Running",
                    status
                )))
            );
        }
    }
}
